use vstd::prelude::*;

verus! {

/// Concrete syntax is carried as `proc_macro2::TokenStream`: an opaque,
/// cheaply clonable snippet of tokens owned independently at every level
/// of a traversal. The engine never looks inside one; it only hands them
/// to the grammar capability and splices the answers back together.
#[verifier::external_type_specification]
#[verifier::external_body]
pub struct ExTokenStream(proc_macro2::TokenStream);

/// The content of a snippet: its top-level token trees, in order, each
/// abstracted to one identifying value. Equal snippets hold equal trees,
/// and the trees determine the program text the snippet renders.
pub uninterp spec fn ts_trees(t: proc_macro2::TokenStream) -> Seq<int>;

/// Relies on `proc_macro2::TokenStream::clone`: the clone holds the same
/// tokens as the original, and later growth of either copies the shared
/// buffer first, so the two values are independent.
pub assume_specification[ <proc_macro2::TokenStream as Clone>::clone ](
    t: &proc_macro2::TokenStream,
) -> (r: proc_macro2::TokenStream)
    ensures
        r == *t,
;

/// Relies on `proc_macro2::TokenStream::new` for an empty snippet: it
/// holds no token trees.
#[verifier::external_body]
pub(crate) fn ts_empty() -> (r: proc_macro2::TokenStream)
    ensures
        ts_trees(r) == Seq::<int>::empty(),
{
    proc_macro2::TokenStream::new()
}

/// Relies on `proc_macro2::TokenStream`'s `Extend` impl: appends the
/// token trees of `tail` after those already in `out`, leaving both
/// runs unchanged.
#[verifier::external_body]
pub(crate) fn ts_append(out: &mut proc_macro2::TokenStream, tail: proc_macro2::TokenStream)
    ensures
        ts_trees(*final(out)) == ts_trees(*old(out)) + ts_trees(tail),
{
    out.extend(core::iter::once(tail));
}

/// Relies on `proc_macro2::Group::new`: wraps the snippet in braces,
/// one group tree.
#[verifier::external_body]
pub(crate) fn ts_braced(inner: proc_macro2::TokenStream) -> (r: proc_macro2::TokenStream)
    ensures
        ts_trees(r).len() == 1,
{
    let g = proc_macro2::Group::new(proc_macro2::Delimiter::Brace, inner);
    proc_macro2::TokenStream::from(proc_macro2::TokenTree::Group(g))
}

/// Relies on `proc_macro2::Group::new`: wraps the snippet in
/// parentheses, one group tree.
#[verifier::external_body]
pub(crate) fn ts_parenthesized(inner: proc_macro2::TokenStream) -> (r: proc_macro2::TokenStream)
    ensures
        ts_trees(r).len() == 1,
{
    let g = proc_macro2::Group::new(proc_macro2::Delimiter::Parenthesis, inner);
    proc_macro2::TokenStream::from(proc_macro2::TokenTree::Group(g))
}

/// Relies on `proc_macro2::Group::new`: wraps the snippet in brackets,
/// one group tree.
#[verifier::external_body]
pub(crate) fn ts_bracketed(inner: proc_macro2::TokenStream) -> (r: proc_macro2::TokenStream)
    ensures
        ts_trees(r).len() == 1,
{
    let g = proc_macro2::Group::new(proc_macro2::Delimiter::Bracket, inner);
    proc_macro2::TokenStream::from(proc_macro2::TokenTree::Group(g))
}

/// Relies on `proc_macro2::Punct::new`: a lone comma token, one tree.
#[verifier::external_body]
pub(crate) fn ts_comma() -> (r: proc_macro2::TokenStream)
    ensures
        ts_trees(r).len() == 1,
{
    let p = proc_macro2::Punct::new(',', proc_macro2::Spacing::Alone);
    proc_macro2::TokenStream::from(proc_macro2::TokenTree::Punct(p))
}

/// Relies on `proc_macro2::Punct::new`: a lone `|` token, one tree.
#[verifier::external_body]
pub(crate) fn ts_pipe() -> (r: proc_macro2::TokenStream)
    ensures
        ts_trees(r).len() == 1,
{
    let p = proc_macro2::Punct::new('|', proc_macro2::Spacing::Alone);
    proc_macro2::TokenStream::from(proc_macro2::TokenTree::Punct(p))
}

/// Concatenates the snippets in order, with nothing between them.
pub(crate) fn ts_concat(parts: Vec<proc_macro2::TokenStream>) -> proc_macro2::TokenStream {
    let mut out = ts_empty();
    let n = parts.len();
    let mut i: usize = 0;
    while i < n
        invariant
            n == parts.len(),
            i <= n,
        decreases n - i,
    {
        ts_append(&mut out, parts[i].clone());
        i = i + 1;
    }
    out
}

/// Concatenates the snippets in order, a comma between each two.
pub(crate) fn ts_join_comma(parts: Vec<proc_macro2::TokenStream>) -> proc_macro2::TokenStream {
    let mut out = ts_empty();
    let n = parts.len();
    let mut i: usize = 0;
    while i < n
        invariant
            n == parts.len(),
            i <= n,
        decreases n - i,
    {
        if i > 0 {
            ts_append(&mut out, ts_comma());
        }
        ts_append(&mut out, parts[i].clone());
        i = i + 1;
    }
    out
}

/// Concatenates the snippets in order, a `|` between each two.
pub(crate) fn ts_join_pipe(parts: Vec<proc_macro2::TokenStream>) -> proc_macro2::TokenStream {
    let mut out = ts_empty();
    let n = parts.len();
    let mut i: usize = 0;
    while i < n
        invariant
            n == parts.len(),
            i <= n,
        decreases n - i,
    {
        if i > 0 {
            ts_append(&mut out, ts_pipe());
        }
        ts_append(&mut out, parts[i].clone());
        i = i + 1;
    }
    out
}

} // verus!
