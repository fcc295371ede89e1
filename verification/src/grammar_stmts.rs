use vstd::prelude::*;
use proc_macro2::TokenStream;
use quote::ToTokens;
use syn::Stmt;
use crate::errors::Fault;
use crate::kinds::CallbackType;
use crate::parts::LeadChild;
use crate::tokens::ts_trees;

verus! {

/// A classified statement. Statements have no catch-all form: every
/// statement is a declaration, a nested item, or an expression with or
/// without its trailing semicolon.
pub enum StmtShape {
    /// A `let` declaration, whole.
    Local(proc_macro2::TokenStream),
    /// A nested item, whole.
    Item(proc_macro2::TokenStream),
    /// A trailing expression without semicolon.
    Expr(proc_macro2::TokenStream),
    /// An expression statement: the expression and its semicolon.
    Semi(proc_macro2::TokenStream, proc_macro2::TokenStream),
}

/// The parts of a `let` declaration: its lead verbatim, the pattern as a
/// rewritable child, the optional initializer, and the semicolon.
pub struct LocalParts {
    /// Attributes and the `let` keyword, verbatim.
    pub head: proc_macro2::TokenStream,
    /// The pattern's own tokens.
    pub pat: proc_macro2::TokenStream,
    /// Whether the pattern carries an explicit type annotation, a shape
    /// the general pattern parser cannot take standalone.
    pub pat_typed: bool,
    /// The initializer, if any: its `=` lead and its expression.
    pub init: Option<LeadChild>,
    /// The trailing semicolon.
    pub tail: proc_macro2::TokenStream,
}

/// The catalog kind a classified statement routes to.
pub fn stmt_shape_kind(shape: &StmtShape) -> (r: CallbackType)
    ensures
        r == (match shape {
            StmtShape::Local(_) => CallbackType::Local,
            StmtShape::Item(_) => CallbackType::Item,
            StmtShape::Expr(_) => CallbackType::Expr,
            StmtShape::Semi(_, _) => CallbackType::Expr,
        }),
{
    match shape {
        StmtShape::Local(_) => CallbackType::Local,
        StmtShape::Item(_) => CallbackType::Item,
        StmtShape::Expr(_) => CallbackType::Expr,
        StmtShape::Semi(_, _) => CallbackType::Expr,
    }
}

/// Whether a snippet parses as a braceless statement sequence: a
/// function of its tokens. A trailing expression without its semicolon
/// is a statement too.
pub uninterp spec fn stmt_seq_ok(t: proc_macro2::TokenStream) -> bool;

/// Relies on `syn::Block::parse_within` and `quote::ToTokens`: parses
/// the snippet as a statement sequence and tells each statement's
/// variant apart, in order. How many came back, and what to do then, is
/// the caller's decision.
#[verifier::external_body]
pub(crate) fn parse_stmt_shapes(tokens: &proc_macro2::TokenStream) -> (r: Result<Vec<StmtShape>, Fault>)
    ensures
        r matches Ok(_) ==> stmt_seq_ok(*tokens),
        r matches Err(e) ==> !stmt_seq_ok(*tokens) && e matches Fault::Grammar(_),
{
    let stmts = match syn::parse::Parser::parse2(syn::Block::parse_within, tokens.clone()) {
        Ok(s) => s,
        Err(e) => return Err(Fault::Grammar(e)),
    };
    Ok(stmts.into_iter().map(|n| match n {
        Stmt::Local(l) => StmtShape::Local(l.to_token_stream()),
        Stmt::Item(i) => StmtShape::Item(i.to_token_stream()),
        Stmt::Expr(e) => StmtShape::Expr(e.to_token_stream()),
        Stmt::Semi(e, sc) => StmtShape::Semi(e.to_token_stream(), sc.to_token_stream()),
    }).collect())
}

/// The trees of a braced block's statement sequence, without the
/// braces, when the snippet parses as a block: a function of its
/// tokens.
pub uninterp spec fn block_model(t: proc_macro2::TokenStream) -> Option<Seq<int>>;

/// Relies on `syn::parse2::<syn::Block>` and `quote::ToTokens`: checks
/// the snippet is a braced block and hands back its statements,
/// concatenated, without the braces.
#[verifier::external_body]
pub(crate) fn parse_block(tokens: &proc_macro2::TokenStream) -> (r: Result<proc_macro2::TokenStream, Fault>)
    ensures
        r matches Ok(out) ==> block_model(*tokens) == Some(ts_trees(out)),
        r matches Err(e) ==> block_model(*tokens) is None && e matches Fault::Grammar(_),
{
    let n: syn::Block = match syn::parse2(tokens.clone()) { Ok(n) => n, Err(e) => return Err(Fault::Grammar(e)) };
    let mut inner = TokenStream::new();
    for s in &n.stmts { s.to_tokens(&mut inner); }
    Ok(inner)
}

/// Relies on `syn::Block::parse_within` through `syn::parse::Parser`:
/// parses a braceless statement sequence into its statements, in order.
#[verifier::external_body]
pub(crate) fn parse_stmts(tokens: &proc_macro2::TokenStream) -> (r: Result<Vec<proc_macro2::TokenStream>, Fault>)
    ensures
        r matches Ok(_) ==> stmt_seq_ok(*tokens),
        r matches Err(e) ==> !stmt_seq_ok(*tokens) && e matches Fault::Grammar(_),
{
    let stmts = match syn::parse::Parser::parse2(syn::Block::parse_within, tokens.clone()) {
        Ok(s) => s,
        Err(e) => return Err(Fault::Grammar(e)),
    };
    Ok(stmts.iter().map(|s| s.to_token_stream()).collect())
}

/// A `let` declaration, parsed but not yet decomposed: the opaque
/// `syn::Local`. It has no standalone parser of its own; it is carved
/// out of a parsed statement.
#[verifier::external_type_specification]
#[verifier::external_body]
pub struct ExLocal(syn::Local);

/// How a snippet splits as a `let` declaration, when it parses as a
/// statement: the trees of its head, pattern, whether the pattern is
/// type-annotated, the optional initializer's lead and expression, and
/// the semicolon. The inner `None` is a statement of another variant.
pub uninterp spec fn local_model(t: proc_macro2::TokenStream) -> Option<
    Option<(Seq<int>, Seq<int>, bool, Option<(Seq<int>, Seq<int>)>, Seq<int>)>,
>;

/// The decomposition a `let` declaration carries, as a function of the
/// parsed node.
pub uninterp spec fn local_parts_of(l: syn::Local) -> (
    Seq<int>,
    Seq<int>,
    bool,
    Option<(Seq<int>, Seq<int>)>,
    Seq<int>,
);

/// Relies on `syn::parse2::<syn::Stmt>`: parses the snippet as one
/// statement and hands back its `let` declaration, or `None` for a
/// statement of another variant.
#[verifier::external_body]
pub(crate) fn parse_stmt_local(tokens: &proc_macro2::TokenStream) -> (r: Result<Option<syn::Local>, Fault>)
    ensures
        r matches Ok(l_opt) ==> (local_model(*tokens) matches Some(m)
            && (l_opt matches Some(l) ==> m == Some(local_parts_of(l)))
            && (l_opt is None ==> m is None)),
        r matches Err(e) ==> local_model(*tokens) is None && e matches Fault::Grammar(_),
{
    let n: Stmt = match syn::parse2(tokens.clone()) { Ok(n) => n, Err(e) => return Err(Fault::Grammar(e)) };
    match n { Stmt::Local(l) => Ok(Some(l)), _ => Ok(None) }
}

/// Relies on `quote::ToTokens`: splits a `let` declaration around its
/// pattern and optional initializer. The general pattern parser cannot
/// take a type-annotated pattern standalone, so whether the pattern has
/// one is reported alongside it.
#[verifier::external_body]
pub(crate) fn local_parts(l: &syn::Local) -> (r: LocalParts)
    ensures
        ({
            let m = local_parts_of(*l);
            ts_trees(r.head) == m.0 && ts_trees(r.pat) == m.1 && r.pat_typed == m.2 && (
            r.init matches Some(d) ==> m.3 == Some((ts_trees(d.lead), ts_trees(d.child)))) && (
            r.init is None ==> m.3 is None) && ts_trees(r.tail) == m.4
        }),
{
    let mut h = TokenStream::new();
    for a in &l.attrs { a.to_tokens(&mut h); }
    l.let_token.to_tokens(&mut h);
    let (pat, pat_typed) = match &l.pat {
        syn::Pat::Type(pt) => (pt.to_token_stream(), true),
        p => (p.to_token_stream(), false),
    };
    let init = l.init.as_ref().map(|(eq, e)| LeadChild { lead: eq.to_token_stream(), child: e.to_token_stream() });
    LocalParts { head: h, pat, pat_typed, init, tail: l.semi_token.to_token_stream() }
}

} // verus!
