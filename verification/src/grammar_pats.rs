use vstd::prelude::*;
use proc_macro2::TokenStream;
use quote::ToTokens;
use syn::Pat;
use crate::errors::Fault;
use crate::kinds::CallbackType;
use crate::parts::{LeadChild, ListParts, PairParts, WrapParts};
use crate::tokens::ts_trees;

verus! {

/// A pattern parsed at the union level, still unclassified: the opaque
/// `syn::Pat`.
#[verifier::external_type_specification]
#[verifier::external_body]
pub struct ExPat(syn::Pat);

/// A classified pattern: each catalog-known variant with its own tokens,
/// an opaque verbatim run, or any other form kept whole. A pattern with
/// an explicit type annotation never comes out of the general pattern
/// parser, so it has no entry here.
pub enum PatShape {
    Box(proc_macro2::TokenStream),
    Ident(proc_macro2::TokenStream),
    Lit(proc_macro2::TokenStream),
    Macro(proc_macro2::TokenStream),
    Or(proc_macro2::TokenStream),
    Path(proc_macro2::TokenStream),
    Range(proc_macro2::TokenStream),
    Reference(proc_macro2::TokenStream),
    Rest(proc_macro2::TokenStream),
    Slice(proc_macro2::TokenStream),
    Struct(proc_macro2::TokenStream),
    Tuple(proc_macro2::TokenStream),
    TupleStruct(proc_macro2::TokenStream),
    Verbatim(proc_macro2::TokenStream),
    Wild(proc_macro2::TokenStream),
    /// A form the catalog does not special-case.
    Other(proc_macro2::TokenStream),
}

/// The catalog kind a classified pattern routes to, if it has one.
pub open spec fn pat_kind_spec(shape: PatShape) -> Option<CallbackType> {
    match shape {
        PatShape::Box(_) => Some(CallbackType::PatBox),
        PatShape::Ident(_) => Some(CallbackType::PatIdent),
        PatShape::Lit(_) => Some(CallbackType::PatLit),
        PatShape::Macro(_) => Some(CallbackType::PatMacro),
        PatShape::Or(_) => Some(CallbackType::PatOr),
        PatShape::Path(_) => Some(CallbackType::PatPath),
        PatShape::Range(_) => Some(CallbackType::PatRange),
        PatShape::Reference(_) => Some(CallbackType::PatReference),
        PatShape::Rest(_) => Some(CallbackType::PatRest),
        PatShape::Slice(_) => Some(CallbackType::PatSlice),
        PatShape::Struct(_) => Some(CallbackType::PatStruct),
        PatShape::Tuple(_) => Some(CallbackType::PatTuple),
        PatShape::TupleStruct(_) => Some(CallbackType::PatTupleStruct),
        PatShape::Verbatim(_) => Some(CallbackType::Verbatim),
        PatShape::Wild(_) => Some(CallbackType::PatWild),
        PatShape::Other(_) => None,
    }
}

/// The tokens a classified pattern carries.
pub open spec fn pat_tokens_spec(shape: PatShape) -> proc_macro2::TokenStream {
    match shape {
        PatShape::Box(t) => t,
        PatShape::Ident(t) => t,
        PatShape::Lit(t) => t,
        PatShape::Macro(t) => t,
        PatShape::Or(t) => t,
        PatShape::Path(t) => t,
        PatShape::Range(t) => t,
        PatShape::Reference(t) => t,
        PatShape::Rest(t) => t,
        PatShape::Slice(t) => t,
        PatShape::Struct(t) => t,
        PatShape::Tuple(t) => t,
        PatShape::TupleStruct(t) => t,
        PatShape::Verbatim(t) => t,
        PatShape::Wild(t) => t,
        PatShape::Other(t) => t,
    }
}

/// The catalog kind a classified pattern routes to, if it has one.
pub fn pat_shape_kind(shape: &PatShape) -> (r: Option<CallbackType>)
    ensures
        r == pat_kind_spec(*shape),
{
    match shape {
        PatShape::Box(_) => Some(CallbackType::PatBox),
        PatShape::Ident(_) => Some(CallbackType::PatIdent),
        PatShape::Lit(_) => Some(CallbackType::PatLit),
        PatShape::Macro(_) => Some(CallbackType::PatMacro),
        PatShape::Or(_) => Some(CallbackType::PatOr),
        PatShape::Path(_) => Some(CallbackType::PatPath),
        PatShape::Range(_) => Some(CallbackType::PatRange),
        PatShape::Reference(_) => Some(CallbackType::PatReference),
        PatShape::Rest(_) => Some(CallbackType::PatRest),
        PatShape::Slice(_) => Some(CallbackType::PatSlice),
        PatShape::Struct(_) => Some(CallbackType::PatStruct),
        PatShape::Tuple(_) => Some(CallbackType::PatTuple),
        PatShape::TupleStruct(_) => Some(CallbackType::PatTupleStruct),
        PatShape::Verbatim(_) => Some(CallbackType::Verbatim),
        PatShape::Wild(_) => Some(CallbackType::PatWild),
        PatShape::Other(_) => None,
    }
}

/// The tokens a classified pattern carries.
pub fn pat_shape_tokens(shape: PatShape) -> (r: proc_macro2::TokenStream)
    ensures
        r == pat_tokens_spec(shape),
{
    match shape {
        PatShape::Box(t) => t,
        PatShape::Ident(t) => t,
        PatShape::Lit(t) => t,
        PatShape::Macro(t) => t,
        PatShape::Or(t) => t,
        PatShape::Path(t) => t,
        PatShape::Range(t) => t,
        PatShape::Reference(t) => t,
        PatShape::Rest(t) => t,
        PatShape::Slice(t) => t,
        PatShape::Struct(t) => t,
        PatShape::Tuple(t) => t,
        PatShape::TupleStruct(t) => t,
        PatShape::Verbatim(t) => t,
        PatShape::Wild(t) => t,
        PatShape::Other(t) => t,
    }
}

/// A leaf pattern rule's whole answer: if the classified pattern is of
/// the expected kind, its tokens come back unchanged; any other shape is
/// a mismatch naming the expected and the actual kind.
pub fn take_pat_variant(shape: PatShape, expected: CallbackType) -> (r: Result<
    proc_macro2::TokenStream,
    Fault,
>)
    ensures
        pat_kind_spec(shape) == Some(expected) ==> r == Ok::<proc_macro2::TokenStream, Fault>(
            pat_tokens_spec(shape),
        ),
        pat_kind_spec(shape) != Some(expected) ==> r == Err::<proc_macro2::TokenStream, Fault>(
            Fault::ShapeMismatch { expected, actual: pat_kind_spec(shape) },
        ),
{
    let hit = match pat_shape_kind(&shape) {
        Some(k) => k == expected,
        None => false,
    };
    if hit {
        Ok(pat_shape_tokens(shape))
    } else {
        let actual = pat_shape_kind(&shape);
        Err(Fault::ShapeMismatch { expected, actual })
    }
}

/// The parts of an identifier pattern: binding mode and name verbatim,
/// then the optional `@ pat` sub-pattern whose pattern is rewritable.
pub struct PatIdentParts {
    /// Attributes, `ref`, `mut` and the name, verbatim.
    pub head: proc_macro2::TokenStream,
    /// The sub-pattern, if any: its `@` lead and its pattern.
    pub sub: Option<LeadChild>,
}

/// The parts of a struct pattern: attributes and path verbatim, each
/// field's lead-in verbatim with its pattern rewritable, and the
/// optional `..` rest marker.
pub struct PatStructParts {
    /// Attributes and the struct path, verbatim.
    pub head: proc_macro2::TokenStream,
    /// The fields, in order: each one's attributes, member and colon as
    /// the lead, its pattern as the child.
    pub fields: Vec<LeadChild>,
    /// The `..` marker, if any.
    pub dot2: Option<proc_macro2::TokenStream>,
}

/// The parts of a type-annotated pattern: attributes verbatim, the inner
/// pattern rewritable, the colon and type verbatim.
pub struct PatTypeParts {
    /// Attributes, verbatim.
    pub head: proc_macro2::TokenStream,
    /// The inner pattern's own tokens.
    pub pat: proc_macro2::TokenStream,
    /// The colon and the type, verbatim.
    pub tail: proc_macro2::TokenStream,
}

/// Relies on telling `syn::Pat`'s variants apart: whether a pattern
/// carries an explicit type annotation.
#[verifier::external_body]
pub(crate) fn pat_is_typed(p: &Pat) -> bool {
    if let Pat::Type(_) = p { true } else { false }
}

/// Whether a snippet parses as a pattern: a function of its tokens.
pub uninterp spec fn pat_parse_ok(t: proc_macro2::TokenStream) -> bool;

/// Relies on `syn::parse2::<syn::Pat>`: parses the snippet as one
/// pattern.
#[verifier::external_body]
pub(crate) fn parse_pat(tokens: &proc_macro2::TokenStream) -> (r: Result<syn::Pat, Fault>)
    ensures
        r matches Ok(_) ==> pat_parse_ok(*tokens),
        r matches Err(e) ==> !pat_parse_ok(*tokens) && e matches Fault::Grammar(_),
{
    match syn::parse2::<syn::Pat>(tokens.clone()) {
        Ok(n) => Ok(n),
        Err(e) => Err(Fault::Grammar(e)),
    }
}

/// Relies on `quote::ToTokens`: tells one run of `syn::Pat`'s variants
/// apart, handing each back as its own tokens.
#[verifier::external_body]
pub(crate) fn pat_shape_a(pat: &Pat) -> Option<PatShape> {
    match pat {
        Pat::Box(n) => Some(PatShape::Box(n.to_token_stream())),
        Pat::Ident(n) => Some(PatShape::Ident(n.to_token_stream())),
        Pat::Lit(n) => Some(PatShape::Lit(n.to_token_stream())),
        Pat::Macro(n) => Some(PatShape::Macro(n.to_token_stream())),
        Pat::Or(n) => Some(PatShape::Or(n.to_token_stream())),
        Pat::Path(n) => Some(PatShape::Path(n.to_token_stream())),
        _ => None,
    }
}

/// Relies on `quote::ToTokens`: tells one run of `syn::Pat`'s variants
/// apart, handing each back as its own tokens.
#[verifier::external_body]
pub(crate) fn pat_shape_b(pat: &Pat) -> Option<PatShape> {
    match pat {
        Pat::Range(n) => Some(PatShape::Range(n.to_token_stream())),
        Pat::Reference(n) => Some(PatShape::Reference(n.to_token_stream())),
        Pat::Rest(n) => Some(PatShape::Rest(n.to_token_stream())),
        Pat::Slice(n) => Some(PatShape::Slice(n.to_token_stream())),
        Pat::Struct(n) => Some(PatShape::Struct(n.to_token_stream())),
        Pat::Tuple(n) => Some(PatShape::Tuple(n.to_token_stream())),
        _ => None,
    }
}

/// Relies on `quote::ToTokens`: tells the variants of `syn::Pat` apart
/// that the other classifiers do not, handing each back as its own
/// tokens.
#[verifier::external_body]
pub(crate) fn pat_shape_c(pat: &Pat) -> PatShape {
    match pat {
        Pat::TupleStruct(n) => PatShape::TupleStruct(n.to_token_stream()),
        Pat::Verbatim(ts) => PatShape::Verbatim(ts.clone()),
        Pat::Wild(n) => PatShape::Wild(n.to_token_stream()),
        other => PatShape::Other(other.to_token_stream()),
    }
}

/// Classifies a parsed pattern, trying each run of variants in turn.
pub(crate) fn pat_shape(pat: &syn::Pat) -> PatShape {
    if let Some(s) = pat_shape_a(pat) {
        return s;
    }
    if let Some(s) = pat_shape_b(pat) {
        return s;
    }
    pat_shape_c(pat)
}

/// Relies on `quote::ToTokens`: splits an identifier pattern around its
/// optional sub-pattern, or answers `None` for another variant.
#[verifier::external_body]
pub(crate) fn pat_ident_parts(pat: &syn::Pat) -> Option<PatIdentParts> {
    let i = match pat { syn::Pat::Ident(i) => i, _ => return None };
    let mut h = TokenStream::new();
    for a in &i.attrs { a.to_tokens(&mut h); }
    i.by_ref.to_tokens(&mut h);
    i.mutability.to_tokens(&mut h);
    i.ident.to_tokens(&mut h);
    let sub = i.subpat.as_ref().map(|(at, p)| LeadChild { lead: at.to_token_stream(), child: p.to_token_stream() });
    Some(PatIdentParts { head: h, sub })
}

/// Relies on `quote::ToTokens`: splits a literal pattern into its
/// attributes and its expression, or answers `None` for another variant.
#[verifier::external_body]
pub(crate) fn pat_lit_parts(pat: &syn::Pat) -> Option<WrapParts> {
    let l = match pat { syn::Pat::Lit(l) => l, _ => return None };
    let mut h = TokenStream::new();
    for a in &l.attrs { a.to_tokens(&mut h); }
    Some(WrapParts { head: h, inner: l.expr.to_token_stream(), tail: TokenStream::new() })
}

/// Relies on `quote::ToTokens`: splits an or-pattern into its lead and
/// its cases, or answers `None` for another variant.
#[verifier::external_body]
pub(crate) fn pat_or_parts(pat: &syn::Pat) -> Option<ListParts> {
    let o = match pat { syn::Pat::Or(o) => o, _ => return None };
    let mut h = TokenStream::new();
    for a in &o.attrs { a.to_tokens(&mut h); }
    o.leading_vert.to_tokens(&mut h);
    let elems = o.cases.iter().map(|c| c.to_token_stream()).collect();
    Some(ListParts { head: h, elems, tail: TokenStream::new() })
}

/// Relies on `quote::ToTokens`: splits a range pattern around its two
/// bound expressions, or answers `None` for another variant.
#[verifier::external_body]
pub(crate) fn pat_range_parts(pat: &syn::Pat) -> Option<PairParts> {
    let r = match pat { syn::Pat::Range(r) => r, _ => return None };
    let mut h = TokenStream::new();
    for a in &r.attrs { a.to_tokens(&mut h); }
    Some(PairParts {
        head: h,
        first: r.lo.to_token_stream(),
        mid: r.limits.to_token_stream(),
        second: r.hi.to_token_stream(),
        tail: TokenStream::new(),
    })
}

/// Relies on `quote::ToTokens`: splits a reference pattern around its
/// inner pattern, or answers `None` for another variant.
#[verifier::external_body]
pub(crate) fn pat_reference_parts(pat: &syn::Pat) -> Option<WrapParts> {
    let p = match pat { syn::Pat::Reference(p) => p, _ => return None };
    let mut h = TokenStream::new();
    for a in &p.attrs { a.to_tokens(&mut h); }
    p.and_token.to_tokens(&mut h);
    p.mutability.to_tokens(&mut h);
    Some(WrapParts { head: h, inner: p.pat.to_token_stream(), tail: TokenStream::new() })
}

/// Relies on `quote::ToTokens`: splits a slice pattern into its
/// attributes and its elements, or answers `None` for another variant.
#[verifier::external_body]
pub(crate) fn pat_slice_parts(pat: &syn::Pat) -> Option<ListParts> {
    let s = match pat { syn::Pat::Slice(s) => s, _ => return None };
    let mut h = TokenStream::new();
    for a in &s.attrs { a.to_tokens(&mut h); }
    let elems = s.elems.iter().map(|e| e.to_token_stream()).collect();
    Some(ListParts { head: h, elems, tail: TokenStream::new() })
}

/// Relies on `quote::ToTokens`: splits a struct pattern into its path,
/// its fields and its rest marker, or answers `None` for another
/// variant.
#[verifier::external_body]
pub(crate) fn pat_struct_parts(pat: &syn::Pat) -> Option<PatStructParts> {
    let s = match pat { syn::Pat::Struct(s) => s, _ => return None };
    let mut h = TokenStream::new();
    for a in &s.attrs { a.to_tokens(&mut h); }
    s.path.to_tokens(&mut h);
    let fields = s.fields.iter().map(|f| {
        let mut fh = TokenStream::new();
        for a in &f.attrs { a.to_tokens(&mut fh); }
        f.member.to_tokens(&mut fh);
        f.colon_token.to_tokens(&mut fh);
        LeadChild { lead: fh, child: f.pat.to_token_stream() }
    }).collect();
    Some(PatStructParts { head: h, fields, dot2: s.dot2_token.as_ref().map(|d| d.to_token_stream()) })
}

/// Relies on `quote::ToTokens`: splits a tuple pattern into its
/// attributes and its elements, or answers `None` for another variant.
#[verifier::external_body]
pub(crate) fn pat_tuple_parts(pat: &syn::Pat) -> Option<ListParts> {
    let t = match pat { syn::Pat::Tuple(t) => t, _ => return None };
    let mut h = TokenStream::new();
    for a in &t.attrs { a.to_tokens(&mut h); }
    let elems = t.elems.iter().map(|e| e.to_token_stream()).collect();
    Some(ListParts { head: h, elems, tail: TokenStream::new() })
}

/// Relies on `quote::ToTokens`: splits a tuple-struct pattern into its
/// path and its positional pattern group, or answers `None` for another
/// variant.
#[verifier::external_body]
pub(crate) fn pat_tuple_struct_parts(pat: &syn::Pat) -> Option<WrapParts> {
    let t = match pat { syn::Pat::TupleStruct(t) => t, _ => return None };
    let mut h = TokenStream::new();
    for a in &t.attrs { a.to_tokens(&mut h); }
    t.path.to_tokens(&mut h);
    Some(WrapParts { head: h, inner: t.pat.to_token_stream(), tail: TokenStream::new() })
}


/// How a snippet splits as an identifier pattern: `None` outside means
/// the snippet is no pattern, `None` inside another variant.
pub uninterp spec fn pat_ident_model(t: proc_macro2::TokenStream) -> Option<Option<(Seq<int>, Option<(Seq<int>, Seq<int>)>)>>;

/// Relies on `syn::parse2::<syn::Pat>`: parses the snippet as a pattern
/// and splits it as an identifier pattern.
#[verifier::external_body]
pub(crate) fn parse_pat_ident(tokens: &proc_macro2::TokenStream) -> (r: Result<Option<PatIdentParts>, Fault>)
    ensures
        r matches Ok(Some(p)) ==> (pat_ident_model(*tokens) matches Some(mm) && mm matches Some(m)
            && m.0 == ts_trees(p.head)
            && (p.sub matches Some(d) ==> m.1 == Some((ts_trees(d.lead), ts_trees(d.child))))
            && (p.sub is None ==> m.1 is None)),
        r matches Ok(None) ==> (pat_ident_model(*tokens) matches Some(mm) && mm is None),
        r matches Err(e) ==> pat_ident_model(*tokens) is None && e matches Fault::Grammar(_),
{
    let p: syn::Pat = match syn::parse2(tokens.clone()) { Ok(p) => p, Err(e) => return Err(Fault::Grammar(e)) };
    Ok(pat_ident_parts(&p))
}

/// How a snippet splits as a literal pattern: `None` outside means the
/// snippet is no pattern, `None` inside another variant.
pub uninterp spec fn pat_lit_model(t: proc_macro2::TokenStream) -> Option<Option<(Seq<int>, Seq<int>, Seq<int>)>>;

/// Relies on `syn::parse2::<syn::Pat>`: parses the snippet as a pattern
/// and splits it as a literal pattern.
#[verifier::external_body]
pub(crate) fn parse_pat_lit(tokens: &proc_macro2::TokenStream) -> (r: Result<Option<WrapParts>, Fault>)
    ensures
        r matches Ok(Some(p)) ==> pat_lit_model(*tokens) == Some(Some(
            (ts_trees(p.head), ts_trees(p.inner), ts_trees(p.tail)),
        )),
        r matches Ok(None) ==> (pat_lit_model(*tokens) matches Some(mm) && mm is None),
        r matches Err(e) ==> pat_lit_model(*tokens) is None && e matches Fault::Grammar(_),
{
    let p: syn::Pat = match syn::parse2(tokens.clone()) { Ok(p) => p, Err(e) => return Err(Fault::Grammar(e)) };
    Ok(pat_lit_parts(&p))
}

/// How a snippet splits as an or-pattern: `None` outside means the
/// snippet is no pattern, `None` inside another variant.
pub uninterp spec fn pat_or_model(t: proc_macro2::TokenStream) -> Option<Option<(Seq<int>, Seq<Seq<int>>)>>;

/// Relies on `syn::parse2::<syn::Pat>`: parses the snippet as a pattern
/// and splits it as an or-pattern.
#[verifier::external_body]
pub(crate) fn parse_pat_or(tokens: &proc_macro2::TokenStream) -> (r: Result<Option<ListParts>, Fault>)
    ensures
        r matches Ok(Some(p)) ==> pat_or_model(*tokens) == Some(Some(
            (ts_trees(p.head), p.elems@.map_values(|e: proc_macro2::TokenStream| ts_trees(e))),
        )),
        r matches Ok(None) ==> (pat_or_model(*tokens) matches Some(mm) && mm is None),
        r matches Err(e) ==> pat_or_model(*tokens) is None && e matches Fault::Grammar(_),
{
    let p: syn::Pat = match syn::parse2(tokens.clone()) { Ok(p) => p, Err(e) => return Err(Fault::Grammar(e)) };
    Ok(pat_or_parts(&p))
}

/// How a snippet splits as a range pattern: `None` outside means the
/// snippet is no pattern, `None` inside another variant.
pub uninterp spec fn pat_range_model(t: proc_macro2::TokenStream) -> Option<Option<(Seq<int>, Seq<int>, Seq<int>, Seq<int>, Seq<int>)>>;

/// Relies on `syn::parse2::<syn::Pat>`: parses the snippet as a pattern
/// and splits it as a range pattern.
#[verifier::external_body]
pub(crate) fn parse_pat_range(tokens: &proc_macro2::TokenStream) -> (r: Result<Option<PairParts>, Fault>)
    ensures
        r matches Ok(Some(p)) ==> pat_range_model(*tokens) == Some(Some(
            (ts_trees(p.head), ts_trees(p.first), ts_trees(p.mid), ts_trees(p.second), ts_trees(p.tail)),
        )),
        r matches Ok(None) ==> (pat_range_model(*tokens) matches Some(mm) && mm is None),
        r matches Err(e) ==> pat_range_model(*tokens) is None && e matches Fault::Grammar(_),
{
    let p: syn::Pat = match syn::parse2(tokens.clone()) { Ok(p) => p, Err(e) => return Err(Fault::Grammar(e)) };
    Ok(pat_range_parts(&p))
}

/// How a snippet splits as a reference pattern: `None` outside means
/// the snippet is no pattern, `None` inside another variant.
pub uninterp spec fn pat_reference_model(t: proc_macro2::TokenStream) -> Option<Option<(Seq<int>, Seq<int>, Seq<int>)>>;

/// Relies on `syn::parse2::<syn::Pat>`: parses the snippet as a pattern
/// and splits it as a reference pattern.
#[verifier::external_body]
pub(crate) fn parse_pat_reference(tokens: &proc_macro2::TokenStream) -> (r: Result<Option<WrapParts>, Fault>)
    ensures
        r matches Ok(Some(p)) ==> pat_reference_model(*tokens) == Some(Some(
            (ts_trees(p.head), ts_trees(p.inner), ts_trees(p.tail)),
        )),
        r matches Ok(None) ==> (pat_reference_model(*tokens) matches Some(mm) && mm is None),
        r matches Err(e) ==> pat_reference_model(*tokens) is None && e matches Fault::Grammar(_),
{
    let p: syn::Pat = match syn::parse2(tokens.clone()) { Ok(p) => p, Err(e) => return Err(Fault::Grammar(e)) };
    Ok(pat_reference_parts(&p))
}

/// How a snippet splits as a slice pattern: `None` outside means the
/// snippet is no pattern, `None` inside another variant.
pub uninterp spec fn pat_slice_model(t: proc_macro2::TokenStream) -> Option<Option<(Seq<int>, Seq<Seq<int>>)>>;

/// Relies on `syn::parse2::<syn::Pat>`: parses the snippet as a pattern
/// and splits it as a slice pattern.
#[verifier::external_body]
pub(crate) fn parse_pat_slice(tokens: &proc_macro2::TokenStream) -> (r: Result<Option<ListParts>, Fault>)
    ensures
        r matches Ok(Some(p)) ==> pat_slice_model(*tokens) == Some(Some(
            (ts_trees(p.head), p.elems@.map_values(|e: proc_macro2::TokenStream| ts_trees(e))),
        )),
        r matches Ok(None) ==> (pat_slice_model(*tokens) matches Some(mm) && mm is None),
        r matches Err(e) ==> pat_slice_model(*tokens) is None && e matches Fault::Grammar(_),
{
    let p: syn::Pat = match syn::parse2(tokens.clone()) { Ok(p) => p, Err(e) => return Err(Fault::Grammar(e)) };
    Ok(pat_slice_parts(&p))
}

/// How a snippet splits as a struct pattern: `None` outside means the
/// snippet is no pattern, `None` inside another variant.
pub uninterp spec fn pat_struct_model(t: proc_macro2::TokenStream) -> Option<Option<(Seq<int>, Seq<(Seq<int>, Seq<int>)>, Option<Seq<int>>)>>;

/// Relies on `syn::parse2::<syn::Pat>`: parses the snippet as a pattern
/// and splits it as a struct pattern.
#[verifier::external_body]
pub(crate) fn parse_pat_struct(tokens: &proc_macro2::TokenStream) -> (r: Result<Option<PatStructParts>, Fault>)
    ensures
        r matches Ok(Some(p)) ==> (pat_struct_model(*tokens) matches Some(mm) && mm matches Some(m)
            && m.0 == ts_trees(p.head)
            && m.1 == p.fields@.map_values(|d: LeadChild| (ts_trees(d.lead), ts_trees(d.child)))
            && (p.dot2 matches Some(d2) ==> m.2 == Some(ts_trees(d2)))
            && (p.dot2 is None ==> m.2 is None)),
        r matches Ok(None) ==> (pat_struct_model(*tokens) matches Some(mm) && mm is None),
        r matches Err(e) ==> pat_struct_model(*tokens) is None && e matches Fault::Grammar(_),
{
    let p: syn::Pat = match syn::parse2(tokens.clone()) { Ok(p) => p, Err(e) => return Err(Fault::Grammar(e)) };
    Ok(pat_struct_parts(&p))
}

/// How a snippet splits as a tuple pattern: `None` outside means the
/// snippet is no pattern, `None` inside another variant.
pub uninterp spec fn pat_tuple_model(t: proc_macro2::TokenStream) -> Option<Option<(Seq<int>, Seq<Seq<int>>)>>;

/// Relies on `syn::parse2::<syn::Pat>`: parses the snippet as a pattern
/// and splits it as a tuple pattern.
#[verifier::external_body]
pub(crate) fn parse_pat_tuple(tokens: &proc_macro2::TokenStream) -> (r: Result<Option<ListParts>, Fault>)
    ensures
        r matches Ok(Some(p)) ==> pat_tuple_model(*tokens) == Some(Some(
            (ts_trees(p.head), p.elems@.map_values(|e: proc_macro2::TokenStream| ts_trees(e))),
        )),
        r matches Ok(None) ==> (pat_tuple_model(*tokens) matches Some(mm) && mm is None),
        r matches Err(e) ==> pat_tuple_model(*tokens) is None && e matches Fault::Grammar(_),
{
    let p: syn::Pat = match syn::parse2(tokens.clone()) { Ok(p) => p, Err(e) => return Err(Fault::Grammar(e)) };
    Ok(pat_tuple_parts(&p))
}

/// How a snippet splits as a tuple-struct pattern: `None` outside means
/// the snippet is no pattern, `None` inside another variant.
pub uninterp spec fn pat_tuple_struct_model(t: proc_macro2::TokenStream) -> Option<Option<(Seq<int>, Seq<int>, Seq<int>)>>;

/// Relies on `syn::parse2::<syn::Pat>`: parses the snippet as a pattern
/// and splits it as a tuple-struct pattern.
#[verifier::external_body]
pub(crate) fn parse_pat_tuple_struct(tokens: &proc_macro2::TokenStream) -> (r: Result<Option<WrapParts>, Fault>)
    ensures
        r matches Ok(Some(p)) ==> pat_tuple_struct_model(*tokens) == Some(Some(
            (ts_trees(p.head), ts_trees(p.inner), ts_trees(p.tail)),
        )),
        r matches Ok(None) ==> (pat_tuple_struct_model(*tokens) matches Some(mm) && mm is None),
        r matches Err(e) ==> pat_tuple_struct_model(*tokens) is None && e matches Fault::Grammar(_),
{
    let p: syn::Pat = match syn::parse2(tokens.clone()) { Ok(p) => p, Err(e) => return Err(Fault::Grammar(e)) };
    Ok(pat_tuple_struct_parts(&p))
}

/// Relies on `syn::parse2::<syn::Stmt>` on a synthesized `let` stub:
/// the general pattern parser cannot take a type-annotated pattern
/// standalone, so the snippet is wrapped in a minimal declaration purely
/// to coerce the parser, and the wrapper discarded. Answers `None` when
/// what came back is not a declaration.
#[verifier::external_body]
pub(crate) fn parse_pat_via_stub(tokens: &proc_macro2::TokenStream) -> (r: Result<Option<syn::Pat>, Fault>)
    ensures
        r matches Ok(Some(p)) ==> pat_type_model(*tokens) == Some(pat_type_parts_of(p)),
        r matches Ok(None) ==> (pat_type_model(*tokens) matches Some(mm) && mm is None),
        r matches Err(e) ==> pat_type_model(*tokens) is None && e matches Fault::Grammar(_),
{
    let mut stub = TokenStream::new();
    syn::token::Let::default().to_tokens(&mut stub);
    stub.extend(tokens.clone());
    syn::token::Semi::default().to_tokens(&mut stub);
    let stmt: syn::Stmt = match syn::parse2(stub) { Ok(s) => s, Err(e) => return Err(Fault::Grammar(e)) };
    match stmt { syn::Stmt::Local(l) => Ok(Some(l.pat)), _ => Ok(None) }
}

/// How a snippet splits as a type-annotated pattern, through the
/// declaration stub: `None` outside means the stub does not parse,
/// `None` inside that what came back is no declaration or no annotated
/// pattern.
pub uninterp spec fn pat_type_model(t: proc_macro2::TokenStream) -> Option<Option<(Seq<int>, Seq<int>, Seq<int>)>>;

/// The decomposition a type-annotated pattern carries, as a function of
/// the parsed node; `None` for another variant.
pub uninterp spec fn pat_type_parts_of(p: syn::Pat) -> Option<(Seq<int>, Seq<int>, Seq<int>)>;

/// Relies on `quote::ToTokens`: splits a type-annotated pattern around
/// its inner pattern, or answers `None` for another variant.
#[verifier::external_body]
pub(crate) fn pat_type_parts(pat: &Pat) -> (r: Option<PatTypeParts>)
    ensures
        r matches Some(p) ==> pat_type_parts_of(*pat) == Some(
            (ts_trees(p.head), ts_trees(p.pat), ts_trees(p.tail)),
        ),
        r is None ==> pat_type_parts_of(*pat) is None,
{
    let pt = match pat { Pat::Type(pt) => pt, _ => return None };
    let mut h = TokenStream::new();
    for a in &pt.attrs { a.to_tokens(&mut h); }
    let mut tail = pt.colon_token.to_token_stream();
    pt.ty.to_tokens(&mut tail);
    Some(PatTypeParts { head: h, pat: pt.pat.to_token_stream(), tail })
}

} // verus!
