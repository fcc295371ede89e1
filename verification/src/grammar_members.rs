use vstd::prelude::*;
use proc_macro2::TokenStream;
use quote::ToTokens;
use crate::errors::Fault;
use crate::parts::{LeadChild, OptChildParts, WrapParts};
use crate::tokens::ts_trees;

verus! {

/// A foreign-module member parsed at the union level, still
/// unclassified: the opaque `syn::ForeignItem`.
#[verifier::external_type_specification]
#[verifier::external_body]
pub struct ExForeignItem(syn::ForeignItem);

/// An impl member parsed at the union level, still unclassified: the
/// opaque `syn::ImplItem`.
#[verifier::external_type_specification]
#[verifier::external_body]
pub struct ExImplItem(syn::ImplItem);

/// A trait member parsed at the union level, still unclassified: the
/// opaque `syn::TraitItem`.
#[verifier::external_type_specification]
#[verifier::external_body]
pub struct ExTraitItem(syn::TraitItem);

/// A classified foreign-module member.
pub enum ForeignItemShape {
    Fn(proc_macro2::TokenStream),
    Static(proc_macro2::TokenStream),
    Type(proc_macro2::TokenStream),
    Macro(proc_macro2::TokenStream),
    Verbatim(proc_macro2::TokenStream),
    /// A form the catalog does not special-case.
    Other(proc_macro2::TokenStream),
}

/// A classified impl member.
pub enum ImplItemShape {
    Const(proc_macro2::TokenStream),
    Method(proc_macro2::TokenStream),
    Type(proc_macro2::TokenStream),
    Macro(proc_macro2::TokenStream),
    Verbatim(proc_macro2::TokenStream),
    /// A form the catalog does not special-case.
    Other(proc_macro2::TokenStream),
}

/// A classified trait member.
pub enum TraitItemShape {
    Const(proc_macro2::TokenStream),
    Method(proc_macro2::TokenStream),
    Type(proc_macro2::TokenStream),
    Macro(proc_macro2::TokenStream),
    Verbatim(proc_macro2::TokenStream),
    /// A form the catalog does not special-case.
    Other(proc_macro2::TokenStream),
}

/// Whether a snippet parses as a foreign-module member: a function of its tokens.
pub uninterp spec fn foreign_item_parse_ok(t: proc_macro2::TokenStream) -> bool;

/// Relies on `syn::parse2::<syn::ForeignItem>`: parses the snippet as
/// one foreign-module member.
#[verifier::external_body]
pub(crate) fn parse_foreign_item(tokens: &proc_macro2::TokenStream) -> (r: Result<syn::ForeignItem, Fault>)
    ensures
        r matches Ok(_) ==> foreign_item_parse_ok(*tokens),
        r matches Err(e) ==> !foreign_item_parse_ok(*tokens) && e matches Fault::Grammar(_),
{
    match syn::parse2::<syn::ForeignItem>(tokens.clone()) {
        Ok(n) => Ok(n),
        Err(e) => Err(Fault::Grammar(e)),
    }
}

/// Whether a snippet parses as an impl member: a function of its tokens.
pub uninterp spec fn impl_item_parse_ok(t: proc_macro2::TokenStream) -> bool;

/// Relies on `syn::parse2::<syn::ImplItem>`: parses the snippet as one
/// impl member.
#[verifier::external_body]
pub(crate) fn parse_impl_item(tokens: &proc_macro2::TokenStream) -> (r: Result<syn::ImplItem, Fault>)
    ensures
        r matches Ok(_) ==> impl_item_parse_ok(*tokens),
        r matches Err(e) ==> !impl_item_parse_ok(*tokens) && e matches Fault::Grammar(_),
{
    match syn::parse2::<syn::ImplItem>(tokens.clone()) {
        Ok(n) => Ok(n),
        Err(e) => Err(Fault::Grammar(e)),
    }
}

/// Whether a snippet parses as a trait member: a function of its tokens.
pub uninterp spec fn trait_item_parse_ok(t: proc_macro2::TokenStream) -> bool;

/// Relies on `syn::parse2::<syn::TraitItem>`: parses the snippet as one
/// trait member.
#[verifier::external_body]
pub(crate) fn parse_trait_item(tokens: &proc_macro2::TokenStream) -> (r: Result<syn::TraitItem, Fault>)
    ensures
        r matches Ok(_) ==> trait_item_parse_ok(*tokens),
        r matches Err(e) ==> !trait_item_parse_ok(*tokens) && e matches Fault::Grammar(_),
{
    match syn::parse2::<syn::TraitItem>(tokens.clone()) {
        Ok(n) => Ok(n),
        Err(e) => Err(Fault::Grammar(e)),
    }
}

/// Relies on `quote::ToTokens`: tells the variants of
/// `syn::ForeignItem` apart, handing each back as its own tokens.
#[verifier::external_body]
pub(crate) fn foreign_item_shape(item: &syn::ForeignItem) -> ForeignItemShape {
    match item {
        syn::ForeignItem::Fn(n) => ForeignItemShape::Fn(n.to_token_stream()),
        syn::ForeignItem::Static(n) => ForeignItemShape::Static(n.to_token_stream()),
        syn::ForeignItem::Type(n) => ForeignItemShape::Type(n.to_token_stream()),
        syn::ForeignItem::Macro(n) => ForeignItemShape::Macro(n.to_token_stream()),
        syn::ForeignItem::Verbatim(ts) => ForeignItemShape::Verbatim(ts.clone()),
        other => ForeignItemShape::Other(other.to_token_stream()),
    }
}

/// Relies on `quote::ToTokens`: tells the variants of `syn::ImplItem`
/// apart, handing each back as its own tokens.
#[verifier::external_body]
pub(crate) fn impl_item_shape(item: &syn::ImplItem) -> ImplItemShape {
    match item {
        syn::ImplItem::Const(n) => ImplItemShape::Const(n.to_token_stream()),
        syn::ImplItem::Method(n) => ImplItemShape::Method(n.to_token_stream()),
        syn::ImplItem::Type(n) => ImplItemShape::Type(n.to_token_stream()),
        syn::ImplItem::Macro(n) => ImplItemShape::Macro(n.to_token_stream()),
        syn::ImplItem::Verbatim(ts) => ImplItemShape::Verbatim(ts.clone()),
        other => ImplItemShape::Other(other.to_token_stream()),
    }
}

/// Relies on `quote::ToTokens`: tells the variants of `syn::TraitItem`
/// apart, handing each back as its own tokens.
#[verifier::external_body]
pub(crate) fn trait_item_shape(item: &syn::TraitItem) -> TraitItemShape {
    match item {
        syn::TraitItem::Const(n) => TraitItemShape::Const(n.to_token_stream()),
        syn::TraitItem::Method(n) => TraitItemShape::Method(n.to_token_stream()),
        syn::TraitItem::Type(n) => TraitItemShape::Type(n.to_token_stream()),
        syn::TraitItem::Macro(n) => TraitItemShape::Macro(n.to_token_stream()),
        syn::TraitItem::Verbatim(ts) => TraitItemShape::Verbatim(ts.clone()),
        other => TraitItemShape::Other(other.to_token_stream()),
    }
}

/// How a snippet splits as an impl constant, when it parses as one: the trees of
/// its verbatim head, its rewritable child and its verbatim tail, a
/// function of its tokens.
pub uninterp spec fn impl_item_const_model(t: proc_macro2::TokenStream) -> Option<(Seq<int>, Seq<int>, Seq<int>)>;

/// Relies on `syn::parse2::<syn::ImplItemConst>` and `quote::ToTokens`:
/// splits an impl constant around its rewritable expression.
#[verifier::external_body]
pub(crate) fn parse_impl_item_const(tokens: &proc_macro2::TokenStream) -> (r: Result<WrapParts, Fault>)
    ensures
        r matches Ok(p) ==> impl_item_const_model(*tokens) == Some(
            (ts_trees(p.head), ts_trees(p.inner), ts_trees(p.tail)),
        ),
        r matches Err(e) ==> impl_item_const_model(*tokens) is None && e matches Fault::Grammar(_),
{
    let n: syn::ImplItemConst = match syn::parse2(tokens.clone()) { Ok(n) => n, Err(e) => return Err(Fault::Grammar(e)) };
    let mut h = TokenStream::new();
    for a in &n.attrs { a.to_tokens(&mut h); }
    n.vis.to_tokens(&mut h);
    n.defaultness.to_tokens(&mut h);
    n.const_token.to_tokens(&mut h);
    n.ident.to_tokens(&mut h);
    n.colon_token.to_tokens(&mut h);
    n.ty.to_tokens(&mut h);
    n.eq_token.to_tokens(&mut h);
    Ok(WrapParts { head: h, inner: n.expr.to_token_stream(), tail: n.semi_token.to_token_stream() })
}

/// How a snippet splits as an impl method, when it parses as one: the trees of
/// its verbatim head, its rewritable child and its verbatim tail, a
/// function of its tokens.
pub uninterp spec fn impl_item_method_model(t: proc_macro2::TokenStream) -> Option<(Seq<int>, Seq<int>, Seq<int>)>;

/// Relies on `syn::parse2::<syn::ImplItemMethod>` and `quote::ToTokens`:
/// splits an impl method around its rewritable body block.
#[verifier::external_body]
pub(crate) fn parse_impl_item_method(tokens: &proc_macro2::TokenStream) -> (r: Result<WrapParts, Fault>)
    ensures
        r matches Ok(p) ==> impl_item_method_model(*tokens) == Some(
            (ts_trees(p.head), ts_trees(p.inner), ts_trees(p.tail)),
        ),
        r matches Err(e) ==> impl_item_method_model(*tokens) is None && e matches Fault::Grammar(_),
{
    let n: syn::ImplItemMethod = match syn::parse2(tokens.clone()) { Ok(n) => n, Err(e) => return Err(Fault::Grammar(e)) };
    let mut h = TokenStream::new();
    for a in &n.attrs { a.to_tokens(&mut h); }
    n.vis.to_tokens(&mut h);
    n.defaultness.to_tokens(&mut h);
    n.sig.to_tokens(&mut h);
    Ok(WrapParts { head: h, inner: n.block.to_token_stream(), tail: TokenStream::new() })
}

/// How a snippet splits as a trait constant, when it parses as one: the trees of
/// its verbatim head, of its optional child's lead and body, and of its
/// verbatim tail, a function of its tokens.
pub uninterp spec fn trait_item_const_model(t: proc_macro2::TokenStream) -> Option<(Seq<int>, Option<(Seq<int>, Seq<int>)>, Seq<int>)>;

/// Relies on `syn::parse2::<syn::TraitItemConst>` and `quote::ToTokens`:
/// splits a trait constant around its optional default expression.
#[verifier::external_body]
pub(crate) fn parse_trait_item_const(tokens: &proc_macro2::TokenStream) -> (r: Result<OptChildParts, Fault>)
    ensures
        r matches Ok(p) ==> (trait_item_const_model(*tokens) matches Some(m) && m.0 == ts_trees(p.head)
            && (p.opt matches Some(d) ==> m.1 == Some((ts_trees(d.lead), ts_trees(d.child))))
            && (p.opt is None ==> m.1 is None)
            && m.2 == ts_trees(p.tail)),
        r matches Err(e) ==> trait_item_const_model(*tokens) is None && e matches Fault::Grammar(_),
{
    let n: syn::TraitItemConst = match syn::parse2(tokens.clone()) { Ok(n) => n, Err(e) => return Err(Fault::Grammar(e)) };
    let mut h = TokenStream::new();
    for a in &n.attrs { a.to_tokens(&mut h); }
    n.const_token.to_tokens(&mut h);
    n.ident.to_tokens(&mut h);
    n.colon_token.to_tokens(&mut h);
    n.ty.to_tokens(&mut h);
    let opt = n.default.as_ref().map(
        |(eq, e)| LeadChild { lead: eq.to_token_stream(), child: e.to_token_stream() },
    );
    Ok(OptChildParts { head: h, opt, tail: n.semi_token.to_token_stream() })
}

/// How a snippet splits as a trait method, when it parses as one: the trees of
/// its verbatim head, of its optional child's lead and body, and of its
/// verbatim tail, a function of its tokens.
pub uninterp spec fn trait_item_method_model(t: proc_macro2::TokenStream) -> Option<(Seq<int>, Option<(Seq<int>, Seq<int>)>, Seq<int>)>;

/// Relies on `syn::parse2::<syn::TraitItemMethod>` and `quote::ToTokens`:
/// splits a trait method around its optional default body block.
#[verifier::external_body]
pub(crate) fn parse_trait_item_method(tokens: &proc_macro2::TokenStream) -> (r: Result<OptChildParts, Fault>)
    ensures
        r matches Ok(p) ==> (trait_item_method_model(*tokens) matches Some(m) && m.0 == ts_trees(p.head)
            && (p.opt matches Some(d) ==> m.1 == Some((ts_trees(d.lead), ts_trees(d.child))))
            && (p.opt is None ==> m.1 is None)
            && m.2 == ts_trees(p.tail)),
        r matches Err(e) ==> trait_item_method_model(*tokens) is None && e matches Fault::Grammar(_),
{
    let n: syn::TraitItemMethod = match syn::parse2(tokens.clone()) { Ok(n) => n, Err(e) => return Err(Fault::Grammar(e)) };
    let mut h = TokenStream::new();
    for a in &n.attrs { a.to_tokens(&mut h); }
    n.sig.to_tokens(&mut h);
    let opt = n.default.as_ref().map(
        |b| LeadChild { lead: TokenStream::new(), child: b.to_token_stream() },
    );
    let mut tail = TokenStream::new();
    n.semi_token.to_tokens(&mut tail);
    Ok(OptChildParts { head: h, opt, tail })
}

/// What the snippet reserializes to when it parses as this member
/// kind: a function of its tokens.
pub uninterp spec fn foreign_item_fn_reparse(t: proc_macro2::TokenStream) -> Option<Seq<int>>;

/// Relies on `syn::parse2::<syn::ForeignItemFn>`: checks the snippet is
/// a foreign function and reserializes it.
#[verifier::external_body]
pub(crate) fn reparse_foreign_item_fn(
    tokens: &proc_macro2::TokenStream,
) -> (r: Result<proc_macro2::TokenStream, Fault>)
    ensures
        r matches Ok(out) ==> foreign_item_fn_reparse(*tokens) == Some(ts_trees(out)),
        r matches Err(e) ==> foreign_item_fn_reparse(*tokens) is None && e matches Fault::Grammar(_),
{
    match syn::parse2::<syn::ForeignItemFn>(tokens.clone()) {
        Ok(n) => Ok(n.to_token_stream()),
        Err(e) => Err(Fault::Grammar(e)),
    }
}

/// What the snippet reserializes to when it parses as this member
/// kind: a function of its tokens.
pub uninterp spec fn foreign_item_static_reparse(t: proc_macro2::TokenStream) -> Option<Seq<int>>;

/// Relies on `syn::parse2::<syn::ForeignItemStatic>`: checks the snippet
/// is a foreign static and reserializes it.
#[verifier::external_body]
pub(crate) fn reparse_foreign_item_static(
    tokens: &proc_macro2::TokenStream,
) -> (r: Result<proc_macro2::TokenStream, Fault>)
    ensures
        r matches Ok(out) ==> foreign_item_static_reparse(*tokens) == Some(ts_trees(out)),
        r matches Err(e) ==> foreign_item_static_reparse(*tokens) is None && e matches Fault::Grammar(_),
{
    match syn::parse2::<syn::ForeignItemStatic>(tokens.clone()) {
        Ok(n) => Ok(n.to_token_stream()),
        Err(e) => Err(Fault::Grammar(e)),
    }
}

/// What the snippet reserializes to when it parses as this member
/// kind: a function of its tokens.
pub uninterp spec fn foreign_item_type_reparse(t: proc_macro2::TokenStream) -> Option<Seq<int>>;

/// Relies on `syn::parse2::<syn::ForeignItemType>`: checks the snippet
/// is a foreign type and reserializes it.
#[verifier::external_body]
pub(crate) fn reparse_foreign_item_type(
    tokens: &proc_macro2::TokenStream,
) -> (r: Result<proc_macro2::TokenStream, Fault>)
    ensures
        r matches Ok(out) ==> foreign_item_type_reparse(*tokens) == Some(ts_trees(out)),
        r matches Err(e) ==> foreign_item_type_reparse(*tokens) is None && e matches Fault::Grammar(_),
{
    match syn::parse2::<syn::ForeignItemType>(tokens.clone()) {
        Ok(n) => Ok(n.to_token_stream()),
        Err(e) => Err(Fault::Grammar(e)),
    }
}

/// What the snippet reserializes to when it parses as this member
/// kind: a function of its tokens.
pub uninterp spec fn foreign_item_macro_reparse(t: proc_macro2::TokenStream) -> Option<Seq<int>>;

/// Relies on `syn::parse2::<syn::ForeignItemMacro>`: checks the snippet
/// is a foreign macro invocation and reserializes it.
#[verifier::external_body]
pub(crate) fn reparse_foreign_item_macro(
    tokens: &proc_macro2::TokenStream,
) -> (r: Result<proc_macro2::TokenStream, Fault>)
    ensures
        r matches Ok(out) ==> foreign_item_macro_reparse(*tokens) == Some(ts_trees(out)),
        r matches Err(e) ==> foreign_item_macro_reparse(*tokens) is None && e matches Fault::Grammar(_),
{
    match syn::parse2::<syn::ForeignItemMacro>(tokens.clone()) {
        Ok(n) => Ok(n.to_token_stream()),
        Err(e) => Err(Fault::Grammar(e)),
    }
}

/// What the snippet reserializes to when it parses as this member
/// kind: a function of its tokens.
pub uninterp spec fn impl_item_type_reparse(t: proc_macro2::TokenStream) -> Option<Seq<int>>;

/// Relies on `syn::parse2::<syn::ImplItemType>`: checks the snippet is
/// an associated type in an impl and reserializes it.
#[verifier::external_body]
pub(crate) fn reparse_impl_item_type(
    tokens: &proc_macro2::TokenStream,
) -> (r: Result<proc_macro2::TokenStream, Fault>)
    ensures
        r matches Ok(out) ==> impl_item_type_reparse(*tokens) == Some(ts_trees(out)),
        r matches Err(e) ==> impl_item_type_reparse(*tokens) is None && e matches Fault::Grammar(_),
{
    match syn::parse2::<syn::ImplItemType>(tokens.clone()) {
        Ok(n) => Ok(n.to_token_stream()),
        Err(e) => Err(Fault::Grammar(e)),
    }
}

/// What the snippet reserializes to when it parses as this member
/// kind: a function of its tokens.
pub uninterp spec fn impl_item_macro_reparse(t: proc_macro2::TokenStream) -> Option<Seq<int>>;

/// Relies on `syn::parse2::<syn::ImplItemMacro>`: checks the snippet is
/// a macro invocation in an impl and reserializes it.
#[verifier::external_body]
pub(crate) fn reparse_impl_item_macro(
    tokens: &proc_macro2::TokenStream,
) -> (r: Result<proc_macro2::TokenStream, Fault>)
    ensures
        r matches Ok(out) ==> impl_item_macro_reparse(*tokens) == Some(ts_trees(out)),
        r matches Err(e) ==> impl_item_macro_reparse(*tokens) is None && e matches Fault::Grammar(_),
{
    match syn::parse2::<syn::ImplItemMacro>(tokens.clone()) {
        Ok(n) => Ok(n.to_token_stream()),
        Err(e) => Err(Fault::Grammar(e)),
    }
}

/// What the snippet reserializes to when it parses as this member
/// kind: a function of its tokens.
pub uninterp spec fn trait_item_type_reparse(t: proc_macro2::TokenStream) -> Option<Seq<int>>;

/// Relies on `syn::parse2::<syn::TraitItemType>`: checks the snippet is
/// an associated type in a trait and reserializes it.
#[verifier::external_body]
pub(crate) fn reparse_trait_item_type(
    tokens: &proc_macro2::TokenStream,
) -> (r: Result<proc_macro2::TokenStream, Fault>)
    ensures
        r matches Ok(out) ==> trait_item_type_reparse(*tokens) == Some(ts_trees(out)),
        r matches Err(e) ==> trait_item_type_reparse(*tokens) is None && e matches Fault::Grammar(_),
{
    match syn::parse2::<syn::TraitItemType>(tokens.clone()) {
        Ok(n) => Ok(n.to_token_stream()),
        Err(e) => Err(Fault::Grammar(e)),
    }
}

/// What the snippet reserializes to when it parses as this member
/// kind: a function of its tokens.
pub uninterp spec fn trait_item_macro_reparse(t: proc_macro2::TokenStream) -> Option<Seq<int>>;

/// Relies on `syn::parse2::<syn::TraitItemMacro>`: checks the snippet is
/// a macro invocation in a trait and reserializes it.
#[verifier::external_body]
pub(crate) fn reparse_trait_item_macro(
    tokens: &proc_macro2::TokenStream,
) -> (r: Result<proc_macro2::TokenStream, Fault>)
    ensures
        r matches Ok(out) ==> trait_item_macro_reparse(*tokens) == Some(ts_trees(out)),
        r matches Err(e) ==> trait_item_macro_reparse(*tokens) is None && e matches Fault::Grammar(_),
{
    match syn::parse2::<syn::TraitItemMacro>(tokens.clone()) {
        Ok(n) => Ok(n.to_token_stream()),
        Err(e) => Err(Fault::Grammar(e)),
    }
}

} // verus!
