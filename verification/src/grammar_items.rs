use vstd::prelude::*;
use proc_macro2::TokenStream;
use quote::ToTokens;
use syn::Item;
use crate::errors::Fault;
use crate::parts::{LeadChild, ListParts, WrapParts};
use crate::tokens::ts_trees;

verus! {

/// A top-level item parsed at the union level, still unclassified: the
/// opaque `syn::Item`.
#[verifier::external_type_specification]
#[verifier::external_body]
pub struct ExItem(syn::Item);

/// A classified top-level item: each catalog-known variant with its own
/// tokens, an opaque verbatim run, or any other form kept whole.
pub enum ItemShape {
    Const(proc_macro2::TokenStream),
    Enum(proc_macro2::TokenStream),
    ExternCrate(proc_macro2::TokenStream),
    Fn(proc_macro2::TokenStream),
    ForeignMod(proc_macro2::TokenStream),
    Impl(proc_macro2::TokenStream),
    Macro(proc_macro2::TokenStream),
    Macro2(proc_macro2::TokenStream),
    Mod(proc_macro2::TokenStream),
    Static(proc_macro2::TokenStream),
    Struct(proc_macro2::TokenStream),
    Trait(proc_macro2::TokenStream),
    TraitAlias(proc_macro2::TokenStream),
    Type(proc_macro2::TokenStream),
    Union(proc_macro2::TokenStream),
    Use(proc_macro2::TokenStream),
    Verbatim(proc_macro2::TokenStream),
    /// A form the catalog does not special-case.
    Other(proc_macro2::TokenStream),
}

/// The parts of a compilation unit: its inner attributes verbatim, then
/// its items, each a rewritable child.
pub struct FileParts {
    /// The unit's own attributes, verbatim.
    pub head: proc_macro2::TokenStream,
    /// The items, in declaration order.
    pub items: Vec<proc_macro2::TokenStream>,
}

/// The parts of an enum variant: everything through the fields verbatim,
/// then the optional `= expr` discriminant whose expression is rewritable.
pub struct VariantParts {
    /// Attributes, name and fields, verbatim.
    pub head: proc_macro2::TokenStream,
    /// The discriminant, if any: its `=` lead and its expression.
    pub disc: Option<LeadChild>,
}

/// The parts of a module item: its header verbatim, the optional braced
/// body as rewritable items, and the optional trailing semicolon.
pub struct ModParts {
    /// Attributes, visibility, `mod` and the name, verbatim.
    pub head: proc_macro2::TokenStream,
    /// The items of an inline body, in declaration order.
    pub content: Option<Vec<proc_macro2::TokenStream>>,
    /// The trailing semicolon, if any.
    pub tail: proc_macro2::TokenStream,
}

/// Whether a snippet parses as a top-level item: a function of its
/// tokens.
pub uninterp spec fn item_parse_ok(t: proc_macro2::TokenStream) -> bool;

/// Relies on `syn::parse2::<syn::Item>`: parses the snippet as one
/// top-level item.
#[verifier::external_body]
pub(crate) fn parse_item(tokens: &proc_macro2::TokenStream) -> (r: Result<syn::Item, Fault>)
    ensures
        r matches Ok(_) ==> item_parse_ok(*tokens),
        r matches Err(e) ==> !item_parse_ok(*tokens) && e matches Fault::Grammar(_),
{
    match syn::parse2::<syn::Item>(tokens.clone()) {
        Ok(n) => Ok(n),
        Err(e) => Err(Fault::Grammar(e)),
    }
}

/// Relies on `quote::ToTokens`: tells one run of `syn::Item`'s
/// variants apart, handing each back as its own tokens.
#[verifier::external_body]
pub(crate) fn item_shape_a(item: &Item) -> Option<ItemShape> {
    match item {
        Item::Const(n) => Some(ItemShape::Const(n.to_token_stream())),
        Item::Enum(n) => Some(ItemShape::Enum(n.to_token_stream())),
        Item::ExternCrate(n) => Some(ItemShape::ExternCrate(n.to_token_stream())),
        Item::Fn(n) => Some(ItemShape::Fn(n.to_token_stream())),
        Item::ForeignMod(n) => Some(ItemShape::ForeignMod(n.to_token_stream())),
        Item::Impl(n) => Some(ItemShape::Impl(n.to_token_stream())),
        _ => None,
    }
}

/// Relies on `quote::ToTokens`: tells one run of `syn::Item`'s
/// variants apart, handing each back as its own tokens.
#[verifier::external_body]
pub(crate) fn item_shape_b(item: &Item) -> Option<ItemShape> {
    match item {
        Item::Macro(n) => Some(ItemShape::Macro(n.to_token_stream())),
        Item::Macro2(n) => Some(ItemShape::Macro2(n.to_token_stream())),
        Item::Mod(n) => Some(ItemShape::Mod(n.to_token_stream())),
        Item::Static(n) => Some(ItemShape::Static(n.to_token_stream())),
        Item::Struct(n) => Some(ItemShape::Struct(n.to_token_stream())),
        Item::Trait(n) => Some(ItemShape::Trait(n.to_token_stream())),
        _ => None,
    }
}

/// Relies on `quote::ToTokens`: tells the variants of `syn::Item` apart
/// that the other classifiers do not, handing each back as its own
/// tokens.
#[verifier::external_body]
pub(crate) fn item_shape_c(item: &Item) -> ItemShape {
    match item {
        Item::TraitAlias(n) => ItemShape::TraitAlias(n.to_token_stream()),
        Item::Type(n) => ItemShape::Type(n.to_token_stream()),
        Item::Union(n) => ItemShape::Union(n.to_token_stream()),
        Item::Use(n) => ItemShape::Use(n.to_token_stream()),
        Item::Verbatim(ts) => ItemShape::Verbatim(ts.clone()),
        other => ItemShape::Other(other.to_token_stream()),
    }
}

/// Classifies a parsed top-level item, trying each run of variants in
/// turn.
pub(crate) fn item_shape(item: &syn::Item) -> ItemShape {
    if let Some(s) = item_shape_a(item) {
        return s;
    }
    if let Some(s) = item_shape_b(item) {
        return s;
    }
    item_shape_c(item)
}

/// How a snippet splits as a compilation unit, when it parses as one:
/// the trees of its attribute run and of each item, a function of its
/// tokens.
pub uninterp spec fn file_model(t: proc_macro2::TokenStream) -> Option<(Seq<int>, Seq<Seq<int>>)>;

/// Relies on `syn::parse2::<syn::File>` and `quote::ToTokens`: splits a
/// compilation unit into its attributes and its items.
#[verifier::external_body]
pub(crate) fn parse_file(tokens: &proc_macro2::TokenStream) -> (r: Result<FileParts, Fault>)
    ensures
        r matches Ok(p) ==> file_model(*tokens) == Some(
            (ts_trees(p.head), p.items@.map_values(|e: proc_macro2::TokenStream| ts_trees(e))),
        ),
        r matches Err(e) ==> file_model(*tokens) is None && e matches Fault::Grammar(_),
{
    let n: syn::File = match syn::parse2(tokens.clone()) { Ok(n) => n, Err(e) => return Err(Fault::Grammar(e)) };
    let mut head = TokenStream::new();
    for a in &n.attrs { a.to_tokens(&mut head); }
    let items = n.items.iter().map(|i| i.to_token_stream()).collect();
    Ok(FileParts { head, items })
}

/// How a snippet splits as a constant item, when it parses as one: the trees of
/// its verbatim head, its rewritable child and its verbatim tail, a
/// function of its tokens.
pub uninterp spec fn item_const_model(t: proc_macro2::TokenStream) -> Option<(Seq<int>, Seq<int>, Seq<int>)>;

/// Relies on `syn::parse2::<syn::ItemConst>` and `quote::ToTokens`:
/// splits a constant item around its rewritable expression.
#[verifier::external_body]
pub(crate) fn parse_item_const(tokens: &proc_macro2::TokenStream) -> (r: Result<WrapParts, Fault>)
    ensures
        r matches Ok(p) ==> item_const_model(*tokens) == Some(
            (ts_trees(p.head), ts_trees(p.inner), ts_trees(p.tail)),
        ),
        r matches Err(e) ==> item_const_model(*tokens) is None && e matches Fault::Grammar(_),
{
    let n: syn::ItemConst = match syn::parse2(tokens.clone()) { Ok(n) => n, Err(e) => return Err(Fault::Grammar(e)) };
    let mut h = TokenStream::new();
    for a in &n.attrs { a.to_tokens(&mut h); }
    n.vis.to_tokens(&mut h);
    n.const_token.to_tokens(&mut h);
    n.ident.to_tokens(&mut h);
    n.colon_token.to_tokens(&mut h);
    n.ty.to_tokens(&mut h);
    n.eq_token.to_tokens(&mut h);
    Ok(WrapParts { head: h, inner: n.expr.to_token_stream(), tail: n.semi_token.to_token_stream() })
}

/// How a snippet splits as an enum item, when it parses as one: the trees of
/// its verbatim head and of each rewritable child, a function of its
/// tokens.
pub uninterp spec fn item_enum_model(t: proc_macro2::TokenStream) -> Option<(Seq<int>, Seq<Seq<int>>)>;

/// Relies on `syn::parse2::<syn::ItemEnum>` and `quote::ToTokens`: splits
/// an enum item into its header and its variants.
#[verifier::external_body]
pub(crate) fn parse_item_enum(tokens: &proc_macro2::TokenStream) -> (r: Result<ListParts, Fault>)
    ensures
        r matches Ok(p) ==> item_enum_model(*tokens) == Some(
            (ts_trees(p.head), p.elems@.map_values(|e: proc_macro2::TokenStream| ts_trees(e))),
        ),
        r matches Err(e) ==> item_enum_model(*tokens) is None && e matches Fault::Grammar(_),
{
    let n: syn::ItemEnum = match syn::parse2(tokens.clone()) { Ok(n) => n, Err(e) => return Err(Fault::Grammar(e)) };
    let mut h = TokenStream::new();
    for a in &n.attrs { a.to_tokens(&mut h); }
    n.vis.to_tokens(&mut h);
    n.enum_token.to_tokens(&mut h);
    n.ident.to_tokens(&mut h);
    n.generics.to_tokens(&mut h);
    n.generics.where_clause.to_tokens(&mut h);
    let elems = n.variants.iter().map(|v| v.to_token_stream()).collect();
    Ok(ListParts { head: h, elems, tail: TokenStream::new() })
}

/// How a snippet splits as an enum variant, when it parses as one: the
/// trees of its verbatim head and of its optional discriminant's lead
/// and expression, a function of its tokens.
pub uninterp spec fn variant_model(t: proc_macro2::TokenStream) -> Option<(Seq<int>, Option<(Seq<int>, Seq<int>)>)>;

/// Relies on `syn::parse2::<syn::Variant>` and `quote::ToTokens`: splits
/// an enum variant around its optional discriminant expression.
#[verifier::external_body]
pub(crate) fn parse_variant(tokens: &proc_macro2::TokenStream) -> (r: Result<VariantParts, Fault>)
    ensures
        r matches Ok(p) ==> (variant_model(*tokens) matches Some(m) && m.0 == ts_trees(p.head)
            && (p.disc matches Some(d) ==> m.1 == Some((ts_trees(d.lead), ts_trees(d.child))))
            && (p.disc is None ==> m.1 is None)),
        r matches Err(e) ==> variant_model(*tokens) is None && e matches Fault::Grammar(_),
{
    let n: syn::Variant = match syn::parse2(tokens.clone()) { Ok(n) => n, Err(e) => return Err(Fault::Grammar(e)) };
    let mut h = TokenStream::new();
    for a in &n.attrs { a.to_tokens(&mut h); }
    n.ident.to_tokens(&mut h);
    n.fields.to_tokens(&mut h);
    let disc = n.discriminant.as_ref().map(
        |(eq, e)| LeadChild { lead: eq.to_token_stream(), child: e.to_token_stream() },
    );
    Ok(VariantParts { head: h, disc })
}

/// How a snippet splits as a function item, when it parses as one: the trees of
/// its verbatim head, its rewritable child and its verbatim tail, a
/// function of its tokens.
pub uninterp spec fn item_fn_model(t: proc_macro2::TokenStream) -> Option<(Seq<int>, Seq<int>, Seq<int>)>;

/// Relies on `syn::parse2::<syn::ItemFn>` and `quote::ToTokens`: splits a
/// function item around its rewritable body block.
#[verifier::external_body]
pub(crate) fn parse_item_fn(tokens: &proc_macro2::TokenStream) -> (r: Result<WrapParts, Fault>)
    ensures
        r matches Ok(p) ==> item_fn_model(*tokens) == Some(
            (ts_trees(p.head), ts_trees(p.inner), ts_trees(p.tail)),
        ),
        r matches Err(e) ==> item_fn_model(*tokens) is None && e matches Fault::Grammar(_),
{
    let n: syn::ItemFn = match syn::parse2(tokens.clone()) { Ok(n) => n, Err(e) => return Err(Fault::Grammar(e)) };
    let mut h = TokenStream::new();
    for a in &n.attrs { a.to_tokens(&mut h); }
    n.vis.to_tokens(&mut h);
    n.sig.to_tokens(&mut h);
    Ok(WrapParts { head: h, inner: n.block.to_token_stream(), tail: TokenStream::new() })
}

/// How a snippet splits as a foreign module, when it parses as one: the trees of
/// its verbatim head and of each rewritable child, a function of its
/// tokens.
pub uninterp spec fn item_foreign_mod_model(t: proc_macro2::TokenStream) -> Option<(Seq<int>, Seq<Seq<int>>)>;

/// Relies on `syn::parse2::<syn::ItemForeignMod>` and `quote::ToTokens`:
/// splits a foreign module into its header and its foreign items.
#[verifier::external_body]
pub(crate) fn parse_item_foreign_mod(tokens: &proc_macro2::TokenStream) -> (r: Result<ListParts, Fault>)
    ensures
        r matches Ok(p) ==> item_foreign_mod_model(*tokens) == Some(
            (ts_trees(p.head), p.elems@.map_values(|e: proc_macro2::TokenStream| ts_trees(e))),
        ),
        r matches Err(e) ==> item_foreign_mod_model(*tokens) is None && e matches Fault::Grammar(_),
{
    let n: syn::ItemForeignMod = match syn::parse2(tokens.clone()) { Ok(n) => n, Err(e) => return Err(Fault::Grammar(e)) };
    let mut h = TokenStream::new();
    for a in &n.attrs { a.to_tokens(&mut h); }
    n.abi.to_tokens(&mut h);
    let elems = n.items.iter().map(|i| i.to_token_stream()).collect();
    Ok(ListParts { head: h, elems, tail: TokenStream::new() })
}

/// An impl item, parsed but not yet decomposed: the opaque
/// `syn::ItemImpl`.
#[verifier::external_type_specification]
#[verifier::external_body]
pub struct ExItemImpl(syn::ItemImpl);

/// The verbatim header an impl item carries, as a function of the
/// parsed node.
pub uninterp spec fn item_impl_head_of(n: syn::ItemImpl) -> Seq<int>;

/// The verbatim header of a snippet that parses as an impl item: a
/// function of its tokens.
pub uninterp spec fn item_impl_model(t: proc_macro2::TokenStream) -> Option<Seq<int>>;

/// Relies on `syn::parse2::<syn::ItemImpl>`: parses the snippet as an
/// impl item.
#[verifier::external_body]
pub(crate) fn parse_item_impl(tokens: &proc_macro2::TokenStream) -> (r: Result<syn::ItemImpl, Fault>)
    ensures
        r matches Ok(n) ==> item_impl_model(*tokens) == Some(item_impl_head_of(n)),
        r matches Err(e) ==> item_impl_model(*tokens) is None && e matches Fault::Grammar(_),
{
    match syn::parse2::<syn::ItemImpl>(tokens.clone()) {
        Ok(n) => Ok(n),
        Err(e) => Err(Fault::Grammar(e)),
    }
}

/// Relies on `quote::ToTokens`: an impl item's header, from the
/// attributes through the self type and where clause, verbatim.
#[verifier::external_body]
pub(crate) fn item_impl_head(n: &syn::ItemImpl) -> (r: proc_macro2::TokenStream)
    ensures
        ts_trees(r) == item_impl_head_of(*n),
{
    let mut h = TokenStream::new();
    for a in &n.attrs { a.to_tokens(&mut h); }
    n.defaultness.to_tokens(&mut h);
    n.unsafety.to_tokens(&mut h);
    n.impl_token.to_tokens(&mut h);
    n.generics.to_tokens(&mut h);
    if let Some((bang, path, for_)) = &n.trait_ { bang.to_tokens(&mut h); path.to_tokens(&mut h); for_.to_tokens(&mut h); }
    n.self_ty.to_tokens(&mut h);
    n.generics.where_clause.to_tokens(&mut h);
    h
}

/// Relies on `quote::ToTokens`: an impl item's members, each as its own
/// tokens, in declaration order.
#[verifier::external_body]
pub(crate) fn item_impl_members(n: &syn::ItemImpl) -> Vec<proc_macro2::TokenStream> {
    n.items.iter().map(|i| i.to_token_stream()).collect()
}

/// How a snippet splits as a module item, when it parses as one: the
/// trees of its verbatim head, of each item of an inline body, and of
/// its trailing semicolon, a function of its tokens.
pub uninterp spec fn item_mod_model(t: proc_macro2::TokenStream) -> Option<(Seq<int>, Option<Seq<Seq<int>>>, Seq<int>)>;

/// Relies on `syn::parse2::<syn::ItemMod>` and `quote::ToTokens`: splits
/// a module item into its header, optional body items and trailing
/// semicolon.
#[verifier::external_body]
pub(crate) fn parse_item_mod(tokens: &proc_macro2::TokenStream) -> (r: Result<ModParts, Fault>)
    ensures
        r matches Ok(p) ==> (item_mod_model(*tokens) matches Some(m) && m.0 == ts_trees(p.head)
            && (p.content matches Some(v) ==> m.1 == Some(
                v@.map_values(|e: proc_macro2::TokenStream| ts_trees(e)),
            ))
            && (p.content is None ==> m.1 is None)
            && m.2 == ts_trees(p.tail)),
        r matches Err(e) ==> item_mod_model(*tokens) is None && e matches Fault::Grammar(_),
{
    let n: syn::ItemMod = match syn::parse2(tokens.clone()) { Ok(n) => n, Err(e) => return Err(Fault::Grammar(e)) };
    let mut h = TokenStream::new();
    for a in &n.attrs { a.to_tokens(&mut h); }
    n.vis.to_tokens(&mut h);
    n.mod_token.to_tokens(&mut h);
    n.ident.to_tokens(&mut h);
    let content = n.content.as_ref().map(|(_, items)| items.iter().map(|i| i.to_token_stream()).collect());
    let mut tail = TokenStream::new();
    n.semi.to_tokens(&mut tail);
    Ok(ModParts { head: h, content, tail })
}

/// How a snippet splits as a static item, when it parses as one: the trees of
/// its verbatim head, its rewritable child and its verbatim tail, a
/// function of its tokens.
pub uninterp spec fn item_static_model(t: proc_macro2::TokenStream) -> Option<(Seq<int>, Seq<int>, Seq<int>)>;

/// Relies on `syn::parse2::<syn::ItemStatic>` and `quote::ToTokens`:
/// splits a static item around its rewritable expression.
#[verifier::external_body]
pub(crate) fn parse_item_static(tokens: &proc_macro2::TokenStream) -> (r: Result<WrapParts, Fault>)
    ensures
        r matches Ok(p) ==> item_static_model(*tokens) == Some(
            (ts_trees(p.head), ts_trees(p.inner), ts_trees(p.tail)),
        ),
        r matches Err(e) ==> item_static_model(*tokens) is None && e matches Fault::Grammar(_),
{
    let n: syn::ItemStatic = match syn::parse2(tokens.clone()) { Ok(n) => n, Err(e) => return Err(Fault::Grammar(e)) };
    let mut h = TokenStream::new();
    for a in &n.attrs { a.to_tokens(&mut h); }
    n.vis.to_tokens(&mut h);
    n.static_token.to_tokens(&mut h);
    n.mutability.to_tokens(&mut h);
    n.ident.to_tokens(&mut h);
    n.colon_token.to_tokens(&mut h);
    n.ty.to_tokens(&mut h);
    n.eq_token.to_tokens(&mut h);
    Ok(WrapParts { head: h, inner: n.expr.to_token_stream(), tail: n.semi_token.to_token_stream() })
}

/// A trait item, parsed but not yet decomposed: the opaque
/// `syn::ItemTrait`.
#[verifier::external_type_specification]
#[verifier::external_body]
pub struct ExItemTrait(syn::ItemTrait);

/// The verbatim header a trait item carries, as a function of the
/// parsed node.
pub uninterp spec fn item_trait_head_of(n: syn::ItemTrait) -> Seq<int>;

/// The verbatim header of a snippet that parses as a trait item: a
/// function of its tokens.
pub uninterp spec fn item_trait_model(t: proc_macro2::TokenStream) -> Option<Seq<int>>;

/// Relies on `syn::parse2::<syn::ItemTrait>`: parses the snippet as a
/// trait item.
#[verifier::external_body]
pub(crate) fn parse_item_trait(tokens: &proc_macro2::TokenStream) -> (r: Result<syn::ItemTrait, Fault>)
    ensures
        r matches Ok(n) ==> item_trait_model(*tokens) == Some(item_trait_head_of(n)),
        r matches Err(e) ==> item_trait_model(*tokens) is None && e matches Fault::Grammar(_),
{
    match syn::parse2::<syn::ItemTrait>(tokens.clone()) {
        Ok(n) => Ok(n),
        Err(e) => Err(Fault::Grammar(e)),
    }
}

/// Relies on `quote::ToTokens`: a trait item's header, from the
/// attributes through the supertraits and where clause, verbatim.
#[verifier::external_body]
pub(crate) fn item_trait_head(n: &syn::ItemTrait) -> (r: proc_macro2::TokenStream)
    ensures
        ts_trees(r) == item_trait_head_of(*n),
{
    let mut h = TokenStream::new();
    for a in &n.attrs { a.to_tokens(&mut h); }
    n.vis.to_tokens(&mut h);
    n.unsafety.to_tokens(&mut h);
    n.auto_token.to_tokens(&mut h);
    n.trait_token.to_tokens(&mut h);
    n.ident.to_tokens(&mut h);
    n.generics.to_tokens(&mut h);
    n.colon_token.to_tokens(&mut h);
    n.supertraits.to_tokens(&mut h);
    n.generics.where_clause.to_tokens(&mut h);
    h
}

/// Relies on `quote::ToTokens`: a trait item's members, each as its own
/// tokens, in declaration order.
#[verifier::external_body]
pub(crate) fn item_trait_members(n: &syn::ItemTrait) -> Vec<proc_macro2::TokenStream> {
    n.items.iter().map(|i| i.to_token_stream()).collect()
}

/// What the snippet reserializes to when it parses as this item kind:
/// a function of its tokens.
pub uninterp spec fn item_extern_crate_reparse(t: proc_macro2::TokenStream) -> Option<Seq<int>>;

/// Relies on `syn::parse2::<syn::ItemExternCrate>`: checks the snippet is
/// an extern-crate item and reserializes it.
#[verifier::external_body]
pub(crate) fn reparse_item_extern_crate(
    tokens: &proc_macro2::TokenStream,
) -> (r: Result<proc_macro2::TokenStream, Fault>)
    ensures
        r matches Ok(out) ==> item_extern_crate_reparse(*tokens) == Some(ts_trees(out)),
        r matches Err(e) ==> item_extern_crate_reparse(*tokens) is None && e matches Fault::Grammar(_),
{
    match syn::parse2::<syn::ItemExternCrate>(tokens.clone()) {
        Ok(n) => Ok(n.to_token_stream()),
        Err(e) => Err(Fault::Grammar(e)),
    }
}

/// What the snippet reserializes to when it parses as this item kind:
/// a function of its tokens.
pub uninterp spec fn item_macro_reparse(t: proc_macro2::TokenStream) -> Option<Seq<int>>;

/// Relies on `syn::parse2::<syn::ItemMacro>`: checks the snippet is a
/// macro-invocation item and reserializes it.
#[verifier::external_body]
pub(crate) fn reparse_item_macro(
    tokens: &proc_macro2::TokenStream,
) -> (r: Result<proc_macro2::TokenStream, Fault>)
    ensures
        r matches Ok(out) ==> item_macro_reparse(*tokens) == Some(ts_trees(out)),
        r matches Err(e) ==> item_macro_reparse(*tokens) is None && e matches Fault::Grammar(_),
{
    match syn::parse2::<syn::ItemMacro>(tokens.clone()) {
        Ok(n) => Ok(n.to_token_stream()),
        Err(e) => Err(Fault::Grammar(e)),
    }
}

/// What the snippet reserializes to when it parses as this item kind:
/// a function of its tokens.
pub uninterp spec fn item_macro2_reparse(t: proc_macro2::TokenStream) -> Option<Seq<int>>;

/// Relies on `syn::parse2::<syn::ItemMacro2>`: checks the snippet is a
/// declarative macro-definition item and reserializes it.
#[verifier::external_body]
pub(crate) fn reparse_item_macro2(
    tokens: &proc_macro2::TokenStream,
) -> (r: Result<proc_macro2::TokenStream, Fault>)
    ensures
        r matches Ok(out) ==> item_macro2_reparse(*tokens) == Some(ts_trees(out)),
        r matches Err(e) ==> item_macro2_reparse(*tokens) is None && e matches Fault::Grammar(_),
{
    match syn::parse2::<syn::ItemMacro2>(tokens.clone()) {
        Ok(n) => Ok(n.to_token_stream()),
        Err(e) => Err(Fault::Grammar(e)),
    }
}

/// What the snippet reserializes to when it parses as this item kind:
/// a function of its tokens.
pub uninterp spec fn item_struct_reparse(t: proc_macro2::TokenStream) -> Option<Seq<int>>;

/// Relies on `syn::parse2::<syn::ItemStruct>`: checks the snippet is a
/// struct item and reserializes it.
#[verifier::external_body]
pub(crate) fn reparse_item_struct(
    tokens: &proc_macro2::TokenStream,
) -> (r: Result<proc_macro2::TokenStream, Fault>)
    ensures
        r matches Ok(out) ==> item_struct_reparse(*tokens) == Some(ts_trees(out)),
        r matches Err(e) ==> item_struct_reparse(*tokens) is None && e matches Fault::Grammar(_),
{
    match syn::parse2::<syn::ItemStruct>(tokens.clone()) {
        Ok(n) => Ok(n.to_token_stream()),
        Err(e) => Err(Fault::Grammar(e)),
    }
}

/// What the snippet reserializes to when it parses as this item kind:
/// a function of its tokens.
pub uninterp spec fn item_trait_alias_reparse(t: proc_macro2::TokenStream) -> Option<Seq<int>>;

/// Relies on `syn::parse2::<syn::ItemTraitAlias>`: checks the snippet is
/// a trait-alias item and reserializes it.
#[verifier::external_body]
pub(crate) fn reparse_item_trait_alias(
    tokens: &proc_macro2::TokenStream,
) -> (r: Result<proc_macro2::TokenStream, Fault>)
    ensures
        r matches Ok(out) ==> item_trait_alias_reparse(*tokens) == Some(ts_trees(out)),
        r matches Err(e) ==> item_trait_alias_reparse(*tokens) is None && e matches Fault::Grammar(_),
{
    match syn::parse2::<syn::ItemTraitAlias>(tokens.clone()) {
        Ok(n) => Ok(n.to_token_stream()),
        Err(e) => Err(Fault::Grammar(e)),
    }
}

/// What the snippet reserializes to when it parses as this item kind:
/// a function of its tokens.
pub uninterp spec fn item_type_reparse(t: proc_macro2::TokenStream) -> Option<Seq<int>>;

/// Relies on `syn::parse2::<syn::ItemType>`: checks the snippet is a
/// type-alias item and reserializes it.
#[verifier::external_body]
pub(crate) fn reparse_item_type(
    tokens: &proc_macro2::TokenStream,
) -> (r: Result<proc_macro2::TokenStream, Fault>)
    ensures
        r matches Ok(out) ==> item_type_reparse(*tokens) == Some(ts_trees(out)),
        r matches Err(e) ==> item_type_reparse(*tokens) is None && e matches Fault::Grammar(_),
{
    match syn::parse2::<syn::ItemType>(tokens.clone()) {
        Ok(n) => Ok(n.to_token_stream()),
        Err(e) => Err(Fault::Grammar(e)),
    }
}

/// What the snippet reserializes to when it parses as this item kind:
/// a function of its tokens.
pub uninterp spec fn item_union_reparse(t: proc_macro2::TokenStream) -> Option<Seq<int>>;

/// Relies on `syn::parse2::<syn::ItemUnion>`: checks the snippet is a
/// union item and reserializes it.
#[verifier::external_body]
pub(crate) fn reparse_item_union(
    tokens: &proc_macro2::TokenStream,
) -> (r: Result<proc_macro2::TokenStream, Fault>)
    ensures
        r matches Ok(out) ==> item_union_reparse(*tokens) == Some(ts_trees(out)),
        r matches Err(e) ==> item_union_reparse(*tokens) is None && e matches Fault::Grammar(_),
{
    match syn::parse2::<syn::ItemUnion>(tokens.clone()) {
        Ok(n) => Ok(n.to_token_stream()),
        Err(e) => Err(Fault::Grammar(e)),
    }
}

/// What the snippet reserializes to when it parses as this item kind:
/// a function of its tokens.
pub uninterp spec fn item_use_reparse(t: proc_macro2::TokenStream) -> Option<Seq<int>>;

/// Relies on `syn::parse2::<syn::ItemUse>`: checks the snippet is an
/// import item and reserializes it.
#[verifier::external_body]
pub(crate) fn reparse_item_use(
    tokens: &proc_macro2::TokenStream,
) -> (r: Result<proc_macro2::TokenStream, Fault>)
    ensures
        r matches Ok(out) ==> item_use_reparse(*tokens) == Some(ts_trees(out)),
        r matches Err(e) ==> item_use_reparse(*tokens) is None && e matches Fault::Grammar(_),
{
    match syn::parse2::<syn::ItemUse>(tokens.clone()) {
        Ok(n) => Ok(n.to_token_stream()),
        Err(e) => Err(Fault::Grammar(e)),
    }
}

} // verus!
