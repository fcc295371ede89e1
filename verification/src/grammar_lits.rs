use vstd::prelude::*;
use quote::ToTokens;
use crate::errors::Fault;
use crate::kinds::CallbackType;
use crate::tokens::ts_trees;

verus! {

/// A literal parsed at the union level, still unclassified: the opaque
/// `syn::Lit`.
#[verifier::external_type_specification]
#[verifier::external_body]
pub struct ExLit(syn::Lit);

/// Whether a snippet parses as a literal: a function of its tokens.
pub uninterp spec fn lit_parse_ok(t: proc_macro2::TokenStream) -> bool;

/// Relies on `syn::parse2::<syn::Lit>`: parses the snippet as a literal.
/// A failure is the grammar capability's own error.
#[verifier::external_body]
pub(crate) fn parse_lit(tokens: &proc_macro2::TokenStream) -> (r: Result<syn::Lit, Fault>)
    ensures
        r matches Ok(_) ==> lit_parse_ok(*tokens),
        r matches Err(e) ==> !lit_parse_ok(*tokens) && e matches Fault::Grammar(_),
{
    match syn::parse2::<syn::Lit>(tokens.clone()) {
        Ok(n) => Ok(n),
        Err(e) => Err(Fault::Grammar(e)),
    }
}

/// A classified literal: each catalog-known variant with its own tokens,
/// and any other form kept whole.
pub enum LitShape {
    Str(proc_macro2::TokenStream),
    ByteStr(proc_macro2::TokenStream),
    Byte(proc_macro2::TokenStream),
    Char(proc_macro2::TokenStream),
    Int(proc_macro2::TokenStream),
    Float(proc_macro2::TokenStream),
    Bool(proc_macro2::TokenStream),
    /// A form the catalog does not special-case.
    Other(proc_macro2::TokenStream),
}

/// Relies on `quote::ToTokens` to reserialize each variant: tells the
/// variants of `syn::Lit` apart, handing each back as its own tokens.
#[verifier::external_body]
pub(crate) fn lit_shape(lit: &syn::Lit) -> LitShape {
    match lit {
        syn::Lit::Str(l) => LitShape::Str(l.to_token_stream()),
        syn::Lit::ByteStr(l) => LitShape::ByteStr(l.to_token_stream()),
        syn::Lit::Byte(l) => LitShape::Byte(l.to_token_stream()),
        syn::Lit::Char(l) => LitShape::Char(l.to_token_stream()),
        syn::Lit::Int(l) => LitShape::Int(l.to_token_stream()),
        syn::Lit::Float(l) => LitShape::Float(l.to_token_stream()),
        syn::Lit::Bool(l) => LitShape::Bool(l.to_token_stream()),
        other => LitShape::Other(other.to_token_stream()),
    }
}

/// What the snippet reserializes to when it parses as this literal
/// kind: a function of its tokens.
pub uninterp spec fn lit_str_reparse(t: proc_macro2::TokenStream) -> Option<Seq<int>>;

/// Relies on `syn::parse2::<syn::LitStr>`: checks the snippet is a string
/// literal and reserializes it.
#[verifier::external_body]
pub(crate) fn reparse_lit_str(
    tokens: &proc_macro2::TokenStream,
) -> (r: Result<proc_macro2::TokenStream, Fault>)
    ensures
        r matches Ok(out) ==> lit_str_reparse(*tokens) == Some(ts_trees(out)),
        r matches Err(e) ==> lit_str_reparse(*tokens) is None && e matches Fault::Grammar(_),
{
    match syn::parse2::<syn::LitStr>(tokens.clone()) {
        Ok(n) => Ok(n.to_token_stream()),
        Err(e) => Err(Fault::Grammar(e)),
    }
}

/// What the snippet reserializes to when it parses as this literal
/// kind: a function of its tokens.
pub uninterp spec fn lit_byte_str_reparse(t: proc_macro2::TokenStream) -> Option<Seq<int>>;

/// Relies on `syn::parse2::<syn::LitByteStr>`: checks the snippet is a
/// byte-string literal and reserializes it.
#[verifier::external_body]
pub(crate) fn reparse_lit_byte_str(
    tokens: &proc_macro2::TokenStream,
) -> (r: Result<proc_macro2::TokenStream, Fault>)
    ensures
        r matches Ok(out) ==> lit_byte_str_reparse(*tokens) == Some(ts_trees(out)),
        r matches Err(e) ==> lit_byte_str_reparse(*tokens) is None && e matches Fault::Grammar(_),
{
    match syn::parse2::<syn::LitByteStr>(tokens.clone()) {
        Ok(n) => Ok(n.to_token_stream()),
        Err(e) => Err(Fault::Grammar(e)),
    }
}

/// What the snippet reserializes to when it parses as this literal
/// kind: a function of its tokens.
pub uninterp spec fn lit_byte_reparse(t: proc_macro2::TokenStream) -> Option<Seq<int>>;

/// Relies on `syn::parse2::<syn::LitByte>`: checks the snippet is a byte
/// literal and reserializes it.
#[verifier::external_body]
pub(crate) fn reparse_lit_byte(
    tokens: &proc_macro2::TokenStream,
) -> (r: Result<proc_macro2::TokenStream, Fault>)
    ensures
        r matches Ok(out) ==> lit_byte_reparse(*tokens) == Some(ts_trees(out)),
        r matches Err(e) ==> lit_byte_reparse(*tokens) is None && e matches Fault::Grammar(_),
{
    match syn::parse2::<syn::LitByte>(tokens.clone()) {
        Ok(n) => Ok(n.to_token_stream()),
        Err(e) => Err(Fault::Grammar(e)),
    }
}

/// What the snippet reserializes to when it parses as this literal
/// kind: a function of its tokens.
pub uninterp spec fn lit_char_reparse(t: proc_macro2::TokenStream) -> Option<Seq<int>>;

/// Relies on `syn::parse2::<syn::LitChar>`: checks the snippet is a
/// character literal and reserializes it.
#[verifier::external_body]
pub(crate) fn reparse_lit_char(
    tokens: &proc_macro2::TokenStream,
) -> (r: Result<proc_macro2::TokenStream, Fault>)
    ensures
        r matches Ok(out) ==> lit_char_reparse(*tokens) == Some(ts_trees(out)),
        r matches Err(e) ==> lit_char_reparse(*tokens) is None && e matches Fault::Grammar(_),
{
    match syn::parse2::<syn::LitChar>(tokens.clone()) {
        Ok(n) => Ok(n.to_token_stream()),
        Err(e) => Err(Fault::Grammar(e)),
    }
}

/// What the snippet reserializes to when it parses as this literal
/// kind: a function of its tokens.
pub uninterp spec fn lit_int_reparse(t: proc_macro2::TokenStream) -> Option<Seq<int>>;

/// Relies on `syn::parse2::<syn::LitInt>`: checks the snippet is an
/// integer literal and reserializes it.
#[verifier::external_body]
pub(crate) fn reparse_lit_int(
    tokens: &proc_macro2::TokenStream,
) -> (r: Result<proc_macro2::TokenStream, Fault>)
    ensures
        r matches Ok(out) ==> lit_int_reparse(*tokens) == Some(ts_trees(out)),
        r matches Err(e) ==> lit_int_reparse(*tokens) is None && e matches Fault::Grammar(_),
{
    match syn::parse2::<syn::LitInt>(tokens.clone()) {
        Ok(n) => Ok(n.to_token_stream()),
        Err(e) => Err(Fault::Grammar(e)),
    }
}

/// What the snippet reserializes to when it parses as this literal
/// kind: a function of its tokens.
pub uninterp spec fn lit_float_reparse(t: proc_macro2::TokenStream) -> Option<Seq<int>>;

/// Relies on `syn::parse2::<syn::LitFloat>`: checks the snippet is a
/// floating-point literal and reserializes it.
#[verifier::external_body]
pub(crate) fn reparse_lit_float(
    tokens: &proc_macro2::TokenStream,
) -> (r: Result<proc_macro2::TokenStream, Fault>)
    ensures
        r matches Ok(out) ==> lit_float_reparse(*tokens) == Some(ts_trees(out)),
        r matches Err(e) ==> lit_float_reparse(*tokens) is None && e matches Fault::Grammar(_),
{
    match syn::parse2::<syn::LitFloat>(tokens.clone()) {
        Ok(n) => Ok(n.to_token_stream()),
        Err(e) => Err(Fault::Grammar(e)),
    }
}

/// What the snippet reserializes to when it parses as this literal
/// kind: a function of its tokens.
pub uninterp spec fn lit_bool_reparse(t: proc_macro2::TokenStream) -> Option<Seq<int>>;

/// Relies on `syn::parse2::<syn::LitBool>`: checks the snippet is a
/// boolean literal and reserializes it.
#[verifier::external_body]
pub(crate) fn reparse_lit_bool(
    tokens: &proc_macro2::TokenStream,
) -> (r: Result<proc_macro2::TokenStream, Fault>)
    ensures
        r matches Ok(out) ==> lit_bool_reparse(*tokens) == Some(ts_trees(out)),
        r matches Err(e) ==> lit_bool_reparse(*tokens) is None && e matches Fault::Grammar(_),
{
    match syn::parse2::<syn::LitBool>(tokens.clone()) {
        Ok(n) => Ok(n.to_token_stream()),
        Err(e) => Err(Fault::Grammar(e)),
    }
}

} // verus!
