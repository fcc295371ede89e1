use vstd::prelude::*;
use crate::context::Context;
use crate::engine::{Handler, Moisture};
use crate::errors::{Fault, config_free};
use crate::grammar_lits::{
    LitShape, lit_bool_reparse, lit_byte_reparse, lit_byte_str_reparse, lit_char_reparse,
    lit_float_reparse, lit_int_reparse, lit_parse_ok, lit_shape, lit_str_reparse, parse_lit,
    reparse_lit_bool, reparse_lit_byte, reparse_lit_byte_str, reparse_lit_char,
    reparse_lit_float, reparse_lit_int, reparse_lit_str,
};
use crate::kinds::CallbackType;
use crate::tokens::ts_trees;

verus! {

impl<H: Handler> Moisture<H> {
    /// Default rule for the literal union: classifies the literal and
    /// routes it onward.
    pub fn lit(
        &self,
        context: &Context,
        tokens: proc_macro2::TokenStream,
        fuel: u64,
    ) -> (r: Result<proc_macro2::TokenStream, Fault>)
        requires
            self.wf(),
        ensures
            self.all_defaults() ==> config_free(r),
            !lit_parse_ok(tokens) ==> (r matches Err(e) && e matches Fault::Grammar(_)),
        decreases fuel, 2int,
    {
        let parsed = match parse_lit(&tokens) {
            Ok(p) => p,
            Err(e) => {
                return Err(e);
            }
        };
        let shape = lit_shape(&parsed);
        self.route_lit(context, shape, fuel)
    }

    /// Routes a classified literal: a variant with a dedicated catalog
    /// kind is re-dispatched at that kind with its own tokens; a variant
    /// the catalog does not special-case is handed back unchanged, its
    /// contents never explored.
    pub fn route_lit(
        &self,
        context: &Context,
        shape: LitShape,
        fuel: u64,
    ) -> (r: Result<proc_macro2::TokenStream, Fault>)
        requires
            self.wf(),
        ensures
            shape matches LitShape::Other(t) ==> r == Ok::<proc_macro2::TokenStream, Fault>(t),
            self.all_defaults() ==> config_free(r),
        decreases fuel, 1int,
    {
        match shape {
            LitShape::Str(t) => self.callback(context, CallbackType::LitStr, t, fuel),
            LitShape::ByteStr(t) => self.callback(context, CallbackType::LitByteStr, t, fuel),
            LitShape::Byte(t) => self.callback(context, CallbackType::LitByte, t, fuel),
            LitShape::Char(t) => self.callback(context, CallbackType::LitChar, t, fuel),
            LitShape::Int(t) => self.callback(context, CallbackType::LitInt, t, fuel),
            LitShape::Float(t) => self.callback(context, CallbackType::LitFloat, t, fuel),
            LitShape::Bool(t) => self.callback(context, CallbackType::LitBool, t, fuel),
            LitShape::Other(t) => Ok(t),
        }
    }

    /// Default rule for a string literal: reparse it, then hand it back
    /// unchanged. It exists purely as an override point.
    pub fn lit_str(
        &self,
        _context: &Context,
        tokens: proc_macro2::TokenStream,
        _fuel: u64,
    ) -> (r: Result<proc_macro2::TokenStream, Fault>)
        requires
            self.wf(),
        ensures
            lit_str_reparse(tokens) matches Some(c) ==> (r matches Ok(out) && ts_trees(out) == c),
            lit_str_reparse(tokens) is None ==> (r matches Err(e) && e matches Fault::Grammar(_)),
    {
        reparse_lit_str(&tokens)
    }

    /// Default rule for a byte-string literal: reparse it, then hand it
    /// back unchanged. It exists purely as an override point.
    pub fn lit_byte_str(
        &self,
        _context: &Context,
        tokens: proc_macro2::TokenStream,
        _fuel: u64,
    ) -> (r: Result<proc_macro2::TokenStream, Fault>)
        requires
            self.wf(),
        ensures
            lit_byte_str_reparse(tokens) matches Some(c) ==> (r matches Ok(out) && ts_trees(out) == c),
            lit_byte_str_reparse(tokens) is None ==> (r matches Err(e) && e matches Fault::Grammar(_)),
    {
        reparse_lit_byte_str(&tokens)
    }

    /// Default rule for a byte literal: reparse it, then hand it back
    /// unchanged. It exists purely as an override point.
    pub fn lit_byte(
        &self,
        _context: &Context,
        tokens: proc_macro2::TokenStream,
        _fuel: u64,
    ) -> (r: Result<proc_macro2::TokenStream, Fault>)
        requires
            self.wf(),
        ensures
            lit_byte_reparse(tokens) matches Some(c) ==> (r matches Ok(out) && ts_trees(out) == c),
            lit_byte_reparse(tokens) is None ==> (r matches Err(e) && e matches Fault::Grammar(_)),
    {
        reparse_lit_byte(&tokens)
    }

    /// Default rule for a character literal: reparse it, then hand it
    /// back unchanged. It exists purely as an override point.
    pub fn lit_char(
        &self,
        _context: &Context,
        tokens: proc_macro2::TokenStream,
        _fuel: u64,
    ) -> (r: Result<proc_macro2::TokenStream, Fault>)
        requires
            self.wf(),
        ensures
            lit_char_reparse(tokens) matches Some(c) ==> (r matches Ok(out) && ts_trees(out) == c),
            lit_char_reparse(tokens) is None ==> (r matches Err(e) && e matches Fault::Grammar(_)),
    {
        reparse_lit_char(&tokens)
    }

    /// Default rule for an integer literal: reparse it, then hand it back
    /// unchanged. It exists purely as an override point.
    pub fn lit_int(
        &self,
        _context: &Context,
        tokens: proc_macro2::TokenStream,
        _fuel: u64,
    ) -> (r: Result<proc_macro2::TokenStream, Fault>)
        requires
            self.wf(),
        ensures
            lit_int_reparse(tokens) matches Some(c) ==> (r matches Ok(out) && ts_trees(out) == c),
            lit_int_reparse(tokens) is None ==> (r matches Err(e) && e matches Fault::Grammar(_)),
    {
        reparse_lit_int(&tokens)
    }

    /// Default rule for a floating-point literal: reparse it, then hand
    /// it back unchanged. It exists purely as an override point.
    pub fn lit_float(
        &self,
        _context: &Context,
        tokens: proc_macro2::TokenStream,
        _fuel: u64,
    ) -> (r: Result<proc_macro2::TokenStream, Fault>)
        requires
            self.wf(),
        ensures
            lit_float_reparse(tokens) matches Some(c) ==> (r matches Ok(out) && ts_trees(out) == c),
            lit_float_reparse(tokens) is None ==> (r matches Err(e) && e matches Fault::Grammar(_)),
    {
        reparse_lit_float(&tokens)
    }

    /// Default rule for a boolean literal: reparse it, then hand it back
    /// unchanged. It exists purely as an override point.
    pub fn lit_bool(
        &self,
        _context: &Context,
        tokens: proc_macro2::TokenStream,
        _fuel: u64,
    ) -> (r: Result<proc_macro2::TokenStream, Fault>)
        requires
            self.wf(),
        ensures
            lit_bool_reparse(tokens) matches Some(c) ==> (r matches Ok(out) && ts_trees(out) == c),
            lit_bool_reparse(tokens) is None ==> (r matches Err(e) && e matches Fault::Grammar(_)),
    {
        reparse_lit_bool(&tokens)
    }
}

} // verus!
