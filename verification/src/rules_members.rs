use vstd::prelude::*;
use crate::context::Context;
use crate::engine::{Handler, Moisture};
use crate::errors::{Fault, config_free};
use crate::grammar_members::{
    ForeignItemShape, ImplItemShape, TraitItemShape, foreign_item_fn_reparse,
    foreign_item_macro_reparse, foreign_item_parse_ok, foreign_item_shape,
    foreign_item_static_reparse, foreign_item_type_reparse, impl_item_const_model,
    impl_item_macro_reparse, impl_item_method_model, impl_item_parse_ok, impl_item_shape,
    impl_item_type_reparse, parse_foreign_item, parse_impl_item, parse_impl_item_const,
    parse_impl_item_method, parse_trait_item, parse_trait_item_const, parse_trait_item_method,
    reparse_foreign_item_fn, reparse_foreign_item_macro, reparse_foreign_item_static,
    reparse_foreign_item_type, reparse_impl_item_macro, reparse_impl_item_type,
    reparse_trait_item_macro, reparse_trait_item_type, trait_item_const_model,
    trait_item_macro_reparse, trait_item_method_model, trait_item_parse_ok, trait_item_shape,
    trait_item_type_reparse,
};
use crate::kinds::CallbackType;
use crate::tokens::{ts_append, ts_trees};

verus! {

impl<H: Handler> Moisture<H> {
    /// Default rule for the foreign-member union: classifies the member
    /// and routes it onward.
    pub fn foreign_item(
        &self,
        context: &Context,
        tokens: proc_macro2::TokenStream,
        fuel: u64,
    ) -> (r: Result<proc_macro2::TokenStream, Fault>)
        requires
            self.wf(),
        ensures
            self.all_defaults() ==> config_free(r),
            !foreign_item_parse_ok(tokens) ==> (r matches Err(e) && e matches Fault::Grammar(_)),
        decreases fuel, 2int,
    {
        let parsed = match parse_foreign_item(&tokens) {
            Ok(p) => p,
            Err(e) => {
                return Err(e);
            }
        };
        let shape = foreign_item_shape(&parsed);
        self.route_foreign_item(context, shape, fuel)
    }

    /// Routes a classified foreign member: a variant with a dedicated
    /// catalog kind is re-dispatched at that kind, a verbatim run at the
    /// opaque-snippet kind; a variant the catalog does not special-case
    /// is handed back unchanged, its children never explored.
    pub fn route_foreign_item(
        &self,
        context: &Context,
        shape: ForeignItemShape,
        fuel: u64,
    ) -> (r: Result<proc_macro2::TokenStream, Fault>)
        requires
            self.wf(),
        ensures
            shape matches ForeignItemShape::Other(t)
                ==> r == Ok::<proc_macro2::TokenStream, Fault>(t),
            self.all_defaults() ==> config_free(r),
        decreases fuel, 1int,
    {
        match shape {
            ForeignItemShape::Fn(t) => self.callback(context, CallbackType::ForeignItemFn, t, fuel),
            ForeignItemShape::Static(t) => self.callback(context, CallbackType::ForeignItemStatic, t, fuel),
            ForeignItemShape::Type(t) => self.callback(context, CallbackType::ForeignItemType, t, fuel),
            ForeignItemShape::Macro(t) => self.callback(context, CallbackType::ForeignItemMacro, t, fuel),
            ForeignItemShape::Verbatim(t) => self.callback(context, CallbackType::Verbatim, t, fuel),
            ForeignItemShape::Other(t) => Ok(t),
        }
    }

    /// Default rule for a foreign function: reparse it, then hand it back
    /// unchanged. It exists purely as an override point.
    pub fn foreign_item_fn(
        &self,
        _context: &Context,
        tokens: proc_macro2::TokenStream,
        _fuel: u64,
    ) -> (r: Result<proc_macro2::TokenStream, Fault>)
        requires
            self.wf(),
        ensures
            foreign_item_fn_reparse(tokens) matches Some(c) ==> (r matches Ok(out) && ts_trees(out) == c),
            foreign_item_fn_reparse(tokens) is None ==> (r matches Err(e) && e matches Fault::Grammar(_)),
    {
        reparse_foreign_item_fn(&tokens)
    }

    /// Default rule for a foreign static: reparse it, then hand it back
    /// unchanged. It exists purely as an override point.
    pub fn foreign_item_static(
        &self,
        _context: &Context,
        tokens: proc_macro2::TokenStream,
        _fuel: u64,
    ) -> (r: Result<proc_macro2::TokenStream, Fault>)
        requires
            self.wf(),
        ensures
            foreign_item_static_reparse(tokens) matches Some(c) ==> (r matches Ok(out) && ts_trees(out) == c),
            foreign_item_static_reparse(tokens) is None ==> (r matches Err(e) && e matches Fault::Grammar(_)),
    {
        reparse_foreign_item_static(&tokens)
    }

    /// Default rule for a foreign type: reparse it, then hand it back
    /// unchanged. It exists purely as an override point.
    pub fn foreign_item_type(
        &self,
        _context: &Context,
        tokens: proc_macro2::TokenStream,
        _fuel: u64,
    ) -> (r: Result<proc_macro2::TokenStream, Fault>)
        requires
            self.wf(),
        ensures
            foreign_item_type_reparse(tokens) matches Some(c) ==> (r matches Ok(out) && ts_trees(out) == c),
            foreign_item_type_reparse(tokens) is None ==> (r matches Err(e) && e matches Fault::Grammar(_)),
    {
        reparse_foreign_item_type(&tokens)
    }

    /// Default rule for a foreign macro invocation: reparse it, then hand
    /// it back unchanged; its contents stay opaque.
    pub fn foreign_item_macro(
        &self,
        _context: &Context,
        tokens: proc_macro2::TokenStream,
        _fuel: u64,
    ) -> (r: Result<proc_macro2::TokenStream, Fault>)
        requires
            self.wf(),
        ensures
            foreign_item_macro_reparse(tokens) matches Some(c) ==> (r matches Ok(out) && ts_trees(out) == c),
            foreign_item_macro_reparse(tokens) is None ==> (r matches Err(e) && e matches Fault::Grammar(_)),
    {
        reparse_foreign_item_macro(&tokens)
    }

    /// Default rule for the impl-member union: classifies the member and
    /// routes it onward.
    pub fn impl_item(
        &self,
        context: &Context,
        tokens: proc_macro2::TokenStream,
        fuel: u64,
    ) -> (r: Result<proc_macro2::TokenStream, Fault>)
        requires
            self.wf(),
        ensures
            self.all_defaults() ==> config_free(r),
            !impl_item_parse_ok(tokens) ==> (r matches Err(e) && e matches Fault::Grammar(_)),
        decreases fuel, 2int,
    {
        let parsed = match parse_impl_item(&tokens) {
            Ok(p) => p,
            Err(e) => {
                return Err(e);
            }
        };
        let shape = impl_item_shape(&parsed);
        self.route_impl_item(context, shape, fuel)
    }

    /// Routes a classified impl member: a variant with a dedicated
    /// catalog kind is re-dispatched at that kind, a verbatim run at the
    /// opaque-snippet kind; a variant the catalog does not special-case
    /// is handed back unchanged, its children never explored.
    pub fn route_impl_item(
        &self,
        context: &Context,
        shape: ImplItemShape,
        fuel: u64,
    ) -> (r: Result<proc_macro2::TokenStream, Fault>)
        requires
            self.wf(),
        ensures
            shape matches ImplItemShape::Other(t)
                ==> r == Ok::<proc_macro2::TokenStream, Fault>(t),
            self.all_defaults() ==> config_free(r),
        decreases fuel, 1int,
    {
        match shape {
            ImplItemShape::Const(t) => self.callback(context, CallbackType::ImplItemConst, t, fuel),
            ImplItemShape::Method(t) => self.callback(context, CallbackType::ImplItemMethod, t, fuel),
            ImplItemShape::Type(t) => self.callback(context, CallbackType::ImplItemType, t, fuel),
            ImplItemShape::Macro(t) => self.callback(context, CallbackType::ImplItemMacro, t, fuel),
            ImplItemShape::Verbatim(t) => self.callback(context, CallbackType::Verbatim, t, fuel),
            ImplItemShape::Other(t) => Ok(t),
        }
    }

    /// Default rule for an impl constant: header, type and punctuation
    /// are kept verbatim; the value expression is dispatched.
    pub fn impl_item_const(
        &self,
        context: &Context,
        tokens: proc_macro2::TokenStream,
        fuel: u64,
    ) -> (r: Result<proc_macro2::TokenStream, Fault>)
        requires
            self.wf(),
        ensures
            self.all_defaults() ==> config_free(r),
            impl_item_const_model(tokens) is None ==> (r matches Err(e) && e matches Fault::Grammar(_)),
            r matches Ok(out) ==> (impl_item_const_model(tokens) matches Some(m) && exists|mid: Seq<int>|
                ts_trees(out) == m.0 + mid + m.2),
        decreases fuel, 2int,
    {
        let p = match parse_impl_item_const(&tokens) {
            Ok(p) => p,
            Err(e) => {
                return Err(e);
            }
        };
        let expr = match self.callback(context, CallbackType::Expr, p.inner, fuel) {
            Ok(t) => t,
            Err(e) => {
                return Err(e);
            }
        };
        let mut out = p.head;
        ts_append(&mut out, expr);
        ts_append(&mut out, p.tail);
        proof {
            assert(impl_item_const_model(tokens) matches Some(m) && ts_trees(out) == m.0
                + ts_trees(expr) + m.2);
        }
        Ok(out)
    }

    /// Default rule for an impl method: attributes, visibility and
    /// signature are kept verbatim; the body block is dispatched.
    pub fn impl_item_method(
        &self,
        context: &Context,
        tokens: proc_macro2::TokenStream,
        fuel: u64,
    ) -> (r: Result<proc_macro2::TokenStream, Fault>)
        requires
            self.wf(),
        ensures
            self.all_defaults() ==> config_free(r),
            impl_item_method_model(tokens) is None ==> (r matches Err(e) && e matches Fault::Grammar(_)),
            r matches Ok(out) ==> (impl_item_method_model(tokens) matches Some(m) && exists|mid: Seq<int>|
                ts_trees(out) == m.0 + mid + m.2),
        decreases fuel, 2int,
    {
        let p = match parse_impl_item_method(&tokens) {
            Ok(p) => p,
            Err(e) => {
                return Err(e);
            }
        };
        let block = match self.callback(context, CallbackType::Block, p.inner, fuel) {
            Ok(t) => t,
            Err(e) => {
                return Err(e);
            }
        };
        let mut out = p.head;
        ts_append(&mut out, block);
        ts_append(&mut out, p.tail);
        proof {
            assert(impl_item_method_model(tokens) matches Some(m) && ts_trees(out) == m.0
                + ts_trees(block) + m.2);
        }
        Ok(out)
    }

    /// Default rule for an associated type in an impl: reparse it, then
    /// hand it back unchanged. It exists purely as an override point.
    pub fn impl_item_type(
        &self,
        _context: &Context,
        tokens: proc_macro2::TokenStream,
        _fuel: u64,
    ) -> (r: Result<proc_macro2::TokenStream, Fault>)
        requires
            self.wf(),
        ensures
            impl_item_type_reparse(tokens) matches Some(c) ==> (r matches Ok(out) && ts_trees(out) == c),
            impl_item_type_reparse(tokens) is None ==> (r matches Err(e) && e matches Fault::Grammar(_)),
    {
        reparse_impl_item_type(&tokens)
    }

    /// Default rule for a macro invocation in an impl: reparse it, then
    /// hand it back unchanged; its contents stay opaque.
    pub fn impl_item_macro(
        &self,
        _context: &Context,
        tokens: proc_macro2::TokenStream,
        _fuel: u64,
    ) -> (r: Result<proc_macro2::TokenStream, Fault>)
        requires
            self.wf(),
        ensures
            impl_item_macro_reparse(tokens) matches Some(c) ==> (r matches Ok(out) && ts_trees(out) == c),
            impl_item_macro_reparse(tokens) is None ==> (r matches Err(e) && e matches Fault::Grammar(_)),
    {
        reparse_impl_item_macro(&tokens)
    }

    /// Default rule for the trait-member union: classifies the member and
    /// routes it onward.
    pub fn trait_item(
        &self,
        context: &Context,
        tokens: proc_macro2::TokenStream,
        fuel: u64,
    ) -> (r: Result<proc_macro2::TokenStream, Fault>)
        requires
            self.wf(),
        ensures
            self.all_defaults() ==> config_free(r),
            !trait_item_parse_ok(tokens) ==> (r matches Err(e) && e matches Fault::Grammar(_)),
        decreases fuel, 2int,
    {
        let parsed = match parse_trait_item(&tokens) {
            Ok(p) => p,
            Err(e) => {
                return Err(e);
            }
        };
        let shape = trait_item_shape(&parsed);
        self.route_trait_item(context, shape, fuel)
    }

    /// Routes a classified trait member: a variant with a dedicated
    /// catalog kind is re-dispatched at that kind, a verbatim run at the
    /// opaque-snippet kind; a variant the catalog does not special-case
    /// is handed back unchanged, its children never explored.
    pub fn route_trait_item(
        &self,
        context: &Context,
        shape: TraitItemShape,
        fuel: u64,
    ) -> (r: Result<proc_macro2::TokenStream, Fault>)
        requires
            self.wf(),
        ensures
            shape matches TraitItemShape::Other(t)
                ==> r == Ok::<proc_macro2::TokenStream, Fault>(t),
            self.all_defaults() ==> config_free(r),
        decreases fuel, 1int,
    {
        match shape {
            TraitItemShape::Const(t) => self.callback(context, CallbackType::TraitItemConst, t, fuel),
            TraitItemShape::Method(t) => self.callback(context, CallbackType::TraitItemMethod, t, fuel),
            TraitItemShape::Type(t) => self.callback(context, CallbackType::TraitItemType, t, fuel),
            TraitItemShape::Macro(t) => self.callback(context, CallbackType::TraitItemMacro, t, fuel),
            TraitItemShape::Verbatim(t) => self.callback(context, CallbackType::Verbatim, t, fuel),
            TraitItemShape::Other(t) => Ok(t),
        }
    }

    /// Default rule for a trait constant: header and type are kept
    /// verbatim; the default expression, if any, is dispatched.
    pub fn trait_item_const(
        &self,
        context: &Context,
        tokens: proc_macro2::TokenStream,
        fuel: u64,
    ) -> (r: Result<proc_macro2::TokenStream, Fault>)
        requires
            self.wf(),
        ensures
            self.all_defaults() ==> config_free(r),
            trait_item_const_model(tokens) is None ==> (r matches Err(e) && e matches Fault::Grammar(_)),
            r matches Ok(out) ==> (trait_item_const_model(tokens) matches Some(m) && exists|mid: Seq<int>|
                ts_trees(out) == m.0 + mid + m.2),
        decreases fuel, 2int,
    {
        let p = match parse_trait_item_const(&tokens) {
            Ok(p) => p,
            Err(e) => {
                return Err(e);
            }
        };
        let ghost h0 = ts_trees(p.head);
        let mut out = p.head;
        match p.opt {
            Some(d) => {
                let expr = match self.callback(context, CallbackType::Expr, d.child, fuel) {
                    Ok(t) => t,
                    Err(e) => {
                        return Err(e);
                    }
                };
                let ghost l0 = ts_trees(d.lead);
                ts_append(&mut out, d.lead);
                ts_append(&mut out, expr);
                ts_append(&mut out, p.tail);
                proof {
                    assert(ts_trees(out) =~= h0 + (l0 + ts_trees(expr)) + ts_trees(p.tail));
                    assert(trait_item_const_model(tokens) matches Some(m) && ts_trees(out) == m.0 + (l0
                        + ts_trees(expr)) + m.2);
                }
            }
            None => {
                ts_append(&mut out, p.tail);
                proof {
                    assert(ts_trees(out) =~= h0 + Seq::<int>::empty() + ts_trees(p.tail));
                    assert(trait_item_const_model(tokens) matches Some(m) && ts_trees(out) == m.0
                        + Seq::<int>::empty() + m.2);
                }
            }
        }
        Ok(out)
    }

    /// Default rule for a trait method: attributes and signature are kept
    /// verbatim; the default body block, if any, is dispatched, and the
    /// trailing semicolon of a bodiless method is kept.
    pub fn trait_item_method(
        &self,
        context: &Context,
        tokens: proc_macro2::TokenStream,
        fuel: u64,
    ) -> (r: Result<proc_macro2::TokenStream, Fault>)
        requires
            self.wf(),
        ensures
            self.all_defaults() ==> config_free(r),
            trait_item_method_model(tokens) is None ==> (r matches Err(e) && e matches Fault::Grammar(_)),
            r matches Ok(out) ==> (trait_item_method_model(tokens) matches Some(m) && exists|mid: Seq<int>|
                ts_trees(out) == m.0 + mid + m.2),
        decreases fuel, 2int,
    {
        let p = match parse_trait_item_method(&tokens) {
            Ok(p) => p,
            Err(e) => {
                return Err(e);
            }
        };
        let ghost h0 = ts_trees(p.head);
        let mut out = p.head;
        match p.opt {
            Some(d) => {
                let block = match self.callback(context, CallbackType::Block, d.child, fuel) {
                    Ok(t) => t,
                    Err(e) => {
                        return Err(e);
                    }
                };
                let ghost l0 = ts_trees(d.lead);
                ts_append(&mut out, d.lead);
                ts_append(&mut out, block);
                ts_append(&mut out, p.tail);
                proof {
                    assert(ts_trees(out) =~= h0 + (l0 + ts_trees(block)) + ts_trees(p.tail));
                    assert(trait_item_method_model(tokens) matches Some(m) && ts_trees(out) == m.0 + (l0
                        + ts_trees(block)) + m.2);
                }
            }
            None => {
                ts_append(&mut out, p.tail);
                proof {
                    assert(ts_trees(out) =~= h0 + Seq::<int>::empty() + ts_trees(p.tail));
                    assert(trait_item_method_model(tokens) matches Some(m) && ts_trees(out) == m.0
                        + Seq::<int>::empty() + m.2);
                }
            }
        }
        Ok(out)
    }

    /// Default rule for an associated type in a trait: reparse it, then
    /// hand it back unchanged. It exists purely as an override point.
    pub fn trait_item_type(
        &self,
        _context: &Context,
        tokens: proc_macro2::TokenStream,
        _fuel: u64,
    ) -> (r: Result<proc_macro2::TokenStream, Fault>)
        requires
            self.wf(),
        ensures
            trait_item_type_reparse(tokens) matches Some(c) ==> (r matches Ok(out) && ts_trees(out) == c),
            trait_item_type_reparse(tokens) is None ==> (r matches Err(e) && e matches Fault::Grammar(_)),
    {
        reparse_trait_item_type(&tokens)
    }

    /// Default rule for a macro invocation in a trait: reparse it, then
    /// hand it back unchanged; its contents stay opaque.
    pub fn trait_item_macro(
        &self,
        _context: &Context,
        tokens: proc_macro2::TokenStream,
        _fuel: u64,
    ) -> (r: Result<proc_macro2::TokenStream, Fault>)
        requires
            self.wf(),
        ensures
            trait_item_macro_reparse(tokens) matches Some(c) ==> (r matches Ok(out) && ts_trees(out) == c),
            trait_item_macro_reparse(tokens) is None ==> (r matches Err(e) && e matches Fault::Grammar(_)),
    {
        reparse_trait_item_macro(&tokens)
    }
}

} // verus!
