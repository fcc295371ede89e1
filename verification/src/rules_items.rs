use vstd::prelude::*;
use crate::context::Context;
use crate::engine::{Handler, Moisture};
use crate::errors::{Fault, config_free};
use crate::grammar_items::{
    ItemShape, file_model, item_const_model, item_enum_model, item_extern_crate_reparse,
    item_fn_model, item_foreign_mod_model, item_impl_head, item_impl_members, item_impl_model,
    item_macro2_reparse, item_macro_reparse, item_mod_model, item_parse_ok, item_shape,
    item_static_model, item_struct_reparse, item_trait_alias_reparse, item_trait_head,
    item_trait_members, item_trait_model, item_type_reparse, item_union_reparse,
    item_use_reparse, parse_file, parse_item, parse_item_const, parse_item_enum, parse_item_fn,
    parse_item_foreign_mod, parse_item_impl, parse_item_mod, parse_item_static,
    parse_item_trait, parse_variant, reparse_item_extern_crate, reparse_item_macro,
    reparse_item_macro2, reparse_item_struct, reparse_item_trait_alias, reparse_item_type,
    reparse_item_union, reparse_item_use, variant_model,
};
use crate::kinds::CallbackType;
use crate::tokens::{ts_append, ts_braced, ts_concat, ts_join_comma, ts_trees};

verus! {

impl<H: Handler> Moisture<H> {
    /// Default rule for a whole compilation unit: the unit's attributes
    /// are kept verbatim and every item is dispatched in order.
    pub fn file(
        &self,
        context: &Context,
        tokens: proc_macro2::TokenStream,
        fuel: u64,
    ) -> (r: Result<proc_macro2::TokenStream, Fault>)
        requires
            self.wf(),
        ensures
            self.all_defaults() ==> config_free(r),
            file_model(tokens) is None ==> (r matches Err(e) && e matches Fault::Grammar(_)),
            r matches Ok(out) ==> (file_model(tokens) matches Some(m) && exists|rest: Seq<int>|
                ts_trees(out) == m.0 + rest),
        decreases fuel, 2int,
    {
        let p = match parse_file(&tokens) {
            Ok(p) => p,
            Err(e) => {
                return Err(e);
            }
        };
        let items = match self.dispatch_each(context, CallbackType::Item, p.items, fuel) {
            Ok(v) => v,
            Err(e) => {
                return Err(e);
            }
        };
        let ghost h0 = ts_trees(p.head);
        let rest = ts_concat(items);
        let mut out = p.head;
        ts_append(&mut out, rest);
        proof {
            assert(file_model(tokens) matches Some(m) && ts_trees(out) == m.0 + ts_trees(rest));
        }
        Ok(out)
    }

    /// Default rule for the item union: classifies the item and routes it
    /// onward.
    pub fn item(
        &self,
        context: &Context,
        tokens: proc_macro2::TokenStream,
        fuel: u64,
    ) -> (r: Result<proc_macro2::TokenStream, Fault>)
        requires
            self.wf(),
        ensures
            self.all_defaults() ==> config_free(r),
            !item_parse_ok(tokens) ==> (r matches Err(e) && e matches Fault::Grammar(_)),
        decreases fuel, 2int,
    {
        let parsed = match parse_item(&tokens) {
            Ok(p) => p,
            Err(e) => {
                return Err(e);
            }
        };
        let shape = item_shape(&parsed);
        self.route_item(context, shape, fuel)
    }

    /// Routes a classified item: a variant with a dedicated catalog kind
    /// is re-dispatched at that kind with its own tokens, a verbatim run
    /// at the opaque-snippet kind; a variant the catalog does not
    /// special-case is handed back unchanged, its children never
    /// explored.
    pub fn route_item(
        &self,
        context: &Context,
        shape: ItemShape,
        fuel: u64,
    ) -> (r: Result<proc_macro2::TokenStream, Fault>)
        requires
            self.wf(),
        ensures
            shape matches ItemShape::Other(t) ==> r == Ok::<proc_macro2::TokenStream, Fault>(t),
            self.all_defaults() ==> config_free(r),
        decreases fuel, 1int,
    {
        match shape {
            ItemShape::Const(t) => self.callback(context, CallbackType::ItemConst, t, fuel),
            ItemShape::Enum(t) => self.callback(context, CallbackType::ItemEnum, t, fuel),
            ItemShape::ExternCrate(t) => self.callback(context, CallbackType::ItemExternCrate, t, fuel),
            ItemShape::Fn(t) => self.callback(context, CallbackType::ItemFn, t, fuel),
            ItemShape::ForeignMod(t) => self.callback(context, CallbackType::ItemForeignMod, t, fuel),
            ItemShape::Impl(t) => self.callback(context, CallbackType::ItemImpl, t, fuel),
            ItemShape::Macro(t) => self.callback(context, CallbackType::ItemMacro, t, fuel),
            ItemShape::Macro2(t) => self.callback(context, CallbackType::ItemMacro2, t, fuel),
            ItemShape::Mod(t) => self.callback(context, CallbackType::ItemMod, t, fuel),
            ItemShape::Static(t) => self.callback(context, CallbackType::ItemStatic, t, fuel),
            ItemShape::Struct(t) => self.callback(context, CallbackType::ItemStruct, t, fuel),
            ItemShape::Trait(t) => self.callback(context, CallbackType::ItemTrait, t, fuel),
            ItemShape::TraitAlias(t) => self.callback(context, CallbackType::ItemTraitAlias, t, fuel),
            ItemShape::Type(t) => self.callback(context, CallbackType::ItemType, t, fuel),
            ItemShape::Union(t) => self.callback(context, CallbackType::ItemUnion, t, fuel),
            ItemShape::Use(t) => self.callback(context, CallbackType::ItemUse, t, fuel),
            ItemShape::Verbatim(t) => self.callback(context, CallbackType::Verbatim, t, fuel),
            ItemShape::Other(t) => Ok(t),
        }
    }

    /// Default rule for a constant item: header, type and punctuation are
    /// kept verbatim; the value expression is dispatched.
    pub fn item_const(
        &self,
        context: &Context,
        tokens: proc_macro2::TokenStream,
        fuel: u64,
    ) -> (r: Result<proc_macro2::TokenStream, Fault>)
        requires
            self.wf(),
        ensures
            self.all_defaults() ==> config_free(r),
            item_const_model(tokens) is None ==> (r matches Err(e) && e matches Fault::Grammar(_)),
            r matches Ok(out) ==> (item_const_model(tokens) matches Some(m) && exists|mid: Seq<int>|
                ts_trees(out) == m.0 + mid + m.2),
        decreases fuel, 2int,
    {
        let p = match parse_item_const(&tokens) {
            Ok(p) => p,
            Err(e) => {
                return Err(e);
            }
        };
        let expr = match self.callback(context, CallbackType::Expr, p.inner, fuel) {
            Ok(t) => t,
            Err(e) => {
                return Err(e);
            }
        };
        let ghost h0 = ts_trees(p.head);
        let ghost t0 = ts_trees(p.tail);
        let mut out = p.head;
        ts_append(&mut out, expr);
        ts_append(&mut out, p.tail);
        proof {
            assert(item_const_model(tokens) matches Some(m) && ts_trees(out) == m.0 + ts_trees(
                expr,
            ) + m.2);
        }
        Ok(out)
    }

    /// Default rule for an enum item: the header is kept verbatim and
    /// every variant is dispatched in order, the results joined by commas
    /// inside the braces.
    pub fn item_enum(
        &self,
        context: &Context,
        tokens: proc_macro2::TokenStream,
        fuel: u64,
    ) -> (r: Result<proc_macro2::TokenStream, Fault>)
        requires
            self.wf(),
        ensures
            self.all_defaults() ==> config_free(r),
            item_enum_model(tokens) is None ==> (r matches Err(e) && e matches Fault::Grammar(_)),
            r matches Ok(out) ==> (item_enum_model(tokens) matches Some(m) && exists|g: Seq<int>|
                ts_trees(out) == m.0 + g && g.len() == 1),
        decreases fuel, 2int,
    {
        let p = match parse_item_enum(&tokens) {
            Ok(p) => p,
            Err(e) => {
                return Err(e);
            }
        };
        let vs = match self.dispatch_each(context, CallbackType::Variant, p.elems, fuel) {
            Ok(v) => v,
            Err(e) => {
                return Err(e);
            }
        };
        let ghost h0 = ts_trees(p.head);
        let grouped = ts_braced(ts_join_comma(vs));
        let mut out = p.head;
        ts_append(&mut out, grouped);
        proof {
            assert(item_enum_model(tokens) matches Some(m) && ts_trees(out) == m.0 + ts_trees(
                grouped,
            ));
        }
        Ok(out)
    }

    /// Default rule for an enum variant: attributes, name and fields are
    /// kept verbatim; a discriminant expression, if any, is dispatched.
    pub fn variant(
        &self,
        context: &Context,
        tokens: proc_macro2::TokenStream,
        fuel: u64,
    ) -> (r: Result<proc_macro2::TokenStream, Fault>)
        requires
            self.wf(),
        ensures
            self.all_defaults() ==> config_free(r),
            variant_model(tokens) is None ==> (r matches Err(e) && e matches Fault::Grammar(_)),
            r matches Ok(out) ==> (variant_model(tokens) matches Some(m) && exists|rest: Seq<int>|
                ts_trees(out) == m.0 + rest),
        decreases fuel, 2int,
    {
        let p = match parse_variant(&tokens) {
            Ok(p) => p,
            Err(e) => {
                return Err(e);
            }
        };
        let ghost h0 = ts_trees(p.head);
        let mut out = p.head;
        match p.disc {
            Some(d) => {
                let expr = match self.callback(context, CallbackType::Expr, d.child, fuel) {
                    Ok(t) => t,
                    Err(e) => {
                        return Err(e);
                    }
                };
                let ghost l0 = ts_trees(d.lead);
                ts_append(&mut out, d.lead);
                ts_append(&mut out, expr);
                proof {
                    assert(ts_trees(out) =~= h0 + (l0 + ts_trees(expr)));
                    assert(variant_model(tokens) matches Some(m) && ts_trees(out) == m.0 + (l0
                        + ts_trees(expr)));
                }
            }
            None => {
                proof {
                    assert(ts_trees(out) =~= h0 + Seq::<int>::empty());
                    assert(variant_model(tokens) matches Some(m) && ts_trees(out) == m.0
                        + Seq::<int>::empty());
                }
            }
        }
        Ok(out)
    }

    /// Default rule for an extern-crate item: reparse it, then hand it
    /// back unchanged. It exists purely as an override point.
    pub fn item_extern_crate(
        &self,
        _context: &Context,
        tokens: proc_macro2::TokenStream,
        _fuel: u64,
    ) -> (r: Result<proc_macro2::TokenStream, Fault>)
        requires
            self.wf(),
        ensures
            item_extern_crate_reparse(tokens) matches Some(c) ==> (r matches Ok(out) && ts_trees(out) == c),
            item_extern_crate_reparse(tokens) is None ==> (r matches Err(e) && e matches Fault::Grammar(_)),
    {
        reparse_item_extern_crate(&tokens)
    }

    /// Default rule for a function item: attributes, visibility and
    /// signature are kept verbatim; the body block is dispatched.
    pub fn item_fn(
        &self,
        context: &Context,
        tokens: proc_macro2::TokenStream,
        fuel: u64,
    ) -> (r: Result<proc_macro2::TokenStream, Fault>)
        requires
            self.wf(),
        ensures
            self.all_defaults() ==> config_free(r),
            item_fn_model(tokens) is None ==> (r matches Err(e) && e matches Fault::Grammar(_)),
            r matches Ok(out) ==> (item_fn_model(tokens) matches Some(m) && exists|mid: Seq<int>|
                ts_trees(out) == m.0 + mid + m.2),
        decreases fuel, 2int,
    {
        let p = match parse_item_fn(&tokens) {
            Ok(p) => p,
            Err(e) => {
                return Err(e);
            }
        };
        let block = match self.callback(context, CallbackType::Block, p.inner, fuel) {
            Ok(t) => t,
            Err(e) => {
                return Err(e);
            }
        };
        let ghost h0 = ts_trees(p.head);
        let ghost t0 = ts_trees(p.tail);
        let mut out = p.head;
        ts_append(&mut out, block);
        ts_append(&mut out, p.tail);
        proof {
            assert(item_fn_model(tokens) matches Some(m) && ts_trees(out) == m.0 + ts_trees(
                block,
            ) + m.2);
        }
        Ok(out)
    }

    /// Default rule for a foreign module: attributes and ABI are kept
    /// verbatim and every foreign item is dispatched in order inside the
    /// braces.
    pub fn item_foreign_mod(
        &self,
        context: &Context,
        tokens: proc_macro2::TokenStream,
        fuel: u64,
    ) -> (r: Result<proc_macro2::TokenStream, Fault>)
        requires
            self.wf(),
        ensures
            self.all_defaults() ==> config_free(r),
            item_foreign_mod_model(tokens) is None ==> (r matches Err(e) && e matches Fault::Grammar(_)),
            r matches Ok(out) ==> (item_foreign_mod_model(tokens) matches Some(m) && exists|g: Seq<int>|
                ts_trees(out) == m.0 + g && g.len() == 1),
        decreases fuel, 2int,
    {
        let p = match parse_item_foreign_mod(&tokens) {
            Ok(p) => p,
            Err(e) => {
                return Err(e);
            }
        };
        let items = match self.dispatch_each(context, CallbackType::ForeignItem, p.elems, fuel) {
            Ok(v) => v,
            Err(e) => {
                return Err(e);
            }
        };
        let ghost h0 = ts_trees(p.head);
        let grouped = ts_braced(ts_concat(items));
        let mut out = p.head;
        ts_append(&mut out, grouped);
        proof {
            assert(item_foreign_mod_model(tokens) matches Some(m) && ts_trees(out) == m.0
                + ts_trees(grouped));
        }
        Ok(out)
    }

    /// Default rule for an impl item: the header is kept verbatim and
    /// every member is dispatched in order inside the braces.
    pub fn item_impl(
        &self,
        context: &Context,
        tokens: proc_macro2::TokenStream,
        fuel: u64,
    ) -> (r: Result<proc_macro2::TokenStream, Fault>)
        requires
            self.wf(),
        ensures
            self.all_defaults() ==> config_free(r),
            item_impl_model(tokens) is None ==> (r matches Err(e) && e matches Fault::Grammar(_)),
            r matches Ok(out) ==> (item_impl_model(tokens) matches Some(h) && exists|g: Seq<int>|
                ts_trees(out) == h + g && g.len() == 1),
        decreases fuel, 2int,
    {
        let n = match parse_item_impl(&tokens) {
            Ok(n) => n,
            Err(e) => {
                return Err(e);
            }
        };
        let items = match self.dispatch_each(context, CallbackType::ImplItem, item_impl_members(&n), fuel) {
            Ok(v) => v,
            Err(e) => {
                return Err(e);
            }
        };
        let head = item_impl_head(&n);
        let ghost h0 = ts_trees(head);
        let grouped = ts_braced(ts_concat(items));
        let mut out = head;
        ts_append(&mut out, grouped);
        proof {
            assert(item_impl_model(tokens) matches Some(h) && ts_trees(out) == h + ts_trees(
                grouped,
            ));
        }
        Ok(out)
    }

    /// Default rule for a macro-invocation item: reparse it, then hand it
    /// back unchanged; its contents stay opaque.
    pub fn item_macro(
        &self,
        _context: &Context,
        tokens: proc_macro2::TokenStream,
        _fuel: u64,
    ) -> (r: Result<proc_macro2::TokenStream, Fault>)
        requires
            self.wf(),
        ensures
            item_macro_reparse(tokens) matches Some(c) ==> (r matches Ok(out) && ts_trees(out) == c),
            item_macro_reparse(tokens) is None ==> (r matches Err(e) && e matches Fault::Grammar(_)),
    {
        reparse_item_macro(&tokens)
    }

    /// Default rule for a declarative macro definition: reparse it, then
    /// hand it back unchanged; its contents stay opaque.
    pub fn item_macro2(
        &self,
        _context: &Context,
        tokens: proc_macro2::TokenStream,
        _fuel: u64,
    ) -> (r: Result<proc_macro2::TokenStream, Fault>)
        requires
            self.wf(),
        ensures
            item_macro2_reparse(tokens) matches Some(c) ==> (r matches Ok(out) && ts_trees(out) == c),
            item_macro2_reparse(tokens) is None ==> (r matches Err(e) && e matches Fault::Grammar(_)),
    {
        reparse_item_macro2(&tokens)
    }

    /// Default rule for a module item: the header is kept verbatim; the
    /// items of an inline body are dispatched in order inside the braces,
    /// and the trailing semicolon of an out-of-line module is kept.
    pub fn item_mod(
        &self,
        context: &Context,
        tokens: proc_macro2::TokenStream,
        fuel: u64,
    ) -> (r: Result<proc_macro2::TokenStream, Fault>)
        requires
            self.wf(),
        ensures
            self.all_defaults() ==> config_free(r),
            item_mod_model(tokens) is None ==> (r matches Err(e) && e matches Fault::Grammar(_)),
            r matches Ok(out) ==> (item_mod_model(tokens) matches Some(m) && exists|mid: Seq<int>|
                ts_trees(out) == m.0 + mid + m.2),
        decreases fuel, 2int,
    {
        let p = match parse_item_mod(&tokens) {
            Ok(p) => p,
            Err(e) => {
                return Err(e);
            }
        };
        let ghost h0 = ts_trees(p.head);
        let ghost t0 = ts_trees(p.tail);
        let mut out = p.head;
        match p.content {
            Some(elems) => {
                let items = match self.dispatch_each(context, CallbackType::Item, elems, fuel) {
                    Ok(v) => v,
                    Err(e) => {
                        return Err(e);
                    }
                };
                let grouped = ts_braced(ts_concat(items));
                ts_append(&mut out, grouped);
                ts_append(&mut out, p.tail);
                proof {
                    assert(item_mod_model(tokens) matches Some(m) && ts_trees(out) == m.0
                        + ts_trees(grouped) + m.2);
                }
            }
            None => {
                ts_append(&mut out, p.tail);
                proof {
                    assert(ts_trees(out) =~= h0 + Seq::<int>::empty() + t0);
                    assert(item_mod_model(tokens) matches Some(m) && ts_trees(out) == m.0
                        + Seq::<int>::empty() + m.2);
                }
            }
        }
        Ok(out)
    }

    /// Default rule for a static item: header, type and punctuation are
    /// kept verbatim; the value expression is dispatched.
    pub fn item_static(
        &self,
        context: &Context,
        tokens: proc_macro2::TokenStream,
        fuel: u64,
    ) -> (r: Result<proc_macro2::TokenStream, Fault>)
        requires
            self.wf(),
        ensures
            self.all_defaults() ==> config_free(r),
            item_static_model(tokens) is None ==> (r matches Err(e) && e matches Fault::Grammar(_)),
            r matches Ok(out) ==> (item_static_model(tokens) matches Some(m) && exists|mid: Seq<int>|
                ts_trees(out) == m.0 + mid + m.2),
        decreases fuel, 2int,
    {
        let p = match parse_item_static(&tokens) {
            Ok(p) => p,
            Err(e) => {
                return Err(e);
            }
        };
        let expr = match self.callback(context, CallbackType::Expr, p.inner, fuel) {
            Ok(t) => t,
            Err(e) => {
                return Err(e);
            }
        };
        let ghost h0 = ts_trees(p.head);
        let ghost t0 = ts_trees(p.tail);
        let mut out = p.head;
        ts_append(&mut out, expr);
        ts_append(&mut out, p.tail);
        proof {
            assert(item_static_model(tokens) matches Some(m) && ts_trees(out) == m.0 + ts_trees(
                expr,
            ) + m.2);
        }
        Ok(out)
    }

    /// Default rule for a struct item: reparse it, then hand it back
    /// unchanged. It exists purely as an override point.
    pub fn item_struct(
        &self,
        _context: &Context,
        tokens: proc_macro2::TokenStream,
        _fuel: u64,
    ) -> (r: Result<proc_macro2::TokenStream, Fault>)
        requires
            self.wf(),
        ensures
            item_struct_reparse(tokens) matches Some(c) ==> (r matches Ok(out) && ts_trees(out) == c),
            item_struct_reparse(tokens) is None ==> (r matches Err(e) && e matches Fault::Grammar(_)),
    {
        reparse_item_struct(&tokens)
    }

    /// Default rule for a trait item: the header with its supertraits is
    /// kept verbatim and every member is dispatched in order inside the
    /// braces.
    pub fn item_trait(
        &self,
        context: &Context,
        tokens: proc_macro2::TokenStream,
        fuel: u64,
    ) -> (r: Result<proc_macro2::TokenStream, Fault>)
        requires
            self.wf(),
        ensures
            self.all_defaults() ==> config_free(r),
            item_trait_model(tokens) is None ==> (r matches Err(e) && e matches Fault::Grammar(_)),
            r matches Ok(out) ==> (item_trait_model(tokens) matches Some(h) && exists|g: Seq<int>|
                ts_trees(out) == h + g && g.len() == 1),
        decreases fuel, 2int,
    {
        let n = match parse_item_trait(&tokens) {
            Ok(n) => n,
            Err(e) => {
                return Err(e);
            }
        };
        let items = match self.dispatch_each(context, CallbackType::TraitItem, item_trait_members(&n), fuel) {
            Ok(v) => v,
            Err(e) => {
                return Err(e);
            }
        };
        let head = item_trait_head(&n);
        let ghost h0 = ts_trees(head);
        let grouped = ts_braced(ts_concat(items));
        let mut out = head;
        ts_append(&mut out, grouped);
        proof {
            assert(item_trait_model(tokens) matches Some(h) && ts_trees(out) == h + ts_trees(
                grouped,
            ));
        }
        Ok(out)
    }

    /// Default rule for a trait alias: reparse it, then hand it back
    /// unchanged. It exists purely as an override point.
    pub fn item_trait_alias(
        &self,
        _context: &Context,
        tokens: proc_macro2::TokenStream,
        _fuel: u64,
    ) -> (r: Result<proc_macro2::TokenStream, Fault>)
        requires
            self.wf(),
        ensures
            item_trait_alias_reparse(tokens) matches Some(c) ==> (r matches Ok(out) && ts_trees(out) == c),
            item_trait_alias_reparse(tokens) is None ==> (r matches Err(e) && e matches Fault::Grammar(_)),
    {
        reparse_item_trait_alias(&tokens)
    }

    /// Default rule for a type alias: reparse it, then hand it back
    /// unchanged. It exists purely as an override point.
    pub fn item_type(
        &self,
        _context: &Context,
        tokens: proc_macro2::TokenStream,
        _fuel: u64,
    ) -> (r: Result<proc_macro2::TokenStream, Fault>)
        requires
            self.wf(),
        ensures
            item_type_reparse(tokens) matches Some(c) ==> (r matches Ok(out) && ts_trees(out) == c),
            item_type_reparse(tokens) is None ==> (r matches Err(e) && e matches Fault::Grammar(_)),
    {
        reparse_item_type(&tokens)
    }

    /// Default rule for a union item: reparse it, then hand it back
    /// unchanged. It exists purely as an override point.
    pub fn item_union(
        &self,
        _context: &Context,
        tokens: proc_macro2::TokenStream,
        _fuel: u64,
    ) -> (r: Result<proc_macro2::TokenStream, Fault>)
        requires
            self.wf(),
        ensures
            item_union_reparse(tokens) matches Some(c) ==> (r matches Ok(out) && ts_trees(out) == c),
            item_union_reparse(tokens) is None ==> (r matches Err(e) && e matches Fault::Grammar(_)),
    {
        reparse_item_union(&tokens)
    }

    /// Default rule for an import item: reparse it, then hand it back
    /// unchanged. It exists purely as an override point.
    pub fn item_use(
        &self,
        _context: &Context,
        tokens: proc_macro2::TokenStream,
        _fuel: u64,
    ) -> (r: Result<proc_macro2::TokenStream, Fault>)
        requires
            self.wf(),
        ensures
            item_use_reparse(tokens) matches Some(c) ==> (r matches Ok(out) && ts_trees(out) == c),
            item_use_reparse(tokens) is None ==> (r matches Err(e) && e matches Fault::Grammar(_)),
    {
        reparse_item_use(&tokens)
    }
}

} // verus!
