use vstd::prelude::*;
use crate::context::Context;
use crate::errors::{Fault, config_free};
use crate::kinds::{CallbackType, KIND_COUNT, kind_at, kind_at_spec, lemma_kind_at_index};

verus! {

/// A caller-supplied rewrite callback. One type may serve many kinds; the
/// engine hands it the extended ancestor context and an owned copy of the
/// representation, and takes back a rewritten representation or the error
/// that aborts the traversal.
pub trait Handler: Sized {
    /// Rewrites one representation, free to dispatch children through the
    /// engine with the depth budget it was handed. The context always
    /// holds at least the dispatch the callback runs under, innermost
    /// last, carrying exactly the representation handed in.
    fn call(
        &self,
        engine: &Moisture<Self>,
        context: &Context,
        tokens: proc_macro2::TokenStream,
        fuel: u64,
    ) -> Result<proc_macro2::TokenStream, Fault>
        requires
            engine.wf(),
            context@.len() >= 1,
            context@.last().1 == tokens,
    ;
}

/// What the registry holds for one kind: the default traversal rule of a
/// named kind, or a caller-supplied callback.
pub enum Callback<H> {
    /// The default rule of the named kind.
    Rule(CallbackType),
    /// A caller-supplied callback.
    Custom(H),
}

/// A callback that hands every representation back unchanged. An engine
/// that never registers anything custom can be typed over this.
pub struct Identity;

impl Handler for Identity {
    fn call(
        &self,
        _engine: &Moisture<Self>,
        _context: &Context,
        tokens: proc_macro2::TokenStream,
        _fuel: u64,
    ) -> (r: Result<proc_macro2::TokenStream, Fault>)
        ensures
            r == Ok::<proc_macro2::TokenStream, Fault>(tokens),
    {
        Ok(tokens)
    }
}

/// The dispatch engine: a registry with one callback per catalog kind,
/// pre-populated with the default rules and overridable per kind. A
/// traversal never mutates the engine; only `register_callback` does.
pub struct Moisture<H> {
    callbacks: Vec<Callback<H>>,
}

impl<H> Moisture<H> {
    /// A registry is well formed when it holds one slot per catalog kind.
    pub closed spec fn wf(self) -> bool {
        self.callbacks@.len() == KIND_COUNT
    }

    /// The callback registered for a kind.
    pub closed spec fn entry(self, k: CallbackType) -> Callback<H> {
        self.callbacks@[k.index_spec()]
    }

    /// Whether every kind still holds a default rule, as after
    /// construction: no custom callback has been registered.
    pub open spec fn all_defaults(self) -> bool {
        forall|k: CallbackType| #[trigger] self.entry(k) matches Callback::Rule(_)
    }
}

impl<H: Handler> Moisture<H> {
    /// A fresh engine: every kind in the catalog is registered with its
    /// own default rule.
    pub fn new() -> (r: Self)
        ensures
            r.wf(),
            forall|k: CallbackType| #[trigger] r.entry(k) == Callback::<H>::Rule(k),
            r.all_defaults(),
    {
        let mut callbacks: Vec<Callback<H>> = Vec::new();
        let mut i: usize = 0;
        while i < KIND_COUNT
            invariant
                i <= KIND_COUNT,
                callbacks@.len() == i,
                forall|j: int| 0 <= j < i
                    ==> callbacks@[j] == Callback::<H>::Rule(kind_at_spec(j)),
            decreases KIND_COUNT - i,
        {
            callbacks.push(Callback::Rule(kind_at(i)));
            i = i + 1;
        }
        let r = Self { callbacks };
        proof {
            lemma_kind_at_index();
            assert forall|k: CallbackType| #[trigger] r.entry(k) == Callback::<H>::Rule(k) by {
                assert(r.callbacks@[k.index_spec()]
                    == Callback::<H>::Rule(kind_at_spec(k.index_spec())));
            }
        }
        r
    }

    /// Replaces the callback registered for exactly one kind, default or
    /// custom; every other kind keeps what it had.
    pub fn register_callback(&mut self, ty: CallbackType, callback: Callback<H>)
        requires
            old(self).wf(),
        ensures
            final(self).wf(),
            final(self).entry(ty) == callback,
            forall|k: CallbackType| k != ty
                ==> #[trigger] final(self).entry(k) == old(self).entry(k),
    {
        let i = ty.index();
        self.callbacks.set(i, callback);
        proof {
            lemma_kind_at_index();
            assert forall|k: CallbackType| k != ty
                implies #[trigger] self.entry(k) == old(self).entry(k) by {
                assert(kind_at_spec(k.index_spec()) == k);
                assert(kind_at_spec(ty.index_spec()) == ty);
            }
        }
    }

    /// Dispatch: looks the requested kind up in the registry, extends a
    /// copy of the incoming context with this dispatch's own (kind,
    /// representation) entry, and runs the registered callback on the
    /// representation. The callback's error, if any, comes back unchanged;
    /// an exhausted depth budget is reported as `Fault::Depth`.
    pub fn callback(
        &self,
        context: &Context,
        ty: CallbackType,
        tokens: proc_macro2::TokenStream,
        fuel: u64,
    ) -> (r: Result<proc_macro2::TokenStream, Fault>)
        requires
            self.wf(),
        ensures
            fuel == 0 ==> r matches Err(Fault::Depth),
            self.all_defaults() ==> config_free(r),
        decreases fuel, 0int,
    {
        if fuel == 0 {
            return Err(Fault::Depth);
        }
        let i = ty.index();
        let mut extended = context.duplicate();
        extended.push(ty, tokens.clone());
        match &self.callbacks[i] {
            Callback::Rule(rule) => {
                let rule = *rule;
                self.run_rule(rule, &extended, tokens, fuel - 1)
            }
            Callback::Custom(h) => {
                let r = h.call(self, &extended, tokens, fuel - 1);
                proof {
                    // A custom entry under `ty` contradicts `all_defaults`,
                    // so nothing is owed of `r` on that hypothesis.
                    if self.all_defaults() {
                        lemma_kind_at_index();
                        assert(self.entry(ty) matches Callback::Rule(_));
                        assert(false);
                    }
                }
                r
            }
        }
    }

    /// Dispatches every element of a container in declaration order, each
    /// at the same kind, stopping at the first error; the results come
    /// back in the same order.
    pub(crate) fn dispatch_each(
        &self,
        context: &Context,
        ty: CallbackType,
        elems: Vec<proc_macro2::TokenStream>,
        fuel: u64,
    ) -> (r: Result<Vec<proc_macro2::TokenStream>, Fault>)
        requires
            self.wf(),
        ensures
            r matches Ok(v) ==> v@.len() == elems@.len(),
            self.all_defaults() ==> !(r matches Err(Fault::Configuration(_))),
        decreases fuel, 1int,
    {
        let mut out: Vec<proc_macro2::TokenStream> = Vec::new();
        let n = elems.len();
        let mut i: usize = 0;
        while i < n
            invariant
                self.wf(),
                n == elems@.len(),
                i <= n,
                out@.len() == i,
            decreases n - i,
        {
            match self.callback(context, ty, elems[i].clone(), fuel) {
                Ok(t) => out.push(t),
                Err(e) => {
                    return Err(e);
                }
            }
            i = i + 1;
        }
        Ok(out)
    }

    /// Runs the default traversal rule of the named kind.
    pub fn run_rule(
        &self,
        rule: CallbackType,
        context: &Context,
        tokens: proc_macro2::TokenStream,
        fuel: u64,
    ) -> (r: Result<proc_macro2::TokenStream, Fault>)
        requires
            self.wf(),
        ensures
            self.all_defaults() ==> config_free(r),
        decreases fuel, 3int,
    {
        match rule {
            CallbackType::File => self.file(context, tokens, fuel),
            CallbackType::Item => self.item(context, tokens, fuel),
            CallbackType::ItemConst => self.item_const(context, tokens, fuel),
            CallbackType::ItemEnum => self.item_enum(context, tokens, fuel),
            CallbackType::ItemExternCrate => self.item_extern_crate(context, tokens, fuel),
            CallbackType::ItemFn => self.item_fn(context, tokens, fuel),
            CallbackType::ItemForeignMod => self.item_foreign_mod(context, tokens, fuel),
            CallbackType::ItemImpl => self.item_impl(context, tokens, fuel),
            CallbackType::ItemMacro => self.item_macro(context, tokens, fuel),
            CallbackType::ItemMacro2 => self.item_macro2(context, tokens, fuel),
            CallbackType::ItemMod => self.item_mod(context, tokens, fuel),
            CallbackType::ItemStatic => self.item_static(context, tokens, fuel),
            CallbackType::ItemStruct => self.item_struct(context, tokens, fuel),
            CallbackType::ItemTrait => self.item_trait(context, tokens, fuel),
            CallbackType::ItemTraitAlias => self.item_trait_alias(context, tokens, fuel),
            CallbackType::ItemType => self.item_type(context, tokens, fuel),
            CallbackType::ItemUnion => self.item_union(context, tokens, fuel),
            CallbackType::ItemUse => self.item_use(context, tokens, fuel),
            CallbackType::Variant => self.variant(context, tokens, fuel),
            CallbackType::ForeignItem => self.foreign_item(context, tokens, fuel),
            CallbackType::ForeignItemFn => self.foreign_item_fn(context, tokens, fuel),
            CallbackType::ForeignItemStatic => self.foreign_item_static(context, tokens, fuel),
            CallbackType::ForeignItemType => self.foreign_item_type(context, tokens, fuel),
            CallbackType::ForeignItemMacro => self.foreign_item_macro(context, tokens, fuel),
            CallbackType::ImplItem => self.impl_item(context, tokens, fuel),
            CallbackType::ImplItemConst => self.impl_item_const(context, tokens, fuel),
            CallbackType::ImplItemMethod => self.impl_item_method(context, tokens, fuel),
            CallbackType::ImplItemType => self.impl_item_type(context, tokens, fuel),
            CallbackType::ImplItemMacro => self.impl_item_macro(context, tokens, fuel),
            CallbackType::TraitItem => self.trait_item(context, tokens, fuel),
            CallbackType::TraitItemConst => self.trait_item_const(context, tokens, fuel),
            CallbackType::TraitItemMethod => self.trait_item_method(context, tokens, fuel),
            CallbackType::TraitItemType => self.trait_item_type(context, tokens, fuel),
            CallbackType::TraitItemMacro => self.trait_item_macro(context, tokens, fuel),
            CallbackType::Block => self.block(context, tokens, fuel),
            CallbackType::Stmts => self.stmts(context, tokens, fuel),
            CallbackType::Stmt => self.stmt(context, tokens, fuel),
            CallbackType::Local => self.local(context, tokens, fuel),
            CallbackType::Pat => self.pat(context, tokens, fuel),
            CallbackType::PatBox => self.pat_box(context, tokens, fuel),
            CallbackType::PatIdent => self.pat_ident(context, tokens, fuel),
            CallbackType::PatLit => self.pat_lit(context, tokens, fuel),
            CallbackType::PatMacro => self.pat_macro(context, tokens, fuel),
            CallbackType::PatOr => self.pat_or(context, tokens, fuel),
            CallbackType::PatPath => self.pat_path(context, tokens, fuel),
            CallbackType::PatRange => self.pat_range(context, tokens, fuel),
            CallbackType::PatReference => self.pat_reference(context, tokens, fuel),
            CallbackType::PatRest => self.pat_rest(context, tokens, fuel),
            CallbackType::PatSlice => self.pat_slice(context, tokens, fuel),
            CallbackType::PatStruct => self.pat_struct(context, tokens, fuel),
            CallbackType::PatTuple => self.pat_tuple(context, tokens, fuel),
            CallbackType::PatTupleStruct => self.pat_tuple_struct(context, tokens, fuel),
            CallbackType::PatType => self.pat_type(context, tokens, fuel),
            CallbackType::PatWild => self.pat_wild(context, tokens, fuel),
            CallbackType::Expr => self.expr(context, tokens, fuel),
            CallbackType::ExprArray => self.expr_array(context, tokens, fuel),
            CallbackType::ExprAssign => self.expr_assign(context, tokens, fuel),
            CallbackType::ExprAssignOp => self.expr_assign_op(context, tokens, fuel),
            CallbackType::ExprAsync => self.expr_async(context, tokens, fuel),
            CallbackType::ExprAwait => self.expr_await(context, tokens, fuel),
            CallbackType::ExprBinary => self.expr_binary(context, tokens, fuel),
            CallbackType::ExprBlock => self.expr_block(context, tokens, fuel),
            CallbackType::ExprBox => self.expr_box(context, tokens, fuel),
            CallbackType::ExprBreak => self.expr_break(context, tokens, fuel),
            CallbackType::ExprCall => self.expr_call(context, tokens, fuel),
            CallbackType::ExprCast => self.expr_cast(context, tokens, fuel),
            CallbackType::ExprClosure => self.expr_closure(context, tokens, fuel),
            CallbackType::ExprContinue => self.expr_continue(context, tokens, fuel),
            CallbackType::ExprField => self.expr_field(context, tokens, fuel),
            CallbackType::ExprForLoop => self.expr_for_loop(context, tokens, fuel),
            CallbackType::ExprGroup => self.expr_group(context, tokens, fuel),
            CallbackType::ExprIf => self.expr_if(context, tokens, fuel),
            CallbackType::ExprIndex => self.expr_index(context, tokens, fuel),
            CallbackType::ExprLet => self.expr_let(context, tokens, fuel),
            CallbackType::ExprLit => self.expr_lit(context, tokens, fuel),
            CallbackType::ExprLoop => self.expr_loop(context, tokens, fuel),
            CallbackType::ExprMacro => self.expr_macro(context, tokens, fuel),
            CallbackType::ExprMatch => self.expr_match(context, tokens, fuel),
            CallbackType::ExprMethodCall => self.expr_method_call(context, tokens, fuel),
            CallbackType::ExprParen => self.expr_paren(context, tokens, fuel),
            CallbackType::ExprPath => self.expr_path(context, tokens, fuel),
            CallbackType::ExprRange => self.expr_range(context, tokens, fuel),
            CallbackType::ExprReference => self.expr_reference(context, tokens, fuel),
            CallbackType::ExprRepeat => self.expr_repeat(context, tokens, fuel),
            CallbackType::ExprReturn => self.expr_return(context, tokens, fuel),
            CallbackType::ExprStruct => self.expr_struct(context, tokens, fuel),
            CallbackType::ExprTry => self.expr_try(context, tokens, fuel),
            CallbackType::ExprTryBlock => self.expr_try_block(context, tokens, fuel),
            CallbackType::ExprTuple => self.expr_tuple(context, tokens, fuel),
            CallbackType::ExprType => self.expr_type(context, tokens, fuel),
            CallbackType::ExprUnary => self.expr_unary(context, tokens, fuel),
            CallbackType::ExprUnsafe => self.expr_unsafe(context, tokens, fuel),
            CallbackType::ExprWhile => self.expr_while(context, tokens, fuel),
            CallbackType::ExprYield => self.expr_yield(context, tokens, fuel),
            CallbackType::Arm => self.arm(context, tokens, fuel),
            CallbackType::FieldValue => self.field_value(context, tokens, fuel),
            CallbackType::Lit => self.lit(context, tokens, fuel),
            CallbackType::LitStr => self.lit_str(context, tokens, fuel),
            CallbackType::LitByteStr => self.lit_byte_str(context, tokens, fuel),
            CallbackType::LitByte => self.lit_byte(context, tokens, fuel),
            CallbackType::LitChar => self.lit_char(context, tokens, fuel),
            CallbackType::LitInt => self.lit_int(context, tokens, fuel),
            CallbackType::LitFloat => self.lit_float(context, tokens, fuel),
            CallbackType::LitBool => self.lit_bool(context, tokens, fuel),
            CallbackType::Verbatim => self.verbatim(context, tokens, fuel),
        }
    }

    /// Default rule for an opaque snippet: hand it back unchanged.
    pub fn verbatim(
        &self,
        _context: &Context,
        tokens: proc_macro2::TokenStream,
        _fuel: u64,
    ) -> (r: Result<proc_macro2::TokenStream, Fault>)
        requires
            self.wf(),
        ensures
            r == Ok::<proc_macro2::TokenStream, Fault>(tokens),
    {
        Ok(tokens)
    }
}

} // verus!
