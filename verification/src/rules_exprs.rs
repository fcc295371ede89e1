use vstd::prelude::*;
use crate::context::Context;
use crate::engine::{Handler, Moisture};
use crate::errors::{Fault, config_free};
use crate::grammar_exprs::{
    ExprShape, arm_model, expr_array_model, expr_assign_model, expr_assign_op_model,
    expr_async_model, expr_await_model, expr_binary_model, expr_block_model, expr_box_model,
    expr_break_model, expr_call_model, expr_cast_model, expr_closure_model,
    expr_continue_reparse, expr_field_model, expr_for_loop_model, expr_group_model,
    expr_if_model, expr_index_model, expr_let_model, expr_lit_model, expr_loop_model,
    expr_macro_reparse, expr_match_model, expr_method_call_model, expr_paren_model,
    expr_parse_ok, expr_path_reparse, expr_range_model, expr_reference_model,
    expr_repeat_model, expr_return_model, expr_shape, expr_struct_model, expr_try_block_model,
    expr_try_model, expr_tuple_model, expr_type_model, expr_unary_model, expr_unsafe_model,
    expr_shape_kind, expr_while_model, expr_yield_model, field_value_model, parse_arm,
    parse_expr, parse_expr_array,
    parse_expr_assign, parse_expr_assign_op, parse_expr_async, parse_expr_await,
    parse_expr_binary, parse_expr_block, parse_expr_box, parse_expr_break, parse_expr_call,
    parse_expr_cast, parse_expr_closure, parse_expr_field, parse_expr_for_loop,
    parse_expr_group, parse_expr_if,
    parse_expr_index, parse_expr_let, parse_expr_lit, parse_expr_loop, parse_expr_match,
    parse_expr_method_call, parse_expr_paren, parse_expr_range, parse_expr_reference,
    parse_expr_repeat, parse_expr_return, parse_expr_struct, parse_expr_try,
    parse_expr_try_block, parse_expr_tuple, parse_expr_type, parse_expr_unary,
    parse_expr_unsafe, parse_expr_while, parse_expr_yield, parse_field_value,
    reparse_expr_continue, reparse_expr_macro, reparse_expr_path,
};
use crate::kinds::CallbackType;
use crate::parts::{OptChildParts, PairParts, WrapParts};
use crate::tokens::{ts_append, ts_braced, ts_bracketed, ts_comma, ts_concat, ts_join_comma, ts_parenthesized, ts_trees};

verus! {

impl<H: Handler> Moisture<H> {
    /// Reassembles a one-child production: the child is dispatched at
    /// the given kind and spliced back between the verbatim runs.
    pub(crate) fn wrap_child(
        &self,
        context: &Context,
        p: WrapParts,
        ty: CallbackType,
        fuel: u64,
    ) -> (r: Result<proc_macro2::TokenStream, Fault>)
        requires
            self.wf(),
        ensures
            self.all_defaults() ==> config_free(r),
            r matches Ok(out) ==> exists|mid: Seq<int>|
                ts_trees(out) == ts_trees(p.head) + mid + ts_trees(p.tail),
        decreases fuel, 1int,
    {
        let ghost h0 = ts_trees(p.head);
        let ghost t0 = ts_trees(p.tail);
        let inner = match self.callback(context, ty, p.inner, fuel) {
            Ok(t) => t,
            Err(e) => {
                return Err(e);
            }
        };
        let mut out = p.head;
        ts_append(&mut out, inner);
        ts_append(&mut out, p.tail);
        proof {
            assert(ts_trees(out) == h0 + ts_trees(inner) + t0);
        }
        Ok(out)
    }

    /// Reassembles a two-child production: both children are dispatched
    /// left to right at their kinds and spliced back around the verbatim
    /// middle.
    pub(crate) fn pair_children(
        &self,
        context: &Context,
        p: PairParts,
        first_ty: CallbackType,
        second_ty: CallbackType,
        fuel: u64,
    ) -> (r: Result<proc_macro2::TokenStream, Fault>)
        requires
            self.wf(),
        ensures
            self.all_defaults() ==> config_free(r),
            r matches Ok(out) ==> exists|x: Seq<int>, y: Seq<int>|
                ts_trees(out) == ts_trees(p.head) + x + ts_trees(p.mid) + y + ts_trees(p.tail),
        decreases fuel, 1int,
    {
        let ghost h0 = ts_trees(p.head);
        let ghost m0 = ts_trees(p.mid);
        let ghost t0 = ts_trees(p.tail);
        let first = match self.callback(context, first_ty, p.first, fuel) {
            Ok(t) => t,
            Err(e) => {
                return Err(e);
            }
        };
        let second = match self.callback(context, second_ty, p.second, fuel) {
            Ok(t) => t,
            Err(e) => {
                return Err(e);
            }
        };
        let mut out = p.head;
        ts_append(&mut out, first);
        ts_append(&mut out, p.mid);
        ts_append(&mut out, second);
        ts_append(&mut out, p.tail);
        proof {
            assert(ts_trees(out) == h0 + ts_trees(first) + m0 + ts_trees(second) + t0);
        }
        Ok(out)
    }

    /// Reassembles an optional-child production: the child, if present,
    /// is dispatched at the given kind and spliced back behind its lead.
    pub(crate) fn opt_child(
        &self,
        context: &Context,
        p: OptChildParts,
        ty: CallbackType,
        fuel: u64,
    ) -> (r: Result<proc_macro2::TokenStream, Fault>)
        requires
            self.wf(),
        ensures
            self.all_defaults() ==> config_free(r),
            r matches Ok(out) ==> exists|mid: Seq<int>|
                ts_trees(out) == ts_trees(p.head) + mid + ts_trees(p.tail),
        decreases fuel, 1int,
    {
        let ghost h0 = ts_trees(p.head);
        let ghost t0 = ts_trees(p.tail);
        let mut out = p.head;
        match p.opt {
            Some(d) => {
                let child = match self.callback(context, ty, d.child, fuel) {
                    Ok(t) => t,
                    Err(e) => {
                        return Err(e);
                    }
                };
                let ghost l0 = ts_trees(d.lead);
                ts_append(&mut out, d.lead);
                ts_append(&mut out, child);
                ts_append(&mut out, p.tail);
                proof {
                    assert(ts_trees(out) =~= h0 + (l0 + ts_trees(child)) + t0);
                }
            }
            None => {
                ts_append(&mut out, p.tail);
                proof {
                    assert(ts_trees(out) =~= h0 + Seq::<int>::empty() + t0);
                }
            }
        }
        Ok(out)
    }

    /// Default rule for the expression union: classifies the expression
    /// and routes it onward.
    pub fn expr(
        &self,
        context: &Context,
        tokens: proc_macro2::TokenStream,
        fuel: u64,
    ) -> (r: Result<proc_macro2::TokenStream, Fault>)
        requires
            self.wf(),
        ensures
            self.all_defaults() ==> config_free(r),
            !expr_parse_ok(tokens) ==> (r matches Err(e) && e matches Fault::Grammar(_)),
        decreases fuel, 2int,
    {
        let parsed = match parse_expr(&tokens) {
            Ok(p) => p,
            Err(e) => {
                return Err(e);
            }
        };
        let shape = expr_shape(&parsed);
        self.route_expr(context, shape, fuel)
    }

    /// Routes a classified expression: a variant with a dedicated
    /// catalog kind is re-dispatched at that kind with its own tokens, a
    /// verbatim run at the opaque-snippet kind; a variant the catalog
    /// does not special-case is handed back unchanged, its children
    /// never explored.
    pub fn route_expr(
        &self,
        context: &Context,
        shape: ExprShape,
        fuel: u64,
    ) -> (r: Result<proc_macro2::TokenStream, Fault>)
        requires
            self.wf(),
        ensures
            shape matches ExprShape::Other(t) ==> r == Ok::<proc_macro2::TokenStream, Fault>(t),
            self.all_defaults() ==> config_free(r),
        decreases fuel, 1int,
    {
        match shape {
            ExprShape::Array(t) => self.callback(context, CallbackType::ExprArray, t, fuel),
            ExprShape::Assign(t) => self.callback(context, CallbackType::ExprAssign, t, fuel),
            ExprShape::AssignOp(t) => self.callback(context, CallbackType::ExprAssignOp, t, fuel),
            ExprShape::Async(t) => self.callback(context, CallbackType::ExprAsync, t, fuel),
            ExprShape::Await(t) => self.callback(context, CallbackType::ExprAwait, t, fuel),
            ExprShape::Binary(t) => self.callback(context, CallbackType::ExprBinary, t, fuel),
            ExprShape::Block(t) => self.callback(context, CallbackType::ExprBlock, t, fuel),
            ExprShape::Box(t) => self.callback(context, CallbackType::ExprBox, t, fuel),
            ExprShape::Break(t) => self.callback(context, CallbackType::ExprBreak, t, fuel),
            ExprShape::Call(t) => self.callback(context, CallbackType::ExprCall, t, fuel),
            ExprShape::Cast(t) => self.callback(context, CallbackType::ExprCast, t, fuel),
            ExprShape::Closure(t) => self.callback(context, CallbackType::ExprClosure, t, fuel),
            ExprShape::Continue(t) => self.callback(context, CallbackType::ExprContinue, t, fuel),
            ExprShape::Field(t) => self.callback(context, CallbackType::ExprField, t, fuel),
            ExprShape::ForLoop(t) => self.callback(context, CallbackType::ExprForLoop, t, fuel),
            ExprShape::Group(t) => self.callback(context, CallbackType::ExprGroup, t, fuel),
            ExprShape::If(t) => self.callback(context, CallbackType::ExprIf, t, fuel),
            ExprShape::Index(t) => self.callback(context, CallbackType::ExprIndex, t, fuel),
            ExprShape::Let(t) => self.callback(context, CallbackType::ExprLet, t, fuel),
            ExprShape::Lit(t) => self.callback(context, CallbackType::ExprLit, t, fuel),
            ExprShape::Loop(t) => self.callback(context, CallbackType::ExprLoop, t, fuel),
            ExprShape::Macro(t) => self.callback(context, CallbackType::ExprMacro, t, fuel),
            ExprShape::Match(t) => self.callback(context, CallbackType::ExprMatch, t, fuel),
            ExprShape::MethodCall(t) => self.callback(context, CallbackType::ExprMethodCall, t, fuel),
            ExprShape::Paren(t) => self.callback(context, CallbackType::ExprParen, t, fuel),
            ExprShape::Path(t) => self.callback(context, CallbackType::ExprPath, t, fuel),
            ExprShape::Range(t) => self.callback(context, CallbackType::ExprRange, t, fuel),
            ExprShape::Reference(t) => self.callback(context, CallbackType::ExprReference, t, fuel),
            ExprShape::Repeat(t) => self.callback(context, CallbackType::ExprRepeat, t, fuel),
            ExprShape::Return(t) => self.callback(context, CallbackType::ExprReturn, t, fuel),
            ExprShape::Struct(t) => self.callback(context, CallbackType::ExprStruct, t, fuel),
            ExprShape::Try(t) => self.callback(context, CallbackType::ExprTry, t, fuel),
            ExprShape::TryBlock(t) => self.callback(context, CallbackType::ExprTryBlock, t, fuel),
            ExprShape::Tuple(t) => self.callback(context, CallbackType::ExprTuple, t, fuel),
            ExprShape::Type(t) => self.callback(context, CallbackType::ExprType, t, fuel),
            ExprShape::Unary(t) => self.callback(context, CallbackType::ExprUnary, t, fuel),
            ExprShape::Unsafe(t) => self.callback(context, CallbackType::ExprUnsafe, t, fuel),
            ExprShape::Verbatim(t) => self.callback(context, CallbackType::Verbatim, t, fuel),
            ExprShape::While(t) => self.callback(context, CallbackType::ExprWhile, t, fuel),
            ExprShape::Yield(t) => self.callback(context, CallbackType::ExprYield, t, fuel),
            ExprShape::Other(t) => Ok(t),
        }
    }

    /// Default rule for an array expression: every element is dispatched
    /// in order, the results joined by commas inside the brackets.
    pub fn expr_array(
        &self,
        context: &Context,
        tokens: proc_macro2::TokenStream,
        fuel: u64,
    ) -> (r: Result<proc_macro2::TokenStream, Fault>)
        requires
            self.wf(),
        ensures
            self.all_defaults() ==> config_free(r),
            expr_array_model(tokens) is None ==> (r matches Err(e) && e matches Fault::Grammar(_)),
            r matches Ok(out) ==> (expr_array_model(tokens) matches Some(m) && exists|g: Seq<int>|
                ts_trees(out) == m.0 + g && g.len() == 1),
        decreases fuel, 2int,
    {
        let p = match parse_expr_array(&tokens) {
            Ok(p) => p,
            Err(e) => {
                return Err(e);
            }
        };
        let elems = match self.dispatch_each(context, CallbackType::Expr, p.elems, fuel) {
            Ok(v) => v,
            Err(e) => {
                return Err(e);
            }
        };
        let grouped = ts_bracketed(ts_join_comma(elems));
        let mut out = p.head;
        ts_append(&mut out, grouped);
        proof {
            assert(expr_array_model(tokens) matches Some(m) && ts_trees(out) == m.0 + ts_trees(
                grouped,
            ));
        }
        Ok(out)
    }

    /// Default rule for an assignment: both sides are dispatched left to
    /// right around the verbatim `=`.
    pub fn expr_assign(
        &self,
        context: &Context,
        tokens: proc_macro2::TokenStream,
        fuel: u64,
    ) -> (r: Result<proc_macro2::TokenStream, Fault>)
        requires
            self.wf(),
        ensures
            self.all_defaults() ==> config_free(r),
            expr_assign_model(tokens) is None ==> (r matches Err(e) && e matches Fault::Grammar(_)),
            r matches Ok(out) ==> (expr_assign_model(tokens) matches Some(m) && exists|
                x: Seq<int>,
                y: Seq<int>,
            | ts_trees(out) == m.0 + x + m.2 + y + m.4),
        decreases fuel, 2int,
    {
        let p = match parse_expr_assign(&tokens) {
            Ok(p) => p,
            Err(e) => {
                return Err(e);
            }
        };
        let r = self.pair_children(context, p, CallbackType::Expr, CallbackType::Expr, fuel);
        proof {
            match &r {
                Ok(out) => {
                    let (x, y) = choose|x: Seq<int>, y: Seq<int>|
                        ts_trees(*out) == ts_trees(p.head) + x + ts_trees(p.mid) + y + ts_trees(
                            p.tail,
                        );
                    assert(expr_assign_model(tokens) matches Some(m) && ts_trees(*out) == m.0 + x
                        + m.2 + y + m.4);
                }
                Err(_) => {}
            }
        }
        r
    }

    /// Default rule for a compound assignment: both sides are dispatched
    /// left to right around the verbatim operator.
    pub fn expr_assign_op(
        &self,
        context: &Context,
        tokens: proc_macro2::TokenStream,
        fuel: u64,
    ) -> (r: Result<proc_macro2::TokenStream, Fault>)
        requires
            self.wf(),
        ensures
            self.all_defaults() ==> config_free(r),
            expr_assign_op_model(tokens) is None ==> (r matches Err(e) && e matches Fault::Grammar(_)),
            r matches Ok(out) ==> (expr_assign_op_model(tokens) matches Some(m) && exists|
                x: Seq<int>,
                y: Seq<int>,
            | ts_trees(out) == m.0 + x + m.2 + y + m.4),
        decreases fuel, 2int,
    {
        let p = match parse_expr_assign_op(&tokens) {
            Ok(p) => p,
            Err(e) => {
                return Err(e);
            }
        };
        let r = self.pair_children(context, p, CallbackType::Expr, CallbackType::Expr, fuel);
        proof {
            match &r {
                Ok(out) => {
                    let (x, y) = choose|x: Seq<int>, y: Seq<int>|
                        ts_trees(*out) == ts_trees(p.head) + x + ts_trees(p.mid) + y + ts_trees(
                            p.tail,
                        );
                    assert(expr_assign_op_model(tokens) matches Some(m) && ts_trees(*out) == m.0 + x
                        + m.2 + y + m.4);
                }
                Err(_) => {}
            }
        }
        r
    }

    /// Default rule for an async block: `async` and capture are kept
    /// verbatim; the body block is dispatched.
    pub fn expr_async(
        &self,
        context: &Context,
        tokens: proc_macro2::TokenStream,
        fuel: u64,
    ) -> (r: Result<proc_macro2::TokenStream, Fault>)
        requires
            self.wf(),
        ensures
            self.all_defaults() ==> config_free(r),
            expr_async_model(tokens) is None ==> (r matches Err(e) && e matches Fault::Grammar(_)),
            r matches Ok(out) ==> (expr_async_model(tokens) matches Some(m) && exists|
                mid: Seq<int>,
            | ts_trees(out) == m.0 + mid + m.2),
        decreases fuel, 2int,
    {
        let p = match parse_expr_async(&tokens) {
            Ok(p) => p,
            Err(e) => {
                return Err(e);
            }
        };
        let r = self.wrap_child(context, p, CallbackType::Block, fuel);
        proof {
            match &r {
                Ok(out) => {
                    let mid = choose|mid: Seq<int>|
                        ts_trees(*out) == ts_trees(p.head) + mid + ts_trees(p.tail);
                    assert(expr_async_model(tokens) matches Some(m) && ts_trees(*out) == m.0 + mid
                        + m.2);
                }
                Err(_) => {}
            }
        }
        r
    }

    /// Default rule for an await expression: the base expression is
    /// dispatched; the dot and `await` stay verbatim after it.
    pub fn expr_await(
        &self,
        context: &Context,
        tokens: proc_macro2::TokenStream,
        fuel: u64,
    ) -> (r: Result<proc_macro2::TokenStream, Fault>)
        requires
            self.wf(),
        ensures
            self.all_defaults() ==> config_free(r),
            expr_await_model(tokens) is None ==> (r matches Err(e) && e matches Fault::Grammar(_)),
            r matches Ok(out) ==> (expr_await_model(tokens) matches Some(m) && exists|
                mid: Seq<int>,
            | ts_trees(out) == m.0 + mid + m.2),
        decreases fuel, 2int,
    {
        let p = match parse_expr_await(&tokens) {
            Ok(p) => p,
            Err(e) => {
                return Err(e);
            }
        };
        let r = self.wrap_child(context, p, CallbackType::Expr, fuel);
        proof {
            match &r {
                Ok(out) => {
                    let mid = choose|mid: Seq<int>|
                        ts_trees(*out) == ts_trees(p.head) + mid + ts_trees(p.tail);
                    assert(expr_await_model(tokens) matches Some(m) && ts_trees(*out) == m.0 + mid
                        + m.2);
                }
                Err(_) => {}
            }
        }
        r
    }

    /// Default rule for a binary expression: both operands are
    /// dispatched left to right around the verbatim operator.
    pub fn expr_binary(
        &self,
        context: &Context,
        tokens: proc_macro2::TokenStream,
        fuel: u64,
    ) -> (r: Result<proc_macro2::TokenStream, Fault>)
        requires
            self.wf(),
        ensures
            self.all_defaults() ==> config_free(r),
            expr_binary_model(tokens) is None ==> (r matches Err(e) && e matches Fault::Grammar(_)),
            r matches Ok(out) ==> (expr_binary_model(tokens) matches Some(m) && exists|
                x: Seq<int>,
                y: Seq<int>,
            | ts_trees(out) == m.0 + x + m.2 + y + m.4),
        decreases fuel, 2int,
    {
        let p = match parse_expr_binary(&tokens) {
            Ok(p) => p,
            Err(e) => {
                return Err(e);
            }
        };
        let r = self.pair_children(context, p, CallbackType::Expr, CallbackType::Expr, fuel);
        proof {
            match &r {
                Ok(out) => {
                    let (x, y) = choose|x: Seq<int>, y: Seq<int>|
                        ts_trees(*out) == ts_trees(p.head) + x + ts_trees(p.mid) + y + ts_trees(
                            p.tail,
                        );
                    assert(expr_binary_model(tokens) matches Some(m) && ts_trees(*out) == m.0 + x
                        + m.2 + y + m.4);
                }
                Err(_) => {}
            }
        }
        r
    }

    /// Default rule for a block expression: the label, if any, is kept
    /// verbatim; the block is dispatched.
    pub fn expr_block(
        &self,
        context: &Context,
        tokens: proc_macro2::TokenStream,
        fuel: u64,
    ) -> (r: Result<proc_macro2::TokenStream, Fault>)
        requires
            self.wf(),
        ensures
            self.all_defaults() ==> config_free(r),
            expr_block_model(tokens) is None ==> (r matches Err(e) && e matches Fault::Grammar(_)),
            r matches Ok(out) ==> (expr_block_model(tokens) matches Some(m) && exists|
                mid: Seq<int>,
            | ts_trees(out) == m.0 + mid + m.2),
        decreases fuel, 2int,
    {
        let p = match parse_expr_block(&tokens) {
            Ok(p) => p,
            Err(e) => {
                return Err(e);
            }
        };
        let r = self.wrap_child(context, p, CallbackType::Block, fuel);
        proof {
            match &r {
                Ok(out) => {
                    let mid = choose|mid: Seq<int>|
                        ts_trees(*out) == ts_trees(p.head) + mid + ts_trees(p.tail);
                    assert(expr_block_model(tokens) matches Some(m) && ts_trees(*out) == m.0 + mid
                        + m.2);
                }
                Err(_) => {}
            }
        }
        r
    }

    /// Default rule for a box expression: the inner expression is
    /// dispatched behind the verbatim `box`.
    pub fn expr_box(
        &self,
        context: &Context,
        tokens: proc_macro2::TokenStream,
        fuel: u64,
    ) -> (r: Result<proc_macro2::TokenStream, Fault>)
        requires
            self.wf(),
        ensures
            self.all_defaults() ==> config_free(r),
            expr_box_model(tokens) is None ==> (r matches Err(e) && e matches Fault::Grammar(_)),
            r matches Ok(out) ==> (expr_box_model(tokens) matches Some(m) && exists|
                mid: Seq<int>,
            | ts_trees(out) == m.0 + mid + m.2),
        decreases fuel, 2int,
    {
        let p = match parse_expr_box(&tokens) {
            Ok(p) => p,
            Err(e) => {
                return Err(e);
            }
        };
        let r = self.wrap_child(context, p, CallbackType::Expr, fuel);
        proof {
            match &r {
                Ok(out) => {
                    let mid = choose|mid: Seq<int>|
                        ts_trees(*out) == ts_trees(p.head) + mid + ts_trees(p.tail);
                    assert(expr_box_model(tokens) matches Some(m) && ts_trees(*out) == m.0 + mid
                        + m.2);
                }
                Err(_) => {}
            }
        }
        r
    }

    /// Default rule for a break expression: `break` and the label are
    /// kept verbatim; the value expression, if any, is dispatched.
    pub fn expr_break(
        &self,
        context: &Context,
        tokens: proc_macro2::TokenStream,
        fuel: u64,
    ) -> (r: Result<proc_macro2::TokenStream, Fault>)
        requires
            self.wf(),
        ensures
            self.all_defaults() ==> config_free(r),
            expr_break_model(tokens) is None ==> (r matches Err(e) && e matches Fault::Grammar(_)),
            r matches Ok(out) ==> (expr_break_model(tokens) matches Some(m) && exists|
                mid: Seq<int>,
            | ts_trees(out) == m.0 + mid + m.2),
        decreases fuel, 2int,
    {
        let p = match parse_expr_break(&tokens) {
            Ok(p) => p,
            Err(e) => {
                return Err(e);
            }
        };
        let r = self.opt_child(context, p, CallbackType::Expr, fuel);
        proof {
            match &r {
                Ok(out) => {
                    let mid = choose|mid: Seq<int>|
                        ts_trees(*out) == ts_trees(p.head) + mid + ts_trees(p.tail);
                    assert(expr_break_model(tokens) matches Some(m) && ts_trees(*out) == m.0 + mid
                        + m.2);
                }
                Err(_) => {}
            }
        }
        r
    }

    /// Default rule for a call expression: the callee is dispatched
    /// first, then every argument in order, the results joined by commas
    /// inside the parentheses.
    pub fn expr_call(
        &self,
        context: &Context,
        tokens: proc_macro2::TokenStream,
        fuel: u64,
    ) -> (r: Result<proc_macro2::TokenStream, Fault>)
        requires
            self.wf(),
        ensures
            self.all_defaults() ==> config_free(r),
            expr_call_model(tokens) is None ==> (r matches Err(e) && e matches Fault::Grammar(_)),
            r matches Ok(out) ==> (expr_call_model(tokens) matches Some(m) && exists|
                x: Seq<int>,
                g: Seq<int>,
            | ts_trees(out) == m.0 + x + g && g.len() == 1),
        decreases fuel, 2int,
    {
        let p = match parse_expr_call(&tokens) {
            Ok(p) => p,
            Err(e) => {
                return Err(e);
            }
        };
        let func = match self.callback(context, CallbackType::Expr, p.func, fuel) {
            Ok(t) => t,
            Err(e) => {
                return Err(e);
            }
        };
        let args = match self.dispatch_each(context, CallbackType::Expr, p.args, fuel) {
            Ok(v) => v,
            Err(e) => {
                return Err(e);
            }
        };
        let grouped = ts_parenthesized(ts_join_comma(args));
        let mut out = p.head;
        ts_append(&mut out, func);
        ts_append(&mut out, grouped);
        proof {
            assert(expr_call_model(tokens) matches Some(m) && ts_trees(out) == m.0 + ts_trees(
                func,
            ) + ts_trees(grouped));
        }
        Ok(out)
    }

    /// Default rule for a cast: the inner expression is dispatched; `as`
    /// and the type stay verbatim after it.
    pub fn expr_cast(
        &self,
        context: &Context,
        tokens: proc_macro2::TokenStream,
        fuel: u64,
    ) -> (r: Result<proc_macro2::TokenStream, Fault>)
        requires
            self.wf(),
        ensures
            self.all_defaults() ==> config_free(r),
            expr_cast_model(tokens) is None ==> (r matches Err(e) && e matches Fault::Grammar(_)),
            r matches Ok(out) ==> (expr_cast_model(tokens) matches Some(m) && exists|
                mid: Seq<int>,
            | ts_trees(out) == m.0 + mid + m.2),
        decreases fuel, 2int,
    {
        let p = match parse_expr_cast(&tokens) {
            Ok(p) => p,
            Err(e) => {
                return Err(e);
            }
        };
        let r = self.wrap_child(context, p, CallbackType::Expr, fuel);
        proof {
            match &r {
                Ok(out) => {
                    let mid = choose|mid: Seq<int>|
                        ts_trees(*out) == ts_trees(p.head) + mid + ts_trees(p.tail);
                    assert(expr_cast_model(tokens) matches Some(m) && ts_trees(*out) == m.0 + mid
                        + m.2);
                }
                Err(_) => {}
            }
        }
        r
    }

    /// Default rule for a closure: the capture lead and return type are
    /// kept verbatim; every input pattern is dispatched in order, then
    /// the body expression.
    pub fn expr_closure(
        &self,
        context: &Context,
        tokens: proc_macro2::TokenStream,
        fuel: u64,
    ) -> (r: Result<proc_macro2::TokenStream, Fault>)
        requires
            self.wf(),
        ensures
            self.all_defaults() ==> config_free(r),
            expr_closure_model(tokens) is None ==> (r matches Err(e) && e matches Fault::Grammar(_)),
            r matches Ok(out) ==> (expr_closure_model(tokens) matches Some(m) && exists|
                x: Seq<int>,
                y: Seq<int>,
            | ts_trees(out) == m.0 + x + m.2 + y),
        decreases fuel, 2int,
    {
        let p = match parse_expr_closure(&tokens) {
            Ok(p) => p,
            Err(e) => {
                return Err(e);
            }
        };
        let mut inputs: Vec<proc_macro2::TokenStream> = Vec::new();
        let n = p.inputs.len();
        let mut i: usize = 0;
        while i < n
            invariant
                self.wf(),
                n == p.inputs@.len(),
                i <= n,
                expr_closure_model(tokens) is Some,
            decreases n - i,
        {
            let inp = &p.inputs[i];
            let kind = if inp.typed {
                CallbackType::PatType
            } else {
                CallbackType::Pat
            };
            match self.callback(context, kind, inp.tokens.clone(), fuel) {
                Ok(t) => inputs.push(t),
                Err(e) => {
                    return Err(e);
                }
            }
            i = i + 1;
        }
        let body = match self.callback(context, CallbackType::Expr, p.body, fuel) {
            Ok(t) => t,
            Err(e) => {
                return Err(e);
            }
        };
        let joined = ts_join_comma(inputs);
        let mut out = p.head;
        ts_append(&mut out, joined);
        ts_append(&mut out, p.mid);
        ts_append(&mut out, body);
        proof {
            assert(expr_closure_model(tokens) matches Some(m) && ts_trees(out) == m.0
                + ts_trees(joined) + m.2 + ts_trees(body));
        }
        Ok(out)
    }

    /// Default rule for a continue expression: reparse it, then hand it
    /// back unchanged. It exists purely as an override point.
    pub fn expr_continue(
        &self,
        _context: &Context,
        tokens: proc_macro2::TokenStream,
        _fuel: u64,
    ) -> (r: Result<proc_macro2::TokenStream, Fault>)
        requires
            self.wf(),
        ensures
            expr_continue_reparse(tokens) matches Some(c) ==> (r matches Ok(out) && ts_trees(out)
                == c),
            expr_continue_reparse(tokens) is None ==> (r matches Err(e) && e matches Fault::Grammar(
                _,
            )),
    {
        reparse_expr_continue(&tokens)
    }

    /// Default rule for a field access: the base expression is
    /// dispatched; the dot and member stay verbatim after it.
    pub fn expr_field(
        &self,
        context: &Context,
        tokens: proc_macro2::TokenStream,
        fuel: u64,
    ) -> (r: Result<proc_macro2::TokenStream, Fault>)
        requires
            self.wf(),
        ensures
            self.all_defaults() ==> config_free(r),
            expr_field_model(tokens) is None ==> (r matches Err(e) && e matches Fault::Grammar(_)),
            r matches Ok(out) ==> (expr_field_model(tokens) matches Some(m) && exists|
                mid: Seq<int>,
            | ts_trees(out) == m.0 + mid + m.2),
        decreases fuel, 2int,
    {
        let p = match parse_expr_field(&tokens) {
            Ok(p) => p,
            Err(e) => {
                return Err(e);
            }
        };
        let r = self.wrap_child(context, p, CallbackType::Expr, fuel);
        proof {
            match &r {
                Ok(out) => {
                    let mid = choose|mid: Seq<int>|
                        ts_trees(*out) == ts_trees(p.head) + mid + ts_trees(p.tail);
                    assert(expr_field_model(tokens) matches Some(m) && ts_trees(*out) == m.0 + mid
                        + m.2);
                }
                Err(_) => {}
            }
        }
        r
    }

    /// Default rule for a `for` loop: pattern, iterated expression and
    /// body are dispatched in that order around the verbatim keywords.
    pub fn expr_for_loop(
        &self,
        context: &Context,
        tokens: proc_macro2::TokenStream,
        fuel: u64,
    ) -> (r: Result<proc_macro2::TokenStream, Fault>)
        requires
            self.wf(),
        ensures
            self.all_defaults() ==> config_free(r),
            expr_for_loop_model(tokens) is None ==> (r matches Err(e) && e matches Fault::Grammar(_)),
            r matches Ok(out) ==> (expr_for_loop_model(tokens) matches Some(m) && exists|
                x: Seq<int>,
                y: Seq<int>,
            | ts_trees(out) == m.0 + x + m.2 + y),
        decreases fuel, 2int,
    {
        let p = match parse_expr_for_loop(&tokens) {
            Ok(p) => p,
            Err(e) => {
                return Err(e);
            }
        };
        let pat = match self.callback(context, CallbackType::Pat, p.pat, fuel) {
            Ok(t) => t,
            Err(e) => {
                return Err(e);
            }
        };
        let expr = match self.callback(context, CallbackType::Expr, p.expr, fuel) {
            Ok(t) => t,
            Err(e) => {
                return Err(e);
            }
        };
        let body = match self.callback(context, CallbackType::Block, p.body, fuel) {
            Ok(t) => t,
            Err(e) => {
                return Err(e);
            }
        };
        let mut out = p.head;
        ts_append(&mut out, pat);
        ts_append(&mut out, p.mid);
        ts_append(&mut out, expr);
        ts_append(&mut out, body);
        proof {
            assert(ts_trees(out) =~= ts_trees(p.head) + ts_trees(pat) + ts_trees(p.mid) + (
            ts_trees(expr) + ts_trees(body)));
            assert(expr_for_loop_model(tokens) matches Some(m) && ts_trees(out) == m.0
                + ts_trees(pat) + m.2 + (ts_trees(expr) + ts_trees(body)));
        }
        Ok(out)
    }

    /// Default rule for an invisible-group expression: the inner
    /// expression is dispatched and stands alone in the output; the
    /// invisible delimiter is not recreated.
    pub fn expr_group(
        &self,
        context: &Context,
        tokens: proc_macro2::TokenStream,
        fuel: u64,
    ) -> (r: Result<proc_macro2::TokenStream, Fault>)
        requires
            self.wf(),
        ensures
            self.all_defaults() ==> config_free(r),
            expr_group_model(tokens) is None ==> (r matches Err(e) && e matches Fault::Grammar(_)),
            expr_group_model(tokens) matches Some(mm) && mm is None ==> (r matches Err(e)
                && e matches Fault::ShapeMismatch { .. }),
            r matches Ok(out) ==> (expr_group_model(tokens) matches Some(mm) && mm matches Some(m)
                && exists|mid: Seq<int>| ts_trees(out) == m.0 + mid + m.2),
        decreases fuel, 2int,
    {
        let p = match parse_expr_group(&tokens) {
            Ok(Some(p)) => p,
            Ok(None) => {
                let actual = match parse_expr(&tokens) {
                    Ok(p2) => expr_shape_kind(&expr_shape(&p2)),
                    Err(_) => None,
                };
                return Err(Fault::ShapeMismatch { expected: CallbackType::ExprGroup, actual });
            }
            Err(e) => {
                return Err(e);
            }
        };
        let r = self.wrap_child(context, p, CallbackType::Expr, fuel);
        proof {
            match &r {
                Ok(out) => {
                    let mid = choose|mid: Seq<int>|
                        ts_trees(*out) == ts_trees(p.head) + mid + ts_trees(p.tail);
                    assert(expr_group_model(tokens) matches Some(mm) && mm matches Some(m)
                        && ts_trees(*out) == m.0 + mid + m.2);
                }
                Err(_) => {}
            }
        }
        r
    }

    /// Default rule for an `if` expression: condition, then-block and
    /// the else branch, if any, are dispatched in that order.
    pub fn expr_if(
        &self,
        context: &Context,
        tokens: proc_macro2::TokenStream,
        fuel: u64,
    ) -> (r: Result<proc_macro2::TokenStream, Fault>)
        requires
            self.wf(),
        ensures
            self.all_defaults() ==> config_free(r),
            expr_if_model(tokens) is None ==> (r matches Err(e) && e matches Fault::Grammar(_)),
            r matches Ok(out) ==> (expr_if_model(tokens) matches Some(m) && exists|rest: Seq<int>|
                ts_trees(out) == m.0 + rest),
        decreases fuel, 2int,
    {
        let p = match parse_expr_if(&tokens) {
            Ok(p) => p,
            Err(e) => {
                return Err(e);
            }
        };
        let cond = match self.callback(context, CallbackType::Expr, p.cond, fuel) {
            Ok(t) => t,
            Err(e) => {
                return Err(e);
            }
        };
        let then_block = match self.callback(context, CallbackType::Block, p.then_block, fuel) {
            Ok(t) => t,
            Err(e) => {
                return Err(e);
            }
        };
        let ghost h0 = ts_trees(p.head);
        let mut out = p.head;
        ts_append(&mut out, cond);
        ts_append(&mut out, then_block);
        match p.els {
            Some(d) => {
                let els = match self.callback(context, CallbackType::Expr, d.child, fuel) {
                    Ok(t) => t,
                    Err(e) => {
                        return Err(e);
                    }
                };
                ts_append(&mut out, d.lead);
                ts_append(&mut out, els);
                proof {
                    assert(ts_trees(out) =~= h0 + (ts_trees(cond) + ts_trees(then_block)
                        + ts_trees(d.lead) + ts_trees(els)));
                    assert(expr_if_model(tokens) matches Some(m) && ts_trees(out) == m.0 + (
                    ts_trees(cond) + ts_trees(then_block) + ts_trees(d.lead) + ts_trees(els)));
                }
            }
            None => {
                proof {
                    assert(ts_trees(out) =~= h0 + (ts_trees(cond) + ts_trees(then_block)));
                    assert(expr_if_model(tokens) matches Some(m) && ts_trees(out) == m.0 + (
                    ts_trees(cond) + ts_trees(then_block)));
                }
            }
        }
        Ok(out)
    }

    /// Default rule for an index expression: the base expression is
    /// dispatched, then the index inside the brackets.
    pub fn expr_index(
        &self,
        context: &Context,
        tokens: proc_macro2::TokenStream,
        fuel: u64,
    ) -> (r: Result<proc_macro2::TokenStream, Fault>)
        requires
            self.wf(),
        ensures
            self.all_defaults() ==> config_free(r),
            expr_index_model(tokens) is None ==> (r matches Err(e) && e matches Fault::Grammar(_)),
            r matches Ok(out) ==> (expr_index_model(tokens) matches Some(m) && exists|
                x: Seq<int>,
                g: Seq<int>,
            | ts_trees(out) == m.0 + x + g && g.len() == 1),
        decreases fuel, 2int,
    {
        let p = match parse_expr_index(&tokens) {
            Ok(p) => p,
            Err(e) => {
                return Err(e);
            }
        };
        let base = match self.callback(context, CallbackType::Expr, p.first, fuel) {
            Ok(t) => t,
            Err(e) => {
                return Err(e);
            }
        };
        let index = match self.callback(context, CallbackType::Expr, p.second, fuel) {
            Ok(t) => t,
            Err(e) => {
                return Err(e);
            }
        };
        let grouped = ts_bracketed(index);
        let mut out = p.head;
        ts_append(&mut out, base);
        ts_append(&mut out, grouped);
        proof {
            assert(expr_index_model(tokens) matches Some(m) && ts_trees(out) == m.0 + ts_trees(
                base,
            ) + ts_trees(grouped));
        }
        Ok(out)
    }

    /// Default rule for a `let` guard: the pattern and the expression
    /// are dispatched around the verbatim `=`.
    pub fn expr_let(
        &self,
        context: &Context,
        tokens: proc_macro2::TokenStream,
        fuel: u64,
    ) -> (r: Result<proc_macro2::TokenStream, Fault>)
        requires
            self.wf(),
        ensures
            self.all_defaults() ==> config_free(r),
            expr_let_model(tokens) is None ==> (r matches Err(e) && e matches Fault::Grammar(_)),
            r matches Ok(out) ==> (expr_let_model(tokens) matches Some(m) && exists|
                x: Seq<int>,
                y: Seq<int>,
            | ts_trees(out) == m.0 + x + m.2 + y + m.4),
        decreases fuel, 2int,
    {
        let p = match parse_expr_let(&tokens) {
            Ok(p) => p,
            Err(e) => {
                return Err(e);
            }
        };
        let r = self.pair_children(context, p, CallbackType::Pat, CallbackType::Expr, fuel);
        proof {
            match &r {
                Ok(out) => {
                    let (x, y) = choose|x: Seq<int>, y: Seq<int>|
                        ts_trees(*out) == ts_trees(p.head) + x + ts_trees(p.mid) + y + ts_trees(
                            p.tail,
                        );
                    assert(expr_let_model(tokens) matches Some(m) && ts_trees(*out) == m.0 + x
                        + m.2 + y + m.4);
                }
                Err(_) => {}
            }
        }
        r
    }

    /// Default rule for a literal expression: attributes are kept
    /// verbatim and the literal is dispatched.
    pub fn expr_lit(
        &self,
        context: &Context,
        tokens: proc_macro2::TokenStream,
        fuel: u64,
    ) -> (r: Result<proc_macro2::TokenStream, Fault>)
        requires
            self.wf(),
        ensures
            self.all_defaults() ==> config_free(r),
            expr_lit_model(tokens) is None ==> (r matches Err(e) && e matches Fault::Grammar(_)),
            r matches Ok(out) ==> (expr_lit_model(tokens) matches Some(m) && exists|
                mid: Seq<int>,
            | ts_trees(out) == m.0 + mid + m.2),
        decreases fuel, 2int,
    {
        let p = match parse_expr_lit(&tokens) {
            Ok(p) => p,
            Err(e) => {
                return Err(e);
            }
        };
        let r = self.wrap_child(context, p, CallbackType::Lit, fuel);
        proof {
            match &r {
                Ok(out) => {
                    let mid = choose|mid: Seq<int>|
                        ts_trees(*out) == ts_trees(p.head) + mid + ts_trees(p.tail);
                    assert(expr_lit_model(tokens) matches Some(m) && ts_trees(*out) == m.0 + mid
                        + m.2);
                }
                Err(_) => {}
            }
        }
        r
    }

    /// Default rule for a `loop` expression: label and `loop` are kept
    /// verbatim; the body block is dispatched.
    pub fn expr_loop(
        &self,
        context: &Context,
        tokens: proc_macro2::TokenStream,
        fuel: u64,
    ) -> (r: Result<proc_macro2::TokenStream, Fault>)
        requires
            self.wf(),
        ensures
            self.all_defaults() ==> config_free(r),
            expr_loop_model(tokens) is None ==> (r matches Err(e) && e matches Fault::Grammar(_)),
            r matches Ok(out) ==> (expr_loop_model(tokens) matches Some(m) && exists|
                mid: Seq<int>,
            | ts_trees(out) == m.0 + mid + m.2),
        decreases fuel, 2int,
    {
        let p = match parse_expr_loop(&tokens) {
            Ok(p) => p,
            Err(e) => {
                return Err(e);
            }
        };
        let r = self.wrap_child(context, p, CallbackType::Block, fuel);
        proof {
            match &r {
                Ok(out) => {
                    let mid = choose|mid: Seq<int>|
                        ts_trees(*out) == ts_trees(p.head) + mid + ts_trees(p.tail);
                    assert(expr_loop_model(tokens) matches Some(m) && ts_trees(*out) == m.0 + mid
                        + m.2);
                }
                Err(_) => {}
            }
        }
        r
    }

    /// Default rule for a macro-invocation expression: reparse it, then
    /// hand it back unchanged; its contents stay opaque.
    pub fn expr_macro(
        &self,
        _context: &Context,
        tokens: proc_macro2::TokenStream,
        _fuel: u64,
    ) -> (r: Result<proc_macro2::TokenStream, Fault>)
        requires
            self.wf(),
        ensures
            expr_macro_reparse(tokens) matches Some(c) ==> (r matches Ok(out) && ts_trees(out)
                == c),
            expr_macro_reparse(tokens) is None ==> (r matches Err(e) && e matches Fault::Grammar(
                _,
            )),
    {
        reparse_expr_macro(&tokens)
    }

    /// Default rule for a `match` expression: the scrutinee is
    /// dispatched first, then every arm in order inside the braces.
    pub fn expr_match(
        &self,
        context: &Context,
        tokens: proc_macro2::TokenStream,
        fuel: u64,
    ) -> (r: Result<proc_macro2::TokenStream, Fault>)
        requires
            self.wf(),
        ensures
            self.all_defaults() ==> config_free(r),
            expr_match_model(tokens) is None ==> (r matches Err(e) && e matches Fault::Grammar(_)),
            r matches Ok(out) ==> (expr_match_model(tokens) matches Some(m) && exists|
                x: Seq<int>,
                g: Seq<int>,
            | ts_trees(out) == m.0 + x + g && g.len() == 1),
        decreases fuel, 2int,
    {
        let p = match parse_expr_match(&tokens) {
            Ok(p) => p,
            Err(e) => {
                return Err(e);
            }
        };
        let expr = match self.callback(context, CallbackType::Expr, p.expr, fuel) {
            Ok(t) => t,
            Err(e) => {
                return Err(e);
            }
        };
        let arms = match self.dispatch_each(context, CallbackType::Arm, p.arms, fuel) {
            Ok(v) => v,
            Err(e) => {
                return Err(e);
            }
        };
        let grouped = ts_braced(ts_concat(arms));
        let mut out = p.head;
        ts_append(&mut out, expr);
        ts_append(&mut out, grouped);
        proof {
            assert(expr_match_model(tokens) matches Some(m) && ts_trees(out) == m.0 + ts_trees(
                expr,
            ) + ts_trees(grouped));
        }
        Ok(out)
    }

    /// Default rule for a method call: the receiver is dispatched first;
    /// dot, name and turbofish stay verbatim; then every argument in
    /// order, the results joined by commas inside the parentheses.
    pub fn expr_method_call(
        &self,
        context: &Context,
        tokens: proc_macro2::TokenStream,
        fuel: u64,
    ) -> (r: Result<proc_macro2::TokenStream, Fault>)
        requires
            self.wf(),
        ensures
            self.all_defaults() ==> config_free(r),
            expr_method_call_model(tokens) is None ==> (r matches Err(e) && e matches Fault::Grammar(_)),
            r matches Ok(out) ==> (expr_method_call_model(tokens) matches Some(m) && exists|
                x: Seq<int>,
                g: Seq<int>,
            | ts_trees(out) == m.0 + x + m.2 + g && g.len() == 1),
        decreases fuel, 2int,
    {
        let p = match parse_expr_method_call(&tokens) {
            Ok(p) => p,
            Err(e) => {
                return Err(e);
            }
        };
        let receiver = match self.callback(context, CallbackType::Expr, p.receiver, fuel) {
            Ok(t) => t,
            Err(e) => {
                return Err(e);
            }
        };
        let args = match self.dispatch_each(context, CallbackType::Expr, p.args, fuel) {
            Ok(v) => v,
            Err(e) => {
                return Err(e);
            }
        };
        let grouped = ts_parenthesized(ts_join_comma(args));
        let mut out = p.head;
        ts_append(&mut out, receiver);
        ts_append(&mut out, p.mid);
        ts_append(&mut out, grouped);
        proof {
            assert(expr_method_call_model(tokens) matches Some(m) && ts_trees(out) == m.0
                + ts_trees(receiver) + m.2 + ts_trees(grouped));
        }
        Ok(out)
    }

    /// Default rule for a parenthesized expression: the inner expression
    /// is dispatched and goes back inside the parentheses.
    pub fn expr_paren(
        &self,
        context: &Context,
        tokens: proc_macro2::TokenStream,
        fuel: u64,
    ) -> (r: Result<proc_macro2::TokenStream, Fault>)
        requires
            self.wf(),
        ensures
            self.all_defaults() ==> config_free(r),
            expr_paren_model(tokens) is None ==> (r matches Err(e) && e matches Fault::Grammar(_)),
            r matches Ok(out) ==> (expr_paren_model(tokens) matches Some(m) && exists|g: Seq<int>|
                ts_trees(out) == m.0 + g && g.len() == 1),
        decreases fuel, 2int,
    {
        let p = match parse_expr_paren(&tokens) {
            Ok(p) => p,
            Err(e) => {
                return Err(e);
            }
        };
        let inner = match self.callback(context, CallbackType::Expr, p.inner, fuel) {
            Ok(t) => t,
            Err(e) => {
                return Err(e);
            }
        };
        let grouped = ts_parenthesized(inner);
        let mut out = p.head;
        ts_append(&mut out, grouped);
        proof {
            assert(expr_paren_model(tokens) matches Some(m) && ts_trees(out) == m.0 + ts_trees(
                grouped,
            ));
        }
        Ok(out)
    }

    /// Default rule for a path expression: reparse it, then hand it back
    /// unchanged. It exists purely as an override point.
    pub fn expr_path(
        &self,
        _context: &Context,
        tokens: proc_macro2::TokenStream,
        _fuel: u64,
    ) -> (r: Result<proc_macro2::TokenStream, Fault>)
        requires
            self.wf(),
        ensures
            expr_path_reparse(tokens) matches Some(c) ==> (r matches Ok(out) && ts_trees(out)
                == c),
            expr_path_reparse(tokens) is None ==> (r matches Err(e) && e matches Fault::Grammar(
                _,
            )),
    {
        reparse_expr_path(&tokens)
    }

    /// Default rule for a range expression: both bounds, where present,
    /// are dispatched left to right around the verbatim operator.
    pub fn expr_range(
        &self,
        context: &Context,
        tokens: proc_macro2::TokenStream,
        fuel: u64,
    ) -> (r: Result<proc_macro2::TokenStream, Fault>)
        requires
            self.wf(),
        ensures
            self.all_defaults() ==> config_free(r),
            expr_range_model(tokens) is None ==> (r matches Err(e) && e matches Fault::Grammar(_)),
            r matches Ok(out) ==> (expr_range_model(tokens) matches Some(m) && exists|rest: Seq<int>|
                ts_trees(out) == m.0 + rest),
        decreases fuel, 2int,
    {
        let p = match parse_expr_range(&tokens) {
            Ok(p) => p,
            Err(e) => {
                return Err(e);
            }
        };
        let ghost h0 = ts_trees(p.head);
        let mut out = p.head;
        match p.from {
            Some(f) => {
                let from = match self.callback(context, CallbackType::Expr, f, fuel) {
                    Ok(t) => t,
                    Err(e) => {
                        return Err(e);
                    }
                };
                ts_append(&mut out, from);
            }
            None => {}
        }
        ts_append(&mut out, p.mid);
        match p.to {
            Some(t) => {
                let to = match self.callback(context, CallbackType::Expr, t, fuel) {
                    Ok(t2) => t2,
                    Err(e) => {
                        return Err(e);
                    }
                };
                ts_append(&mut out, to);
            }
            None => {}
        }
        proof {
            let rest = ts_trees(out).skip(h0.len() as int);
            assert(ts_trees(out) =~= h0 + rest);
            assert(expr_range_model(tokens) matches Some(m) && ts_trees(out) == m.0 + rest);
        }
        Ok(out)
    }

    /// Default rule for a reference expression: `&` and mutability are
    /// kept verbatim; the inner expression is dispatched.
    pub fn expr_reference(
        &self,
        context: &Context,
        tokens: proc_macro2::TokenStream,
        fuel: u64,
    ) -> (r: Result<proc_macro2::TokenStream, Fault>)
        requires
            self.wf(),
        ensures
            self.all_defaults() ==> config_free(r),
            expr_reference_model(tokens) is None ==> (r matches Err(e) && e matches Fault::Grammar(_)),
            r matches Ok(out) ==> (expr_reference_model(tokens) matches Some(m) && exists|
                mid: Seq<int>,
            | ts_trees(out) == m.0 + mid + m.2),
        decreases fuel, 2int,
    {
        let p = match parse_expr_reference(&tokens) {
            Ok(p) => p,
            Err(e) => {
                return Err(e);
            }
        };
        let r = self.wrap_child(context, p, CallbackType::Expr, fuel);
        proof {
            match &r {
                Ok(out) => {
                    let mid = choose|mid: Seq<int>|
                        ts_trees(*out) == ts_trees(p.head) + mid + ts_trees(p.tail);
                    assert(expr_reference_model(tokens) matches Some(m) && ts_trees(*out) == m.0 + mid
                        + m.2);
                }
                Err(_) => {}
            }
        }
        r
    }

    /// Default rule for a repeat expression: element and length are
    /// dispatched around the verbatim semicolon, inside the brackets.
    pub fn expr_repeat(
        &self,
        context: &Context,
        tokens: proc_macro2::TokenStream,
        fuel: u64,
    ) -> (r: Result<proc_macro2::TokenStream, Fault>)
        requires
            self.wf(),
        ensures
            self.all_defaults() ==> config_free(r),
            expr_repeat_model(tokens) is None ==> (r matches Err(e) && e matches Fault::Grammar(_)),
            r matches Ok(out) ==> (expr_repeat_model(tokens) matches Some(m) && exists|g: Seq<int>|
                ts_trees(out) == m.0 + g && g.len() == 1),
        decreases fuel, 2int,
    {
        let p = match parse_expr_repeat(&tokens) {
            Ok(p) => p,
            Err(e) => {
                return Err(e);
            }
        };
        let elem = match self.callback(context, CallbackType::Expr, p.first, fuel) {
            Ok(t) => t,
            Err(e) => {
                return Err(e);
            }
        };
        let len = match self.callback(context, CallbackType::Expr, p.second, fuel) {
            Ok(t) => t,
            Err(e) => {
                return Err(e);
            }
        };
        let mut inner = elem;
        ts_append(&mut inner, p.mid);
        ts_append(&mut inner, len);
        let grouped = ts_bracketed(inner);
        let mut out = p.head;
        ts_append(&mut out, grouped);
        proof {
            assert(expr_repeat_model(tokens) matches Some(m) && ts_trees(out) == m.0
                + ts_trees(grouped));
        }
        Ok(out)
    }

    /// Default rule for a return expression: `return` is kept verbatim;
    /// the value expression, if any, is dispatched.
    pub fn expr_return(
        &self,
        context: &Context,
        tokens: proc_macro2::TokenStream,
        fuel: u64,
    ) -> (r: Result<proc_macro2::TokenStream, Fault>)
        requires
            self.wf(),
        ensures
            self.all_defaults() ==> config_free(r),
            expr_return_model(tokens) is None ==> (r matches Err(e) && e matches Fault::Grammar(_)),
            r matches Ok(out) ==> (expr_return_model(tokens) matches Some(m) && exists|
                mid: Seq<int>,
            | ts_trees(out) == m.0 + mid + m.2),
        decreases fuel, 2int,
    {
        let p = match parse_expr_return(&tokens) {
            Ok(p) => p,
            Err(e) => {
                return Err(e);
            }
        };
        let r = self.opt_child(context, p, CallbackType::Expr, fuel);
        proof {
            match &r {
                Ok(out) => {
                    let mid = choose|mid: Seq<int>|
                        ts_trees(*out) == ts_trees(p.head) + mid + ts_trees(p.tail);
                    assert(expr_return_model(tokens) matches Some(m) && ts_trees(*out) == m.0 + mid
                        + m.2);
                }
                Err(_) => {}
            }
        }
        r
    }

    /// Default rule for a struct expression: the path is kept verbatim;
    /// every field value is dispatched in order, and the `..` marker and
    /// rest expression, if any, close the braces.
    pub fn expr_struct(
        &self,
        context: &Context,
        tokens: proc_macro2::TokenStream,
        fuel: u64,
    ) -> (r: Result<proc_macro2::TokenStream, Fault>)
        requires
            self.wf(),
        ensures
            self.all_defaults() ==> config_free(r),
            expr_struct_model(tokens) is None ==> (r matches Err(e) && e matches Fault::Grammar(_)),
            r matches Ok(out) ==> (expr_struct_model(tokens) matches Some(m) && exists|g: Seq<int>|
                ts_trees(out) == m.0 + g && g.len() == 1),
        decreases fuel, 2int,
    {
        let p = match parse_expr_struct(&tokens) {
            Ok(p) => p,
            Err(e) => {
                return Err(e);
            }
        };
        let fields = match self.dispatch_each(context, CallbackType::FieldValue, p.fields, fuel) {
            Ok(v) => v,
            Err(e) => {
                return Err(e);
            }
        };
        let had_fields = fields.len() > 0;
        let mut inner = ts_join_comma(fields);
        let mut had_end = false;
        match p.dot2 {
            Some(d) => {
                if had_fields {
                    ts_append(&mut inner, ts_comma());
                }
                ts_append(&mut inner, d);
                had_end = true;
            }
            None => {}
        }
        match p.rest {
            Some(rest) => {
                let rest_expr = match self.callback(context, CallbackType::Expr, rest, fuel) {
                    Ok(t) => t,
                    Err(e) => {
                        return Err(e);
                    }
                };
                if !had_end && had_fields {
                    ts_append(&mut inner, ts_comma());
                }
                ts_append(&mut inner, rest_expr);
            }
            None => {}
        }
        let grouped = ts_braced(inner);
        let mut out = p.head;
        ts_append(&mut out, grouped);
        proof {
            assert(expr_struct_model(tokens) matches Some(m) && ts_trees(out) == m.0
                + ts_trees(grouped));
        }
        Ok(out)
    }

    /// Default rule for a try expression: the inner expression is
    /// dispatched; the question mark stays verbatim after it.
    pub fn expr_try(
        &self,
        context: &Context,
        tokens: proc_macro2::TokenStream,
        fuel: u64,
    ) -> (r: Result<proc_macro2::TokenStream, Fault>)
        requires
            self.wf(),
        ensures
            self.all_defaults() ==> config_free(r),
            expr_try_model(tokens) is None ==> (r matches Err(e) && e matches Fault::Grammar(_)),
            r matches Ok(out) ==> (expr_try_model(tokens) matches Some(m) && exists|
                mid: Seq<int>,
            | ts_trees(out) == m.0 + mid + m.2),
        decreases fuel, 2int,
    {
        let p = match parse_expr_try(&tokens) {
            Ok(p) => p,
            Err(e) => {
                return Err(e);
            }
        };
        let r = self.wrap_child(context, p, CallbackType::Expr, fuel);
        proof {
            match &r {
                Ok(out) => {
                    let mid = choose|mid: Seq<int>|
                        ts_trees(*out) == ts_trees(p.head) + mid + ts_trees(p.tail);
                    assert(expr_try_model(tokens) matches Some(m) && ts_trees(*out) == m.0 + mid
                        + m.2);
                }
                Err(_) => {}
            }
        }
        r
    }

    /// Default rule for a try block: `try` is kept verbatim; the body
    /// block is dispatched.
    pub fn expr_try_block(
        &self,
        context: &Context,
        tokens: proc_macro2::TokenStream,
        fuel: u64,
    ) -> (r: Result<proc_macro2::TokenStream, Fault>)
        requires
            self.wf(),
        ensures
            self.all_defaults() ==> config_free(r),
            expr_try_block_model(tokens) is None ==> (r matches Err(e) && e matches Fault::Grammar(_)),
            r matches Ok(out) ==> (expr_try_block_model(tokens) matches Some(m) && exists|
                mid: Seq<int>,
            | ts_trees(out) == m.0 + mid + m.2),
        decreases fuel, 2int,
    {
        let p = match parse_expr_try_block(&tokens) {
            Ok(p) => p,
            Err(e) => {
                return Err(e);
            }
        };
        let r = self.wrap_child(context, p, CallbackType::Block, fuel);
        proof {
            match &r {
                Ok(out) => {
                    let mid = choose|mid: Seq<int>|
                        ts_trees(*out) == ts_trees(p.head) + mid + ts_trees(p.tail);
                    assert(expr_try_block_model(tokens) matches Some(m) && ts_trees(*out) == m.0 + mid
                        + m.2);
                }
                Err(_) => {}
            }
        }
        r
    }

    /// Default rule for a tuple expression: every element is dispatched
    /// in order, the results joined by commas inside the parentheses.
    pub fn expr_tuple(
        &self,
        context: &Context,
        tokens: proc_macro2::TokenStream,
        fuel: u64,
    ) -> (r: Result<proc_macro2::TokenStream, Fault>)
        requires
            self.wf(),
        ensures
            self.all_defaults() ==> config_free(r),
            expr_tuple_model(tokens) is None ==> (r matches Err(e) && e matches Fault::Grammar(_)),
            r matches Ok(out) ==> (expr_tuple_model(tokens) matches Some(m) && exists|g: Seq<int>|
                ts_trees(out) == m.0 + g && g.len() == 1),
        decreases fuel, 2int,
    {
        let p = match parse_expr_tuple(&tokens) {
            Ok(p) => p,
            Err(e) => {
                return Err(e);
            }
        };
        let elems = match self.dispatch_each(context, CallbackType::Expr, p.elems, fuel) {
            Ok(v) => v,
            Err(e) => {
                return Err(e);
            }
        };
        let grouped = ts_parenthesized(ts_join_comma(elems));
        let mut out = p.head;
        ts_append(&mut out, grouped);
        proof {
            assert(expr_tuple_model(tokens) matches Some(m) && ts_trees(out) == m.0 + ts_trees(
                grouped,
            ));
        }
        Ok(out)
    }

    /// Default rule for a type-ascription expression: the inner
    /// expression is dispatched; the colon and type stay verbatim.
    pub fn expr_type(
        &self,
        context: &Context,
        tokens: proc_macro2::TokenStream,
        fuel: u64,
    ) -> (r: Result<proc_macro2::TokenStream, Fault>)
        requires
            self.wf(),
        ensures
            self.all_defaults() ==> config_free(r),
            expr_type_model(tokens) is None ==> (r matches Err(e) && e matches Fault::Grammar(_)),
            r matches Ok(out) ==> (expr_type_model(tokens) matches Some(m) && exists|
                mid: Seq<int>,
            | ts_trees(out) == m.0 + mid + m.2),
        decreases fuel, 2int,
    {
        let p = match parse_expr_type(&tokens) {
            Ok(p) => p,
            Err(e) => {
                return Err(e);
            }
        };
        let r = self.wrap_child(context, p, CallbackType::Expr, fuel);
        proof {
            match &r {
                Ok(out) => {
                    let mid = choose|mid: Seq<int>|
                        ts_trees(*out) == ts_trees(p.head) + mid + ts_trees(p.tail);
                    assert(expr_type_model(tokens) matches Some(m) && ts_trees(*out) == m.0 + mid
                        + m.2);
                }
                Err(_) => {}
            }
        }
        r
    }

    /// Default rule for a unary expression: the operator is kept
    /// verbatim; the operand is dispatched.
    pub fn expr_unary(
        &self,
        context: &Context,
        tokens: proc_macro2::TokenStream,
        fuel: u64,
    ) -> (r: Result<proc_macro2::TokenStream, Fault>)
        requires
            self.wf(),
        ensures
            self.all_defaults() ==> config_free(r),
            expr_unary_model(tokens) is None ==> (r matches Err(e) && e matches Fault::Grammar(_)),
            r matches Ok(out) ==> (expr_unary_model(tokens) matches Some(m) && exists|
                mid: Seq<int>,
            | ts_trees(out) == m.0 + mid + m.2),
        decreases fuel, 2int,
    {
        let p = match parse_expr_unary(&tokens) {
            Ok(p) => p,
            Err(e) => {
                return Err(e);
            }
        };
        let r = self.wrap_child(context, p, CallbackType::Expr, fuel);
        proof {
            match &r {
                Ok(out) => {
                    let mid = choose|mid: Seq<int>|
                        ts_trees(*out) == ts_trees(p.head) + mid + ts_trees(p.tail);
                    assert(expr_unary_model(tokens) matches Some(m) && ts_trees(*out) == m.0 + mid
                        + m.2);
                }
                Err(_) => {}
            }
        }
        r
    }

    /// Default rule for an unsafe block: `unsafe` is kept verbatim; the
    /// body block is dispatched.
    pub fn expr_unsafe(
        &self,
        context: &Context,
        tokens: proc_macro2::TokenStream,
        fuel: u64,
    ) -> (r: Result<proc_macro2::TokenStream, Fault>)
        requires
            self.wf(),
        ensures
            self.all_defaults() ==> config_free(r),
            expr_unsafe_model(tokens) is None ==> (r matches Err(e) && e matches Fault::Grammar(_)),
            r matches Ok(out) ==> (expr_unsafe_model(tokens) matches Some(m) && exists|
                mid: Seq<int>,
            | ts_trees(out) == m.0 + mid + m.2),
        decreases fuel, 2int,
    {
        let p = match parse_expr_unsafe(&tokens) {
            Ok(p) => p,
            Err(e) => {
                return Err(e);
            }
        };
        let r = self.wrap_child(context, p, CallbackType::Block, fuel);
        proof {
            match &r {
                Ok(out) => {
                    let mid = choose|mid: Seq<int>|
                        ts_trees(*out) == ts_trees(p.head) + mid + ts_trees(p.tail);
                    assert(expr_unsafe_model(tokens) matches Some(m) && ts_trees(*out) == m.0 + mid
                        + m.2);
                }
                Err(_) => {}
            }
        }
        r
    }

    /// Default rule for a `while` loop: the condition and the body are
    /// dispatched in that order behind the verbatim lead.
    pub fn expr_while(
        &self,
        context: &Context,
        tokens: proc_macro2::TokenStream,
        fuel: u64,
    ) -> (r: Result<proc_macro2::TokenStream, Fault>)
        requires
            self.wf(),
        ensures
            self.all_defaults() ==> config_free(r),
            expr_while_model(tokens) is None ==> (r matches Err(e) && e matches Fault::Grammar(_)),
            r matches Ok(out) ==> (expr_while_model(tokens) matches Some(m) && exists|
                x: Seq<int>,
                y: Seq<int>,
            | ts_trees(out) == m.0 + x + m.2 + y + m.4),
        decreases fuel, 2int,
    {
        let p = match parse_expr_while(&tokens) {
            Ok(p) => p,
            Err(e) => {
                return Err(e);
            }
        };
        let r = self.pair_children(context, p, CallbackType::Expr, CallbackType::Block, fuel);
        proof {
            match &r {
                Ok(out) => {
                    let (x, y) = choose|x: Seq<int>, y: Seq<int>|
                        ts_trees(*out) == ts_trees(p.head) + x + ts_trees(p.mid) + y + ts_trees(
                            p.tail,
                        );
                    assert(expr_while_model(tokens) matches Some(m) && ts_trees(*out) == m.0 + x
                        + m.2 + y + m.4);
                }
                Err(_) => {}
            }
        }
        r
    }

    /// Default rule for a yield expression: `yield` is kept verbatim;
    /// the value expression, if any, is dispatched.
    pub fn expr_yield(
        &self,
        context: &Context,
        tokens: proc_macro2::TokenStream,
        fuel: u64,
    ) -> (r: Result<proc_macro2::TokenStream, Fault>)
        requires
            self.wf(),
        ensures
            self.all_defaults() ==> config_free(r),
            expr_yield_model(tokens) is None ==> (r matches Err(e) && e matches Fault::Grammar(_)),
            r matches Ok(out) ==> (expr_yield_model(tokens) matches Some(m) && exists|
                mid: Seq<int>,
            | ts_trees(out) == m.0 + mid + m.2),
        decreases fuel, 2int,
    {
        let p = match parse_expr_yield(&tokens) {
            Ok(p) => p,
            Err(e) => {
                return Err(e);
            }
        };
        let r = self.opt_child(context, p, CallbackType::Expr, fuel);
        proof {
            match &r {
                Ok(out) => {
                    let mid = choose|mid: Seq<int>|
                        ts_trees(*out) == ts_trees(p.head) + mid + ts_trees(p.tail);
                    assert(expr_yield_model(tokens) matches Some(m) && ts_trees(*out) == m.0 + mid
                        + m.2);
                }
                Err(_) => {}
            }
        }
        r
    }

    /// Default rule for a match arm: the pattern is dispatched first,
    /// then the guard expression, if any, then the body; arrow and
    /// trailing comma stay verbatim.
    pub fn arm(
        &self,
        context: &Context,
        tokens: proc_macro2::TokenStream,
        fuel: u64,
    ) -> (r: Result<proc_macro2::TokenStream, Fault>)
        requires
            self.wf(),
        ensures
            self.all_defaults() ==> config_free(r),
            arm_model(tokens) is None ==> (r matches Err(e) && e matches Fault::Grammar(_)),
            r matches Ok(out) ==> (arm_model(tokens) matches Some(m) && exists|
                x: Seq<int>,
                y: Seq<int>,
            | ts_trees(out) == m.0 + x + m.3 + y + m.5),
        decreases fuel, 2int,
    {
        let p = match parse_arm(&tokens) {
            Ok(p) => p,
            Err(e) => {
                return Err(e);
            }
        };
        let pat = match self.callback(context, CallbackType::Pat, p.pat, fuel) {
            Ok(t) => t,
            Err(e) => {
                return Err(e);
            }
        };
        let ghost h0 = ts_trees(p.head);
        let mut out = p.head;
        ts_append(&mut out, pat);
        let ghost x0 = ts_trees(out);
        match p.guard {
            Some(d) => {
                let guard = match self.callback(context, CallbackType::Expr, d.child, fuel) {
                    Ok(t) => t,
                    Err(e) => {
                        return Err(e);
                    }
                };
                ts_append(&mut out, d.lead);
                ts_append(&mut out, guard);
            }
            None => {}
        }
        let ghost pre0 = ts_trees(out);
        let body = match self.callback(context, CallbackType::Expr, p.body, fuel) {
            Ok(t) => t,
            Err(e) => {
                return Err(e);
            }
        };
        ts_append(&mut out, p.mid);
        ts_append(&mut out, body);
        ts_append(&mut out, p.tail);
        proof {
            let x = pre0.skip(h0.len() as int);
            assert(pre0 =~= h0 + x);
            assert(ts_trees(out) =~= h0 + x + ts_trees(p.mid) + ts_trees(body) + ts_trees(
                p.tail,
            ));
            assert(arm_model(tokens) matches Some(m) && ts_trees(out) == m.0 + x + m.3
                + ts_trees(body) + m.5);
        }
        Ok(out)
    }

    /// Default rule for a struct-literal field: member and colon are
    /// kept verbatim; the value expression is dispatched.
    pub fn field_value(
        &self,
        context: &Context,
        tokens: proc_macro2::TokenStream,
        fuel: u64,
    ) -> (r: Result<proc_macro2::TokenStream, Fault>)
        requires
            self.wf(),
        ensures
            self.all_defaults() ==> config_free(r),
            field_value_model(tokens) is None ==> (r matches Err(e) && e matches Fault::Grammar(_)),
            r matches Ok(out) ==> (field_value_model(tokens) matches Some(m) && exists|
                mid: Seq<int>,
            | ts_trees(out) == m.0 + mid + m.2),
        decreases fuel, 2int,
    {
        let p = match parse_field_value(&tokens) {
            Ok(p) => p,
            Err(e) => {
                return Err(e);
            }
        };
        let r = self.wrap_child(context, p, CallbackType::Expr, fuel);
        proof {
            match &r {
                Ok(out) => {
                    let mid = choose|mid: Seq<int>|
                        ts_trees(*out) == ts_trees(p.head) + mid + ts_trees(p.tail);
                    assert(field_value_model(tokens) matches Some(m) && ts_trees(*out) == m.0
                        + mid + m.2);
                }
                Err(_) => {}
            }
        }
        r
    }
}

} // verus!
