use vstd::prelude::*;
use crate::context::Context;
use crate::engine::{Handler, Moisture};
use crate::errors::{Fault, config_free, grammar_fault};
use crate::grammar_stmts::{
    StmtShape, block_model, local_model, local_parts, parse_block, parse_stmt_local,
    parse_stmt_shapes, parse_stmts, stmt_seq_ok, stmt_shape_kind,
};
use crate::kinds::CallbackType;
use crate::tokens::{ts_append, ts_braced, ts_concat, ts_trees};

verus! {

impl<H: Handler> Moisture<H> {
    /// Default rule for a braced block: the whole statement sequence is
    /// first re-dispatched as one statement-sequence node, so a caller
    /// may intercept the sequence before per-statement dispatch; the
    /// answer goes back inside the braces.
    pub fn block(
        &self,
        context: &Context,
        tokens: proc_macro2::TokenStream,
        fuel: u64,
    ) -> (r: Result<proc_macro2::TokenStream, Fault>)
        requires
            self.wf(),
        ensures
            self.all_defaults() ==> config_free(r),
            block_model(tokens) is None ==> (r matches Err(e) && e matches Fault::Grammar(_)),
            r matches Ok(out) ==> (block_model(tokens) matches Some(_) && ts_trees(out).len()
                == 1),
        decreases fuel, 2int,
    {
        let inner = match parse_block(&tokens) {
            Ok(t) => t,
            Err(e) => {
                return Err(e);
            }
        };
        let stmts = match self.callback(context, CallbackType::Stmts, inner, fuel) {
            Ok(t) => t,
            Err(e) => {
                return Err(e);
            }
        };
        Ok(ts_braced(stmts))
    }

    /// Default rule for a statement sequence: every statement is
    /// dispatched in order and the results concatenated.
    pub fn stmts(
        &self,
        context: &Context,
        tokens: proc_macro2::TokenStream,
        fuel: u64,
    ) -> (r: Result<proc_macro2::TokenStream, Fault>)
        requires
            self.wf(),
        ensures
            self.all_defaults() ==> config_free(r),
            !stmt_seq_ok(tokens) ==> (r matches Err(e) && e matches Fault::Grammar(_)),
        decreases fuel, 2int,
    {
        let elems = match parse_stmts(&tokens) {
            Ok(v) => v,
            Err(e) => {
                return Err(e);
            }
        };
        let out = match self.dispatch_each(context, CallbackType::Stmt, elems, fuel) {
            Ok(v) => v,
            Err(e) => {
                return Err(e);
            }
        };
        Ok(ts_concat(out))
    }

    /// Default rule for the statement union: the snippet must hold
    /// exactly one statement, which is classified and routed onward; any
    /// other count is a grammar fault.
    pub fn stmt(
        &self,
        context: &Context,
        tokens: proc_macro2::TokenStream,
        fuel: u64,
    ) -> (r: Result<proc_macro2::TokenStream, Fault>)
        requires
            self.wf(),
        ensures
            self.all_defaults() ==> config_free(r),
            !stmt_seq_ok(tokens) ==> (r matches Err(e) && e matches Fault::Grammar(_)),
        decreases fuel, 2int,
    {
        let mut shapes = match parse_stmt_shapes(&tokens) {
            Ok(v) => v,
            Err(e) => {
                return Err(e);
            }
        };
        if shapes.len() != 1 {
            return Err(grammar_fault("expected a single statement"));
        }
        let shape = match shapes.pop() {
            Some(s) => s,
            None => {
                return Err(grammar_fault("expected a single statement"));
            }
        };
        self.route_stmt(context, shape, fuel)
    }

    /// Routes a classified statement: a declaration at the declaration
    /// kind, a nested item at the item kind, an expression at the
    /// expression kind; the semicolon of an expression statement is put
    /// back after the rewritten expression.
    pub fn route_stmt(
        &self,
        context: &Context,
        shape: StmtShape,
        fuel: u64,
    ) -> (r: Result<proc_macro2::TokenStream, Fault>)
        requires
            self.wf(),
        ensures
            self.all_defaults() ==> config_free(r),
            shape matches StmtShape::Semi(t2, sc) ==> (r matches Ok(out) ==> (exists|
                x: Seq<int>,
            | ts_trees(out) == x + ts_trees(sc))),
        decreases fuel, 1int,
    {
        match shape {
            StmtShape::Local(t) => self.callback(context, CallbackType::Local, t, fuel),
            StmtShape::Item(t) => self.callback(context, CallbackType::Item, t, fuel),
            StmtShape::Expr(t) => self.callback(context, CallbackType::Expr, t, fuel),
            StmtShape::Semi(t, semi) => {
                let expr = match self.callback(context, CallbackType::Expr, t, fuel) {
                    Ok(t) => t,
                    Err(e) => {
                        return Err(e);
                    }
                };
                let ghost e0 = ts_trees(expr);
                let mut out = expr;
                ts_append(&mut out, semi);
                proof {
                    assert(ts_trees(out) == e0 + ts_trees(semi));
                }
                Ok(out)
            }
        }
    }

    /// Default rule for a `let` declaration: attributes and the `let`
    /// keyword are kept verbatim; the pattern is dispatched, at the
    /// typed-pattern kind when it carries a type annotation, and the
    /// initializer expression, if any, after it.
    pub fn local(
        &self,
        context: &Context,
        tokens: proc_macro2::TokenStream,
        fuel: u64,
    ) -> (r: Result<proc_macro2::TokenStream, Fault>)
        requires
            self.wf(),
        ensures
            self.all_defaults() ==> config_free(r),
            local_model(tokens) is None ==> (r matches Err(e) && e matches Fault::Grammar(_)),
            local_model(tokens) matches Some(mm) && mm is None ==> (r matches Err(e)
                && e matches Fault::ShapeMismatch { .. }),
            r matches Ok(out) ==> (local_model(tokens) matches Some(mm) && mm matches Some(m)
                && exists|mid: Seq<int>| ts_trees(out) == m.0 + mid + m.4),
        decreases fuel, 2int,
    {
        let l = match parse_stmt_local(&tokens) {
            Ok(Some(l)) => l,
            Ok(None) => {
                let actual = match parse_stmt_shapes(&tokens) {
                    Ok(v) => if v.len() == 1 {
                        Some(stmt_shape_kind(&v[0]))
                    } else {
                        None
                    },
                    Err(_) => None,
                };
                return Err(Fault::ShapeMismatch { expected: CallbackType::Local, actual });
            }
            Err(e) => {
                return Err(e);
            }
        };
        let p = local_parts(&l);
        let pat_kind = if p.pat_typed {
            CallbackType::PatType
        } else {
            CallbackType::Pat
        };
        let pat = match self.callback(context, pat_kind, p.pat, fuel) {
            Ok(t) => t,
            Err(e) => {
                return Err(e);
            }
        };
        let ghost h0 = ts_trees(p.head);
        let ghost p0 = ts_trees(pat);
        let mut out = p.head;
        ts_append(&mut out, pat);
        match p.init {
            Some(d) => {
                let expr = match self.callback(context, CallbackType::Expr, d.child, fuel) {
                    Ok(t) => t,
                    Err(e) => {
                        return Err(e);
                    }
                };
                let ghost l0 = ts_trees(d.lead);
                ts_append(&mut out, d.lead);
                ts_append(&mut out, expr);
                ts_append(&mut out, p.tail);
                proof {
                    assert(ts_trees(out) =~= h0 + (p0 + l0 + ts_trees(expr)) + ts_trees(
                        p.tail,
                    ));
                    assert(local_model(tokens) matches Some(mm) && mm matches Some(m)
                        && ts_trees(out) == m.0 + (p0 + l0 + ts_trees(expr)) + m.4);
                }
            }
            None => {
                ts_append(&mut out, p.tail);
                proof {
                    assert(ts_trees(out) =~= h0 + p0 + ts_trees(p.tail));
                    assert(local_model(tokens) matches Some(mm) && mm matches Some(m)
                        && ts_trees(out) == m.0 + p0 + m.4);
                }
            }
        }
        Ok(out)
    }
}

} // verus!
