use vstd::prelude::*;
use crate::context::Context;
use crate::engine::{Handler, Moisture};
use crate::errors::{Fault, config_free};
use crate::grammar_pats::{
    PatShape, parse_pat, parse_pat_ident, parse_pat_lit, parse_pat_or, parse_pat_range,
    parse_pat_reference, parse_pat_slice, parse_pat_struct, parse_pat_tuple,
    parse_pat_tuple_struct, parse_pat_via_stub, pat_ident_model, pat_lit_model, pat_or_model,
    pat_parse_ok, pat_range_model, pat_reference_model, pat_shape, pat_shape_kind,
    pat_slice_model, pat_struct_model, pat_tuple_model, pat_tuple_struct_model, pat_type_model,
    pat_type_parts, take_pat_variant,
};
use crate::kinds::CallbackType;
use crate::tokens::{ts_append, ts_braced, ts_bracketed, ts_comma, ts_join_comma, ts_join_pipe, ts_parenthesized, ts_trees};

verus! {

impl<H: Handler> Moisture<H> {
    /// Default rule for the pattern union: classifies the pattern and
    /// routes it onward.
    pub fn pat(
        &self,
        context: &Context,
        tokens: proc_macro2::TokenStream,
        fuel: u64,
    ) -> (r: Result<proc_macro2::TokenStream, Fault>)
        requires
            self.wf(),
        ensures
            self.all_defaults() ==> config_free(r),
            !pat_parse_ok(tokens) ==> (r matches Err(e) && e matches Fault::Grammar(_)),
        decreases fuel, 2int,
    {
        let parsed = match parse_pat(&tokens) {
            Ok(p) => p,
            Err(e) => {
                return Err(e);
            }
        };
        let shape = pat_shape(&parsed);
        self.route_pat(context, shape, fuel)
    }

    /// Routes a classified pattern: a variant with a dedicated catalog
    /// kind is re-dispatched at that kind with its own tokens, a
    /// verbatim run at the opaque-snippet kind; a variant the catalog
    /// does not special-case is handed back unchanged, its children
    /// never explored.
    pub fn route_pat(
        &self,
        context: &Context,
        shape: PatShape,
        fuel: u64,
    ) -> (r: Result<proc_macro2::TokenStream, Fault>)
        requires
            self.wf(),
        ensures
            shape matches PatShape::Other(t) ==> r == Ok::<proc_macro2::TokenStream, Fault>(t),
            self.all_defaults() ==> config_free(r),
        decreases fuel, 1int,
    {
        match shape {
            PatShape::Box(t) => self.callback(context, CallbackType::PatBox, t, fuel),
            PatShape::Ident(t) => self.callback(context, CallbackType::PatIdent, t, fuel),
            PatShape::Lit(t) => self.callback(context, CallbackType::PatLit, t, fuel),
            PatShape::Macro(t) => self.callback(context, CallbackType::PatMacro, t, fuel),
            PatShape::Or(t) => self.callback(context, CallbackType::PatOr, t, fuel),
            PatShape::Path(t) => self.callback(context, CallbackType::PatPath, t, fuel),
            PatShape::Range(t) => self.callback(context, CallbackType::PatRange, t, fuel),
            PatShape::Reference(t) => self.callback(context, CallbackType::PatReference, t, fuel),
            PatShape::Rest(t) => self.callback(context, CallbackType::PatRest, t, fuel),
            PatShape::Slice(t) => self.callback(context, CallbackType::PatSlice, t, fuel),
            PatShape::Struct(t) => self.callback(context, CallbackType::PatStruct, t, fuel),
            PatShape::Tuple(t) => self.callback(context, CallbackType::PatTuple, t, fuel),
            PatShape::TupleStruct(t) => self.callback(context, CallbackType::PatTupleStruct, t, fuel),
            PatShape::Verbatim(t) => self.callback(context, CallbackType::Verbatim, t, fuel),
            PatShape::Wild(t) => self.callback(context, CallbackType::PatWild, t, fuel),
            PatShape::Other(t) => Ok(t),
        }
    }

    /// Default rule for a box pattern: demand that variant, then hand it
    /// back unchanged. It exists purely as an override point.
    pub fn pat_box(
        &self,
        _context: &Context,
        tokens: proc_macro2::TokenStream,
        _fuel: u64,
    ) -> (r: Result<proc_macro2::TokenStream, Fault>)
        requires
            self.wf(),
        ensures
            r matches Err(e) ==> (e matches Fault::Grammar(_)
                || e matches Fault::ShapeMismatch { .. }),
    {
        let parsed = match parse_pat(&tokens) {
            Ok(p) => p,
            Err(e) => {
                return Err(e);
            }
        };
        take_pat_variant(pat_shape(&parsed), CallbackType::PatBox)
    }

    /// Default rule for an identifier pattern: binding mode and name are
    /// kept verbatim; the `@` sub-pattern, if any, is dispatched.
    pub fn pat_ident(
        &self,
        context: &Context,
        tokens: proc_macro2::TokenStream,
        fuel: u64,
    ) -> (r: Result<proc_macro2::TokenStream, Fault>)
        requires
            self.wf(),
        ensures
            self.all_defaults() ==> config_free(r),
            pat_ident_model(tokens) is None ==> (r matches Err(e) && e matches Fault::Grammar(_)),
            pat_ident_model(tokens) matches Some(mm) && mm is None ==> (r matches Err(e)
                && e matches Fault::ShapeMismatch { .. }),
            r matches Ok(out) ==> (pat_ident_model(tokens) matches Some(mm) && mm matches Some(m)
                && exists|rest: Seq<int>| ts_trees(out) == m.0 + rest),
        decreases fuel, 2int,
    {
        let p = match parse_pat_ident(&tokens) {
            Ok(Some(p)) => p,
            Ok(None) => {
                let actual = match parse_pat(&tokens) {
                    Ok(p2) => pat_shape_kind(&pat_shape(&p2)),
                    Err(_) => None,
                };
                return Err(Fault::ShapeMismatch { expected: CallbackType::PatIdent, actual });
            }
            Err(e) => {
                return Err(e);
            }
        };
        let ghost h0 = ts_trees(p.head);
        let mut out = p.head;
        match p.sub {
            Some(d) => {
                let sub = match self.callback(context, CallbackType::Pat, d.child, fuel) {
                    Ok(t) => t,
                    Err(e) => {
                        return Err(e);
                    }
                };
                let ghost l0 = ts_trees(d.lead);
                ts_append(&mut out, d.lead);
                ts_append(&mut out, sub);
                proof {
                    assert(ts_trees(out) =~= h0 + (l0 + ts_trees(sub)));
                    assert(pat_ident_model(tokens) matches Some(mm) && mm matches Some(m)
                        && ts_trees(out) == m.0 + (l0 + ts_trees(sub)));
                }
            }
            None => {
                proof {
                    assert(ts_trees(out) =~= h0 + Seq::<int>::empty());
                    assert(pat_ident_model(tokens) matches Some(mm) && mm matches Some(m)
                        && ts_trees(out) == m.0 + Seq::<int>::empty());
                }
            }
        }
        Ok(out)
    }

    /// Default rule for a literal pattern: attributes are kept verbatim
    /// and the literal expression is dispatched.
    pub fn pat_lit(
        &self,
        context: &Context,
        tokens: proc_macro2::TokenStream,
        fuel: u64,
    ) -> (r: Result<proc_macro2::TokenStream, Fault>)
        requires
            self.wf(),
        ensures
            self.all_defaults() ==> config_free(r),
            pat_lit_model(tokens) is None ==> (r matches Err(e) && e matches Fault::Grammar(_)),
            pat_lit_model(tokens) matches Some(mm) && mm is None ==> (r matches Err(e)
                && e matches Fault::ShapeMismatch { .. }),
            r matches Ok(out) ==> (pat_lit_model(tokens) matches Some(mm) && mm matches Some(m)
                && exists|mid: Seq<int>| ts_trees(out) == m.0 + mid + m.2),
        decreases fuel, 2int,
    {
        let p = match parse_pat_lit(&tokens) {
            Ok(Some(p)) => p,
            Ok(None) => {
                let actual = match parse_pat(&tokens) {
                    Ok(p2) => pat_shape_kind(&pat_shape(&p2)),
                    Err(_) => None,
                };
                return Err(Fault::ShapeMismatch { expected: CallbackType::PatLit, actual });
            }
            Err(e) => {
                return Err(e);
            }
        };
        let expr = match self.callback(context, CallbackType::Expr, p.inner, fuel) {
            Ok(t) => t,
            Err(e) => {
                return Err(e);
            }
        };
        let mut out = p.head;
        ts_append(&mut out, expr);
        ts_append(&mut out, p.tail);
        proof {
            assert(pat_lit_model(tokens) matches Some(mm) && mm matches Some(m) && ts_trees(
                out,
            ) == m.0 + ts_trees(expr) + m.2);
        }
        Ok(out)
    }

    /// Default rule for a macro-invocation pattern: demand that variant,
    /// then hand it back unchanged; its contents stay opaque.
    pub fn pat_macro(
        &self,
        _context: &Context,
        tokens: proc_macro2::TokenStream,
        _fuel: u64,
    ) -> (r: Result<proc_macro2::TokenStream, Fault>)
        requires
            self.wf(),
        ensures
            r matches Err(e) ==> (e matches Fault::Grammar(_)
                || e matches Fault::ShapeMismatch { .. }),
    {
        let parsed = match parse_pat(&tokens) {
            Ok(p) => p,
            Err(e) => {
                return Err(e);
            }
        };
        take_pat_variant(pat_shape(&parsed), CallbackType::PatMacro)
    }

    /// Default rule for an or-pattern: the leading bar, if any, is kept
    /// verbatim; every case is dispatched in order and the results
    /// joined by bars.
    pub fn pat_or(
        &self,
        context: &Context,
        tokens: proc_macro2::TokenStream,
        fuel: u64,
    ) -> (r: Result<proc_macro2::TokenStream, Fault>)
        requires
            self.wf(),
        ensures
            self.all_defaults() ==> config_free(r),
            pat_or_model(tokens) is None ==> (r matches Err(e) && e matches Fault::Grammar(_)),
            pat_or_model(tokens) matches Some(mm) && mm is None ==> (r matches Err(e)
                && e matches Fault::ShapeMismatch { .. }),
            r matches Ok(out) ==> (pat_or_model(tokens) matches Some(mm) && mm matches Some(m)
                && exists|rest: Seq<int>| ts_trees(out) == m.0 + rest),
        decreases fuel, 2int,
    {
        let p = match parse_pat_or(&tokens) {
            Ok(Some(p)) => p,
            Ok(None) => {
                let actual = match parse_pat(&tokens) {
                    Ok(p2) => pat_shape_kind(&pat_shape(&p2)),
                    Err(_) => None,
                };
                return Err(Fault::ShapeMismatch { expected: CallbackType::PatOr, actual });
            }
            Err(e) => {
                return Err(e);
            }
        };
        let cases = match self.dispatch_each(context, CallbackType::Pat, p.elems, fuel) {
            Ok(v) => v,
            Err(e) => {
                return Err(e);
            }
        };
        let joined = ts_join_pipe(cases);
        let mut out = p.head;
        ts_append(&mut out, joined);
        proof {
            assert(pat_or_model(tokens) matches Some(mm) && mm matches Some(m) && ts_trees(
                out,
            ) == m.0 + ts_trees(joined));
        }
        Ok(out)
    }

    /// Default rule for a path pattern: demand that variant, then hand
    /// it back unchanged. It exists purely as an override point.
    pub fn pat_path(
        &self,
        _context: &Context,
        tokens: proc_macro2::TokenStream,
        _fuel: u64,
    ) -> (r: Result<proc_macro2::TokenStream, Fault>)
        requires
            self.wf(),
        ensures
            r matches Err(e) ==> (e matches Fault::Grammar(_)
                || e matches Fault::ShapeMismatch { .. }),
    {
        let parsed = match parse_pat(&tokens) {
            Ok(p) => p,
            Err(e) => {
                return Err(e);
            }
        };
        take_pat_variant(pat_shape(&parsed), CallbackType::PatPath)
    }

    /// Default rule for a range pattern: both bound expressions are
    /// dispatched around the verbatim range operator.
    pub fn pat_range(
        &self,
        context: &Context,
        tokens: proc_macro2::TokenStream,
        fuel: u64,
    ) -> (r: Result<proc_macro2::TokenStream, Fault>)
        requires
            self.wf(),
        ensures
            self.all_defaults() ==> config_free(r),
            pat_range_model(tokens) is None ==> (r matches Err(e) && e matches Fault::Grammar(_)),
            pat_range_model(tokens) matches Some(mm) && mm is None ==> (r matches Err(e)
                && e matches Fault::ShapeMismatch { .. }),
            r matches Ok(out) ==> (pat_range_model(tokens) matches Some(mm) && mm matches Some(m)
                && exists|x: Seq<int>, y: Seq<int>| ts_trees(out) == m.0 + x + m.2 + y),
        decreases fuel, 2int,
    {
        let p = match parse_pat_range(&tokens) {
            Ok(Some(p)) => p,
            Ok(None) => {
                let actual = match parse_pat(&tokens) {
                    Ok(p2) => pat_shape_kind(&pat_shape(&p2)),
                    Err(_) => None,
                };
                return Err(Fault::ShapeMismatch { expected: CallbackType::PatRange, actual });
            }
            Err(e) => {
                return Err(e);
            }
        };
        let lo = match self.callback(context, CallbackType::Expr, p.first, fuel) {
            Ok(t) => t,
            Err(e) => {
                return Err(e);
            }
        };
        let hi = match self.callback(context, CallbackType::Expr, p.second, fuel) {
            Ok(t) => t,
            Err(e) => {
                return Err(e);
            }
        };
        let mut out = p.head;
        ts_append(&mut out, lo);
        ts_append(&mut out, p.mid);
        ts_append(&mut out, hi);
        proof {
            assert(pat_range_model(tokens) matches Some(mm) && mm matches Some(m) && ts_trees(
                out,
            ) == m.0 + ts_trees(lo) + m.2 + ts_trees(hi));
        }
        Ok(out)
    }

    /// Default rule for a reference pattern: `&` and mutability are kept
    /// verbatim; the inner pattern is dispatched.
    pub fn pat_reference(
        &self,
        context: &Context,
        tokens: proc_macro2::TokenStream,
        fuel: u64,
    ) -> (r: Result<proc_macro2::TokenStream, Fault>)
        requires
            self.wf(),
        ensures
            self.all_defaults() ==> config_free(r),
            pat_reference_model(tokens) is None ==> (r matches Err(e) && e matches Fault::Grammar(_)),
            pat_reference_model(tokens) matches Some(mm) && mm is None ==> (r matches Err(e)
                && e matches Fault::ShapeMismatch { .. }),
            r matches Ok(out) ==> (pat_reference_model(tokens) matches Some(mm)
                && mm matches Some(m) && exists|mid: Seq<int>| ts_trees(out) == m.0 + mid + m.2),
        decreases fuel, 2int,
    {
        let p = match parse_pat_reference(&tokens) {
            Ok(Some(p)) => p,
            Ok(None) => {
                let actual = match parse_pat(&tokens) {
                    Ok(p2) => pat_shape_kind(&pat_shape(&p2)),
                    Err(_) => None,
                };
                return Err(Fault::ShapeMismatch { expected: CallbackType::PatReference, actual });
            }
            Err(e) => {
                return Err(e);
            }
        };
        let inner = match self.callback(context, CallbackType::Pat, p.inner, fuel) {
            Ok(t) => t,
            Err(e) => {
                return Err(e);
            }
        };
        let mut out = p.head;
        ts_append(&mut out, inner);
        ts_append(&mut out, p.tail);
        proof {
            assert(pat_reference_model(tokens) matches Some(mm) && mm matches Some(m)
                && ts_trees(out) == m.0 + ts_trees(inner) + m.2);
        }
        Ok(out)
    }

    /// Default rule for a rest pattern: demand that variant, then hand
    /// it back unchanged. It exists purely as an override point.
    pub fn pat_rest(
        &self,
        _context: &Context,
        tokens: proc_macro2::TokenStream,
        _fuel: u64,
    ) -> (r: Result<proc_macro2::TokenStream, Fault>)
        requires
            self.wf(),
        ensures
            r matches Err(e) ==> (e matches Fault::Grammar(_)
                || e matches Fault::ShapeMismatch { .. }),
    {
        let parsed = match parse_pat(&tokens) {
            Ok(p) => p,
            Err(e) => {
                return Err(e);
            }
        };
        take_pat_variant(pat_shape(&parsed), CallbackType::PatRest)
    }

    /// Default rule for a slice pattern: every element is dispatched in
    /// order, the results joined by commas inside the brackets.
    pub fn pat_slice(
        &self,
        context: &Context,
        tokens: proc_macro2::TokenStream,
        fuel: u64,
    ) -> (r: Result<proc_macro2::TokenStream, Fault>)
        requires
            self.wf(),
        ensures
            self.all_defaults() ==> config_free(r),
            pat_slice_model(tokens) is None ==> (r matches Err(e) && e matches Fault::Grammar(_)),
            pat_slice_model(tokens) matches Some(mm) && mm is None ==> (r matches Err(e)
                && e matches Fault::ShapeMismatch { .. }),
            r matches Ok(out) ==> (pat_slice_model(tokens) matches Some(mm) && mm matches Some(m)
                && exists|g: Seq<int>| ts_trees(out) == m.0 + g && g.len() == 1),
        decreases fuel, 2int,
    {
        let p = match parse_pat_slice(&tokens) {
            Ok(Some(p)) => p,
            Ok(None) => {
                let actual = match parse_pat(&tokens) {
                    Ok(p2) => pat_shape_kind(&pat_shape(&p2)),
                    Err(_) => None,
                };
                return Err(Fault::ShapeMismatch { expected: CallbackType::PatSlice, actual });
            }
            Err(e) => {
                return Err(e);
            }
        };
        let elems = match self.dispatch_each(context, CallbackType::Pat, p.elems, fuel) {
            Ok(v) => v,
            Err(e) => {
                return Err(e);
            }
        };
        let grouped = ts_bracketed(ts_join_comma(elems));
        let mut out = p.head;
        ts_append(&mut out, grouped);
        proof {
            assert(pat_slice_model(tokens) matches Some(mm) && mm matches Some(m) && ts_trees(
                out,
            ) == m.0 + ts_trees(grouped));
        }
        Ok(out)
    }

    /// Default rule for a struct pattern: path and field lead-ins are
    /// kept verbatim; each field's pattern is dispatched in order, and
    /// the `..` rest marker, if any, closes the braces.
    pub fn pat_struct(
        &self,
        context: &Context,
        tokens: proc_macro2::TokenStream,
        fuel: u64,
    ) -> (r: Result<proc_macro2::TokenStream, Fault>)
        requires
            self.wf(),
        ensures
            self.all_defaults() ==> config_free(r),
            pat_struct_model(tokens) is None ==> (r matches Err(e) && e matches Fault::Grammar(_)),
            pat_struct_model(tokens) matches Some(mm) && mm is None ==> (r matches Err(e)
                && e matches Fault::ShapeMismatch { .. }),
            r matches Ok(out) ==> (pat_struct_model(tokens) matches Some(mm) && mm matches Some(m)
                && exists|g: Seq<int>| ts_trees(out) == m.0 + g && g.len() == 1),
        decreases fuel, 2int,
    {
        let p = match parse_pat_struct(&tokens) {
            Ok(Some(p)) => p,
            Ok(None) => {
                let actual = match parse_pat(&tokens) {
                    Ok(p2) => pat_shape_kind(&pat_shape(&p2)),
                    Err(_) => None,
                };
                return Err(Fault::ShapeMismatch { expected: CallbackType::PatStruct, actual });
            }
            Err(e) => {
                return Err(e);
            }
        };
        let mut rendered: Vec<proc_macro2::TokenStream> = Vec::new();
        let n = p.fields.len();
        let mut i: usize = 0;
        while i < n
            invariant
                self.wf(),
                n == p.fields@.len(),
                i <= n,
                pat_struct_model(tokens) matches Some(mm) && mm is Some,
            decreases n - i,
        {
            let f = &p.fields[i];
            let sub = match self.callback(context, CallbackType::Pat, f.child.clone(), fuel) {
                Ok(t) => t,
                Err(e) => {
                    return Err(e);
                }
            };
            let mut one = f.lead.clone();
            ts_append(&mut one, sub);
            rendered.push(one);
            i = i + 1;
        }
        let had_fields = rendered.len() > 0;
        let mut inner = ts_join_comma(rendered);
        match p.dot2 {
            Some(d) => {
                if had_fields {
                    ts_append(&mut inner, ts_comma());
                }
                ts_append(&mut inner, d);
            }
            None => {}
        }
        let grouped = ts_braced(inner);
        let mut out = p.head;
        ts_append(&mut out, grouped);
        proof {
            assert(pat_struct_model(tokens) matches Some(mm) && mm matches Some(m) && ts_trees(
                out,
            ) == m.0 + ts_trees(grouped));
        }
        Ok(out)
    }

    /// Default rule for a tuple pattern: every element is dispatched in
    /// order, the results joined by commas inside the parentheses.
    pub fn pat_tuple(
        &self,
        context: &Context,
        tokens: proc_macro2::TokenStream,
        fuel: u64,
    ) -> (r: Result<proc_macro2::TokenStream, Fault>)
        requires
            self.wf(),
        ensures
            self.all_defaults() ==> config_free(r),
            pat_tuple_model(tokens) is None ==> (r matches Err(e) && e matches Fault::Grammar(_)),
            pat_tuple_model(tokens) matches Some(mm) && mm is None ==> (r matches Err(e)
                && e matches Fault::ShapeMismatch { .. }),
            r matches Ok(out) ==> (pat_tuple_model(tokens) matches Some(mm) && mm matches Some(m)
                && exists|g: Seq<int>| ts_trees(out) == m.0 + g && g.len() == 1),
        decreases fuel, 2int,
    {
        let p = match parse_pat_tuple(&tokens) {
            Ok(Some(p)) => p,
            Ok(None) => {
                let actual = match parse_pat(&tokens) {
                    Ok(p2) => pat_shape_kind(&pat_shape(&p2)),
                    Err(_) => None,
                };
                return Err(Fault::ShapeMismatch { expected: CallbackType::PatTuple, actual });
            }
            Err(e) => {
                return Err(e);
            }
        };
        let elems = match self.dispatch_each(context, CallbackType::Pat, p.elems, fuel) {
            Ok(v) => v,
            Err(e) => {
                return Err(e);
            }
        };
        let grouped = ts_parenthesized(ts_join_comma(elems));
        let mut out = p.head;
        ts_append(&mut out, grouped);
        proof {
            assert(pat_tuple_model(tokens) matches Some(mm) && mm matches Some(m) && ts_trees(
                out,
            ) == m.0 + ts_trees(grouped));
        }
        Ok(out)
    }

    /// Default rule for a tuple-struct pattern: the path is kept
    /// verbatim and the positional pattern group is re-dispatched
    /// through the tuple-pattern kind rather than decomposed here.
    pub fn pat_tuple_struct(
        &self,
        context: &Context,
        tokens: proc_macro2::TokenStream,
        fuel: u64,
    ) -> (r: Result<proc_macro2::TokenStream, Fault>)
        requires
            self.wf(),
        ensures
            self.all_defaults() ==> config_free(r),
            pat_tuple_struct_model(tokens) is None ==> (r matches Err(e) && e matches Fault::Grammar(_)),
            pat_tuple_struct_model(tokens) matches Some(mm) && mm is None ==> (r matches Err(e)
                && e matches Fault::ShapeMismatch { .. }),
            r matches Ok(out) ==> (pat_tuple_struct_model(tokens) matches Some(mm)
                && mm matches Some(m) && exists|mid: Seq<int>| ts_trees(out) == m.0 + mid + m.2),
        decreases fuel, 2int,
    {
        let p = match parse_pat_tuple_struct(&tokens) {
            Ok(Some(p)) => p,
            Ok(None) => {
                let actual = match parse_pat(&tokens) {
                    Ok(p2) => pat_shape_kind(&pat_shape(&p2)),
                    Err(_) => None,
                };
                return Err(Fault::ShapeMismatch { expected: CallbackType::PatTupleStruct, actual });
            }
            Err(e) => {
                return Err(e);
            }
        };
        let inner = match self.callback(context, CallbackType::PatTuple, p.inner, fuel) {
            Ok(t) => t,
            Err(e) => {
                return Err(e);
            }
        };
        let mut out = p.head;
        ts_append(&mut out, inner);
        ts_append(&mut out, p.tail);
        proof {
            assert(pat_tuple_struct_model(tokens) matches Some(mm) && mm matches Some(m)
                && ts_trees(out) == m.0 + ts_trees(inner) + m.2);
        }
        Ok(out)
    }

    /// Default rule for a type-annotated pattern: the annotation is kept
    /// verbatim and the inner pattern is dispatched. The shape only
    /// occurs inside a declaration, so the parse goes through a
    /// synthesized declaration stub.
    pub fn pat_type(
        &self,
        context: &Context,
        tokens: proc_macro2::TokenStream,
        fuel: u64,
    ) -> (r: Result<proc_macro2::TokenStream, Fault>)
        requires
            self.wf(),
        ensures
            self.all_defaults() ==> config_free(r),
            pat_type_model(tokens) is None ==> (r matches Err(e) && e matches Fault::Grammar(_)),
            pat_type_model(tokens) matches Some(mm) && mm is None ==> (r matches Err(e)
                && e matches Fault::ShapeMismatch { .. }),
            r matches Ok(out) ==> (pat_type_model(tokens) matches Some(mm) && mm matches Some(m)
                && exists|mid: Seq<int>| ts_trees(out) == m.0 + mid + m.2),
        decreases fuel, 2int,
    {
        let parsed = match parse_pat_via_stub(&tokens) {
            Ok(Some(p)) => p,
            Ok(None) => {
                return Err(Fault::ShapeMismatch { expected: CallbackType::PatType, actual: None });
            }
            Err(e) => {
                return Err(e);
            }
        };
        let p = match pat_type_parts(&parsed) {
            Some(p) => p,
            None => {
                let actual = pat_shape_kind(&pat_shape(&parsed));
                return Err(Fault::ShapeMismatch { expected: CallbackType::PatType, actual });
            }
        };
        let inner = match self.callback(context, CallbackType::Pat, p.pat, fuel) {
            Ok(t) => t,
            Err(e) => {
                return Err(e);
            }
        };
        let mut out = p.head;
        ts_append(&mut out, inner);
        ts_append(&mut out, p.tail);
        proof {
            assert(pat_type_model(tokens) matches Some(mm) && mm matches Some(m) && ts_trees(
                out,
            ) == m.0 + ts_trees(inner) + m.2);
        }
        Ok(out)
    }

    /// Default rule for a wildcard pattern: demand that variant, then
    /// hand it back unchanged. It exists purely as an override point.
    pub fn pat_wild(
        &self,
        _context: &Context,
        tokens: proc_macro2::TokenStream,
        _fuel: u64,
    ) -> (r: Result<proc_macro2::TokenStream, Fault>)
        requires
            self.wf(),
        ensures
            r matches Err(e) ==> (e matches Fault::Grammar(_)
                || e matches Fault::ShapeMismatch { .. }),
    {
        let parsed = match parse_pat(&tokens) {
            Ok(p) => p,
            Err(e) => {
                return Err(e);
            }
        };
        take_pat_variant(pat_shape(&parsed), CallbackType::PatWild)
    }
}

} // verus!
