use moisture::context::Context;
use moisture::engine::{Callback, Handler, Identity, Moisture};
use moisture::errors::Fault;
use moisture::kinds::{CallbackType, KIND_COUNT};
use proc_macro2::TokenStream;

const FUEL: u64 = 10_000;

fn ts(s: &str) -> TokenStream {
    s.parse().unwrap()
}

struct NineNineNine;

impl Handler for NineNineNine {
    fn call(
        &self,
        _engine: &Moisture<Self>,
        _context: &Context,
        _tokens: TokenStream,
        _fuel: u64,
    ) -> Result<TokenStream, Fault> {
        Ok("999".parse().unwrap())
    }
}

fn valid_samples() -> Vec<(CallbackType, &'static str)> {
    vec![
        (CallbackType::File, "fn a() { 1; }"),
        (CallbackType::Item, "fn a() {}"),
        (CallbackType::ItemConst, "const A: u32 = 1;"),
        (CallbackType::ItemEnum, "enum E { A, B(u32), C = 3 }"),
        (CallbackType::ItemFn, "fn a() { let x = 1; }"),
        (CallbackType::ItemImpl, "impl S { fn m(&self) {} }"),
        (CallbackType::ItemMacro, "m!();"),
        (CallbackType::ItemMacro2, "macro m {}"),
        (CallbackType::ItemMod, "mod m { fn a() {} }"),
        (CallbackType::ItemStatic, "static A: u32 = 1;"),
        (CallbackType::ItemStruct, "struct S { a: u32 }"),
        (CallbackType::ItemTrait, "trait T { fn m(&self); }"),
        (CallbackType::ItemTraitAlias, "trait T = A;"),
        (CallbackType::ItemType, "type T = u32;"),
        (CallbackType::ItemUnion, "union U { a: u32 }"),
        (CallbackType::ItemUse, "use a::b;"),
        (CallbackType::Variant, "A(u32)"),
        (CallbackType::ForeignItem, "fn f();"),
        (CallbackType::ForeignItemFn, "fn f();"),
        (CallbackType::ForeignItemStatic, "static A: u32;"),
        (CallbackType::ForeignItemType, "type T;"),
        (CallbackType::ForeignItemMacro, "m!();"),
        (CallbackType::ImplItem, "fn m(&self) {}"),
        (CallbackType::ImplItemConst, "const A: u32 = 1;"),
        (CallbackType::ImplItemMethod, "fn m(&self) { 1; }"),
        (CallbackType::ImplItemType, "type T = u32;"),
        (CallbackType::ImplItemMacro, "m!();"),
        (CallbackType::TraitItem, "fn m(&self);"),
        (CallbackType::TraitItemConst, "const A: u32;"),
        (CallbackType::TraitItemMethod, "fn m(&self) { 1; }"),
        (CallbackType::TraitItemType, "type T;"),
        (CallbackType::TraitItemMacro, "m!();"),
        (CallbackType::Block, "{ 1; 2 }"),
        (CallbackType::Stmts, "let x = 1; x"),
        (CallbackType::Stmt, "let x = 1;"),
        (CallbackType::Local, "let x = 1;"),
        (CallbackType::Pat, "x"),
        (CallbackType::PatBox, "box x"),
        (CallbackType::PatIdent, "x"),
        (CallbackType::PatLit, "1"),
        (CallbackType::PatMacro, "m!()"),
        (CallbackType::PatPath, "a::b"),
        (CallbackType::PatRange, "1 ..= 2"),
        (CallbackType::PatReference, "&x"),
        (CallbackType::PatRest, ".."),
        (CallbackType::PatSlice, "[a, b]"),
        (CallbackType::PatStruct, "S { a }"),
        (CallbackType::PatTuple, "(a, b)"),
        (CallbackType::PatTupleStruct, "S(a)"),
        (CallbackType::PatType, "x: u32"),
        (CallbackType::PatWild, "_"),
        (CallbackType::Expr, "1 + 2"),
        (CallbackType::ExprArray, "[1, 2]"),
        (CallbackType::ExprAssign, "a = 1"),
        (CallbackType::ExprAssignOp, "a += 1"),
        (CallbackType::ExprAsync, "async { 1 }"),
        (CallbackType::ExprAwait, "a.await"),
        (CallbackType::ExprBinary, "1 + 2"),
        (CallbackType::ExprBlock, "{ 1 }"),
        (CallbackType::ExprBox, "box 1"),
        (CallbackType::ExprBreak, "break"),
        (CallbackType::ExprCall, "f(1, 2)"),
        (CallbackType::ExprCast, "1 as u32"),
        (CallbackType::ExprClosure, "|x| x"),
        (CallbackType::ExprContinue, "continue"),
        (CallbackType::ExprField, "a.b"),
        (CallbackType::ExprForLoop, "for x in xs { 1; }"),
        (CallbackType::ExprIf, "if a { 1 } else { 2 }"),
        (CallbackType::ExprIndex, "a[1]"),
        (CallbackType::ExprLet, "let Some(x) = y"),
        (CallbackType::ExprLit, "1"),
        (CallbackType::ExprLoop, "loop { 1; }"),
        (CallbackType::ExprMacro, "m!(1)"),
        (CallbackType::ExprMatch, "match x { _ => 1 }"),
        (CallbackType::ExprMethodCall, "a.m(1)"),
        (CallbackType::ExprParen, "(1)"),
        (CallbackType::ExprPath, "a::b"),
        (CallbackType::ExprRange, "1 .. 2"),
        (CallbackType::ExprReference, "&a"),
        (CallbackType::ExprRepeat, "[0; 4]"),
        (CallbackType::ExprReturn, "return 1"),
        (CallbackType::ExprStruct, "S { a: 1 }"),
        (CallbackType::ExprTry, "a?"),
        (CallbackType::ExprTryBlock, "try { 1 }"),
        (CallbackType::ExprTuple, "(1, 2)"),
        (CallbackType::ExprType, "x: u32"),
        (CallbackType::ExprUnary, "-1"),
        (CallbackType::ExprWhile, "while a { 1; }"),
        (CallbackType::ExprYield, "yield 1"),
        (CallbackType::Arm, "_ => 1"),
        (CallbackType::Lit, "1"),
        (CallbackType::LitStr, "\"s\""),
        (CallbackType::LitByteStr, "b\"s\""),
        (CallbackType::LitByte, "b'a'"),
        (CallbackType::LitChar, "'a'"),
        (CallbackType::LitInt, "1"),
        (CallbackType::LitFloat, "1.5"),
        (CallbackType::LitBool, "true"),
        (CallbackType::FieldValue, "a: 1"),
        (CallbackType::Verbatim, "anything at all"),
    ]
}

/// Kinds whose minimal sample cannot be written down here; dispatching
/// them still exercises the registry lookup and the rule, and the error
/// that comes back is the grammar's or a shape mismatch, never a
/// missing-callback failure.
fn lookup_only_samples() -> Vec<(CallbackType, &'static str)> {
    vec![
        (CallbackType::ItemExternCrate, "zzz"),
        (CallbackType::ItemForeignMod, "zzz"),
        (CallbackType::PatOr, "x"),
        (CallbackType::ExprGroup, "zzz ~"),
        (CallbackType::ExprUnsafe, "zzz ~"),
    ]
}

#[test]
fn catalog_coverage_every_kind_dispatches_without_configuration_error() {
    let m: Moisture<Identity> = Moisture::new();
    let mut seen = 0;
    for (kind, sample) in valid_samples() {
        let r = m.callback(&Context::new(), kind, ts(sample), FUEL);
        match r {
            Ok(_) => {}
            Err(e) => panic!("kind {:?} on {:?} failed: grammar={} shape={}", kind, sample,
                e.is_grammar(), e.is_shape_mismatch()),
        }
        seen += 1;
    }
    for (kind, sample) in lookup_only_samples() {
        let r = m.callback(&Context::new(), kind, ts(sample), FUEL);
        if let Err(e) = r {
            assert!(!e.is_configuration(), "kind {:?} reported a configuration error", kind);
        }
        seen += 1;
    }
    assert_eq!(seen, KIND_COUNT);
}

#[test]
fn registering_a_callback_replaces_only_that_kind() {
    let mut m: Moisture<NineNineNine> = Moisture::new();
    m.register_callback(CallbackType::LitInt, Callback::Custom(NineNineNine));
    let r = m.callback(&Context::new(), CallbackType::LitInt, ts("1"), FUEL).unwrap();
    assert_eq!(r.to_string(), "999");
    let other = m.callback(&Context::new(), CallbackType::LitStr, ts("\"s\""), FUEL).unwrap();
    assert_eq!(other.to_string(), "\"s\"");
}

#[test]
fn reregistering_the_default_rule_restores_it() {
    let mut m: Moisture<NineNineNine> = Moisture::new();
    m.register_callback(CallbackType::LitInt, Callback::Custom(NineNineNine));
    assert_eq!(
        m.callback(&Context::new(), CallbackType::LitInt, ts("1"), FUEL).unwrap().to_string(),
        "999",
    );
    m.register_callback(CallbackType::LitInt, Callback::Rule(CallbackType::LitInt));
    assert_eq!(
        m.callback(&Context::new(), CallbackType::LitInt, ts("1"), FUEL).unwrap().to_string(),
        "1",
    );
}

#[test]
fn zero_fuel_reports_an_exhausted_depth_budget() {
    let m: Moisture<Identity> = Moisture::new();
    let r = m.callback(&Context::new(), CallbackType::LitInt, ts("1"), 0);
    assert!(r.unwrap_err().is_depth());
}

#[test]
fn too_little_fuel_for_a_deep_tree_reports_depth() {
    let m: Moisture<Identity> = Moisture::new();
    let r = m.callback(&Context::new(), CallbackType::File, ts("const A: u32 = 1 + 2;"), 3);
    assert!(r.unwrap_err().is_depth());
}

#[test]
fn unparsable_input_reports_a_grammar_error() {
    let m: Moisture<Identity> = Moisture::new();
    let r = m.callback(&Context::new(), CallbackType::File, ts("fn"), FUEL);
    assert!(r.unwrap_err().is_grammar());
}

#[test]
fn wrong_variant_reports_a_shape_mismatch() {
    let m: Moisture<Identity> = Moisture::new();
    let r = m.callback(&Context::new(), CallbackType::PatBox, ts("x"), FUEL);
    let e = r.unwrap_err();
    assert!(e.is_shape_mismatch());
    match e {
        Fault::ShapeMismatch { expected, actual } => {
            assert_eq!(expected, CallbackType::PatBox);
            assert_eq!(actual, Some(CallbackType::PatIdent));
        }
        _ => unreachable!(),
    }
}

#[test]
fn local_rule_on_an_expression_statement_reports_a_shape_mismatch() {
    let m: Moisture<Identity> = Moisture::new();
    let r = m.callback(&Context::new(), CallbackType::Local, ts("1;"), FUEL);
    let e = r.unwrap_err();
    assert!(e.is_shape_mismatch());
    match e {
        Fault::ShapeMismatch { expected, actual } => {
            assert_eq!(expected, CallbackType::Local);
            assert_eq!(actual, Some(CallbackType::Expr));
        }
        _ => unreachable!(),
    }
}
