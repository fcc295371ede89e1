use moisture::context::Context;
use moisture::engine::{Callback, Handler, Identity, Moisture};
use moisture::errors::Fault;
use moisture::grammar_items::ItemShape;
use moisture::grammar_lits::LitShape;
use moisture::kinds::CallbackType;
use proc_macro2::TokenStream;
use quote::ToTokens;
use std::cell::RefCell;
use std::rc::Rc;

const FUEL: u64 = 100_000;

fn ts(s: &str) -> TokenStream {
    s.parse().unwrap()
}

const SOURCE: &str = r#"
#![allow(dead_code)]
use a::b::c;
const K: u32 = 1 + 2;
static S: &str = "hello";
type Alias = Vec<u32>;
struct Point { x: i64, y: i64 }
union U { a: u32, b: u64 }
enum E { A, B(u32), C { v: bool }, D = 4 }
trait T: Clone { type Out; const C: u8; fn m(&self, q: u32) -> u32 { q + 1 } fn n(&self); }
impl<X> T for Vec<X> where X: Clone { type Out = u32; const C: u8 = 2; fn m(&self, q: u32) -> u32 { q } fn n(&self) {} }
mod inner { pub fn f(v: u32) -> u32 { v * 3 } }
fn main() {
    let x: i64 = 5;
    let mut v = make(x);
    let (a, b) = (1, 2);
    let [p, q] = [3, 4];
    let Point { x: px, .. } = origin();
    if a > b { big(); } else { small(); }
    match a { 0 => zero(), n if n > 1 => many(n), _ => one(), }
    while a < b { step(); }
    for i in 0 .. 10 { use_it(i); }
    'outer: loop { break 'outer; }
    let c = |y: i64| y + x;
    let r = &mut v;
    let d = x as u64;
    let t = (1, "two", 'c', true, b'x', b"bytes", 2.5);
    let arr = [0u8; 8];
    let s = Point { x: 1, ..base() };
    let sh = Point { x, y: 2 };
    let idx = arr[0];
    let rng = 1 ..= 9;
    f(a).g(b).h();
    v += 1;
    v = v - 1;
    tell!(v);
    return;
}
"#;

fn reserialized(tokens: TokenStream) -> String {
    let file: syn::File = syn::parse2(tokens).expect("output must reparse");
    file.to_token_stream().to_string()
}

#[test]
fn identity_default_preserves_the_tree() {
    let m: Moisture<Identity> = Moisture::new();
    let out = m.callback(&Context::new(), CallbackType::File, ts(SOURCE), FUEL).unwrap();
    assert_eq!(reserialized(out), reserialized(ts(SOURCE)));
}

#[test]
fn identity_default_is_idempotent() {
    let m: Moisture<Identity> = Moisture::new();
    let once = m.callback(&Context::new(), CallbackType::File, ts(SOURCE), FUEL).unwrap();
    let twice = m.callback(&Context::new(), CallbackType::File, once.clone(), FUEL).unwrap();
    assert_eq!(twice.to_string(), once.to_string());
}

#[test]
fn impl_where_clause_survives_the_default_path() {
    let m: Moisture<Identity> = Moisture::new();
    let src = "impl<X> T for Vec<X> where X: Clone { fn m(&self) {} }";
    let out = m.callback(&Context::new(), CallbackType::File, ts(src), FUEL).unwrap();
    assert!(out.to_string().contains("where"));
    assert_eq!(reserialized(out), reserialized(ts(src)));
}

#[test]
fn shorthand_struct_fields_survive_the_default_path() {
    let m: Moisture<Identity> = Moisture::new();
    let src = "fn main() { let s = Point { x, y: 2 }; }";
    let out = m.callback(&Context::new(), CallbackType::File, ts(src), FUEL).unwrap();
    assert_eq!(reserialized(out), reserialized(ts(src)));
}

#[test]
fn a_shorthand_field_value_reproduces_itself() {
    let m: Moisture<Identity> = Moisture::new();
    let out = m.callback(&Context::new(), CallbackType::FieldValue, ts("x"), FUEL).unwrap();
    assert_eq!(out.to_string(), "x");
    let named = m.callback(&Context::new(), CallbackType::FieldValue, ts("x : 1"), FUEL).unwrap();
    assert_eq!(named.to_string(), ts("x : 1").to_string());
}

struct ReplaceInt;

impl Handler for ReplaceInt {
    fn call(
        &self,
        _engine: &Moisture<Self>,
        _context: &Context,
        _tokens: TokenStream,
        _fuel: u64,
    ) -> Result<TokenStream, Fault> {
        Ok("424242".parse().unwrap())
    }
}

#[test]
fn overriding_one_kind_touches_only_that_kind() {
    let src = r#"fn main() { let a = 12345; let s = "keep"; let b = true; }"#;
    let mut m: Moisture<ReplaceInt> = Moisture::new();
    let base = m.callback(&Context::new(), CallbackType::File, ts(src), FUEL).unwrap().to_string();
    m.register_callback(CallbackType::LitInt, Callback::Custom(ReplaceInt));
    let out = m.callback(&Context::new(), CallbackType::File, ts(src), FUEL).unwrap().to_string();
    assert_eq!(out, base.replace("12345", "424242"));
    assert!(out.contains("\"keep\""));
    assert!(out.contains("true"));
}

struct AncestorProbe {
    rows: Rc<RefCell<Vec<Vec<Option<(CallbackType, String)>>>>>,
}

impl Handler for AncestorProbe {
    fn call(
        &self,
        _engine: &Moisture<Self>,
        context: &Context,
        tokens: TokenStream,
        _fuel: u64,
    ) -> Result<TokenStream, Fault> {
        let mut row = Vec::new();
        let mut d = 0;
        while d < 10 {
            row.push(context.peek(d).map(|(k, t)| (k, t.to_string())));
            d += 1;
        }
        self.rows.borrow_mut().push(row);
        Ok(tokens)
    }
}

#[test]
fn ancestor_context_walks_from_self_to_the_root() {
    let rows = Rc::new(RefCell::new(Vec::new()));
    let mut m: Moisture<AncestorProbe> = Moisture::new();
    m.register_callback(
        CallbackType::LitInt,
        Callback::Custom(AncestorProbe { rows: rows.clone() }),
    );
    let src = "const K: u32 = 1 + 2;";
    m.callback(&Context::new(), CallbackType::File, ts(src), FUEL).unwrap();
    let rows = rows.borrow();
    assert_eq!(rows.len(), 2);
    let first = &rows[0];
    let expect = |d: usize, kind: CallbackType, text: &str| {
        let (k, t) = first[d].clone().unwrap();
        assert_eq!(k, kind, "distance {}", d);
        assert_eq!(t, ts(text).to_string(), "distance {}", d);
    };
    expect(0, CallbackType::LitInt, "1");
    expect(1, CallbackType::Lit, "1");
    expect(2, CallbackType::ExprLit, "1");
    expect(3, CallbackType::Expr, "1");
    expect(4, CallbackType::ExprBinary, "1 + 2");
    expect(5, CallbackType::Expr, "1 + 2");
    expect(6, CallbackType::ItemConst, src);
    expect(7, CallbackType::Item, src);
    expect(8, CallbackType::File, src);
    assert!(first[9].is_none());
    let second = &rows[1];
    let (k0, t0) = second[0].clone().unwrap();
    assert_eq!(k0, CallbackType::LitInt);
    assert_eq!(t0, "2");
}

struct OrderProbe {
    seen: Rc<RefCell<Vec<String>>>,
}

impl Handler for OrderProbe {
    fn call(
        &self,
        _engine: &Moisture<Self>,
        _context: &Context,
        tokens: TokenStream,
        _fuel: u64,
    ) -> Result<TokenStream, Fault> {
        self.seen.borrow_mut().push(tokens.to_string());
        Ok(tokens)
    }
}

#[test]
fn call_arguments_are_dispatched_left_to_right() {
    let seen = Rc::new(RefCell::new(Vec::new()));
    let mut m: Moisture<OrderProbe> = Moisture::new();
    m.register_callback(
        CallbackType::ExprPath,
        Callback::Custom(OrderProbe { seen: seen.clone() }),
    );
    m.callback(&Context::new(), CallbackType::Expr, ts("f(a, b, c)"), FUEL).unwrap();
    assert_eq!(*seen.borrow(), vec!["f", "a", "b", "c"]);
}

struct FireProbe {
    fired: Rc<RefCell<bool>>,
}

impl Handler for FireProbe {
    fn call(
        &self,
        _engine: &Moisture<Self>,
        _context: &Context,
        tokens: TokenStream,
        _fuel: u64,
    ) -> Result<TokenStream, Fault> {
        *self.fired.borrow_mut() = true;
        Ok(tokens)
    }
}

#[test]
fn catch_all_item_shape_passes_through_without_visiting_descendants() {
    let fired = Rc::new(RefCell::new(false));
    let mut m: Moisture<FireProbe> = Moisture::new();
    m.register_callback(
        CallbackType::ItemConst,
        Callback::Custom(FireProbe { fired: fired.clone() }),
    );
    let opaque = ts("zzz kk ( 1 )");
    let r = m.route_item(&Context::new(), ItemShape::Other(opaque.clone()), FUEL).unwrap();
    assert_eq!(r.to_string(), opaque.to_string());
    assert!(!*fired.borrow());
}

#[test]
fn unclassified_literal_passes_through_without_visiting_literal_kinds() {
    let fired = Rc::new(RefCell::new(false));
    let mut m: Moisture<FireProbe> = Moisture::new();
    let lit_kinds = [
        CallbackType::LitStr,
        CallbackType::LitByteStr,
        CallbackType::LitByte,
        CallbackType::LitChar,
        CallbackType::LitInt,
        CallbackType::LitFloat,
        CallbackType::LitBool,
    ];
    for k in lit_kinds {
        m.register_callback(k, Callback::Custom(FireProbe { fired: fired.clone() }));
    }
    let input = ts("opaque");
    let r = m.route_lit(&Context::new(), LitShape::Other(input.clone()), FUEL).unwrap();
    assert_eq!(r.to_string(), input.to_string());
    assert!(!*fired.borrow());
}

struct AlwaysFail;

impl Handler for AlwaysFail {
    fn call(
        &self,
        _engine: &Moisture<Self>,
        _context: &Context,
        _tokens: TokenStream,
        _fuel: u64,
    ) -> Result<TokenStream, Fault> {
        Err(Fault::ShapeMismatch { expected: CallbackType::LitInt, actual: None })
    }
}

#[test]
fn a_failing_callback_aborts_the_whole_traversal() {
    let mut m: Moisture<AlwaysFail> = Moisture::new();
    m.register_callback(CallbackType::LitInt, Callback::Custom(AlwaysFail));
    let src = "fn main() { let a = 7; }";
    let r = m.callback(&Context::new(), CallbackType::File, ts(src), FUEL);
    let e = r.unwrap_err();
    assert!(e.is_shape_mismatch());
}

#[test]
fn a_failing_callback_in_a_nested_position_still_aborts() {
    let mut m: Moisture<AlwaysFail> = Moisture::new();
    m.register_callback(CallbackType::LitInt, Callback::Custom(AlwaysFail));
    let src = "mod w { fn f() { if x { g(3); } } }";
    assert!(m.callback(&Context::new(), CallbackType::File, ts(src), FUEL).is_err());
}
