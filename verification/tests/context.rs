use moisture::context::Context;
use moisture::kinds::CallbackType;
use proc_macro2::TokenStream;

fn ts(s: &str) -> TokenStream {
    s.parse().unwrap()
}

#[test]
fn new_context_is_empty() {
    let c = Context::new();
    assert!(c.peek(0).is_none());
    let mut c = c;
    assert!(c.pop().is_none());
}

#[test]
fn push_then_peek_zero_sees_own_entry() {
    let mut c = Context::new();
    c.push(CallbackType::File, ts("fn a() {}"));
    let (k, t) = c.peek(0).unwrap();
    assert_eq!(k, CallbackType::File);
    assert_eq!(t.to_string(), ts("fn a() {}").to_string());
}

#[test]
fn peek_distances_walk_toward_the_root() {
    let mut c = Context::new();
    c.push(CallbackType::File, ts("a"));
    c.push(CallbackType::Item, ts("b"));
    c.push(CallbackType::ItemFn, ts("c"));
    assert_eq!(c.peek(0).unwrap().0, CallbackType::ItemFn);
    assert_eq!(c.peek(1).unwrap().0, CallbackType::Item);
    assert_eq!(c.peek(2).unwrap().0, CallbackType::File);
}

#[test]
fn peek_beyond_depth_is_none_not_an_error() {
    let mut c = Context::new();
    c.push(CallbackType::File, ts("a"));
    assert!(c.peek(1).is_none());
    assert!(c.peek(100).is_none());
}

#[test]
fn pop_returns_entries_innermost_first() {
    let mut c = Context::new();
    c.push(CallbackType::File, ts("a"));
    c.push(CallbackType::Item, ts("b"));
    let (k1, t1) = c.pop().unwrap();
    assert_eq!(k1, CallbackType::Item);
    assert_eq!(t1.to_string(), "b");
    let (k2, _) = c.pop().unwrap();
    assert_eq!(k2, CallbackType::File);
    assert!(c.pop().is_none());
}

#[test]
fn duplicate_is_independent_of_the_original() {
    let mut c = Context::new();
    c.push(CallbackType::File, ts("a"));
    let mut d = c.duplicate();
    d.push(CallbackType::Item, ts("b"));
    assert_eq!(d.peek(0).unwrap().0, CallbackType::Item);
    assert_eq!(c.peek(0).unwrap().0, CallbackType::File);
    assert!(c.peek(1).is_none());
}
