use vstd::prelude::*;
use crate::kinds::CallbackType;

verus! {

/// What `peek` answers at a given distance: the entry that many steps
/// above the top of the stack, or nothing beyond the bottom.
pub open spec fn peek_spec(
    s: Seq<(CallbackType, proc_macro2::TokenStream)>,
    distance: int,
) -> Option<(CallbackType, proc_macro2::TokenStream)> {
    if 0 <= distance < s.len() {
        Some(s[s.len() - 1 - distance])
    } else {
        None
    }
}

/// The ordered chain of enclosing dispatches, root first. Each dispatch
/// clones the incoming context, appends its own (kind, representation)
/// entry, and hands the extended copy to the callback, so a callback sees
/// exactly its own ancestor chain with itself at distance 0, and sibling
/// dispatches never observe each other's entries.
#[derive(Clone)]
pub struct Context {
    stack: Vec<(CallbackType, proc_macro2::TokenStream)>,
}

impl Context {
    /// The chain as a sequence, root first.
    pub closed spec fn view(self) -> Seq<(CallbackType, proc_macro2::TokenStream)> {
        self.stack@
    }

    /// An empty chain: the start of a fresh traversal.
    pub fn new() -> (r: Self)
        ensures
            r@ == Seq::<(CallbackType, proc_macro2::TokenStream)>::empty(),
    {
        Self { stack: Vec::new() }
    }

    /// Appends one dispatch entry at the inner end of the chain.
    pub fn push(&mut self, ty: CallbackType, tokens: proc_macro2::TokenStream)
        ensures
            final(self)@ == old(self)@.push((ty, tokens)),
    {
        self.stack.push((ty, tokens));
    }

    /// Removes and returns the innermost entry, if any.
    pub fn pop(&mut self) -> (r: Option<(CallbackType, proc_macro2::TokenStream)>)
        ensures
            old(self)@.len() == 0 ==> r is None && final(self)@ == old(self)@,
            old(self)@.len() > 0 ==> r == Some(old(self)@.last())
                && final(self)@ == old(self)@.drop_last(),
    {
        self.stack.pop()
    }

    /// An independent copy of the chain: what a dispatch extends for its
    /// callback, leaving the caller's own chain untouched.
    pub fn duplicate(&self) -> (r: Self)
        ensures
            r@ == self@,
    {
        let n = self.stack.len();
        let mut stack: Vec<(CallbackType, proc_macro2::TokenStream)> = Vec::new();
        let mut i: usize = 0;
        while i < n
            invariant
                n == self.stack.len(),
                i <= n,
                stack@ == self.stack@.subrange(0, i as int),
            decreases n - i,
        {
            let entry = &self.stack[i];
            stack.push((entry.0, entry.1.clone()));
            proof {
                assert(stack@ =~= self.stack@.subrange(0, i + 1));
            }
            i = i + 1;
        }
        proof {
            assert(stack@ =~= self.stack@);
        }
        Self { stack }
    }

    /// The entry `distance` steps above the innermost one: distance 0 is
    /// the dispatch the callback itself runs under, distance 1 its parent,
    /// and so on; anything beyond the root is `None`, not an error.
    pub fn peek(&self, distance: usize) -> (r: Option<(CallbackType, proc_macro2::TokenStream)>)
        ensures
            r == peek_spec(self@, distance as int),
    {
        let n = self.stack.len();
        if n == 0 || distance >= n {
            None
        } else {
            let entry = &self.stack[n - distance - 1];
            Some((entry.0, entry.1.clone()))
        }
    }
}

/// The ancestor chain a callback observes: after a dispatch for `(ty,
/// tokens)` extends a context, distance 0 names that dispatch itself,
/// every other distance names the same ancestor it named before the
/// extension, and distances beyond the chain answer `None`.
pub proof fn lemma_peek_after_push(
    s: Seq<(CallbackType, proc_macro2::TokenStream)>,
    ty: CallbackType,
    tokens: proc_macro2::TokenStream,
)
    ensures
        peek_spec(s.push((ty, tokens)), 0) == Some((ty, tokens)),
        forall|d: int| 0 <= d ==> peek_spec(s.push((ty, tokens)), d + 1) == peek_spec(s, d),
        forall|d: int| d > s.len() ==> peek_spec(s.push((ty, tokens)), d) is None,
{
    let s2 = s.push((ty, tokens));
    assert(s2[s2.len() - 1] == (ty, tokens));
    assert forall|d: int| 0 <= d implies peek_spec(s2, d + 1) == peek_spec(s, d) by {
        if d < s.len() {
            assert(s2[s.len() - 1 - d] == s[s.len() - 1 - d]);
        }
    }
}

} // verus!
