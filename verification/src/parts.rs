use vstd::prelude::*;

verus! {

/// A production with one rewritable child between two verbatim runs:
/// `head child tail`.
pub struct WrapParts {
    /// Verbatim tokens before the child.
    pub head: proc_macro2::TokenStream,
    /// The rewritable child's own tokens.
    pub inner: proc_macro2::TokenStream,
    /// Verbatim tokens after the child.
    pub tail: proc_macro2::TokenStream,
}

/// A production with an ordered run of rewritable children after a
/// verbatim head: `head elem elem ... tail`. How the elements are
/// delimited and separated is the rule's own knowledge.
pub struct ListParts {
    /// Verbatim tokens before the children.
    pub head: proc_macro2::TokenStream,
    /// The rewritable children, in declaration order.
    pub elems: Vec<proc_macro2::TokenStream>,
    /// Verbatim tokens after the children.
    pub tail: proc_macro2::TokenStream,
}

/// An optional rewritable child introduced by its own verbatim lead-in,
/// such as `= expr` behind a declaration.
pub struct LeadChild {
    /// Verbatim tokens introducing the child.
    pub lead: proc_macro2::TokenStream,
    /// The rewritable child's own tokens.
    pub child: proc_macro2::TokenStream,
}

/// A production with two rewritable children around a verbatim middle:
/// `head first mid second tail`.
pub struct PairParts {
    /// Verbatim tokens before the first child.
    pub head: proc_macro2::TokenStream,
    /// The first rewritable child's own tokens.
    pub first: proc_macro2::TokenStream,
    /// Verbatim tokens between the children.
    pub mid: proc_macro2::TokenStream,
    /// The second rewritable child's own tokens.
    pub second: proc_macro2::TokenStream,
    /// Verbatim tokens after the second child.
    pub tail: proc_macro2::TokenStream,
}

/// One rewritable pattern child. A pattern with an explicit type
/// annotation cannot go through the general pattern parser standalone,
/// so whether it carries one travels with its tokens.
pub struct PatChild {
    /// The pattern's own tokens.
    pub tokens: proc_macro2::TokenStream,
    /// Whether the pattern carries an explicit type annotation.
    pub typed: bool,
}

/// A production with one optional rewritable child between two verbatim
/// runs: `head [lead child] tail`.
pub struct OptChildParts {
    /// Verbatim tokens before the child.
    pub head: proc_macro2::TokenStream,
    /// The child with its verbatim lead-in, if present.
    pub opt: Option<LeadChild>,
    /// Verbatim tokens after the child.
    pub tail: proc_macro2::TokenStream,
}

} // verus!
