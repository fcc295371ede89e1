use vstd::prelude::*;
use crate::kinds::CallbackType;

verus! {

/// Errors raised by the grammar capability carry a source location and a
/// message; they are held as the opaque `syn::Error`.
#[verifier::external_type_specification]
#[verifier::external_body]
pub struct ExSynError(syn::Error);

/// Why a traversal stopped. The first error anywhere in a traversal aborts
/// the whole run and reaches the top-level caller unchanged; no partial
/// output is ever produced. Grammar, shape and configuration failures are
/// the engine's structural taxonomy; the depth budget is an addition of
/// this implementation, the device by which the recursion through
/// caller-supplied callbacks is proved bounded. Callers pass a budget far
/// beyond any real stack, so it is never seen in practice.
#[derive(Debug)]
pub enum Fault {
    /// The representation did not parse as the asserted kind.
    Grammar(syn::Error),
    /// The representation parsed at the union level, but not as the
    /// variant a variant-specific rule demanded.
    ShapeMismatch { expected: CallbackType, actual: Option<CallbackType> },
    /// The requested kind had no registered callback.
    Configuration(CallbackType),
    /// The traversal's depth budget ran out.
    Depth,
}

impl Fault {
    /// Whether this is a parse failure from the grammar capability.
    pub fn is_grammar(&self) -> (r: bool)
        ensures
            r == (self matches Fault::Grammar(_)),
    {
        match self {
            Fault::Grammar(_) => true,
            _ => false,
        }
    }

    /// Whether this is a wrong-variant failure.
    pub fn is_shape_mismatch(&self) -> (r: bool)
        ensures
            r == (self matches Fault::ShapeMismatch { .. }),
    {
        match self {
            Fault::ShapeMismatch { .. } => true,
            _ => false,
        }
    }

    /// Whether this is a missing-callback failure.
    pub fn is_configuration(&self) -> (r: bool)
        ensures
            r == (self matches Fault::Configuration(_)),
    {
        match self {
            Fault::Configuration(_) => true,
            _ => false,
        }
    }

    /// Whether the depth budget ran out.
    pub fn is_depth(&self) -> (r: bool)
        ensures
            r == (self matches Fault::Depth),
    {
        match self {
            Fault::Depth => true,
            _ => false,
        }
    }
}

/// Relies on `syn::Error::new`: a grammar fault carrying the given
/// message, located at the call site.
#[verifier::external_body]
pub(crate) fn grammar_fault(msg: &str) -> (r: Fault)
    ensures
        r matches Fault::Grammar(_),
{
    Fault::Grammar(syn::Error::new(proc_macro2::Span::call_site(), msg))
}

/// Whether a rule's outcome is free of missing-callback failures. Every
/// default rule keeps this, so a traversal of an engine that still holds
/// only catalog entries can never report one.
pub open spec fn config_free(r: Result<proc_macro2::TokenStream, Fault>) -> bool {
    !(r matches Err(Fault::Configuration(_)))
}

} // verus!
