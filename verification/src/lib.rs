//! A selective syntax-tree rewriting engine.
//!
//! A caller registers a callback for exactly the grammar kinds it cares
//! about; every other kind is decomposed by a default rule, its rewritable
//! children dispatched recursively, and the node reassembled verbatim.
//!
//! The catalog of kinds lives in [`kinds`], the ancestor chain in
//! [`context`], the registry and dispatch in [`engine`], and the default
//! traversal rules in the `rules_*` modules, one per grammar area. The
//! `grammar_*` modules hold the trusted boundary to the concrete-syntax
//! parser and printer; nothing else in the crate touches it.

pub mod kinds;

pub mod context;
pub mod errors;
pub mod parts;
pub mod tokens;

pub mod engine;

pub mod grammar_exprs;
pub mod grammar_items;
pub mod grammar_lits;
pub mod grammar_members;
pub mod grammar_pats;
pub mod grammar_stmts;

pub mod rules_exprs;
pub mod rules_items;
pub mod rules_lits;
pub mod rules_members;
pub mod rules_pats;
pub mod rules_stmts;
