//! Compile-time type mirroring: given a parsed record or tagged-union
//! declaration, synthesize a structurally parallel declaration whose field
//! types are rewritten according to per-field directives or a
//! declaration-wide automatic-mirroring policy.

pub mod ast;
pub mod decl;
pub mod directive;
pub mod error;
pub mod field;
pub mod laws;
pub mod rewrite;
