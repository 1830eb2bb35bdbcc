//! Structural-complexity metrics for a parsed source file.
//!
//! The library walks a concrete syntax tree — supplied by an external
//! parser and handed over as a [`tree::SyntaxTree`] value — and reports
//! how many nodes it holds, how deeply they nest, a depth-weighted
//! aggregate score ("plexity"), and an approximate
//! cyclomatic-complexity count derived from control-flow-shaped node
//! kinds.

pub mod classifier;
pub mod config;
pub mod scorecard;
pub mod sexp;
mod strings;
pub mod traversal;
pub mod tree;
