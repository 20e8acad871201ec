//! An evaluator for small stored script fragments: conditionals,
//! assignments, array and property reads, and a regular-expression match
//! builtin, run against a table of variable bindings.
//!
//! `semantics` states what evaluation means over mathematical values; the
//! executable evaluator in `interpreter` is proved to follow it.

pub mod ast;
pub mod env;
pub mod interpreter;
pub mod laws;
pub mod pattern;
pub mod semantics;
pub mod value;

pub use ast::{ElseIf, Expression, InfixOp, Statement};
pub use env::Env;
pub use interpreter::{fragment_source, PhpError, PhpFragment};
pub use value::PhpVariable;
