//! The reader: surface text to a parse tree, and the parse tree to the
//! machine's object graph.

pub mod combinators;
pub mod convert;
pub mod expression;

pub use expression::{AtomExpr, Expr, NumberExpr, PrefixType};
