//! The parser: recursive descent over the tokens, from a block down to a
//! single operand.

use vstd::prelude::*;

pub mod error;
pub mod expression;
pub mod grammar;
pub mod node;
pub mod statement;

pub use error::ParseError;
pub use expression::{expr, read_line};
pub use node::{ExprNode, Operator, Tree};
pub use statement::parse;

verus! {

/// A node of the syntax tree, under its short name.
pub type Node = ExprNode;

} // verus!
