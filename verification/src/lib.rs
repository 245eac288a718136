//! A small parser-combinator core: a position-tracked input stream with
//! backtracking support, the two parser execution contracts (reusable and
//! single-use), the item-conditional primitive parsers, and the error value
//! every combinator returns on failure.

pub mod error;
pub mod parser;
pub mod stream;

pub use parser::condition::{is, is_not, is_not_once, is_once, Condition, ConditionOnce};
pub use parser::{Parser, ParserOnce};
