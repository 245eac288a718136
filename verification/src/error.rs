//! The error model: a tagged failure value carrying the position at which a
//! match attempt gave up and a description of what was expected there.

use vstd::prelude::*;

use crate::stream::Position;

verus! {

/// Why a parser attempt failed. Every failure is a normal outcome of a match
/// attempt; there are no fatal kinds at this layer, and a value is never
/// mutated after creation.
#[derive(Debug)]
pub enum ParseError {
    /// At `position`, the input did not satisfy `expected`.
    Expected { position: Position, expected: String },
}

impl ParseError {
    /// The position the failure reports.
    pub open spec fn spec_position(self) -> Position {
        match self {
            ParseError::Expected { position, .. } => position,
        }
    }

    /// The description of what was expected.
    pub open spec fn spec_expected(self) -> Seq<char> {
        match self {
            ParseError::Expected { expected, .. } => expected@,
        }
    }
}

} // verus!
