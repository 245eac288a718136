//! The two parser execution contracts. A reusable parser may attempt a match
//! any number of times through a shared reference; a single-use parser is
//! consumed by its one attempt, so it can be built around captured state that
//! cannot be duplicated or re-invoked.

use vstd::prelude::*;

use crate::error::ParseError;
use crate::stream::{Stream, StreamModel};

pub mod condition;

verus! {

/// The contract every reusable parser implements.
///
/// An attempt starts at the stream's current position and either produces an
/// output or a [`ParseError`]. Whatever the verdict, an attempt leaves the
/// input sequence itself untouched and never moves the cursor backwards: it
/// advances exactly over what it consumed. Nothing is promised about a rewind
/// on failure; undoing partial consumption with [`Stream::pos`] and
/// [`Stream::set_pos`] is the business of whichever combinator composes this
/// parser with alternatives.
pub trait Parser {
    /// The element type consumed from the stream.
    type Item;

    /// The value produced by a successful match.
    type Output;

    /// When this parser value may be run against a stream.
    spec fn wf(&self) -> bool;

    /// How one attempt relates the stream before, the stream after, and the
    /// result. Each implementation pins this down for itself; the clauses on
    /// [`Self::parse_iter`] below hold for every implementation.
    spec fn outcome(
        &self,
        pre: StreamModel<Self::Item>,
        post: StreamModel<Self::Item>,
        r: Result<Self::Output, ParseError>,
    ) -> bool;

    /// Attempts one match from the stream's current position. The same parser
    /// value may be invoked repeatedly.
    fn parse_iter(&self, input: &mut Stream<Self::Item>) -> (r: Result<
        Self::Output,
        ParseError,
    >)
        requires
            self.wf(),
            old(input)@.wf(),
        ensures
            final(input)@.wf(),
            final(input)@.items == old(input)@.items,
            old(input)@.position <= final(input)@.position,
            self.outcome(old(input)@, final(input)@, r),
    ;
}

/// The contract of [`Parser`], specialized for match attempts that may
/// consume owned, non-duplicable captured state: the parser value itself is
/// spent by its single attempt.
pub trait ParserOnce {
    /// The element type consumed from the stream.
    type Item;

    /// The value produced by a successful match.
    type Output;

    /// When this parser value may be run against a stream.
    spec fn wf(&self) -> bool;

    /// How the one attempt relates the stream before, the stream after, and
    /// the result.
    spec fn outcome(
        &self,
        pre: StreamModel<Self::Item>,
        post: StreamModel<Self::Item>,
        r: Result<Self::Output, ParseError>,
    ) -> bool;

    /// Attempts one match from the stream's current position, consuming the
    /// parser. A second attempt is not expressible: the value is gone.
    fn parse_iter_once(self, input: &mut Stream<Self::Item>) -> (r: Result<
        Self::Output,
        ParseError,
    >)
        requires
            self.wf(),
            old(input)@.wf(),
        ensures
            final(input)@.wf(),
            final(input)@.items == old(input)@.items,
            old(input)@.position <= final(input)@.position,
            self.outcome(old(input)@, final(input)@, r),
    ;
}

} // verus!
