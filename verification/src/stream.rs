//! The input-stream abstraction: an owned, position-tracked cursor over a
//! sequence of items, with cheap position capture and restore so that
//! combinators can backtrack.

use vstd::prelude::*;

verus! {

/// A location in a stream: the offset from the start of the input. Cheap to
/// capture and to compare; used both for checkpointing and for error
/// reporting.
pub type Position = usize;

/// The mathematical model of a [`Stream`]: the whole input sequence together
/// with the cursor.
pub struct StreamModel<I> {
    /// Every item of the input, consumed or not.
    pub items: Seq<I>,
    /// How many items have been consumed so far.
    pub position: nat,
}

impl<I> StreamModel<I> {
    /// The cursor lies between the start and the end of the input.
    pub open spec fn wf(self) -> bool {
        self.position <= self.items.len()
    }

    /// Whether an item stands under the cursor; its absence is end of input.
    pub open spec fn has_next(self) -> bool {
        self.position < self.items.len()
    }

    /// The item under the cursor.
    pub open spec fn head(self) -> I
        recommends
            self.has_next(),
    {
        self.items[self.position as int]
    }
}

/// An owned cursor over a sequence of items. Consuming an item only moves the
/// cursor forward; the items themselves are kept, so that a previously
/// captured position can be restored in constant time and the stream is then
/// indistinguishable from one that never advanced.
pub struct Stream<I> {
    items: Vec<I>,
    position: usize,
}

impl<I> View for Stream<I> {
    type V = StreamModel<I>;

    closed spec fn view(&self) -> StreamModel<I> {
        StreamModel { items: self.items@, position: self.position as nat }
    }
}

impl<I> Stream<I> {
    /// Makes a stream that stands at the beginning of `items`.
    pub fn new(items: Vec<I>) -> (s: Stream<I>)
        ensures
            s@.items == items@,
            s@.position == 0,
            s@.wf(),
    {
        Stream { items, position: 0 }
    }

    /// The current position, without side effects.
    pub fn pos(&self) -> (p: Position)
        ensures
            p == self@.position,
    {
        self.position
    }

    /// Moves the cursor to `p`, a position captured earlier with [`Self::pos`].
    /// This is the backtracking primitive: afterwards the stream cannot be
    /// told apart from one that never advanced past `p`.
    pub fn set_pos(&mut self, p: Position)
        requires
            p <= old(self)@.items.len(),
        ensures
            final(self)@.items == old(self)@.items,
            final(self)@.position == p,
            final(self)@.wf(),
    {
        self.position = p;
    }
}

impl<I: Clone> Stream<I> {
    /// Returns the item under the cursor and advances past it, or returns
    /// nothing when the input is exhausted. This is the only mutating read,
    /// and the sole meaning of "consumption" in the engine. It never fails:
    /// exhaustion is an empty result, not an error.
    pub fn next(&mut self) -> (r: Option<I>)
        ensures
            final(self)@.items == old(self)@.items,
            old(self)@.has_next() ==> {
                &&& final(self)@.position == old(self)@.position + 1
                &&& r matches Some(i) && cloned::<I>(old(self)@.head(), i)
            },
            !old(self)@.has_next() ==> {
                &&& final(self)@.position == old(self)@.position
                &&& r is None
            },
            old(self)@.wf() ==> final(self)@.wf(),
    {
        if self.position < self.items.len() {
            let i = self.items[self.position].clone();
            self.position = self.position + 1;
            Some(i)
        } else {
            None
        }
    }
}

} // verus!
