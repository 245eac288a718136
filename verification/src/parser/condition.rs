//! The condition primitives: the atomic parsers from which all concrete
//! item-level matching is built. A condition parser pulls exactly one item
//! from the stream and succeeds with that item when a predicate over it
//! holds; a missing item or a rejected item is the same failure shape, so
//! that alternation combinators treat end of input and mismatch uniformly.

use core::marker::PhantomData;
use vstd::prelude::*;
use vstd::string::StringExecFns;

use crate::error::ParseError;
use crate::parser::{Parser, ParserOnce};
use crate::stream::{Position, Stream, StreamModel};

verus! {

/// The description every condition failure carries.
pub open spec fn expected_text() -> Seq<char> {
    "<condition>"@
}

/// The error a condition parser returns: `Expected` at `p`, with the fixed
/// marker text.
pub open spec fn is_condition_error(e: ParseError, p: int) -> bool {
    &&& e.spec_position() == p
    &&& e.spec_expected() == expected_text()
}

/// The predicate may be asked about every item.
pub open spec fn accepts_all<I, F: FnOnce(&I) -> bool>(pred: F) -> bool {
    forall|x: &I| call_requires(pred, (x,))
}

/// `pred` computes the mathematical predicate `p`: whenever a call on `x`
/// answers `b`, that answer is `p(x)`.
pub open spec fn decides<I, F: FnOnce(&I) -> bool>(pred: F, p: spec_fn(I) -> bool) -> bool {
    forall|x: &I, b: bool| #[trigger] call_ensures(pred, (x,), b) ==> b == p(*x)
}

/// A duplicate of an item is the item itself. This holds of `Copy` items,
/// and of every item type whose `clone` is specified to return its argument.
pub open spec fn duplicates_faithfully<I: Clone>() -> bool {
    forall|a: I, b: I| #[trigger] cloned::<I>(a, b) ==> b == a
}

/// The verdict of one condition attempt on the item `item` under the cursor:
/// the predicate judged `probe`, a duplicate of `item`, and that duplicate is
/// the output on success; on rejection the attempt failed at `err_pos`.
pub open spec fn probed_with<I: Clone, F: FnOnce(&I) -> bool>(
    pred: F,
    item: I,
    probe: I,
    err_pos: int,
    r: Result<I, ParseError>,
) -> bool {
    &&& cloned::<I>(item, probe)
    &&& match r {
        Ok(out) => out == probe && call_ensures(pred, (&probe,), true),
        Err(e) => call_ensures(pred, (&probe,), false) && is_condition_error(e, err_pos),
    }
}

/// How one attempt of a condition parser with predicate `pred` relates the
/// stream before, the stream after, and the result:
/// - with an item under the cursor, that one item is consumed whatever the
///   verdict, and some duplicate of it was judged by the predicate — the
///   output on success, the ground for the marker error on rejection, which
///   is reported at the already advanced position;
/// - an exhausted stream is left in place and the attempt fails with the
///   marker error at the unchanged position.
pub open spec fn condition_outcome<I: Clone, F: FnOnce(&I) -> bool>(
    pred: F,
    pre: StreamModel<I>,
    post: StreamModel<I>,
    r: Result<I, ParseError>,
) -> bool {
    &&& post.items == pre.items
    &&& if pre.has_next() {
        &&& post.position == pre.position + 1
        &&& exists|probe: I|
            #[trigger] probed_with(pred, pre.head(), probe, pre.position + 1 as int, r)
    } else {
        &&& post.position == pre.position
        &&& r matches Err(e) && is_condition_error(e, pre.position as int)
    }
}

/// Builds the failure value every condition parser returns.
fn expected_error(p: Position) -> (e: ParseError)
    ensures
        is_condition_error(e, p as int),
{
    ParseError::Expected { position: p, expected: String::from_str("<condition>") }
}

/// A parser which consumes an item if the condition is matched.
///
/// See [`is`] and [`is_not`].
pub struct Condition<I, F> {
    /// The predicate driving the match.
    pub pred: F,
    /// Ties the parser to its item type.
    pub marker: PhantomData<I>,
}

/// A parser which consumes an item if the condition is matched.
///
/// If the condition is not matched, or the end of input was reached, it
/// fails.
pub fn is<I: Clone, F: Fn(&I) -> bool>(cond: F) -> (c: Condition<I, F>)
    ensures
        c.pred == cond,
{
    Condition { pred: cond, marker: PhantomData }
}

/// A parser which consumes an item if the condition is not matched.
///
/// If the condition is matched, or the end of input was reached, it fails.
/// The given predicate is wrapped in a negation, not re-derived: the wrapped
/// predicate is callable wherever `cond` is, and every answer it gives is the
/// negation of an answer `cond` gave.
pub fn is_not<I: Clone, F: Fn(&I) -> bool>(cond: F) -> (c: Condition<I, impl Fn(&I) -> bool>)
    ensures
        forall|x: &I| call_requires(cond, (x,)) ==> #[trigger] call_requires(c.pred, (x,)),
        forall|x: &I, b: bool| #[trigger] call_ensures(c.pred, (x,), b) ==> call_ensures(
            cond,
            (x,),
            !b,
        ),
{
    let gcond: Ghost<F> = Ghost(cond);
    let pred = move |i: &I| -> (r: bool)
        requires
            call_requires(gcond@, (i,)),
        ensures
            call_ensures(gcond@, (i,), !r),
        { !cond(i) };
    Condition { pred, marker: PhantomData }
}

impl<I: Clone, F: Fn(&I) -> bool> Condition<I, F> {
    /// Attempts one match from the stream's current position; the same
    /// parser value may be invoked repeatedly. This carries the full
    /// contract, stated directly over [`condition_outcome`]; the
    /// [`Parser`] implementation below restates it behind the trait's
    /// abstract clauses for code that is generic over parsers.
    pub fn parse_iter(&self, input: &mut Stream<I>) -> (r: Result<I, ParseError>)
        requires
            accepts_all::<I, F>(self.pred),
            old(input)@.wf(),
        ensures
            final(input)@.wf(),
            final(input)@.items == old(input)@.items,
            old(input)@.position <= final(input)@.position,
            condition_outcome(self.pred, old(input)@, final(input)@, r),
    {
        match input.next() {
            Some(i) => {
                let ghost probe = i;
                if (self.pred)(&i) {
                    let r: Result<I, ParseError> = Ok(i);
                    proof {
                        assert(probed_with(
                            self.pred,
                            old(input)@.head(),
                            probe,
                            old(input)@.position + 1 as int,
                            r,
                        ));
                    }
                    r
                } else {
                    let r: Result<I, ParseError> = Err(expected_error(input.pos()));
                    proof {
                        assert(probed_with(
                            self.pred,
                            old(input)@.head(),
                            probe,
                            old(input)@.position + 1 as int,
                            r,
                        ));
                    }
                    r
                }
            },
            None => Err(expected_error(input.pos())),
        }
    }
}

impl<I: Clone, F: Fn(&I) -> bool> Parser for Condition<I, F> {
    type Item = I;

    type Output = I;

    open spec fn wf(&self) -> bool {
        accepts_all::<I, F>(self.pred)
    }

    open spec fn outcome(
        &self,
        pre: StreamModel<I>,
        post: StreamModel<I>,
        r: Result<I, ParseError>,
    ) -> bool {
        condition_outcome(self.pred, pre, post, r)
    }

    fn parse_iter(&self, input: &mut Stream<I>) -> (r: Result<I, ParseError>) {
        Condition::parse_iter(self, input)
    }
}

/// A single-use parser which consumes an item if the condition is matched.
///
/// See [`is_once`] and [`is_not_once`].
pub struct ConditionOnce<I, F> {
    /// The predicate driving the match, invoked at most once.
    pub pred: F,
    /// Ties the parser to its item type.
    pub marker: PhantomData<I>,
}

/// A single-use parser which consumes an item if the condition is matched.
///
/// If the condition is not matched, or the end of input was reached, it
/// fails. The attempt consumes the parser value, so an owned, non-duplicable
/// predicate can be captured; it is invoked at most once.
pub fn is_once<I: Clone, F: FnOnce(&I) -> bool>(cond: F) -> (c: ConditionOnce<I, F>)
    ensures
        c.pred == cond,
{
    ConditionOnce { pred: cond, marker: PhantomData }
}

/// A single-use parser which consumes an item if the condition is not
/// matched.
///
/// If the condition is matched, or the end of input was reached, it fails.
/// As with [`is_not`], the predicate is wrapped in a negation.
pub fn is_not_once<I: Clone, F: FnOnce(&I) -> bool>(cond: F) -> (c: ConditionOnce<
    I,
    impl FnOnce(&I) -> bool,
>)
    ensures
        forall|x: &I| call_requires(cond, (x,)) ==> #[trigger] call_requires(c.pred, (x,)),
        forall|x: &I, b: bool| #[trigger] call_ensures(c.pred, (x,), b) ==> call_ensures(
            cond,
            (x,),
            !b,
        ),
{
    let gcond: Ghost<F> = Ghost(cond);
    let pred = move |i: &I| -> (r: bool)
        requires
            call_requires(gcond@, (i,)),
        ensures
            call_ensures(gcond@, (i,), !r),
        { !cond(i) };
    ConditionOnce { pred, marker: PhantomData }
}

impl<I: Clone, F: FnOnce(&I) -> bool> ConditionOnce<I, F> {
    /// Attempts one match from the stream's current position, consuming the
    /// parser; a second attempt is not expressible. This carries the full
    /// contract, stated directly over [`condition_outcome`]; the
    /// [`ParserOnce`] implementation below restates it behind the trait's
    /// abstract clauses for code that is generic over parsers.
    pub fn parse_iter_once(self, input: &mut Stream<I>) -> (r: Result<I, ParseError>)
        requires
            accepts_all::<I, F>(self.pred),
            old(input)@.wf(),
        ensures
            final(input)@.wf(),
            final(input)@.items == old(input)@.items,
            old(input)@.position <= final(input)@.position,
            condition_outcome(self.pred, old(input)@, final(input)@, r),
    {
        let pred = self.pred;
        match input.next() {
            Some(i) => {
                let ghost probe = i;
                if pred(&i) {
                    let r: Result<I, ParseError> = Ok(i);
                    proof {
                        assert(probed_with(
                            pred,
                            old(input)@.head(),
                            probe,
                            old(input)@.position + 1 as int,
                            r,
                        ));
                    }
                    r
                } else {
                    let r: Result<I, ParseError> = Err(expected_error(input.pos()));
                    proof {
                        assert(probed_with(
                            pred,
                            old(input)@.head(),
                            probe,
                            old(input)@.position + 1 as int,
                            r,
                        ));
                    }
                    r
                }
            },
            None => Err(expected_error(input.pos())),
        }
    }
}

impl<I: Clone, F: FnOnce(&I) -> bool> ParserOnce for ConditionOnce<I, F> {
    type Item = I;

    type Output = I;

    open spec fn wf(&self) -> bool {
        accepts_all::<I, F>(self.pred)
    }

    open spec fn outcome(
        &self,
        pre: StreamModel<I>,
        post: StreamModel<I>,
        r: Result<I, ParseError>,
    ) -> bool {
        condition_outcome(self.pred, pre, post, r)
    }

    fn parse_iter_once(self, input: &mut Stream<I>) -> (r: Result<I, ParseError>) {
        ConditionOnce::parse_iter_once(self, input)
    }
}

/// Law: with an item under the cursor, a condition attempt whose predicate
/// computes `p` succeeds exactly when `p` holds of that item, and consumes it
/// either way. On success the output is the item itself; on failure the error
/// carries the fixed marker text at the already advanced position. Stated for
/// item types whose duplicates are the item itself, such as every `Copy`
/// type: where a `clone` may return a different value, the predicate judges
/// the duplicate, and nothing ties its verdict to the original item.
pub proof fn lemma_condition_on_item<I: Clone, F: FnOnce(&I) -> bool>(
    pred: F,
    p: spec_fn(I) -> bool,
    pre: StreamModel<I>,
    post: StreamModel<I>,
    r: Result<I, ParseError>,
)
    requires
        decides(pred, p),
        duplicates_faithfully::<I>(),
        pre.has_next(),
        condition_outcome(pred, pre, post, r),
    ensures
        post.items == pre.items,
        post.position == pre.position + 1,
        r is Ok <==> p(pre.head()),
        r matches Ok(out) ==> out == pre.head(),
        r matches Err(e) ==> is_condition_error(e, pre.position + 1 as int),
{
    let probe = choose|probe: I|
        #[trigger] probed_with(pred, pre.head(), probe, pre.position + 1 as int, r);
    assert(probe == pre.head());
}

/// Law: a condition attempt on an exhausted stream always fails, whatever the
/// predicate: the stream is left exactly where it was, and the error carries
/// the fixed marker text at that unchanged position.
pub proof fn lemma_condition_exhausted<I: Clone, F: FnOnce(&I) -> bool>(
    pred: F,
    pre: StreamModel<I>,
    post: StreamModel<I>,
    r: Result<I, ParseError>,
)
    requires
        !pre.has_next(),
        condition_outcome(pred, pre, post, r),
    ensures
        r is Err,
        post == pre,
        r matches Err(e) ==> is_condition_error(e, pre.position as int),
{
}

/// Law: a predicate built the way [`is_not`] and [`is_not_once`] build
/// theirs — every answer the negation of one of `pred`'s — computes the
/// pointwise negation of whatever `pred` computes.
pub proof fn lemma_negation_decides<I, F: FnOnce(&I) -> bool, G: FnOnce(&I) -> bool>(
    pred: F,
    neg: G,
    p: spec_fn(I) -> bool,
)
    requires
        decides(pred, p),
        forall|x: &I, b: bool| #[trigger] call_ensures(neg, (x,), b) ==> call_ensures(
            pred,
            (x,),
            !b,
        ),
    ensures
        decides(neg, |x: I| !p(x)),
{
}

/// Law: on a stream state with an item present, attempts by `is(p)` and by
/// `is_not(p)` partition the outcomes exactly: one succeeds precisely where
/// the other fails, and both leave the cursor one past the examined item.
/// `pred` stands for the predicate given to [`is`], `neg` for the wrapped
/// predicate [`is_not`] builds from it.
pub proof fn lemma_complement_on_item<I: Clone, F: FnOnce(&I) -> bool, G: FnOnce(&I) -> bool>(
    pred: F,
    neg: G,
    p: spec_fn(I) -> bool,
    pre: StreamModel<I>,
    post_is: StreamModel<I>,
    r_is: Result<I, ParseError>,
    post_not: StreamModel<I>,
    r_not: Result<I, ParseError>,
)
    requires
        decides(pred, p),
        forall|x: &I, b: bool| #[trigger] call_ensures(neg, (x,), b) ==> call_ensures(
            pred,
            (x,),
            !b,
        ),
        duplicates_faithfully::<I>(),
        pre.has_next(),
        condition_outcome(pred, pre, post_is, r_is),
        condition_outcome(neg, pre, post_not, r_not),
    ensures
        r_is is Ok <==> r_not is Err,
        post_is.position == post_not.position,
{
    lemma_negation_decides(pred, neg, p);
    lemma_condition_on_item(pred, p, pre, post_is, r_is);
    lemma_condition_on_item(neg, |x: I| !p(x), pre, post_not, r_not);
}

/// Law: the single-use condition parsers exhibit exactly the behavior of
/// their reusable counterparts: with equal predicates, a [`Condition`] and a
/// [`ConditionOnce`] may run under the same circumstances and admit exactly
/// the same attempts. (That a second attempt of a single-use parser is not
/// expressible is enforced by ownership: its one attempt consumes the value.)
pub proof fn lemma_once_matches_reusable<I: Clone, F: Fn(&I) -> bool>(
    c: Condition<I, F>,
    o: ConditionOnce<I, F>,
    pre: StreamModel<I>,
    post: StreamModel<I>,
    r: Result<I, ParseError>,
)
    requires
        c.pred == o.pred,
    ensures
        c.wf() == o.wf(),
        c.outcome(pre, post, r) == o.outcome(pre, post, r),
{
}

/// Law: an attempt that examined an item consumed exactly that item, also
/// when it failed; an attempt on an exhausted stream moved nothing.
pub proof fn lemma_advance_on_failure<I: Clone, F: FnOnce(&I) -> bool>(
    pred: F,
    pre: StreamModel<I>,
    post: StreamModel<I>,
    r: Result<I, ParseError>,
)
    requires
        condition_outcome(pred, pre, post, r),
    ensures
        pre.has_next() ==> post.position == pre.position + 1,
        !pre.has_next() ==> post.position == pre.position && r is Err,
{
}

} // verus!
