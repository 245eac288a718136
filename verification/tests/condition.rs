use parse_core::error::ParseError;
use parse_core::stream::Stream;
use parse_core::{is, is_not, is_not_once, is_once, Parser, ParserOnce};

fn assert_expected_at(e: &ParseError, at: usize) {
    match e {
        ParseError::Expected { position, expected } => {
            assert_eq!(*position, at);
            assert_eq!(expected, "<condition>");
        }
    }
}

#[test]
fn scenario_is_match_at_start() {
    let mut s = Stream::new(vec!['a', 'b']);
    let r = is(|c: &char| *c == 'a').parse_iter(&mut s);
    assert_eq!(r.unwrap(), 'a');
    assert_eq!(s.pos(), 1);
}

#[test]
fn scenario_is_mismatch_mid_stream() {
    let mut s = Stream::new(vec!['a', 'b']);
    s.set_pos(1);
    let r = is(|c: &char| *c == 'a').parse_iter(&mut s);
    assert_expected_at(&r.unwrap_err(), 2);
    assert_eq!(s.pos(), 2);
}

#[test]
fn scenario_is_not_rejects_match() {
    let mut s = Stream::new(vec!['a', 'b']);
    let r = is_not(|c: &char| *c == 'a').parse_iter(&mut s);
    assert_expected_at(&r.unwrap_err(), 1);
    assert_eq!(s.pos(), 1);
}

#[test]
fn scenario_is_on_exhausted_stream() {
    let mut s = Stream::new(vec!['a', 'b']);
    s.set_pos(2);
    let r = is(|c: &char| *c == 'z').parse_iter(&mut s);
    assert_expected_at(&r.unwrap_err(), 2);
    assert_eq!(s.pos(), 2);
}

#[test]
fn is_succeeds_iff_predicate_holds() {
    for (target, should_match) in [('a', true), ('x', false)] {
        let mut s = Stream::new(vec!['a', 'b']);
        let r = is(move |c: &char| *c == target).parse_iter(&mut s);
        assert_eq!(r.is_ok(), should_match);
        if should_match {
            assert_eq!(r.unwrap(), 'a');
        } else {
            assert_expected_at(&r.unwrap_err(), 1);
        }
        assert_eq!(s.pos(), 1);
    }
}

#[test]
fn is_not_complements_is_on_present_item() {
    for item in ['a', 'b'] {
        let mut s1 = Stream::new(vec![item]);
        let mut s2 = Stream::new(vec![item]);
        let accepted = is(|c: &char| *c == 'a').parse_iter(&mut s1).is_ok();
        let rejected = is_not(|c: &char| *c == 'a').parse_iter(&mut s2).is_ok();
        assert_ne!(accepted, rejected);
        assert_eq!(s1.pos(), 1);
        assert_eq!(s2.pos(), 1);
    }
}

#[test]
fn exhausted_stream_fails_any_predicate() {
    let mut s = Stream::new(Vec::<char>::new());
    assert!(is(|_c: &char| true).parse_iter(&mut s).is_err());
    assert_eq!(s.pos(), 0);
    assert!(is(|_c: &char| false).parse_iter(&mut s).is_err());
    assert!(is_not(|_c: &char| true).parse_iter(&mut s).is_err());
    assert!(is_not(|_c: &char| false).parse_iter(&mut s).is_err());
    assert_eq!(s.pos(), 0);
}

#[test]
fn once_variants_match_reusable_behavior() {
    let mut s1 = Stream::new(vec!['a', 'b']);
    let mut s2 = Stream::new(vec!['a', 'b']);
    let r1 = is(|c: &char| *c == 'a').parse_iter(&mut s1);
    let r2 = is_once(|c: &char| *c == 'a').parse_iter_once(&mut s2);
    assert_eq!(r1.unwrap(), r2.unwrap());
    assert_eq!(s1.pos(), s2.pos());

    let mut s3 = Stream::new(vec!['a', 'b']);
    let mut s4 = Stream::new(vec!['a', 'b']);
    let r3 = is_not(|c: &char| *c == 'a').parse_iter(&mut s3);
    let r4 = is_not_once(|c: &char| *c == 'a').parse_iter_once(&mut s4);
    assert!(r3.is_err());
    assert!(r4.is_err());
    assert_expected_at(&r3.unwrap_err(), 1);
    assert_expected_at(&r4.unwrap_err(), 1);
    assert_eq!(s3.pos(), s4.pos());
}

#[test]
fn once_parser_consumes_captured_state() {
    let owned = String::from("a");
    let mut s = Stream::new(vec!['a', 'b']);
    // the predicate moves `owned` into itself; the parser value is spent by
    // its one attempt, so the capture can be consumed outright
    let p = is_once(move |c: &char| {
        let captured: String = owned;
        captured.chars().next() == Some(*c)
    });
    let r = p.parse_iter_once(&mut s);
    assert_eq!(r.unwrap(), 'a');
    assert_eq!(s.pos(), 1);
}

#[test]
fn failure_advances_by_exactly_one() {
    let mut s = Stream::new(vec!['x', 'y', 'z']);
    let before = s.pos();
    assert!(is(|c: &char| *c == 'q').parse_iter(&mut s).is_err());
    assert_eq!(s.pos(), before + 1);

    let mut t = Stream::new(vec!['x']);
    t.set_pos(1);
    let before = t.pos();
    assert!(is(|c: &char| *c == 'q').parse_iter(&mut t).is_err());
    assert_eq!(t.pos(), before);
}

#[test]
fn reusable_parser_runs_many_times() {
    let digit = is(|c: &char| c.is_ascii_digit());
    let mut s = Stream::new(vec!['4', '2', 'x']);
    assert_eq!(digit.parse_iter(&mut s).unwrap(), '4');
    assert_eq!(digit.parse_iter(&mut s).unwrap(), '2');
    assert!(digit.parse_iter(&mut s).is_err());
    assert_eq!(s.pos(), 3);
}

#[test]
fn backtracking_restores_position() {
    let mut s = Stream::new(vec!['a', 'b', 'c']);
    let mark = s.pos();
    assert!(is(|c: &char| *c == 'z').parse_iter(&mut s).is_err());
    assert_eq!(s.pos(), mark + 1);
    s.set_pos(mark);
    assert_eq!(s.pos(), mark);
    // after the restore the stream is as if it had never advanced
    assert_eq!(is(|c: &char| *c == 'a').parse_iter(&mut s).unwrap(), 'a');
    assert_eq!(s.pos(), 1);
}

#[test]
fn trait_entry_points_delegate() {
    let mut s1 = Stream::new(vec!['a']);
    let c = is(|c: &char| *c == 'a');
    let r1 = Parser::parse_iter(&c, &mut s1);
    assert_eq!(r1.unwrap(), 'a');
    assert_eq!(s1.pos(), 1);

    let mut s2 = Stream::new(vec!['a']);
    let r2 = ParserOnce::parse_iter_once(is_once(|c: &char| *c == 'a'), &mut s2);
    assert_eq!(r2.unwrap(), 'a');
    assert_eq!(s2.pos(), 1);
}

#[test]
fn works_on_cloneable_items() {
    let words = vec![String::from("let"), String::from("x")];
    let mut s = Stream::new(words);
    let keyword = is(|w: &String| w == "let");
    assert_eq!(keyword.parse_iter(&mut s).unwrap(), "let");
    let r = keyword.parse_iter(&mut s);
    assert_expected_at(&r.unwrap_err(), 2);
    assert_eq!(s.pos(), 2);
}
