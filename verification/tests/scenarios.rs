use parser_combinators::parsers::utf8::{ParseAnd, ParseChar, ParseCount};
use parser_combinators::parsers::ParserExtensions;
use parser_combinators::{ParseError, Parser, ParserState};

#[test]
fn char_range_empty_input() {
    let parser = ParseChar::from_range('a', 'z');
    match parser.parse(ParserState::new("")) {
        Err(ParseError::Unexpected { expected, found }) => {
            assert_eq!(expected.as_deref(), Some("a..z"));
            assert!(found.is_none());
        }
        _ => panic!("parsing empty input should fail with an unexpected-input error"),
    }
}

#[test]
fn and_parser_pairs_outputs() {
    let any = ParseChar::from_any();
    let parser = any.char('a').and(any.char('b'));
    match parser.parse(ParserState::new("ab")) {
        Ok(((a, b), state)) => {
            assert_eq!(a, 'a');
            assert_eq!(b, 'b');
            assert_eq!(state.input(), "");
            assert_eq!(state.index(), 2);
        }
        Err(e) => panic!("unexpected parsing error: {}", e.message()),
    }
}

#[test]
fn and_parser_propagates_first_error() {
    let parser = ParseChar::from_char('a').and(ParseChar::from_char('b'));
    match parser.parse(ParserState::new("xb")) {
        Err(ParseError::Unexpected { expected, found }) => {
            assert_eq!(expected.as_deref(), Some("a..a"));
            assert_eq!(found.as_deref(), Some("x"));
        }
        _ => panic!("the first combinator should fail"),
    }
}

#[test]
fn and_parser_propagates_second_error() {
    let parser = ParseChar::from_char('a').and(ParseChar::from_char('b'));
    match parser.parse(ParserState::new("ax")) {
        Err(ParseError::Unexpected { expected, found }) => {
            assert_eq!(expected.as_deref(), Some("b..b"));
            assert_eq!(found.as_deref(), Some("x"));
        }
        _ => panic!("the second combinator should fail"),
    }
}

#[test]
fn count_parser_too_few_elements() {
    let parser = ParseChar::from_range('a', 'z').between(3, 5);
    match parser.parse(ParserState::new("ab")) {
        Err(ParseError::WrongCount { min, max, found }) => {
            assert_eq!(min, 3);
            assert_eq!(max, 5);
            assert_eq!(found, 2);
        }
        _ => panic!("two matches cannot satisfy a minimum of three"),
    }
}

#[test]
fn count_parser_zero_max_succeeds_immediately() {
    let parser = ParseChar::from_range('a', 'z').between(0, 0);
    match parser.parse(ParserState::new("abc")) {
        Ok((chars, state)) => {
            assert!(chars.is_empty());
            assert_eq!(state.input(), "abc");
            assert_eq!(state.index(), 0);
        }
        Err(e) => panic!("unexpected parsing error: {}", e.message()),
    }
}

#[test]
fn count_parser_zero_max_positive_min_fails() {
    let parser = ParseChar::from_range('a', 'z').between(3, 0);
    match parser.parse(ParserState::new("abc")) {
        Err(ParseError::WrongCount { min, max, found }) => {
            assert_eq!(min, 3);
            assert_eq!(max, 0);
            assert_eq!(found, 0);
        }
        _ => panic!("a minimum above a zero maximum can never be met"),
    }
}

#[test]
fn optional_parser_takes_at_most_one() {
    let parser = ParseChar::from_char('a').optional();
    match parser.parse(ParserState::new("aaa")) {
        Ok((chars, state)) => {
            assert_eq!(chars, vec!['a']);
            assert_eq!(state.input(), "aa");
            assert_eq!(state.index(), 1);
        }
        Err(e) => panic!("unexpected parsing error: {}", e.message()),
    }
}

#[test]
fn optional_parser_accepts_no_match() {
    let parser = ParseChar::from_char('a').optional();
    match parser.parse(ParserState::new("xyz")) {
        Ok((chars, state)) => {
            assert!(chars.is_empty());
            assert_eq!(state.input(), "xyz");
            assert_eq!(state.index(), 0);
        }
        Err(e) => panic!("unexpected parsing error: {}", e.message()),
    }
}

#[test]
fn one_or_more_parser_takes_all_matches() {
    let parser = ParseChar::from_range('0', '9').one_or_more();
    match parser.parse(ParserState::new("123x")) {
        Ok((chars, state)) => {
            assert_eq!(chars, vec!['1', '2', '3']);
            assert_eq!(state.input(), "x");
            assert_eq!(state.index(), 3);
        }
        Err(e) => panic!("unexpected parsing error: {}", e.message()),
    }
}

#[test]
fn one_or_more_parser_needs_a_match() {
    let parser = ParseChar::from_range('0', '9').one_or_more();
    match parser.parse(ParserState::new("x")) {
        Err(ParseError::WrongCount { min, max, found }) => {
            assert_eq!(min, 1);
            assert_eq!(max, usize::MAX);
            assert_eq!(found, 0);
        }
        _ => panic!("no digit stands at the front of the input"),
    }
}

#[test]
fn at_least_parser_reaches_end_of_input() {
    let parser = ParseChar::from_range('a', 'z').at_least(2);
    match parser.parse(ParserState::new("abc")) {
        Ok((chars, state)) => {
            assert_eq!(chars, vec!['a', 'b', 'c']);
            assert_eq!(state.input(), "");
            assert_eq!(state.index(), 3);
        }
        Err(e) => panic!("unexpected parsing error: {}", e.message()),
    }
}

#[test]
fn count_then_char_sequence() {
    let parser = ParseChar::from_range('a', 'z').one_or_more().and(ParseChar::from_char('!'));
    match parser.parse(ParserState::new("hi!")) {
        Ok(((word, bang), state)) => {
            assert_eq!(word, vec!['h', 'i']);
            assert_eq!(bang, '!');
            assert_eq!(state.input(), "");
            assert_eq!(state.index(), 3);
        }
        Err(e) => panic!("unexpected parsing error: {}", e.message()),
    }
}

#[test]
fn from_start_matches_open_above() {
    let parser = ParseChar::from_start('m');
    match parser.parse(ParserState::new("x")) {
        Ok((c, _)) => assert_eq!(c, 'x'),
        Err(e) => panic!("unexpected parsing error: {}", e.message()),
    }
    match parser.parse(ParserState::new("a")) {
        Err(ParseError::Unexpected { expected, found }) => {
            assert_eq!(expected.as_deref(), Some("m..\u{0}"));
            assert_eq!(found.as_deref(), Some("a"));
        }
        _ => panic!("a character below the lower bound should be rejected"),
    }
}

#[test]
fn from_end_matches_open_below() {
    let parser = ParseChar::from_end('m');
    match parser.parse(ParserState::new("a")) {
        Ok((c, _)) => assert_eq!(c, 'a'),
        Err(e) => panic!("unexpected parsing error: {}", e.message()),
    }
    match parser.parse(ParserState::new("x")) {
        Err(ParseError::Unexpected { expected, found }) => {
            assert_eq!(expected.as_deref(), Some("\u{0}..m"));
            assert_eq!(found.as_deref(), Some("x"));
        }
        _ => panic!("a character above the upper bound should be rejected"),
    }
}

#[test]
fn from_any_matches_every_character() {
    let parser = ParseChar::from_any();
    match parser.parse(ParserState::new("!rest")) {
        Ok((c, state)) => {
            assert_eq!(c, '!');
            assert_eq!(state.input(), "rest");
            assert_eq!(state.index(), 1);
        }
        Err(e) => panic!("unexpected parsing error: {}", e.message()),
    }
}

#[test]
fn parsing_is_deterministic() {
    let parser = ParseChar::from_range('a', 'z').no_more_than(4);
    let first = parser.parse(ParserState::new("word here"));
    let second = parser.parse(ParserState::new("word here"));
    match (first, second) {
        (Ok((chars_a, state_a)), Ok((chars_b, state_b))) => {
            assert_eq!(chars_a, chars_b);
            assert_eq!(state_a, state_b);
        }
        _ => panic!("both runs should succeed the same way"),
    }
}

#[test]
fn multi_byte_characters_count_as_one() {
    let state = ParserState::new("héllo");
    match state.char(1) {
        Some((next, c)) => {
            assert_eq!(c, 'é');
            assert_eq!(next.input(), "llo");
            assert_eq!(next.index(), 2);
        }
        None => panic!("two characters remain, so lookahead one must succeed"),
    }
    assert_eq!(state.chars(3), Some(vec!['h', 'é', 'l']));
}

#[test]
fn char_lookahead_at_end_of_input() {
    let state = ParserState::new("hello");
    match state.char(4) {
        Some((next, c)) => {
            assert_eq!(c, 'o');
            assert_eq!(next.input(), "");
            assert_eq!(next.index(), 5);
        }
        None => panic!("five characters remain, so lookahead four must succeed"),
    }
    assert!(state.char(5).is_none());
}

#[test]
fn chars_takes_a_prefix_without_advancing() {
    let state = ParserState::new("hello");
    assert_eq!(state.chars(0), Some(vec![]));
    assert_eq!(state.chars(5), Some(vec!['h', 'e', 'l', 'l', 'o']));
    assert_eq!(state.chars(6), None);
    assert_eq!(state.input(), "hello");
    assert_eq!(state.index(), 0);
}

#[test]
fn new_offset_keeps_the_given_index() {
    let state = ParserState::new_offset("rest", 7);
    assert_eq!(state.input(), "rest");
    assert_eq!(state.index(), 7);
}

#[test]
fn states_compare_by_remaining_input_and_index() {
    assert_eq!(ParserState::new("ab"), ParserState::new("ab"));
    let advanced = ParserState::new("hello").char(1).unwrap().0;
    assert_eq!(advanced, ParserState::new_offset("llo", 2));
    assert_ne!(advanced, ParserState::new("llo"));
}

#[test]
fn messages_describe_each_error() {
    assert_eq!(ParseError::Unknown.message(), "unknown parsing error");
    assert_eq!(
        ParseError::Unexpected { expected: None, found: None }.message(),
        "expected nothing found nothing"
    );
    assert_eq!(
        ParseError::Unexpected {
            expected: Some(String::from("i..z")),
            found: Some(String::from("h")),
        }
        .message(),
        "expected i..z found h"
    );
    assert_eq!(
        ParseError::WrongCount { min: 3, max: 5, found: 2 }.message(),
        "expected 3-5 elements but found 2"
    );
    assert_eq!(
        ParseError::WrongCount { min: 2, max: 2, found: 1 }.message(),
        "expected 2 elements but found 1"
    );
    assert_eq!(
        ParseError::WrongCount { min: 10, max: 120, found: 0 }.message(),
        "expected 10-120 elements but found 0"
    );
}

#[test]
fn and_parser_new_runs_both_sides() {
    let parser = ParseAnd::new(ParseChar::from_char('a'), ParseChar::from_any());
    match parser.parse(ParserState::new("a?")) {
        Ok(((a, b), state)) => {
            assert_eq!(a, 'a');
            assert_eq!(b, '?');
            assert_eq!(state.input(), "");
            assert_eq!(state.index(), 2);
        }
        Err(e) => panic!("unexpected parsing error: {}", e.message()),
    }
}

#[test]
fn count_parser_new_keeps_its_bounds() {
    let parser = ParseCount::new(1, 2, ParseChar::from_char('a'));
    match parser.parse(ParserState::new("aaa")) {
        Ok((chars, state)) => {
            assert_eq!(chars, vec!['a', 'a']);
            assert_eq!(state.input(), "a");
            assert_eq!(state.index(), 2);
        }
        Err(e) => panic!("unexpected parsing error: {}", e.message()),
    }
}
