use crate::parsers::utf8::{ParseAnd, ParseChar, ParseCount};
use crate::Parser;
use vstd::prelude::*;

/// Parsers that specifically make use of the `char` type and can be used to parse strings.
pub mod utf8;

verus! {

/// A trait to be added to other parsers that allows easier parser combining.
///
/// This is pure composition sugar: every method only assembles one of the
/// default combinators, as its contract states, and the surface is granted to
/// every parser by a blanket implementation.
pub trait ParserExtensions<OutputType: DeepView, ErrorType: DeepView>: Parser<
    OutputType,
    ErrorType,
> {
    /// A combinator matching exactly `character`.
    fn char(&self, character: char) -> (r: ParseChar)
        ensures
            r == (ParseChar { start: Some(character), end: Some(character) }),
    ;

    /// A combinator matching any character of the inclusive range `start..end`.
    fn char_range(&self, start: char, end: char) -> (r: ParseChar)
        ensures
            r == (ParseChar { start: Some(start), end: Some(end) }),
    ;

    /// This combinator followed by `next`, pairing their outputs.
    fn and<
        NextOutputType: DeepView,
        NextErrorType: DeepView,
        NextParserType: Parser<NextOutputType, NextErrorType>,
    >(self, next: NextParserType) -> (r: ParseAnd<
        OutputType,
        ErrorType,
        Self,
        NextOutputType,
        NextErrorType,
        NextParserType,
    >) where Self: Sized
        ensures
            r.parser_a == self,
            r.parser_b == next,
    ;

    /// This combinator repeated between `min` and `max` times (inclusively).
    fn between(self, min: usize, max: usize) -> (r: ParseCount<OutputType, ErrorType, Self>) where
        Self: Sized
        ensures
            r.min == min,
            r.max == max,
            r.parser == self,
    ;

    /// This combinator repeated at least `min` times.
    fn at_least(self, min: usize) -> (r: ParseCount<OutputType, ErrorType, Self>) where
        Self: Sized
        ensures
            r.min == min,
            r.max == usize::MAX,
            r.parser == self,
    ;

    /// This combinator repeated at most `max` times.
    fn no_more_than(self, max: usize) -> (r: ParseCount<OutputType, ErrorType, Self>) where
        Self: Sized
        ensures
            r.min == 0,
            r.max == max,
            r.parser == self,
    ;

    /// This combinator repeated zero or one times.
    fn optional(self) -> (r: ParseCount<OutputType, ErrorType, Self>) where Self: Sized
        ensures
            r.min == 0,
            r.max == 1,
            r.parser == self,
    ;

    /// This combinator repeated one or more times.
    fn one_or_more(self) -> (r: ParseCount<OutputType, ErrorType, Self>) where Self: Sized
        ensures
            r.min == 1,
            r.max == usize::MAX,
            r.parser == self,
    ;
}

impl<
    OutputType: DeepView,
    ErrorType: DeepView,
    ParserType: Parser<OutputType, ErrorType>,
> ParserExtensions<OutputType, ErrorType> for ParserType {
    fn char(&self, character: char) -> (r: ParseChar) {
        ParseChar::from_char(character)
    }

    fn char_range(&self, start: char, end: char) -> (r: ParseChar) {
        ParseChar::from_range(start, end)
    }

    fn and<
        NextOutputType: DeepView,
        NextErrorType: DeepView,
        NextParserType: Parser<NextOutputType, NextErrorType>,
    >(self, next: NextParserType) -> (r: ParseAnd<
        OutputType,
        ErrorType,
        Self,
        NextOutputType,
        NextErrorType,
        NextParserType,
    >) {
        ParseAnd::new(self, next)
    }

    fn between(self, min: usize, max: usize) -> (r: ParseCount<OutputType, ErrorType, Self>) {
        ParseCount::new(min, max, self)
    }

    fn at_least(self, min: usize) -> (r: ParseCount<OutputType, ErrorType, Self>) {
        self.between(min, usize::MAX)
    }

    fn no_more_than(self, max: usize) -> (r: ParseCount<OutputType, ErrorType, Self>) {
        self.between(0, max)
    }

    fn optional(self) -> (r: ParseCount<OutputType, ErrorType, Self>) {
        self.no_more_than(1)
    }

    fn one_or_more(self) -> (r: ParseCount<OutputType, ErrorType, Self>) {
        self.at_least(1)
    }
}

} // verus!
