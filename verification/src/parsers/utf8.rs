use crate::{
    lemma_advances_to_trans, push_char, ParseError, ParseErrorView, ParseResult, Parser,
    ParserState, StateView,
};
use core::marker::PhantomData;
use vstd::prelude::*;

verus! {

/// The character standing for an absent range bound in an error description.
pub open spec fn bound_or_nul(bound: Option<char>) -> char {
    match bound {
        Some(c) => c,
        None => '\0',
    }
}

/// The description of a character range, as it appears in an `Unexpected`
/// error: both endpoints are always shown, an absent one as the null
/// character.
pub open spec fn spec_range_desc(start: Option<char>, end: Option<char>) -> Seq<char> {
    seq![bound_or_nul(start), '.', '.', bound_or_nul(end)]
}

/// Whether `c` lies within the inclusive range: an absent bound holds of
/// every character.
pub open spec fn char_in_range(start: Option<char>, end: Option<char>, c: char) -> bool {
    &&& (start matches Some(lo) ==> lo <= c)
    &&& (end matches Some(hi) ==> c <= hi)
}

/// Build the two-endpoint description of a character range.
fn range_desc(start: Option<char>, end: Option<char>) -> (r: String)
    ensures
        r@ == spec_range_desc(start, end),
{
    let mut r = String::new();
    push_char(&mut r, match start {
        Some(c) => c,
        None => '\0',
    });
    push_char(&mut r, '.');
    push_char(&mut r, '.');
    push_char(&mut r, match end {
        Some(c) => c,
        None => '\0',
    });
    proof {
        assert(r@ =~= spec_range_desc(start, end));
    }
    r
}

/// Build the one-character string describing a character that was found.
fn char_desc(c: char) -> (r: String)
    ensures
        r@ == seq![c],
{
    let mut r = String::new();
    push_char(&mut r, c);
    proof {
        assert(r@ =~= seq![c]);
    }
    r
}

/// Parses a single character and optionally checks whether it is within a provided range.
#[derive(Debug, Clone, PartialEq, Eq, Structural)]
pub struct ParseChar {
    /// The inclusive minimum bound of the character this parser is looking for, or `None` if it
    /// should accept characters from `0`.
    pub start: Option<char>,
    /// The inclusive maximum bound of the character this parser is looking for, or `None` if it
    /// should accept characters below the maximum `char`.
    pub end: Option<char>,
}

impl ParseChar {
    /// Create a character parser that will match characters between the inclusive range
    /// `start..end`.
    pub fn from_range(start: char, end: char) -> (r: Self)
        ensures
            r == (ParseChar { start: Some(start), end: Some(end) }),
    {
        Self { start: Some(start), end: Some(end) }
    }

    /// Create a character parser that will match characters above and including the `start`.
    pub fn from_start(start: char) -> (r: Self)
        ensures
            r == (ParseChar { start: Some(start), end: None }),
    {
        Self { start: Some(start), end: None }
    }

    /// Create a character parser that will match characters below and including the `end`.
    pub fn from_end(end: char) -> (r: Self)
        ensures
            r == (ParseChar { start: None, end: Some(end) }),
    {
        Self { start: None, end: Some(end) }
    }

    /// Create a character parser that will match only the provided character.
    pub fn from_char(c: char) -> (r: Self)
        ensures
            r == (ParseChar { start: Some(c), end: Some(c) }),
    {
        Self { start: Some(c), end: Some(c) }
    }

    /// Create a character parser that will match any character.
    pub fn from_any() -> (r: Self)
        ensures
            r == (ParseChar { start: None, end: None }),
    {
        Self { start: None, end: None }
    }
}

impl Parser<char, ParseError> for ParseChar {
    /// Succeed on the first remaining character exactly when it lies within
    /// the range, consuming it; otherwise report what was expected and what
    /// was found, with `found: None` at the end of the input.
    open spec fn spec_parse(&self, s: StateView) -> Result<(char, StateView), ParseErrorView> {
        if s.input.len() == 0 {
            Err(
                ParseErrorView::Unexpected {
                    expected: Some(spec_range_desc(self.start, self.end)),
                    found: None,
                },
            )
        } else if char_in_range(self.start, self.end, s.input[0]) {
            Ok((s.input[0], StateView { input: s.input.skip(1), index: s.index + 1 }))
        } else {
            Err(
                ParseErrorView::Unexpected {
                    expected: Some(spec_range_desc(self.start, self.end)),
                    found: Some(seq![s.input[0]]),
                },
            )
        }
    }

    fn parse(&self, parser_state: ParserState) -> (r: ParseResult<ParseError, char>) {
        // Get the first character in the input.
        if let Some((new_state, char_at)) = parser_state.char(0) {
            // Check if the character is larger than or at the minimum bound, if there is one.
            let above_start = match self.start {
                Some(start) => char_at >= start,
                None => true,
            };
            // Check if the character is smaller than or at the maximum bound, if there is one.
            let below_end = match self.end {
                Some(end) => char_at <= end,
                None => true,
            };
            if above_start && below_end {
                // The character is within the bounds: return it and the parser
                // state with its index incremented.
                Ok((char_at, new_state))
            } else {
                // Otherwise, the character found isn't within the provided range.
                Err(
                    ParseError::Unexpected {
                        expected: Some(range_desc(self.start, self.end)),
                        found: Some(char_desc(char_at)),
                    },
                )
            }
        } else {
            // There were no more characters to take from the input.
            Err(
                ParseError::Unexpected {
                    expected: Some(range_desc(self.start, self.end)),
                    found: None,
                },
            )
        }
    }
}

/// The repeated runs of a sub-parser from cursor `s`, after the values in
/// `acc` have already been gathered: values are appended and the cursor moves
/// forward until either `max` values are held or the sub-parser fails, whose
/// error is discarded.
pub open spec fn spec_count_iter<
    OutputType: DeepView,
    ErrorType: DeepView,
    ParserType: Parser<OutputType, ErrorType>,
>(parser: ParserType, s: StateView, max: int, acc: Seq<OutputType::V>) -> (Seq<OutputType::V>,
    StateView)
    decreases max - acc.len(),
{
    if acc.len() >= max {
        (acc, s)
    } else {
        match parser.spec_parse(s) {
            Ok((value, next)) => spec_count_iter(parser, next, max, acc.push(value)),
            Err(_) => (acc, s),
        }
    }
}

/// Parses a variable number of elements.
pub struct ParseCount<
    OutputType: DeepView,
    ErrorType: DeepView,
    ParserType: Parser<OutputType, ErrorType>,
> {
    /// The minimum count of elements to parse.
    pub min: usize,
    /// The maximum count of elements to parse (inclusively).
    pub max: usize,
    /// The type of parser to run for each element.
    pub parser: ParserType,
    /* Phantoms */
    pub _phantom1: PhantomData<OutputType>,
    pub _phantom2: PhantomData<ErrorType>,
}

impl<
    OutputType: DeepView,
    ErrorType: DeepView,
    ParserType: Parser<OutputType, ErrorType>,
> ParseCount<OutputType, ErrorType, ParserType> {
    /// Create a new count parser from the provided minimum and maximum counts.
    pub fn new(min: usize, max: usize, parser: ParserType) -> (r: Self)
        ensures
            r.min == min,
            r.max == max,
            r.parser == parser,
    {
        Self { min, max, parser, _phantom1: PhantomData, _phantom2: PhantomData }
    }
}

impl<
    OutputType: DeepView,
    ErrorType: DeepView,
    ParserType: Parser<OutputType, ErrorType>,
> Parser<Vec<OutputType>, ParseError> for ParseCount<OutputType, ErrorType, ParserType> {
    /// Run the sub-parser repeatedly, keeping at most `max` values; succeed
    /// with the gathered values unless fewer than `min` were found, in which
    /// case only how many succeeded is reported.
    open spec fn spec_parse(&self, s: StateView) -> Result<
        (Seq<OutputType::V>, StateView),
        ParseErrorView,
    > {
        let (output, fin) = spec_count_iter(self.parser, s, self.max as int, Seq::empty());
        if output.len() < self.min {
            Err(
                ParseErrorView::WrongCount {
                    min: self.min as int,
                    max: self.max as int,
                    found: output.len() as int,
                },
            )
        } else {
            Ok((output, fin))
        }
    }

    fn parse(&self, parser_state: ParserState) -> (r: ParseResult<ParseError, Vec<OutputType>>) {
        let ghost start = parser_state@;
        let mut new_state = parser_state;
        let mut output: Vec<OutputType> = Vec::new();
        proof {
            assert(output.deep_view() =~= Seq::<OutputType::V>::empty());
            crate::lemma_advances_to_refl(start);
        }
        // Keep parsing until enough elements are parsed.
        loop
            invariant
                start.wf(),
                new_state@.wf(),
                start.advances_to(new_state@),
                output.len() <= self.max,
                output.deep_view().len() == output.len(),
                spec_count_iter(self.parser, start, self.max as int, Seq::empty())
                    == spec_count_iter(
                    self.parser,
                    new_state@,
                    self.max as int,
                    output.deep_view(),
                ),
            ensures
                new_state@.wf(),
                start.advances_to(new_state@),
                output.deep_view().len() == output.len(),
                spec_count_iter(self.parser, start, self.max as int, Seq::empty()) == (
                    output.deep_view(),
                    new_state@,
                ),
            decreases self.max - output.len(),
        {
            // If there are enough elements already, exit the loop.
            if output.len() >= self.max {
                break;
            }
            // Try to parse another element.
            match self.parser.parse(new_state.clone()) {
                Ok((parsed_new_output, parsed_new_state)) => {
                    // If it succeeds, add the output to the output vec and
                    // update the state.
                    proof {
                        lemma_advances_to_trans(start, new_state@, parsed_new_state@);
                    }
                    let ghost previous = output.deep_view();
                    output.push(parsed_new_output);
                    proof {
                        assert(output.deep_view() =~= previous.push(
                            parsed_new_output.deep_view(),
                        ));
                    }
                    new_state = parsed_new_state;
                },
                Err(_) => {
                    // If it fails, break out of the loop.
                    break;
                },
            }
        }
        // Check if there are too few elements.
        if output.len() < self.min {
            // If there aren't the right number of elements, construct and
            // return an error.
            Err(ParseError::WrongCount { min: self.min, max: self.max, found: output.len() })
        } else {
            // Otherwise, return the new state and the outputs.
            Ok((output, new_state))
        }
    }
}

/// Parses one element and then another element.
pub struct ParseAnd<
    OutputTypeA: DeepView,
    ErrorTypeA: DeepView,
    ParserTypeA: Parser<OutputTypeA, ErrorTypeA>,
    OutputTypeB: DeepView,
    ErrorTypeB: DeepView,
    ParserTypeB: Parser<OutputTypeB, ErrorTypeB>,
> {
    /// The first parser to run.
    pub parser_a: ParserTypeA,
    /// The second parser to run.
    pub parser_b: ParserTypeB,
    /* Phantom */
    pub _phantom: PhantomData<(OutputTypeA, ErrorTypeA, OutputTypeB, ErrorTypeB)>,
}

impl<
    OutputTypeA: DeepView,
    ErrorTypeA: DeepView,
    ParserTypeA: Parser<OutputTypeA, ErrorTypeA>,
    OutputTypeB: DeepView,
    ErrorTypeB: DeepView,
    ParserTypeB: Parser<OutputTypeB, ErrorTypeB>,
> ParseAnd<OutputTypeA, ErrorTypeA, ParserTypeA, OutputTypeB, ErrorTypeB, ParserTypeB> {
    pub fn new(parser_a: ParserTypeA, parser_b: ParserTypeB) -> (r: Self)
        ensures
            r.parser_a == parser_a,
            r.parser_b == parser_b,
    {
        Self { parser_a, parser_b, _phantom: PhantomData }
    }
}

impl<
    ErrorType: DeepView,
    OutputTypeA: DeepView,
    ParserTypeA: Parser<OutputTypeA, ErrorType>,
    OutputTypeB: DeepView,
    ParserTypeB: Parser<OutputTypeB, ErrorType>,
> Parser<(OutputTypeA, OutputTypeB), ErrorType> for ParseAnd<
    OutputTypeA,
    ErrorType,
    ParserTypeA,
    OutputTypeB,
    ErrorType,
    ParserTypeB,
> {
    /// Run the first parser; on success run the second from where the first
    /// stopped, pair the two values, and keep the second's cursor.  The first
    /// failure is propagated verbatim.
    open spec fn spec_parse(&self, s: StateView) -> Result<
        ((OutputTypeA::V, OutputTypeB::V), StateView),
        ErrorType::V,
    > {
        match self.parser_a.spec_parse(s) {
            Err(error) => Err(error),
            Ok((a, after_a)) => match self.parser_b.spec_parse(after_a) {
                Err(error) => Err(error),
                Ok((b, after_b)) => Ok(((a, b), after_b)),
            },
        }
    }

    fn parse(&self, parser_state: ParserState) -> (r: ParseResult<
        ErrorType,
        (OutputTypeA, OutputTypeB),
    >) {
        let ghost start = parser_state@;
        // Run the first parser.
        let (a, new_state) = match self.parser_a.parse(parser_state) {
            Ok(ok) => ok,
            Err(error) => {
                return Err(error);
            },
        };
        let ghost middle = new_state@;
        // Run the second parser.
        let (b, new_state) = match self.parser_b.parse(new_state) {
            Ok(ok) => ok,
            Err(error) => {
                return Err(error);
            },
        };
        proof {
            lemma_advances_to_trans(start, middle, new_state@);
        }
        // Return the values.
        Ok(((a, b), new_state))
    }
}

} // verus!
