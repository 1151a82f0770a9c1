use vstd::prelude::*;

/// Properties that hold of the default combinators.
pub mod laws;
/// Human-readable descriptions of parse errors.
pub mod message;
/// Default implementations for a few different types of parsers.
pub mod parsers;

verus! {

/// Ghost model of a cursor: the characters that are still to be consumed,
/// together with the count of characters consumed so far.
#[verifier::ext_equal]
pub ghost struct StateView {
    pub input: Seq<char>,
    pub index: int,
}

impl StateView {
    /// The consumed count together with the remaining length fits in a
    /// machine word, so advancing the cursor can never overflow.
    pub open spec fn wf(self) -> bool {
        &&& 0 <= self.index
        &&& self.index + self.input.len() <= usize::MAX
    }

    /// `post` is the same cursor moved forward by some number of characters:
    /// the consumed count grows by exactly as many characters as are stripped
    /// from the front of the remaining input.
    pub open spec fn advances_to(self, post: StateView) -> bool {
        &&& self.index <= post.index
        &&& post.index - self.index <= self.input.len()
        &&& post.input == self.input.skip(post.index - self.index)
    }
}

/// Advancing is reflexive: a cursor advances to itself by zero characters.
pub proof fn lemma_advances_to_refl(s: StateView)
    ensures
        s.advances_to(s),
{
    assert(s.input.skip(0) =~= s.input);
}

/// Advancing is transitive, so a chain of parse steps advances as a whole.
pub proof fn lemma_advances_to_trans(a: StateView, b: StateView, c: StateView)
    requires
        a.advances_to(b),
        b.advances_to(c),
    ensures
        a.advances_to(c),
{
    assert(a.input.skip(c.index - a.index) =~= b.input.skip(c.index - b.index));
}

/// A structure that contains all of the data for the current location and data for the parsing run.
#[derive(Debug, Eq, Hash)]
pub struct ParserState {
    input: String,
    index: usize,
}

impl View for ParserState {
    type V = StateView;

    closed spec fn view(&self) -> StateView {
        StateView { input: self.input@, index: self.index as int }
    }
}

impl Clone for ParserState {
    fn clone(&self) -> (r: Self)
        ensures
            r == self,
    {
        ParserState { input: self.input.clone(), index: self.index }
    }
}

impl PartialEq for ParserState {
    /// Two cursors are equal exactly when they hold the same remaining input
    /// and the same consumed count.
    fn eq(&self, other: &Self) -> (r: bool)
        ensures
            r == (self@ == other@),
    {
        let fields_eq = self.input == other.input && self.index == other.index;
        proof {
            if fields_eq {
                assert(self@ =~= other@);
            }
        }
        fields_eq
    }
}

impl vstd::std_specs::cmp::PartialEqSpecImpl for ParserState {
    open spec fn obeys_eq_spec() -> bool {
        true
    }

    open spec fn eq_spec(&self, other: &Self) -> bool {
        self@ == other@
    }
}

impl ParserState {
    pub fn new_offset(input: &str, index: usize) -> (r: Self)
        ensures
            r@ == (StateView { input: input@, index: index as int }),
    {
        Self { input: input.to_owned(), index }
    }

    pub fn new(input: &str) -> (r: Self)
        ensures
            r@ == (StateView { input: input@, index: 0 }),
            r@.wf(),
    {
        // Counting the characters shows that a cursor at offset zero is well
        // formed: the count is itself held by a machine word.
        let _chars_len = input.unicode_len();
        Self::new_offset(input, 0)
    }

    /// The remaining, not yet consumed, input.
    pub fn input(&self) -> (r: &str)
        ensures
            r@ == self@.input,
    {
        self.input.as_str()
    }

    /// The count of characters consumed so far.
    pub fn index(&self) -> (r: usize)
        ensures
            r as int == self@.index,
    {
        self.index
    }

    /// Look at the character `offset` positions ahead; when it exists, return
    /// it together with a cursor advanced past it.
    pub fn char(&self, offset: usize) -> (r: Option<(Self, char)>)
        requires
            self@.wf(),
        ensures
            match r {
                Some((next, c)) => {
                    &&& offset < self@.input.len()
                    &&& c == self@.input[offset as int]
                    &&& next@ == (StateView {
                        input: self@.input.skip(offset + 1),
                        index: self@.index + offset + 1,
                    })
                },
                None => offset >= self@.input.len(),
            },
    {
        let chars_len = self.input.as_str().unicode_len();
        if offset >= chars_len {
            None
        } else {
            let c = self.input.as_str().get_char(offset);
            let rest = self.input.as_str().substring_char(offset + 1, chars_len);
            Some((Self { input: rest.to_owned(), index: self.index + offset + 1 }, c))
        }
    }

    /// The first `count` remaining characters, when that many remain.
    pub fn chars(&self, count: usize) -> (r: Option<Vec<char>>)
        ensures
            match r {
                Some(v) => count <= self@.input.len() && v@ == self@.input.take(count as int),
                None => count > self@.input.len(),
            },
    {
        let chars_len = self.input.as_str().unicode_len();
        if count <= chars_len {
            let mut v: Vec<char> = Vec::new();
            let mut i: usize = 0;
            while i < count
                invariant
                    i <= count,
                    count <= self@.input.len(),
                    v@ =~= self@.input.take(i as int),
                decreases count - i,
            {
                v.push(self.input.as_str().get_char(i));
                i = i + 1;
            }
            Some(v)
        } else {
            None
        }
    }
}

/// Relies on `String::push`: it appends the given character to the end of the string.
#[verifier::external_body]
pub(crate) fn push_char(s: &mut String, c: char)
    ensures
        final(s)@ == old(s)@.push(c),
{
    s.push(c)
}

/// The type returned by parsers containing either the output and the new parser state or an error
/// with more information.
pub type ParseResult<ErrorType, OutputType> = Result<(OutputType, ParserState), ErrorType>;

/// Represents a parser that will take the current parser state and try to transform it.
///
/// The outcome of a parse is pinned down, at the level of the mathematical
/// models of the values involved, by the spec function `spec_parse`: the
/// executable `parse` must return exactly what `spec_parse` says.  Since
/// `spec_parse` is a function of the combinator and the cursor alone, parsing
/// is deterministic: two calls on equal cursors yield outcomes with equal
/// models.  On success the returned cursor is the given one advanced by the
/// matched span, so the consumed-character count never decreases.
pub trait Parser<OutputType: DeepView, ErrorType: DeepView> {
    /// The mathematical description of this combinator: what parsing from
    /// cursor `s` returns, as models of the produced value, cursor and error.
    spec fn spec_parse(&self, s: StateView) -> Result<
        (OutputType::V, StateView),
        ErrorType::V,
    >;

    /// Try to parse a piece of the input and return a parser result based on whether that is
    /// successful.
    fn parse(&self, parser_state: ParserState) -> (r: ParseResult<ErrorType, OutputType>)
        requires
            parser_state@.wf(),
        ensures
            match r {
                Ok((value, next)) => {
                    &&& self.spec_parse(parser_state@) == Ok::<_, ErrorType::V>(
                        (value.deep_view(), next@),
                    )
                    &&& parser_state@.advances_to(next@)
                    &&& next@.wf()
                },
                Err(error) => self.spec_parse(parser_state@) == Err::<
                    (OutputType::V, StateView),
                    _,
                >(error.deep_view()),
            },
    ;
}

/// Ghost model of a parse error: the same taxonomy, with every text carried
/// as its character sequence and every count as a mathematical integer.
pub ghost enum ParseErrorView {
    Unknown,
    Unexpected { expected: Option<Seq<char>>, found: Option<Seq<char>> },
    WrongCount { min: int, max: int, found: int },
}

/// An enum of possible error types for the default provided parsers.
#[derive(Debug)]
pub enum ParseError {
    /// TBD.
    Unknown,
    /// The parser received an input that it wasn't expecting.
    Unexpected { expected: Option<String>, found: Option<String> },
    /// The parser didn't receive the number of elements that were expected.
    WrongCount { min: usize, max: usize, found: usize },
}

impl DeepView for ParseError {
    type V = ParseErrorView;

    open spec fn deep_view(&self) -> ParseErrorView {
        match self {
            ParseError::Unknown => ParseErrorView::Unknown,
            ParseError::Unexpected { expected, found } => ParseErrorView::Unexpected {
                expected: expected.deep_view(),
                found: found.deep_view(),
            },
            ParseError::WrongCount { min, max, found } => ParseErrorView::WrongCount {
                min: *min as int,
                max: *max as int,
                found: *found as int,
            },
        }
    }
}

} // verus!
