use crate::{push_char, ParseError, ParseErrorView};
use vstd::prelude::*;
use vstd::string::StringExecFns;

verus! {

/// The decimal digit character for a value below ten.
pub open spec fn digit_char(d: int) -> char {
    if d == 0 {
        '0'
    } else if d == 1 {
        '1'
    } else if d == 2 {
        '2'
    } else if d == 3 {
        '3'
    } else if d == 4 {
        '4'
    } else if d == 5 {
        '5'
    } else if d == 6 {
        '6'
    } else if d == 7 {
        '7'
    } else if d == 8 {
        '8'
    } else {
        '9'
    }
}

/// The decimal rendering of a count, most significant digit first and without
/// leading zeroes (a zero count renders as the single digit zero).
pub open spec fn spec_count_digits(n: int) -> Seq<char>
    decreases n,
{
    if n <= 9 {
        seq![digit_char(n)]
    } else {
        spec_count_digits(n / 10).push(digit_char(n % 10))
    }
}

/// A described character class, or the word for an absent description.
pub open spec fn spec_text_or_nothing(text: Option<Seq<char>>) -> Seq<char> {
    match text {
        Some(t) => t,
        None => "nothing"@,
    }
}

/// An expected count: the single number when the bounds agree, else both
/// bounds joined by a dash.
pub open spec fn spec_count_range(min: int, max: int) -> Seq<char> {
    if min == max {
        spec_count_digits(min)
    } else {
        spec_count_digits(min) + "-"@ + spec_count_digits(max)
    }
}

/// The description of a parse error, one line per error kind.
pub open spec fn spec_message(e: ParseErrorView) -> Seq<char> {
    match e {
        ParseErrorView::Unknown => "unknown parsing error"@,
        ParseErrorView::Unexpected { expected, found } => "expected "@ + spec_text_or_nothing(
            expected,
        ) + " found "@ + spec_text_or_nothing(found),
        ParseErrorView::WrongCount { min, max, found } => "expected "@ + spec_count_range(min, max)
            + " elements but found "@ + spec_count_digits(found),
    }
}

/// The decimal digit character for a value below ten.
fn digit_char_of(d: usize) -> (c: char)
    requires
        d < 10,
    ensures
        c == digit_char(d as int),
{
    if d == 0 {
        '0'
    } else if d == 1 {
        '1'
    } else if d == 2 {
        '2'
    } else if d == 3 {
        '3'
    } else if d == 4 {
        '4'
    } else if d == 5 {
        '5'
    } else if d == 6 {
        '6'
    } else if d == 7 {
        '7'
    } else if d == 8 {
        '8'
    } else {
        '9'
    }
}

/// Append the decimal rendering of `n` to `out`.
fn push_count_digits(out: &mut String, n: usize)
    ensures
        final(out)@ == old(out)@ + spec_count_digits(n as int),
    decreases n,
{
    let ghost entry = out@;
    if n >= 10 {
        push_count_digits(out, n / 10);
    }
    push_char(out, digit_char_of(n % 10));
    proof {
        assert(out@ =~= entry + spec_count_digits(n as int));
    }
}

impl ParseError {
    /// The description of this error, with the same content for the same
    /// error: what was expected and what was found, or which count was needed
    /// and which was met.
    pub fn message(&self) -> (r: String)
        ensures
            r@ == spec_message(self.deep_view()),
    {
        match self {
            ParseError::Unknown => "unknown parsing error".to_owned(),
            ParseError::Unexpected { expected, found } => {
                let mut r = "expected ".to_owned();
                match expected {
                    Some(t) => r.append(t.as_str()),
                    None => r.append("nothing"),
                }
                r.append(" found ");
                match found {
                    Some(t) => r.append(t.as_str()),
                    None => r.append("nothing"),
                }
                proof {
                    assert(r@ =~= spec_message(self.deep_view()));
                }
                r
            },
            ParseError::WrongCount { min, max, found } => {
                let mut r = "expected ".to_owned();
                if *min == *max {
                    push_count_digits(&mut r, *min);
                } else {
                    push_count_digits(&mut r, *min);
                    r.append("-");
                    push_count_digits(&mut r, *max);
                }
                r.append(" elements but found ");
                push_count_digits(&mut r, *found);
                proof {
                    assert(r@ =~= spec_message(self.deep_view()));
                }
                r
            },
        }
    }
}

} // verus!
