use crate::parsers::utf8::{char_in_range, spec_count_iter, ParseAnd, ParseChar, ParseCount};
use crate::{ParseErrorView, Parser, StateView};
use vstd::prelude::*;

verus! {

/// Determinism: the outcome of a combinator is a pure function of the cursor.
/// Together with the `parse` contract, which pins the model of every returned
/// outcome to `spec_parse`, this says that two calls of `parse` on equal
/// cursors yield identical outcomes.
pub proof fn lemma_parse_deterministic<
    OutputType: DeepView,
    ErrorType: DeepView,
    ParserType: Parser<OutputType, ErrorType>,
>(p: &ParserType, s1: StateView, s2: StateView)
    requires
        s1 == s2,
    ensures
        p.spec_parse(s1) == p.spec_parse(s2),
{
}

/// Range match correctness: the character combinator succeeds exactly when a
/// character remains and lies within the inclusive bounds, where an absent
/// bound excludes nothing; on success it returns that character and consumes
/// exactly one character.
pub proof fn lemma_char_range_correct(p: &ParseChar, s: StateView)
    ensures
        (p.spec_parse(s) is Ok) <==> (s.input.len() > 0 && char_in_range(
            p.start,
            p.end,
            s.input[0],
        )),
        p.spec_parse(s) is Ok ==> p.spec_parse(s) == Ok::<_, ParseErrorView>(
            (s.input[0], StateView { input: s.input.skip(1), index: s.index + 1 }),
        ),
{
}

/// Sequencing associativity of effect: a nested sequence parses exactly as
/// its three parts run one after the other, each from the cursor the previous
/// one left; in particular it consumes the same total span, ending in the
/// same cursor, and it fails exactly when the first failing part does, with
/// that part's error.
pub proof fn lemma_and_effect_associative<
    OutputTypeA: DeepView,
    OutputTypeB: DeepView,
    OutputTypeC: DeepView,
    ErrorType: DeepView,
    ParserTypeA: Parser<OutputTypeA, ErrorType>,
    ParserTypeB: Parser<OutputTypeB, ErrorType>,
    ParserTypeC: Parser<OutputTypeC, ErrorType>,
>(
    p: &ParseAnd<
        (OutputTypeA, OutputTypeB),
        ErrorType,
        ParseAnd<OutputTypeA, ErrorType, ParserTypeA, OutputTypeB, ErrorType, ParserTypeB>,
        OutputTypeC,
        ErrorType,
        ParserTypeC,
    >,
    s: StateView,
)
    ensures
        match p.parser_a.parser_a.spec_parse(s) {
            Err(error) => p.spec_parse(s) == Err::<
                (((OutputTypeA::V, OutputTypeB::V), OutputTypeC::V), StateView),
                ErrorType::V,
            >(error),
            Ok((a, after_a)) => match p.parser_a.parser_b.spec_parse(after_a) {
                Err(error) => p.spec_parse(s) == Err::<
                    (((OutputTypeA::V, OutputTypeB::V), OutputTypeC::V), StateView),
                    ErrorType::V,
                >(error),
                Ok((b, after_b)) => match p.parser_b.spec_parse(after_b) {
                    Err(error) => p.spec_parse(s) == Err::<
                        (((OutputTypeA::V, OutputTypeB::V), OutputTypeC::V), StateView),
                        ErrorType::V,
                    >(error),
                    Ok((c, after_c)) => p.spec_parse(s) == Ok::<_, ErrorType::V>(
                        (((a, b), c), after_c),
                    ),
                },
            },
        },
{
}

/// Exactly `k` consecutive matches of `p` stand at the cursor `s`: the
/// sub-parser succeeds `k` times in a row and fails on the cursor that the
/// last success leaves.
pub open spec fn matches_exactly<
    OutputType: DeepView,
    ErrorType: DeepView,
    ParserType: Parser<OutputType, ErrorType>,
>(p: ParserType, s: StateView, k: nat) -> bool
    decreases k,
{
    match p.spec_parse(s) {
        Ok((value, next)) => k > 0 && matches_exactly(p, next, (k - 1) as nat),
        Err(_) => k == 0,
    }
}

proof fn lemma_count_iter_bounds<
    OutputType: DeepView,
    ErrorType: DeepView,
    ParserType: Parser<OutputType, ErrorType>,
>(p: ParserType, s: StateView, k: nat, max: int, acc: Seq<OutputType::V>)
    requires
        matches_exactly(p, s, k),
        acc.len() <= max,
    ensures
        ({
            let (out, fin) = spec_count_iter(p, s, max, acc);
            out.len() == acc.len() + vstd::math::min(k as int, max - acc.len())
        }),
        k == 0 ==> spec_count_iter(p, s, max, acc) == (acc, s),
    decreases k,
{
    if acc.len() < max {
        match p.spec_parse(s) {
            Ok((value, next)) => {
                lemma_count_iter_bounds(p, next, (k - 1) as nat, max, acc.push(value));
            },
            Err(_) => {},
        }
    }
}

/// Repetition bounds: when the bounds are ordered and the input holds exactly
/// `k` consecutive matches of the sub-parser, the repetition succeeds with
/// `min(k, max)` elements if `k` reaches `min`, and otherwise fails with a
/// count error that reports exactly the `k` matches that were found.  With no
/// matches required and none found it succeeds with no elements and leaves
/// the cursor where it stood.
pub proof fn lemma_repetition_bounds<
    OutputType: DeepView,
    ErrorType: DeepView,
    ParserType: Parser<OutputType, ErrorType>,
>(p: &ParseCount<OutputType, ErrorType, ParserType>, s: StateView, k: nat)
    requires
        p.min <= p.max,
        matches_exactly(p.parser, s, k),
    ensures
        k >= p.min ==> (p.spec_parse(s) matches Ok((out, fin)) && out.len() == vstd::math::min(
            k as int,
            p.max as int,
        )),
        k < p.min ==> p.spec_parse(s) == Err::<(Seq<OutputType::V>, StateView), ParseErrorView>(
            ParseErrorView::WrongCount {
                min: p.min as int,
                max: p.max as int,
                found: k as int,
            },
        ),
        k == 0 && p.min == 0 ==> p.spec_parse(s) == Ok::<_, ParseErrorView>(
            (Seq::<OutputType::V>::empty(), s),
        ),
{
    lemma_count_iter_bounds(p.parser, s, k, p.max as int, Seq::<OutputType::V>::empty());
}

proof fn lemma_count_iter_advances<
    OutputType: DeepView,
    ErrorType: DeepView,
    ParserType: Parser<OutputType, ErrorType>,
>(p: ParserType, s: StateView, max: int, acc: Seq<OutputType::V>)
    requires
        forall|t: StateView|
            (#[trigger] p.spec_parse(t)) matches Ok(m) ==> m.1.index > t.index,
    ensures
        ({
            let (out, fin) = spec_count_iter(p, s, max, acc);
            fin.index >= s.index + out.len() - acc.len()
        }),
    decreases max - acc.len(),
{
    if acc.len() < max {
        match p.spec_parse(s) {
            Ok((value, next)) => {
                lemma_count_iter_advances(p, next, max, acc.push(value));
            },
            Err(_) => {},
        }
    }
}

/// Monotonic advancement, the strict part: that a successful parse never
/// moves the cursor backwards is part of every `parse` contract; when on top
/// of that every success of the sub-parser strictly advances the cursor, a
/// successful repetition advances by at least one character per gathered
/// element, so it can stand still only when it gathered none, which a
/// positive `min` rules out.
pub proof fn lemma_repetition_strict_advancement<
    OutputType: DeepView,
    ErrorType: DeepView,
    ParserType: Parser<OutputType, ErrorType>,
>(p: &ParseCount<OutputType, ErrorType, ParserType>, s: StateView)
    requires
        forall|t: StateView|
            (#[trigger] p.parser.spec_parse(t)) matches Ok(m) ==> m.1.index > t.index,
    ensures
        p.spec_parse(s) matches Ok((out, fin)) ==> out.len() >= p.min && fin.index >= s.index
            + out.len(),
{
    lemma_count_iter_advances(p.parser, s, p.max as int, Seq::<OutputType::V>::empty());
}

} // verus!
