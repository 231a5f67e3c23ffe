use core::marker::PhantomData;
use vstd::prelude::*;

use crate::combinator::{paired, Attempt, FollowedBy, Optional, Or, Recognize};
use crate::parser::{ParserMut, ParserOnce};
use crate::primitive::{literal_outcome, Str};
use crate::repeat::{repetition_result, seq_of, successes, CollectMany};
use crate::sep::{sep_by_outcome, seconds};
use crate::stream::{advances, remaining, Stream};
use crate::tuple::{Chain, ChainParserOnce};

verus! {

/// When the first parser of `or` fails without consuming input, the second
/// runs from the very place the alternation started, and its run is the run
/// of the alternation.
pub proof fn law_or_after_clean_failure<I: Stream, P: ParserOnce<I>, Q: ParserOnce<
    I,
    Output = P::Output,
>>(p: P, q: Q, before: I, mid: I, r: Option<P::Output>, after: I)
    requires
        p.outcome(before, None, mid),
        advances(before, mid),
        mid.offset() == before.offset(),
        q.outcome(mid, r, after),
    ensures
        mid.source() == before.source(),
        (Or { first: p, second: q }).outcome(before, r, after),
{
    let alt = Or { first: p, second: q };
    assert(alt.first.outcome(before, None, mid) && alt.second.outcome(mid, r, after));
    assert(alt.outcome(before, r, after));
}

/// When a parser fails without consuming input, `optional` of it returns an
/// absent value and leaves the cursor at the place it started from.
pub proof fn law_optional_after_clean_failure<I: Stream, P: ParserOnce<I>>(
    p: P,
    before: I,
    after: I,
)
    requires
        p.outcome(before, None, after),
        advances(before, after),
        after.offset() == before.offset(),
    ensures
        after.source() == before.source(),
        (Optional { parser: p }).outcome(before, Some(None), after),
        forall|r: Option<Option<P::Output>>| #[trigger]
            (Optional { parser: p }).outcome(before, r, after) && r != Some(None::<P::Output>)
                ==> r matches Some(Some(_)),
{
}

/// `attempt` puts the cursor back where it was whenever its parser fails,
/// however much that parser consumed.
pub proof fn law_attempt_restores<I: Stream, P: ParserOnce<I>>(p: P, before: I, mid: I, after: I)
    requires
        p.outcome(before, None, mid),
    ensures
        (Attempt { parser: p }).outcome(before, None, before),
        (Attempt { parser: p }).outcome(before, None, after) ==> after == before,
{
    let a = Attempt { parser: p };
    assert(a.parser.outcome(before, None, mid));
    assert(a.outcome(before, None, before));
}

/// `recognize` returns exactly the input consumed between the place its
/// parser started and the place it stopped.
pub proof fn law_recognize_span<I: Stream, P: ParserOnce<I>>(
    p: P,
    before: I,
    span: I::Range,
    after: I,
)
    requires
        (Recognize { parser: p }).outcome(before, Some(span), after),
        before.wf(),
        advances(before, after),
    ensures
        span@ == remaining(before).take(after.offset() - before.offset()),
{
    before.lemma_wf();
    after.lemma_wf();
    let rec = Recognize { parser: p };
    assert(rec.outcome(before, Some(span), after));
    assert(span@ == before.source().subrange(before.offset() as int, after.offset() as int));
    assert(span@ =~= remaining(before).take(after.offset() - before.offset()));
}

/// The span that `recognize` returns for a literal is the literal itself, and
/// the literal parser run again on a fresh cursor over just that span
/// succeeds and consumes all of it, and does nothing else.
pub proof fn law_recognize_literal_round_trip<'a, I: Stream<Item = char>>(
    text: &'a str,
    before: I,
    span: I::Range,
    after: I,
    fresh: I,
    end: I,
)
    requires
        (Recognize { parser: Str::<'a, I> { text, marker: PhantomData } }).outcome(before, Some(span), after),
        before.wf(),
        advances(before, after),
        fresh.wf(),
        fresh.source() == span@,
        fresh.offset() == 0,
        end.wf(),
        end.source() == span@,
        end.offset() == span@.len(),
    ensures
        span@ == text@,
        (Str::<'a, I> { text, marker: PhantomData }).outcome(fresh, Some(()), end),
        forall|r: Option<()>, stop: I| #[trigger]
            (Str::<'a, I> { text, marker: PhantomData }).outcome(fresh, r, stop) ==> r == Some(()) && stop.offset()
                == span@.len(),
{
    before.lemma_wf();
    let x = choose|x: ()| #[trigger] (Str::<'a, I> { text, marker: PhantomData }).outcome(before, Some(x), after);
    assert(literal_outcome(text@, before, Some(x), after));
    let k = after.offset() - before.offset();
    assert(k == text@.len());
    assert(span@ =~= remaining(before).take(k));
    assert(span@ =~= text@);
    assert(remaining(fresh) =~= span@);
    assert(text@.take(text@.len() as int) =~= remaining(fresh).take(text@.len() as int));
    assert forall|r: Option<()>, stop: I| #[trigger]
        (Str::<'a, I> { text, marker: PhantomData }).outcome(fresh, r, stop) implies r == Some(()) && stop.offset()
        == span@.len() by {
        let j = stop.offset() - fresh.offset();
        if j < text@.len() {
            assert(text@.take(j)[j - 1] == text@[j - 1] || j == 0);
            assert(remaining(fresh)[j] == text@[j]);
        }
    }
}

/// Repetition of a parser that, from some place, only ever succeeds without
/// consuming input fails there: it would otherwise repeat for ever.
pub proof fn law_many_of_non_consuming_fails<I: Stream, P: ParserMut<I>>(
    p: P,
    before: I,
    r: Option<Vec<P::Output>>,
    after: I,
)
    requires
        forall|s: Option<P::Output>, a: I| #[trigger]
            p.outcome(before, s, a) ==> s is Some && a.offset() == before.offset(),
        (CollectMany { parser: p }).outcome(before, r, after),
    ensures
        r is None,
{
    let (marks, outs, last) = choose|marks: Seq<I>, outs: Seq<P::Output>, last: Option<P::Output>|
        {
            &&& #[trigger] successes(p, marks, outs)
            &&& marks[0] == before
            &&& #[trigger] p.outcome(marks.last(), last, after)
            &&& advances(marks.last(), after)
            &&& !(last is Some && after.offset() != marks.last().offset())
            &&& seq_of(r) == repetition_result(outs, last, marks.last(), after)
        };
    if outs.len() > 0 {
        let k: int = 0;
        assert(p.outcome(marks[k], Some(outs[k]), marks[k + 1]));
        assert(marks[k].offset() < marks[k + 1].offset());
    }
}

/// A bare sequence of three parsers is not atomic: when the second fails
/// after the first consumed input, the sequence fails and the cursor stays
/// where the second left it; under `attempt` the same failure leaves the
/// cursor where the sequence started.
pub proof fn law_sequence_not_atomic<I: Stream, P: ParserOnce<I>, Q: ParserOnce<I>, R: ParserOnce<I>>(
    p: P,
    q: Q,
    r: R,
    before: I,
    x: P::Output,
    mid: I,
    after: I,
)
    requires
        p.outcome(before, Some(x), mid),
        advances(before, mid),
        mid.offset() > before.offset(),
        q.outcome(mid, None, after),
    ensures
        (p, q, r).chain_outcome(before, None, after),
        (Attempt { parser: Chain { parser: (p, q, r), marker: PhantomData } }).outcome(
            before,
            None,
            before,
        ),
{
    let seq = (p, q, r);
    let inner = FollowedBy { first: seq.1, second: seq.2 };
    let outer = FollowedBy { first: seq.0, second: inner };
    assert(inner.first.outcome(mid, None, after));
    assert(inner.outcome(mid, None, after));
    assert(outer.first.outcome(before, Some(x), mid) && outer.second.outcome(mid, None, after));
    assert(outer.outcome(before, None, after));
    assert(crate::tuple::flat3(None::<(P::Output, (Q::Output, R::Output))>) == None::<
        (P::Output, Q::Output, R::Output),
    >);
    assert(seq.chain_outcome(before, None, after));
    let whole = Attempt { parser: Chain { parser: seq, marker: PhantomData } };
    assert(whole.parser.outcome(before, None, after));
    assert(whole.outcome(before, None, before));
}

/// A separated list that returns elements stops right after its last
/// element: a separator with no element after it is left unconsumed.
pub proof fn law_sep_by_ends_after_element<I: Stream, P: ParserOnce<I>, Q: ParserOnce<I>>(
    elem: P,
    sep: Q,
    before: I,
    outs: Seq<P::Output>,
    after: I,
)
    requires
        sep_by_outcome(elem, sep, before, Some(outs), after),
        outs.len() > 0,
    ensures
        exists|from: I| #[trigger] elem.outcome(from, Some(outs.last()), after),
{
    let unit = FollowedBy { first: sep, second: elem };
    let (x, marks, pairs, last, end) = choose|
        x: P::Output,
        marks: Seq<I>,
        pairs: Seq<(Q::Output, P::Output)>,
        last: Option<(Q::Output, P::Output)>,
        end: I,
    |
        {
            &&& #[trigger] elem.outcome(before, Some(x), marks[0])
            &&& advances(before, marks[0])
            &&& #[trigger] successes(unit, marks, pairs)
            &&& #[trigger] unit.outcome(marks.last(), last, end)
            &&& advances(marks.last(), end)
            &&& !(last is Some && end.offset() != marks.last().offset())
            &&& last is None ==> after == marks.last() && Some(outs) == Some(
                seq![x] + seconds(pairs),
            )
            &&& last is Some ==> after == end && Some(outs) is None
        };
    assert(outs == seq![x] + seconds(pairs));
    if pairs.len() == 0 {
        assert(outs.last() == x);
        assert(elem.outcome(before, Some(outs.last()), after));
    } else {
        let k = pairs.len() - 1;
        assert(unit.outcome(marks[k], Some(pairs[k]), marks[k + 1]));
        let (y, mid, s) = choose|y: Q::Output, mid: I, s: Option<P::Output>|
            {
                &&& #[trigger] unit.first.outcome(marks[k], Some(y), mid)
                &&& advances(marks[k], mid)
                &&& #[trigger] unit.second.outcome(mid, s, marks[k + 1])
                &&& Some(pairs[k]) == paired(y, s)
            };
        assert(s == Some(pairs[k].1));
        assert(outs.last() == pairs[k].1);
        assert(elem.outcome(mid, Some(outs.last()), after));
    }
}

} // verus!
