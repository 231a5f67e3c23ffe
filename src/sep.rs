use vstd::prelude::*;

use crate::combinator::FollowedBy;
use crate::parser::{Parser, ParserMut, ParserOnce};
use crate::repeat::{reduced, seq_of, successes};
use crate::stream::{advances, Stream};

verus! {

/// The elements of separator-element pairs.
pub open spec fn seconds<A, B>(pairs: Seq<(A, B)>) -> Seq<B> {
    pairs.map_values(|pair: (A, B)| pair.1)
}

/// The runs of a list of `elem` separated by `sep`.
///
/// The first element is read unconditionally: when it fails without consuming
/// the list is empty, when it fails after consuming the list fails. Each
/// further element is read together with the separator before it, as one
/// unit that puts the cursor back when either half fails; the list ends there.
/// A unit that succeeds without consuming input fails the list, as it would
/// repeat for ever.
pub open spec fn sep_by_outcome<I: Stream, P: ParserOnce<I>, Q: ParserOnce<I>>(
    elem: P,
    sep: Q,
    before: I,
    r: Option<Seq<P::Output>>,
    after: I,
) -> bool {
    let unit = FollowedBy { first: sep, second: elem };
    ||| r == Some(Seq::<P::Output>::empty()) && elem.outcome(before, None, after)
        && after.offset() == before.offset()
    ||| r is None && elem.outcome(before, None, after) && after.offset() != before.offset()
    ||| exists|
        x: P::Output,
        marks: Seq<I>,
        pairs: Seq<(Q::Output, P::Output)>,
        last: Option<(Q::Output, P::Output)>,
        end: I,
    |
        {
            &&& #[trigger] elem.outcome(before, Some(x), marks[0])
            &&& advances(before, marks[0])
            &&& #[trigger] successes(unit, marks, pairs)
            &&& #[trigger] unit.outcome(marks.last(), last, end)
            &&& advances(marks.last(), end)
            &&& !(last is Some && end.offset() != marks.last().offset())
            &&& last is None ==> after == marks.last() && r == Some(seq![x] + seconds(pairs))
            &&& last is Some ==> after == end && r is None
        }
}

/// What the list loops return: the elements, kept only when asked for.
pub open spec fn listed<O>(r: Option<Vec<O>>, s: Option<Seq<O>>, keep: bool) -> bool {
    match r {
        None => s is None,
        Some(v) => s is Some && (keep ==> v@ == s->0) && (!keep ==> v@.len() == 0),
    }
}

/// Reads a separated list through shared handles.
fn list_shared<I: Stream, P: Parser<I>, Q: Parser<I>>(
    elem: &P,
    sep: &Q,
    input: &mut I,
    keep: bool,
) -> (r: Option<Vec<P::Output>>)
    requires
        elem.ready(),
        sep.ready(),
        old(input).wf(),
    ensures
        advances(*old(input), *final(input)),
        exists|s: Option<Seq<P::Output>>| #[trigger]
            sep_by_outcome(*elem, *sep, *old(input), s, *final(input)) && listed(r, s, keep),
{
    let ghost before = *input;
    let ghost unit = FollowedBy { first: *sep, second: *elem };
    let start = input.position();
    let x = match elem.parse(input) {
        Some(x) => x,
        None => {
            if input.position() == start {
                assert(sep_by_outcome(*elem, *sep, before, Some(Seq::empty()), *input));
                return Some(Vec::new());
            } else {
                assert(sep_by_outcome(*elem, *sep, before, None, *input));
                return None;
            }
        },
    };
    let ghost m0 = *input;
    let mut kept: Vec<P::Output> = Vec::new();
    if keep {
        kept.push(x);
    }
    let ghost mut marks: Seq<I> = seq![m0];
    let ghost mut pairs: Seq<(Q::Output, P::Output)> = Seq::empty();
    proof {
        input.lemma_wf();
    }
    loop
        invariant
            before == *old(input),
            unit == (FollowedBy { first: *sep, second: *elem }),
            elem.ready(),
            sep.ready(),
            input.wf(),
            elem.outcome(before, Some(x), m0),
            advances(before, m0),
            advances(m0, *input),
            successes(unit, marks, pairs),
            marks[0] == m0,
            marks.last() == *input,
            keep ==> kept@ == seq![x] + seconds(pairs),
            !keep ==> kept@.len() == 0,
            input.offset() <= input.source().len(),
        decreases input.source().len() - input.offset(),
    {
        let copy = *input;
        let start = input.position();
        let s = match sep.parse(input) {
            Some(s) => s,
            None => {
                assert(unit.outcome(copy, None, *input));
                *input = copy;
                assert(sep_by_outcome(*elem, *sep, before, Some(seq![x] + seconds(pairs)), *input));
                return Some(kept);
            },
        };
        let ghost mid = *input;
        let y = match elem.parse(input) {
            Some(y) => y,
            None => {
                assert(sep.outcome(copy, Some(s), mid) && elem.outcome(mid, None, *input));
                assert(unit.first.outcome(copy, Some(s), mid));
                assert(advances(copy, mid));
                assert(unit.second.outcome(mid, None, *input));
                assert(None::<(Q::Output, P::Output)> == crate::combinator::paired(s, None::<P::Output>));
                assert(unit.outcome(copy, None, *input));
                *input = copy;
                assert(sep_by_outcome(*elem, *sep, before, Some(seq![x] + seconds(pairs)), *input));
                return Some(kept);
            },
        };
        assert(sep.outcome(copy, Some(s), mid) && elem.outcome(mid, Some(y), *input));
        assert(unit.first.outcome(copy, Some(s), mid));
        assert(advances(copy, mid));
        assert(unit.second.outcome(mid, Some(y), *input));
        assert(Some((s, y)) == crate::combinator::paired(s, Some(y)));
        assert(unit.outcome(copy, Some((s, y)), *input));
        proof {
            input.lemma_wf();
        }
        if input.position() == start {
            assert(sep_by_outcome(*elem, *sep, before, None, *input));
            return None;
        }
        if keep {
            kept.push(y);
        }
        proof {
            let ghost old_marks = marks;
            let ghost old_pairs = pairs;
            marks = marks.push(*input);
            pairs = pairs.push((s, y));
            assert forall|k: int| 0 <= k < pairs.len() implies {
                &&& #[trigger] unit.outcome(marks[k], Some(pairs[k]), marks[k + 1])
                &&& advances(marks[k], marks[k + 1])
                &&& marks[k].offset() < marks[k + 1].offset()
            } by {
                if k < old_pairs.len() {
                    assert(marks[k] == old_marks[k] && marks[k + 1] == old_marks[k + 1]
                        && pairs[k] == old_pairs[k]);
                }
            }
            assert(seconds(pairs) =~= seconds(old_pairs).push(y));
            assert(seq![x] + seconds(pairs) =~= (seq![x] + seconds(old_pairs)).push(y));
        }
    }
}

/// Reads a separated list through exclusive handles.
fn list_mut<I: Stream, P: ParserMut<I>, Q: ParserMut<I>>(
    elem: &mut P,
    sep: &mut Q,
    input: &mut I,
    keep: bool,
) -> (r: Option<Vec<P::Output>>)
    requires
        old(elem).ready(),
        old(sep).ready(),
        old(input).wf(),
    ensures
        *final(elem) == *old(elem),
        *final(sep) == *old(sep),
        advances(*old(input), *final(input)),
        exists|s: Option<Seq<P::Output>>| #[trigger]
            sep_by_outcome(*old(elem), *old(sep), *old(input), s, *final(input)) && listed(
                r,
                s,
                keep,
            ),
{
    let ghost before = *input;
    let ghost unit = FollowedBy { first: *sep, second: *elem };
    let start = input.position();
    let x = match elem.parse_mut(input) {
        Some(x) => x,
        None => {
            if input.position() == start {
                assert(sep_by_outcome(*elem, *sep, before, Some(Seq::empty()), *input));
                return Some(Vec::new());
            } else {
                assert(sep_by_outcome(*elem, *sep, before, None, *input));
                return None;
            }
        },
    };
    let ghost m0 = *input;
    let mut kept: Vec<P::Output> = Vec::new();
    if keep {
        kept.push(x);
    }
    let ghost mut marks: Seq<I> = seq![m0];
    let ghost mut pairs: Seq<(Q::Output, P::Output)> = Seq::empty();
    proof {
        input.lemma_wf();
    }
    loop
        invariant
            before == *old(input),
            *elem == *old(elem),
            *sep == *old(sep),
            unit == (FollowedBy { first: *sep, second: *elem }),
            elem.ready(),
            sep.ready(),
            input.wf(),
            elem.outcome(before, Some(x), m0),
            advances(before, m0),
            advances(m0, *input),
            successes(unit, marks, pairs),
            marks[0] == m0,
            marks.last() == *input,
            keep ==> kept@ == seq![x] + seconds(pairs),
            !keep ==> kept@.len() == 0,
            input.offset() <= input.source().len(),
        decreases input.source().len() - input.offset(),
    {
        let copy = *input;
        let start = input.position();
        let s = match sep.parse_mut(input) {
            Some(s) => s,
            None => {
                assert(unit.outcome(copy, None, *input));
                *input = copy;
                assert(sep_by_outcome(*elem, *sep, before, Some(seq![x] + seconds(pairs)), *input));
                return Some(kept);
            },
        };
        let ghost mid = *input;
        let y = match elem.parse_mut(input) {
            Some(y) => y,
            None => {
                assert(sep.outcome(copy, Some(s), mid) && elem.outcome(mid, None, *input));
                assert(unit.first.outcome(copy, Some(s), mid));
                assert(advances(copy, mid));
                assert(unit.second.outcome(mid, None, *input));
                assert(None::<(Q::Output, P::Output)> == crate::combinator::paired(s, None::<P::Output>));
                assert(unit.outcome(copy, None, *input));
                *input = copy;
                assert(sep_by_outcome(*elem, *sep, before, Some(seq![x] + seconds(pairs)), *input));
                return Some(kept);
            },
        };
        assert(sep.outcome(copy, Some(s), mid) && elem.outcome(mid, Some(y), *input));
        assert(unit.first.outcome(copy, Some(s), mid));
        assert(advances(copy, mid));
        assert(unit.second.outcome(mid, Some(y), *input));
        assert(Some((s, y)) == crate::combinator::paired(s, Some(y)));
        assert(unit.outcome(copy, Some((s, y)), *input));
        proof {
            input.lemma_wf();
        }
        if input.position() == start {
            assert(sep_by_outcome(*elem, *sep, before, None, *input));
            return None;
        }
        if keep {
            kept.push(y);
        }
        proof {
            let ghost old_marks = marks;
            let ghost old_pairs = pairs;
            marks = marks.push(*input);
            pairs = pairs.push((s, y));
            assert forall|k: int| 0 <= k < pairs.len() implies {
                &&& #[trigger] unit.outcome(marks[k], Some(pairs[k]), marks[k + 1])
                &&& advances(marks[k], marks[k + 1])
                &&& marks[k].offset() < marks[k + 1].offset()
            } by {
                if k < old_pairs.len() {
                    assert(marks[k] == old_marks[k] && marks[k + 1] == old_marks[k + 1]
                        && pairs[k] == old_pairs[k]);
                }
            }
            assert(seconds(pairs) =~= seconds(old_pairs).push(y));
            assert(seq![x] + seconds(pairs) =~= (seq![x] + seconds(old_pairs)).push(y));
        }
    }
}

} // verus!

verus! {

/// A list of elements separated by separators, with the elements handed to a
/// reducer.
#[derive(Clone, Copy)]
pub struct SepBy<P, Q, F> {
    pub parser: P,
    pub separator: Q,
    pub f: F,
}

impl<P, Q, F, I, U> ParserOnce<I> for SepBy<P, Q, F> where
    P: Parser<I>,
    Q: Parser<I>,
    F: FnOnce(Vec<P::Output>) -> Option<U>,
    I: Stream,
 {
    type Output = U;

    open spec fn ready(&self) -> bool {
        &&& self.parser.ready()
        &&& self.separator.ready()
        &&& forall|v: Vec<P::Output>| call_requires(self.f, (v,))
    }

    open spec fn outcome(&self, before: I, r: Option<U>, after: I) -> bool {
        exists|s: Option<Seq<P::Output>>| #[trigger]
            sep_by_outcome(self.parser, self.separator, before, s, after) && reduced(self.f, s, r)
    }

    fn parse_once(self, input: &mut I) -> (r: Option<U>) {
        let ghost before = *input;
        let SepBy { parser, separator, f } = self;
        let run = list_shared(&parser, &separator, input, true);
        let ghost s = choose|s: Option<Seq<P::Output>>| #[trigger]
            sep_by_outcome(parser, separator, before, s, *input) && listed(run, s, true);
        match run {
            None => None,
            Some(v) => {
                let r = f(v);
                assert(sep_by_outcome(parser, separator, before, s, *input) && reduced(f, s, r));
                r
            },
        }
    }
}

impl<P, Q, F, I, U> ParserMut<I> for SepBy<P, Q, F> where
    P: Parser<I>,
    Q: Parser<I>,
    F: FnMut(Vec<P::Output>) -> Option<U>,
    I: Stream,
 {
    fn parse_mut(&mut self, input: &mut I) -> (r: Option<U>) {
        let ghost before = *input;
        let run = list_shared(&self.parser, &self.separator, input, true);
        let ghost s = choose|s: Option<Seq<P::Output>>| #[trigger]
            sep_by_outcome(self.parser, self.separator, before, s, *input) && listed(run, s, true);
        match run {
            None => None,
            Some(v) => {
                let r = (self.f)(v);
                assert(sep_by_outcome(self.parser, self.separator, before, s, *input) && reduced(
                    self.f,
                    s,
                    r,
                ));
                r
            },
        }
    }
}

impl<P, Q, F, I, U> Parser<I> for SepBy<P, Q, F> where
    P: Parser<I>,
    Q: Parser<I>,
    F: Fn(Vec<P::Output>) -> Option<U>,
    I: Stream,
 {
    fn parse(&self, input: &mut I) -> (r: Option<U>) {
        let ghost before = *input;
        let run = list_shared(&self.parser, &self.separator, input, true);
        let ghost s = choose|s: Option<Seq<P::Output>>| #[trigger]
            sep_by_outcome(self.parser, self.separator, before, s, *input) && listed(run, s, true);
        match run {
            None => None,
            Some(v) => {
                let r = (self.f)(v);
                assert(sep_by_outcome(self.parser, self.separator, before, s, *input) && reduced(
                    self.f,
                    s,
                    r,
                ));
                r
            },
        }
    }
}

/// A list of `parser` separated by `separator`, reduced by `f`.
pub fn sep_by<P, Q, F>(parser: P, separator: Q, f: F) -> (r: SepBy<P, Q, F>)
    ensures
        r.parser == parser,
        r.separator == separator,
        r.f == f,
{
    SepBy { parser, separator, f }
}

/// A separated list of parsers that may keep state, reduced by `f`.
#[derive(Clone, Copy)]
pub struct SepByMut<P, Q, F> {
    pub parser: P,
    pub separator: Q,
    pub f: F,
}

impl<P, Q, F, I, U> ParserOnce<I> for SepByMut<P, Q, F> where
    P: ParserMut<I>,
    Q: ParserMut<I>,
    F: FnOnce(Vec<P::Output>) -> Option<U>,
    I: Stream,
 {
    type Output = U;

    open spec fn ready(&self) -> bool {
        &&& self.parser.ready()
        &&& self.separator.ready()
        &&& forall|v: Vec<P::Output>| call_requires(self.f, (v,))
    }

    open spec fn outcome(&self, before: I, r: Option<U>, after: I) -> bool {
        exists|s: Option<Seq<P::Output>>| #[trigger]
            sep_by_outcome(self.parser, self.separator, before, s, after) && reduced(self.f, s, r)
    }

    fn parse_once(self, input: &mut I) -> (r: Option<U>) {
        let ghost before = *input;
        let SepByMut { parser, separator, f } = self;
        let mut parser = parser;
        let mut separator = separator;
        let ghost p0 = parser;
        let ghost q0 = separator;
        let run = list_mut(&mut parser, &mut separator, input, true);
        let ghost s = choose|s: Option<Seq<P::Output>>| #[trigger]
            sep_by_outcome(p0, q0, before, s, *input) && listed(run, s, true);
        match run {
            None => None,
            Some(v) => {
                let r = f(v);
                assert(sep_by_outcome(p0, q0, before, s, *input) && reduced(f, s, r));
                r
            },
        }
    }
}

impl<P, Q, F, I, U> ParserMut<I> for SepByMut<P, Q, F> where
    P: ParserMut<I>,
    Q: ParserMut<I>,
    F: FnMut(Vec<P::Output>) -> Option<U>,
    I: Stream,
 {
    fn parse_mut(&mut self, input: &mut I) -> (r: Option<U>) {
        let ghost before = *input;
        let run = list_mut(&mut self.parser, &mut self.separator, input, true);
        let ghost s = choose|s: Option<Seq<P::Output>>| #[trigger]
            sep_by_outcome(self.parser, self.separator, before, s, *input) && listed(run, s, true);
        match run {
            None => None,
            Some(v) => {
                let r = (self.f)(v);
                assert(sep_by_outcome(self.parser, self.separator, before, s, *input) && reduced(
                    self.f,
                    s,
                    r,
                ));
                r
            },
        }
    }
}

/// A separated list of parsers that may keep state, reduced by `f`.
pub fn sep_by_mut<P, Q, F>(parser: P, separator: Q, f: F) -> (r: SepByMut<P, Q, F>)
    ensures
        r.parser == parser,
        r.separator == separator,
        r.f == f,
{
    SepByMut { parser, separator, f }
}

/// A separated list whose elements are discarded.
#[derive(Clone, Copy)]
pub struct SkipSepBy<P, Q> {
    pub parser: P,
    pub separator: Q,
}

impl<P, Q, I> ParserOnce<I> for SkipSepBy<P, Q> where
    P: ParserMut<I>,
    Q: ParserMut<I>,
    I: Stream,
 {
    type Output = ();

    open spec fn ready(&self) -> bool {
        self.parser.ready() && self.separator.ready()
    }

    open spec fn outcome(&self, before: I, r: Option<()>, after: I) -> bool {
        exists|s: Option<Seq<P::Output>>| #[trigger]
            sep_by_outcome(self.parser, self.separator, before, s, after) && (r is Some <==> s is Some)
    }

    fn parse_once(self, input: &mut I) -> (r: Option<()>) {
        let mut this = self;
        this.parse_mut(input)
    }
}

impl<P, Q, I> ParserMut<I> for SkipSepBy<P, Q> where P: ParserMut<I>, Q: ParserMut<I>, I: Stream {
    fn parse_mut(&mut self, input: &mut I) -> (r: Option<()>) {
        match list_mut(&mut self.parser, &mut self.separator, input, false) {
            Some(_) => Some(()),
            None => None,
        }
    }
}

impl<P, Q, I> Parser<I> for SkipSepBy<P, Q> where P: Parser<I>, Q: Parser<I>, I: Stream {
    fn parse(&self, input: &mut I) -> (r: Option<()>) {
        match list_shared(&self.parser, &self.separator, input, false) {
            Some(_) => Some(()),
            None => None,
        }
    }
}

/// A list of `parser` separated by `separator`, elements discarded.
pub fn skip_sep_by<P, Q>(parser: P, separator: Q) -> (r: SkipSepBy<P, Q>)
    ensures
        r.parser == parser,
        r.separator == separator,
{
    SkipSepBy { parser, separator }
}

/// A separated list whose elements are collected in order.
#[derive(Clone, Copy)]
pub struct CollectSepBy<P, Q> {
    pub parser: P,
    pub separator: Q,
}

impl<P, Q, I> ParserOnce<I> for CollectSepBy<P, Q> where
    P: ParserMut<I>,
    Q: ParserMut<I>,
    I: Stream,
 {
    type Output = Vec<P::Output>;

    open spec fn ready(&self) -> bool {
        self.parser.ready() && self.separator.ready()
    }

    open spec fn outcome(&self, before: I, r: Option<Vec<P::Output>>, after: I) -> bool {
        sep_by_outcome(self.parser, self.separator, before, seq_of(r), after)
    }

    fn parse_once(self, input: &mut I) -> (r: Option<Vec<P::Output>>) {
        let mut this = self;
        this.parse_mut(input)
    }
}

impl<P, Q, I> ParserMut<I> for CollectSepBy<P, Q> where
    P: ParserMut<I>,
    Q: ParserMut<I>,
    I: Stream,
 {
    fn parse_mut(&mut self, input: &mut I) -> (r: Option<Vec<P::Output>>) {
        list_mut(&mut self.parser, &mut self.separator, input, true)
    }
}

impl<P, Q, I> Parser<I> for CollectSepBy<P, Q> where P: Parser<I>, Q: Parser<I>, I: Stream {
    fn parse(&self, input: &mut I) -> (r: Option<Vec<P::Output>>) {
        list_shared(&self.parser, &self.separator, input, true)
    }
}

/// A list of `parser` separated by `separator`, elements collected.
pub fn collect_sep_by<P, Q>(parser: P, separator: Q) -> (r: CollectSepBy<P, Q>)
    ensures
        r.parser == parser,
        r.separator == separator,
{
    CollectSepBy { parser, separator }
}

/// A separated list read one element at a time, with a cursor of its own.
pub struct SepByIter<P, Q, I> {
    pub parser: P,
    pub separator: Q,
    pub start: bool,
    pub input: I,
}

impl<P: ParserMut<I>, Q: ParserMut<I>, I: Stream> SepByIter<P, Q, I> {
    /// Reads the next element: the first one alone, each later one after a
    /// separator, rolling back the pair when either half fails.
    pub fn next(&mut self) -> (r: Option<P::Output>)
        requires
            old(self).parser.ready(),
            old(self).separator.ready(),
            old(self).input.wf(),
        ensures
            final(self).parser == old(self).parser,
            final(self).separator == old(self).separator,
            !final(self).start,
            advances(old(self).input, final(self).input),
            old(self).start ==> old(self).parser.outcome(old(self).input, r, final(self).input),
            !old(self).start ==> match r {
                Some(y) => exists|s: Q::Output| #[trigger]
                    (FollowedBy { first: old(self).separator, second: old(self).parser }).outcome(
                        old(self).input,
                        Some((s, y)),
                        final(self).input,
                    ),
                None => final(self).input == old(self).input && exists|end: I| #[trigger]
                    (FollowedBy { first: old(self).separator, second: old(self).parser }).outcome(
                        old(self).input,
                        None,
                        end,
                    ),
            },
    {
        if self.start {
            self.start = false;
            return self.parser.parse_mut(&mut self.input);
        }
        let ghost unit = FollowedBy { first: self.separator, second: self.parser };
        let copy = self.input;
        let s = match self.separator.parse_mut(&mut self.input) {
            Some(s) => s,
            None => {
                assert(unit.outcome(copy, None, self.input));
                self.input = copy;
                return None;
            },
        };
        let ghost mid = self.input;
        let y = match self.parser.parse_mut(&mut self.input) {
            Some(y) => y,
            None => {
                assert(unit.first.outcome(copy, Some(s), mid));
                assert(unit.second.outcome(mid, None, self.input));
                assert(None::<(Q::Output, P::Output)> == crate::combinator::paired(
                    s,
                    None::<P::Output>,
                ));
                assert(unit.outcome(copy, None, self.input));
                self.input = copy;
                return None;
            },
        };
        assert(unit.first.outcome(copy, Some(s), mid));
        assert(unit.second.outcome(mid, Some(y), self.input));
        assert(Some((s, y)) == crate::combinator::paired(s, Some(y)));
        assert(unit.outcome(copy, Some((s, y)), self.input));
        Some(y)
    }
}

/// Steps through a list of `parser` separated by `separator`, from `input`.
pub fn iter<P: ParserMut<I>, Q: ParserMut<I>, I: Stream>(parser: P, separator: Q, input: I) -> (r:
    SepByIter<P, Q, I>)
    ensures
        r.parser == parser,
        r.separator == separator,
        r.start,
        r.input == input,
{
    SepByIter { parser, separator, start: true, input }
}

} // verus!
