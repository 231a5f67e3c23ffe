use vstd::prelude::*;

use crate::parser::{Parser, ParserMut, ParserOnce};
use crate::stream::{advances, Stream};

verus! {

/// `outs.len()` successive runs of `p` that each succeed and consume input,
/// going through the cursors `marks`.
pub open spec fn successes<I: Stream, P: ParserOnce<I>>(
    p: P,
    marks: Seq<I>,
    outs: Seq<P::Output>,
) -> bool {
    &&& marks.len() == outs.len() + 1
    &&& forall|k: int|
        0 <= k < outs.len() ==> {
            &&& #[trigger] p.outcome(marks[k], Some(outs[k]), marks[k + 1])
            &&& advances(marks[k], marks[k + 1])
            &&& marks[k].offset() < marks[k + 1].offset()
        }
}

/// What a repetition returns once its inner parser stopped succeeding with
/// consumed input: the outputs gathered, when the last run failed without
/// consuming; nothing, when it failed after consuming (an abort) or when it
/// succeeded without consuming (which would repeat for ever).
pub open spec fn repetition_result<I: Stream, O>(
    outs: Seq<O>,
    last: Option<O>,
    at: I,
    after: I,
) -> Option<Seq<O>> {
    if last is None && after.offset() == at.offset() {
        Some(outs)
    } else {
        None
    }
}

/// The runs of zero-or-more repetition of `p`: successes that consume input,
/// then one last run that is not such a success.
pub open spec fn many_outcome<I: Stream, P: ParserOnce<I>>(
    p: P,
    before: I,
    r: Option<Seq<P::Output>>,
    after: I,
) -> bool {
    exists|marks: Seq<I>, outs: Seq<P::Output>, last: Option<P::Output>|
        {
            &&& #[trigger] successes(p, marks, outs)
            &&& marks[0] == before
            &&& #[trigger] p.outcome(marks.last(), last, after)
            &&& advances(marks.last(), after)
            &&& !(last is Some && after.offset() != marks.last().offset())
            &&& r == repetition_result(outs, last, marks.last(), after)
        }
}

/// One-or-more repetition: zero-or-more, where an empty result is a failure.
pub open spec fn at_least_one<O>(r: Option<Seq<O>>) -> Option<Seq<O>> {
    match r {
        Some(outs) if outs.len() > 0 => Some(outs),
        _ => None,
    }
}

/// The runs of one-or-more repetition of `p`.
pub open spec fn many1_outcome<I: Stream, P: ParserOnce<I>>(
    p: P,
    before: I,
    r: Option<Seq<P::Output>>,
    after: I,
) -> bool {
    exists|r0: Option<Seq<P::Output>>| #[trigger]
        many_outcome(p, before, r0, after) && r == at_least_one(r0)
}

/// The contents of an optional vector.
pub open spec fn seq_of<O>(r: Option<Vec<O>>) -> Option<Seq<O>> {
    match r {
        Some(v) => Some(v@),
        None => None,
    }
}

/// What the repetition loops return: the outputs (kept only when asked for)
/// and how many there were.
pub open spec fn counted<O>(r: Option<(Vec<O>, usize)>, s: Option<Seq<O>>, keep: bool) -> bool {
    match r {
        None => s is None,
        Some((v, n)) => s is Some && n == s->0.len() && (keep ==> v@ == s->0) && (!keep ==> v@.len()
            == 0),
    }
}

/// Runs `p` through a shared handle until it stops succeeding with consumed input.
fn repeat_shared<I: Stream, P: Parser<I>>(p: &P, input: &mut I, keep: bool) -> (r: Option<
    (Vec<P::Output>, usize),
>)
    requires
        p.ready(),
        old(input).wf(),
    ensures
        advances(*old(input), *final(input)),
        exists|s: Option<Seq<P::Output>>| #[trigger]
            many_outcome(*p, *old(input), s, *final(input)) && counted(r, s, keep),
{
    let ghost before = *input;
    let mut kept: Vec<P::Output> = Vec::new();
    let mut n: usize = 0;
    let ghost mut outs: Seq<P::Output> = Seq::empty();
    let ghost mut marks: Seq<I> = seq![*input];
    proof {
        input.lemma_wf();
    }
    loop
        invariant
            before == *old(input),
            p.ready(),
            input.wf(),
            advances(before, *input),
            successes(*p, marks, outs),
            marks[0] == before,
            marks.last() == *input,
            n == outs.len(),
            keep ==> kept@ == outs,
            !keep ==> kept@.len() == 0,
            n <= input.offset(),
            input.offset() <= input.source().len(),
        decreases input.source().len() - input.offset(),
    {
        let ghost at = *input;
        let start = input.position();
        let r = p.parse(input);
        proof {
            input.lemma_wf();
        }
        let moved = input.position() != start;
        match r {
            Some(x) => {
                if !moved {
                    assert(successes(*p, marks, outs) && marks[0] == before && p.outcome(
                        marks.last(),
                        r,
                        *input,
                    ));
                    assert(many_outcome(*p, before, None, *input));
                    return None;
                }
                if keep {
                    kept.push(x);
                }
                n = n + 1;
                proof {
                    let ghost old_marks = marks;
                    let ghost old_outs = outs;
                    marks = marks.push(*input);
                    outs = outs.push(x);
                    assert forall|k: int| 0 <= k < outs.len() implies {
                        &&& #[trigger] p.outcome(marks[k], Some(outs[k]), marks[k + 1])
                        &&& advances(marks[k], marks[k + 1])
                        &&& marks[k].offset() < marks[k + 1].offset()
                    } by {
                        if k < old_outs.len() {
                            assert(marks[k] == old_marks[k] && marks[k + 1] == old_marks[k + 1]
                                && outs[k] == old_outs[k]);
                        }
                    }
                }
            },
            None => {
                assert(successes(*p, marks, outs) && marks[0] == before && p.outcome(
                    marks.last(),
                    r,
                    *input,
                ));
                if moved {
                    assert(many_outcome(*p, before, None, *input));
                    return None;
                } else {
                    assert(many_outcome(*p, before, Some(outs), *input));
                    return Some((kept, n));
                }
            },
        }
    }
}

/// Runs `p` through an exclusive handle until it stops succeeding with consumed input.
fn repeat_mut<I: Stream, P: ParserMut<I>>(p: &mut P, input: &mut I, keep: bool) -> (r: Option<
    (Vec<P::Output>, usize),
>)
    requires
        old(p).ready(),
        old(input).wf(),
    ensures
        *final(p) == *old(p),
        advances(*old(input), *final(input)),
        exists|s: Option<Seq<P::Output>>| #[trigger]
            many_outcome(*old(p), *old(input), s, *final(input)) && counted(r, s, keep),
{
    let ghost before = *input;
    let mut kept: Vec<P::Output> = Vec::new();
    let mut n: usize = 0;
    let ghost mut outs: Seq<P::Output> = Seq::empty();
    let ghost mut marks: Seq<I> = seq![*input];
    proof {
        input.lemma_wf();
    }
    loop
        invariant
            before == *old(input),
            *p == *old(p),
            p.ready(),
            input.wf(),
            advances(before, *input),
            successes(*p, marks, outs),
            marks[0] == before,
            marks.last() == *input,
            n == outs.len(),
            keep ==> kept@ == outs,
            !keep ==> kept@.len() == 0,
            n <= input.offset(),
            input.offset() <= input.source().len(),
        decreases input.source().len() - input.offset(),
    {
        let ghost at = *input;
        let start = input.position();
        let r = p.parse_mut(input);
        proof {
            input.lemma_wf();
        }
        let moved = input.position() != start;
        match r {
            Some(x) => {
                if !moved {
                    assert(successes(*p, marks, outs) && marks[0] == before && p.outcome(
                        marks.last(),
                        r,
                        *input,
                    ));
                    assert(many_outcome(*p, before, None, *input));
                    return None;
                }
                if keep {
                    kept.push(x);
                }
                n = n + 1;
                proof {
                    let ghost old_marks = marks;
                    let ghost old_outs = outs;
                    marks = marks.push(*input);
                    outs = outs.push(x);
                    assert forall|k: int| 0 <= k < outs.len() implies {
                        &&& #[trigger] p.outcome(marks[k], Some(outs[k]), marks[k + 1])
                        &&& advances(marks[k], marks[k + 1])
                        &&& marks[k].offset() < marks[k + 1].offset()
                    } by {
                        if k < old_outs.len() {
                            assert(marks[k] == old_marks[k] && marks[k + 1] == old_marks[k + 1]
                                && outs[k] == old_outs[k]);
                        }
                    }
                }
            },
            None => {
                assert(successes(*p, marks, outs) && marks[0] == before && p.outcome(
                    marks.last(),
                    r,
                    *input,
                ));
                if moved {
                    assert(many_outcome(*p, before, None, *input));
                    return None;
                } else {
                    assert(many_outcome(*p, before, Some(outs), *input));
                    return Some((kept, n));
                }
            },
        }
    }
}

} // verus!

verus! {

/// `r` is what the reducer `f` may return for the outputs `s` of a repetition
/// (nothing, when the repetition failed).
pub open spec fn reduced<O, U, F: FnOnce(Vec<O>) -> Option<U>>(
    f: F,
    s: Option<Seq<O>>,
    r: Option<U>,
) -> bool {
    match s {
        None => r is None,
        Some(outs) => exists|v: Vec<O>| v@ == outs && #[trigger] call_ensures(f, (v,), r),
    }
}

/// Zero-or-more repetition of a reentrant parser, with its outputs handed to
/// a reducer.
#[derive(Clone, Copy)]
pub struct Many<P, F> {
    pub parser: P,
    pub f: F,
}

impl<P, F, I, U> ParserOnce<I> for Many<P, F> where
    P: Parser<I>,
    F: FnOnce(Vec<P::Output>) -> Option<U>,
    I: Stream,
 {
    type Output = U;

    open spec fn ready(&self) -> bool {
        &&& self.parser.ready()
        &&& forall|v: Vec<P::Output>| call_requires(self.f, (v,))
    }

    open spec fn outcome(&self, before: I, r: Option<U>, after: I) -> bool {
        exists|s: Option<Seq<P::Output>>| #[trigger]
            many_outcome(self.parser, before, s, after) && reduced(self.f, s, r)
    }

    fn parse_once(self, input: &mut I) -> (r: Option<U>) {
        let ghost before = *input;
        let Many { parser, f } = self;
        let run = repeat_shared(&parser, input, true);
        let ghost s = choose|s: Option<Seq<P::Output>>| #[trigger]
            many_outcome(parser, before, s, *input) && counted(run, s, true);
        match run {
            None => None,
            Some((v, _)) => {
                let r = f(v);
                assert(many_outcome(parser, before, s, *input) && reduced(f, s, r));
                r
            },
        }
    }
}

impl<P, F, I, U> ParserMut<I> for Many<P, F> where
    P: Parser<I>,
    F: FnMut(Vec<P::Output>) -> Option<U>,
    I: Stream,
 {
    fn parse_mut(&mut self, input: &mut I) -> (r: Option<U>) {
        let ghost before = *input;
        let run = repeat_shared(&self.parser, input, true);
        let ghost s = choose|s: Option<Seq<P::Output>>| #[trigger]
            many_outcome(self.parser, before, s, *input) && counted(run, s, true);
        match run {
            None => None,
            Some((v, _)) => {
                let r = (self.f)(v);
                assert(many_outcome(self.parser, before, s, *input) && reduced(self.f, s, r));
                r
            },
        }
    }
}

impl<P, F, I, U> Parser<I> for Many<P, F> where
    P: Parser<I>,
    F: Fn(Vec<P::Output>) -> Option<U>,
    I: Stream,
 {
    fn parse(&self, input: &mut I) -> (r: Option<U>) {
        let ghost before = *input;
        let run = repeat_shared(&self.parser, input, true);
        let ghost s = choose|s: Option<Seq<P::Output>>| #[trigger]
            many_outcome(self.parser, before, s, *input) && counted(run, s, true);
        match run {
            None => None,
            Some((v, _)) => {
                let r = (self.f)(v);
                assert(many_outcome(self.parser, before, s, *input) && reduced(self.f, s, r));
                r
            },
        }
    }
}

/// Zero-or-more repetition of `parser`, reduced by `f`.
pub fn many<P, F>(parser: P, f: F) -> (r: Many<P, F>)
    ensures
        r.parser == parser,
        r.f == f,
{
    Many { parser, f }
}

/// Zero-or-more repetition of a parser that may keep state, with its outputs
/// handed to a reducer.
#[derive(Clone, Copy)]
pub struct ManyMut<P, F> {
    pub parser: P,
    pub f: F,
}

impl<P, F, I, U> ParserOnce<I> for ManyMut<P, F> where
    P: ParserMut<I>,
    F: FnOnce(Vec<P::Output>) -> Option<U>,
    I: Stream,
 {
    type Output = U;

    open spec fn ready(&self) -> bool {
        &&& self.parser.ready()
        &&& forall|v: Vec<P::Output>| call_requires(self.f, (v,))
    }

    open spec fn outcome(&self, before: I, r: Option<U>, after: I) -> bool {
        exists|s: Option<Seq<P::Output>>| #[trigger]
            many_outcome(self.parser, before, s, after) && reduced(self.f, s, r)
    }

    fn parse_once(self, input: &mut I) -> (r: Option<U>) {
        let ghost before = *input;
        let ManyMut { parser, f } = self;
        let mut parser = parser;
        let ghost p0 = parser;
        let run = repeat_mut(&mut parser, input, true);
        let ghost s = choose|s: Option<Seq<P::Output>>| #[trigger]
            many_outcome(p0, before, s, *input) && counted(run, s, true);
        match run {
            None => None,
            Some((v, _)) => {
                let r = f(v);
                assert(many_outcome(p0, before, s, *input) && reduced(f, s, r));
                r
            },
        }
    }
}

impl<P, F, I, U> ParserMut<I> for ManyMut<P, F> where
    P: ParserMut<I>,
    F: FnMut(Vec<P::Output>) -> Option<U>,
    I: Stream,
 {
    fn parse_mut(&mut self, input: &mut I) -> (r: Option<U>) {
        let ghost before = *input;
        let run = repeat_mut(&mut self.parser, input, true);
        let ghost s = choose|s: Option<Seq<P::Output>>| #[trigger]
            many_outcome(self.parser, before, s, *input) && counted(run, s, true);
        match run {
            None => None,
            Some((v, _)) => {
                let r = (self.f)(v);
                assert(many_outcome(self.parser, before, s, *input) && reduced(self.f, s, r));
                r
            },
        }
    }
}

/// Zero-or-more repetition of a parser that may keep state, reduced by `f`.
pub fn many_mut<P, F>(parser: P, f: F) -> (r: ManyMut<P, F>)
    ensures
        r.parser == parser,
        r.f == f,
{
    ManyMut { parser, f }
}

} // verus!

verus! {

/// Zero-or-more repetition that discards the outputs.
#[derive(Clone, Copy)]
pub struct SkipMany<P> {
    pub parser: P,
}

impl<P, I> ParserOnce<I> for SkipMany<P> where P: ParserMut<I>, I: Stream {
    type Output = ();

    open spec fn ready(&self) -> bool {
        self.parser.ready()
    }

    open spec fn outcome(&self, before: I, r: Option<()>, after: I) -> bool {
        exists|s: Option<Seq<P::Output>>| #[trigger]
            many_outcome(self.parser, before, s, after) && (r is Some <==> s is Some)
    }

    fn parse_once(self, input: &mut I) -> (r: Option<()>) {
        let mut this = self;
        this.parse_mut(input)
    }
}

impl<P, I> ParserMut<I> for SkipMany<P> where P: ParserMut<I>, I: Stream {
    fn parse_mut(&mut self, input: &mut I) -> (r: Option<()>) {
        match repeat_mut(&mut self.parser, input, false) {
            Some(_) => Some(()),
            None => None,
        }
    }
}

impl<P, I> Parser<I> for SkipMany<P> where P: Parser<I>, I: Stream {
    fn parse(&self, input: &mut I) -> (r: Option<()>) {
        match repeat_shared(&self.parser, input, false) {
            Some(_) => Some(()),
            None => None,
        }
    }
}

/// Zero-or-more repetition of `parser`, outputs discarded.
pub fn skip_many<P>(parser: P) -> (r: SkipMany<P>)
    ensures
        r.parser == parser,
{
    SkipMany { parser }
}

/// Zero-or-more repetition that collects the outputs in order.
#[derive(Clone, Copy)]
pub struct CollectMany<P> {
    pub parser: P,
}

impl<P, I> ParserOnce<I> for CollectMany<P> where P: ParserMut<I>, I: Stream {
    type Output = Vec<P::Output>;

    open spec fn ready(&self) -> bool {
        self.parser.ready()
    }

    open spec fn outcome(&self, before: I, r: Option<Vec<P::Output>>, after: I) -> bool {
        many_outcome(self.parser, before, seq_of(r), after)
    }

    fn parse_once(self, input: &mut I) -> (r: Option<Vec<P::Output>>) {
        let mut this = self;
        this.parse_mut(input)
    }
}

impl<P, I> ParserMut<I> for CollectMany<P> where P: ParserMut<I>, I: Stream {
    fn parse_mut(&mut self, input: &mut I) -> (r: Option<Vec<P::Output>>) {
        match repeat_mut(&mut self.parser, input, true) {
            Some((v, _)) => Some(v),
            None => None,
        }
    }
}

impl<P, I> Parser<I> for CollectMany<P> where P: Parser<I>, I: Stream {
    fn parse(&self, input: &mut I) -> (r: Option<Vec<P::Output>>) {
        match repeat_shared(&self.parser, input, true) {
            Some((v, _)) => Some(v),
            None => None,
        }
    }
}

/// Zero-or-more repetition of `parser`, outputs collected.
pub fn collect_many<P>(parser: P) -> (r: CollectMany<P>)
    ensures
        r.parser == parser,
{
    CollectMany { parser }
}

/// One-or-more repetition, with its outputs handed to a reducer.
#[derive(Clone, Copy)]
pub struct Many1<P, F> {
    pub parser: P,
    pub f: F,
}

impl<P, F, I, U> ParserOnce<I> for Many1<P, F> where
    P: ParserMut<I>,
    F: FnMut(Vec<P::Output>) -> Option<U>,
    I: Stream,
 {
    type Output = U;

    open spec fn ready(&self) -> bool {
        &&& self.parser.ready()
        &&& forall|v: Vec<P::Output>| call_requires(self.f, (v,))
    }

    open spec fn outcome(&self, before: I, r: Option<U>, after: I) -> bool {
        exists|s: Option<Seq<P::Output>>| #[trigger]
            many1_outcome(self.parser, before, s, after) && reduced(self.f, s, r)
    }

    fn parse_once(self, input: &mut I) -> (r: Option<U>) {
        let mut this = self;
        this.parse_mut(input)
    }
}

impl<P, F, I, U> ParserMut<I> for Many1<P, F> where
    P: ParserMut<I>,
    F: FnMut(Vec<P::Output>) -> Option<U>,
    I: Stream,
 {
    fn parse_mut(&mut self, input: &mut I) -> (r: Option<U>) {
        let ghost before = *input;
        let run = repeat_mut(&mut self.parser, input, true);
        let ghost s = choose|s: Option<Seq<P::Output>>| #[trigger]
            many_outcome(self.parser, before, s, *input) && counted(run, s, true);
        assert(many1_outcome(self.parser, before, at_least_one(s), *input));
        match run {
            Some((v, n)) => {
                if n == 0 {
                    assert(reduced(self.f, at_least_one(s), None));
                    return None;
                }
                let r = (self.f)(v);
                assert(reduced(self.f, at_least_one(s), r));
                r
            },
            None => None,
        }
    }
}

impl<P, F, I, U> Parser<I> for Many1<P, F> where
    P: Parser<I>,
    F: Fn(Vec<P::Output>) -> Option<U>,
    I: Stream,
 {
    fn parse(&self, input: &mut I) -> (r: Option<U>) {
        let ghost before = *input;
        let run = repeat_shared(&self.parser, input, true);
        let ghost s = choose|s: Option<Seq<P::Output>>| #[trigger]
            many_outcome(self.parser, before, s, *input) && counted(run, s, true);
        assert(many1_outcome(self.parser, before, at_least_one(s), *input));
        match run {
            Some((v, n)) => {
                if n == 0 {
                    assert(reduced(self.f, at_least_one(s), None));
                    return None;
                }
                let r = (self.f)(v);
                assert(reduced(self.f, at_least_one(s), r));
                r
            },
            None => None,
        }
    }
}

/// One-or-more repetition of `parser`, reduced by `f`.
pub fn many1<P, F>(parser: P, f: F) -> (r: Many1<P, F>)
    ensures
        r.parser == parser,
        r.f == f,
{
    Many1 { parser, f }
}

/// One-or-more repetition of a parser that may keep state, with its outputs
/// handed to a reducer that may be run once.
#[derive(Clone, Copy)]
pub struct Many1Mut<P, F> {
    pub parser: P,
    pub f: F,
}

impl<P, F, I, U> ParserOnce<I> for Many1Mut<P, F> where
    P: ParserMut<I>,
    F: FnOnce(Vec<P::Output>) -> Option<U>,
    I: Stream,
 {
    type Output = U;

    open spec fn ready(&self) -> bool {
        &&& self.parser.ready()
        &&& forall|v: Vec<P::Output>| call_requires(self.f, (v,))
    }

    open spec fn outcome(&self, before: I, r: Option<U>, after: I) -> bool {
        exists|s: Option<Seq<P::Output>>| #[trigger]
            many1_outcome(self.parser, before, s, after) && reduced(self.f, s, r)
    }

    fn parse_once(self, input: &mut I) -> (r: Option<U>) {
        let ghost before = *input;
        let Many1Mut { parser, f } = self;
        let mut parser = parser;
        let ghost p0 = parser;
        let run = repeat_mut(&mut parser, input, true);
        let ghost s = choose|s: Option<Seq<P::Output>>| #[trigger]
            many_outcome(p0, before, s, *input) && counted(run, s, true);
        assert(many1_outcome(p0, before, at_least_one(s), *input));
        match run {
            Some((v, n)) => {
                if n == 0 {
                    assert(reduced(f, at_least_one(s), None));
                    return None;
                }
                let r = f(v);
                assert(reduced(f, at_least_one(s), r));
                r
            },
            None => None,
        }
    }
}

impl<P, F, I, U> ParserMut<I> for Many1Mut<P, F> where
    P: ParserMut<I>,
    F: FnMut(Vec<P::Output>) -> Option<U>,
    I: Stream,
 {
    fn parse_mut(&mut self, input: &mut I) -> (r: Option<U>) {
        let ghost before = *input;
        let run = repeat_mut(&mut self.parser, input, true);
        let ghost s = choose|s: Option<Seq<P::Output>>| #[trigger]
            many_outcome(self.parser, before, s, *input) && counted(run, s, true);
        assert(many1_outcome(self.parser, before, at_least_one(s), *input));
        match run {
            Some((v, n)) => {
                if n == 0 {
                    assert(reduced(self.f, at_least_one(s), None));
                    return None;
                }
                let r = (self.f)(v);
                assert(reduced(self.f, at_least_one(s), r));
                r
            },
            None => None,
        }
    }
}

/// One-or-more repetition of a parser that may keep state, reduced by `f`.
pub fn many1_mut<P, F>(parser: P, f: F) -> (r: Many1Mut<P, F>)
    ensures
        r.parser == parser,
        r.f == f,
{
    Many1Mut { parser, f }
}

/// One-or-more repetition that discards the outputs.
#[derive(Clone, Copy)]
pub struct SkipMany1<P> {
    pub parser: P,
}

impl<P, I> ParserOnce<I> for SkipMany1<P> where P: ParserMut<I>, I: Stream {
    type Output = ();

    open spec fn ready(&self) -> bool {
        self.parser.ready()
    }

    open spec fn outcome(&self, before: I, r: Option<()>, after: I) -> bool {
        exists|s: Option<Seq<P::Output>>| #[trigger]
            many1_outcome(self.parser, before, s, after) && (r is Some <==> s is Some)
    }

    fn parse_once(self, input: &mut I) -> (r: Option<()>) {
        let mut this = self;
        this.parse_mut(input)
    }
}

impl<P, I> ParserMut<I> for SkipMany1<P> where P: ParserMut<I>, I: Stream {
    fn parse_mut(&mut self, input: &mut I) -> (r: Option<()>) {
        let ghost before = *input;
        let run = repeat_mut(&mut self.parser, input, false);
        let ghost s = choose|s: Option<Seq<P::Output>>| #[trigger]
            many_outcome(self.parser, before, s, *input) && counted(run, s, false);
        assert(many1_outcome(self.parser, before, at_least_one(s), *input));
        match run {
            Some((_, n)) => if n == 0 {
                None
            } else {
                Some(())
            },
            None => None,
        }
    }
}

impl<P, I> Parser<I> for SkipMany1<P> where P: Parser<I>, I: Stream {
    fn parse(&self, input: &mut I) -> (r: Option<()>) {
        let ghost before = *input;
        let run = repeat_shared(&self.parser, input, false);
        let ghost s = choose|s: Option<Seq<P::Output>>| #[trigger]
            many_outcome(self.parser, before, s, *input) && counted(run, s, false);
        assert(many1_outcome(self.parser, before, at_least_one(s), *input));
        match run {
            Some((_, n)) => if n == 0 {
                None
            } else {
                Some(())
            },
            None => None,
        }
    }
}

/// One-or-more repetition of `parser`, outputs discarded.
pub fn skip_many1<P>(parser: P) -> (r: SkipMany1<P>)
    ensures
        r.parser == parser,
{
    SkipMany1 { parser }
}

/// One-or-more repetition that collects the outputs in order.
#[derive(Clone, Copy)]
pub struct CollectMany1<P> {
    pub parser: P,
}

impl<P, I> ParserOnce<I> for CollectMany1<P> where P: ParserMut<I>, I: Stream {
    type Output = Vec<P::Output>;

    open spec fn ready(&self) -> bool {
        self.parser.ready()
    }

    open spec fn outcome(&self, before: I, r: Option<Vec<P::Output>>, after: I) -> bool {
        many1_outcome(self.parser, before, seq_of(r), after)
    }

    fn parse_once(self, input: &mut I) -> (r: Option<Vec<P::Output>>) {
        let mut this = self;
        this.parse_mut(input)
    }
}

impl<P, I> ParserMut<I> for CollectMany1<P> where P: ParserMut<I>, I: Stream {
    fn parse_mut(&mut self, input: &mut I) -> (r: Option<Vec<P::Output>>) {
        let ghost before = *input;
        let run = repeat_mut(&mut self.parser, input, true);
        let ghost s = choose|s: Option<Seq<P::Output>>| #[trigger]
            many_outcome(self.parser, before, s, *input) && counted(run, s, true);
        assert(many1_outcome(self.parser, before, at_least_one(s), *input));
        match run {
            Some((v, n)) => if n == 0 {
                None
            } else {
                Some(v)
            },
            None => None,
        }
    }
}

impl<P, I> Parser<I> for CollectMany1<P> where P: Parser<I>, I: Stream {
    fn parse(&self, input: &mut I) -> (r: Option<Vec<P::Output>>) {
        let ghost before = *input;
        let run = repeat_shared(&self.parser, input, true);
        let ghost s = choose|s: Option<Seq<P::Output>>| #[trigger]
            many_outcome(self.parser, before, s, *input) && counted(run, s, true);
        assert(many1_outcome(self.parser, before, at_least_one(s), *input));
        match run {
            Some((v, n)) => if n == 0 {
                None
            } else {
                Some(v)
            },
            None => None,
        }
    }
}

/// One-or-more repetition of `parser`, outputs collected.
pub fn collect_many1<P>(parser: P) -> (r: CollectMany1<P>)
    ensures
        r.parser == parser,
{
    CollectMany1 { parser }
}

/// A parser and a cursor of its own, run one step at a time.
pub struct ManyIter<P, I> {
    pub parser: P,
    pub input: I,
}

impl<P: ParserMut<I>, I: Stream> ManyIter<P, I> {
    /// Runs the parser once more from where the last run stopped.
    pub fn next(&mut self) -> (r: Option<P::Output>)
        requires
            old(self).parser.ready(),
            old(self).input.wf(),
        ensures
            final(self).parser == old(self).parser,
            advances(old(self).input, final(self).input),
            old(self).parser.outcome(old(self).input, r, final(self).input),
    {
        self.parser.parse_mut(&mut self.input)
    }
}

/// Steps through the runs of `parser` from `input`.
pub fn iter<P: ParserMut<I>, I: Stream>(parser: P, input: I) -> (r: ManyIter<P, I>)
    ensures
        r.parser == parser,
        r.input == input,
{
    ManyIter { parser, input }
}

} // verus!
