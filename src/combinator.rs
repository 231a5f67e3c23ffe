use vstd::prelude::*;

use crate::parser::{Parser, ParserMut, ParserOnce};
use crate::stream::{advances, Stream};

verus! {

/// Applies a function to the output of a parser.
#[derive(Clone, Copy)]
pub struct Mapped<P, F> {
    pub parser: P,
    pub f: F,
}

impl<P, F, I, O> ParserOnce<I> for Mapped<P, F> where
    P: ParserOnce<I>,
    F: FnOnce(P::Output) -> O,
    I: Stream,
 {
    type Output = O;

    open spec fn ready(&self) -> bool {
        &&& self.parser.ready()
        &&& forall|x: P::Output| call_requires(self.f, (x,))
    }

    open spec fn outcome(&self, before: I, r: Option<O>, after: I) -> bool {
        match r {
            None => self.parser.outcome(before, None, after),
            Some(y) => exists|x: P::Output|
                #[trigger] self.parser.outcome(before, Some(x), after) && call_ensures(
                    self.f,
                    (x,),
                    y,
                ),
        }
    }

    fn parse_once(self, input: &mut I) -> (r: Option<O>) {
        let ghost before = *input;
        let Mapped { parser, f } = self;
        match parser.parse_once(input) {
            Some(x) => {
                let y = f(x);
                assert(parser.outcome(before, Some(x), *input));
                Some(y)
            },
            None => None,
        }
    }
}

impl<P, F, I, O> ParserMut<I> for Mapped<P, F> where
    P: ParserMut<I>,
    F: FnMut(P::Output) -> O,
    I: Stream,
 {
    fn parse_mut(&mut self, input: &mut I) -> (r: Option<O>) {
        let ghost before = *input;
        match self.parser.parse_mut(input) {
            Some(x) => {
                let y = (self.f)(x);
                assert(self.parser.outcome(before, Some(x), *input));
                Some(y)
            },
            None => None,
        }
    }
}

impl<P, F, I, O> Parser<I> for Mapped<P, F> where P: Parser<I>, F: Fn(P::Output) -> O, I: Stream {
    fn parse(&self, input: &mut I) -> (r: Option<O>) {
        let ghost before = *input;
        match self.parser.parse(input) {
            Some(x) => {
                let y = (self.f)(x);
                assert(self.parser.outcome(before, Some(x), *input));
                Some(y)
            },
            None => None,
        }
    }
}

/// Wraps a parser and a function of its output.
pub fn map<P, F>(parser: P, f: F) -> (r: Mapped<P, F>)
    ensures
        r.parser == parser,
        r.f == f,
{
    Mapped { parser, f }
}

/// Applies a function that may reject the output of a parser.
#[derive(Clone, Copy)]
pub struct AndThen<P, F> {
    pub parser: P,
    pub f: F,
}

impl<P, F, I, O> ParserOnce<I> for AndThen<P, F> where
    P: ParserOnce<I>,
    F: FnOnce(P::Output) -> Option<O>,
    I: Stream,
 {
    type Output = O;

    open spec fn ready(&self) -> bool {
        &&& self.parser.ready()
        &&& forall|x: P::Output| call_requires(self.f, (x,))
    }

    open spec fn outcome(&self, before: I, r: Option<O>, after: I) -> bool {
        ||| r is None && self.parser.outcome(before, None, after)
        ||| exists|x: P::Output|
            #[trigger] self.parser.outcome(before, Some(x), after) && call_ensures(
                self.f,
                (x,),
                r,
            )
    }

    fn parse_once(self, input: &mut I) -> (r: Option<O>) {
        let ghost before = *input;
        let AndThen { parser, f } = self;
        match parser.parse_once(input) {
            Some(x) => {
                let y = f(x);
                assert(parser.outcome(before, Some(x), *input));
                y
            },
            None => None,
        }
    }
}

impl<P, F, I, O> ParserMut<I> for AndThen<P, F> where
    P: ParserMut<I>,
    F: FnMut(P::Output) -> Option<O>,
    I: Stream,
 {
    fn parse_mut(&mut self, input: &mut I) -> (r: Option<O>) {
        let ghost before = *input;
        match self.parser.parse_mut(input) {
            Some(x) => {
                let y = (self.f)(x);
                assert(self.parser.outcome(before, Some(x), *input));
                y
            },
            None => None,
        }
    }
}

impl<P, F, I, O> Parser<I> for AndThen<P, F> where
    P: Parser<I>,
    F: Fn(P::Output) -> Option<O>,
    I: Stream,
 {
    fn parse(&self, input: &mut I) -> (r: Option<O>) {
        let ghost before = *input;
        match self.parser.parse(input) {
            Some(x) => {
                let y = (self.f)(x);
                assert(self.parser.outcome(before, Some(x), *input));
                y
            },
            None => None,
        }
    }
}

/// Wraps a parser and a function that may reject its output.
pub fn and_then<P, F>(parser: P, f: F) -> (r: AndThen<P, F>)
    ensures
        r.parser == parser,
        r.f == f,
{
    AndThen { parser, f }
}

/// Runs a parser, builds a second parser from its output, and runs that one
/// from where the first stopped.
#[derive(Clone, Copy)]
pub struct FlatMap<P, F> {
    pub parser: P,
    pub f: F,
}

impl<P, Q, F, I> ParserOnce<I> for FlatMap<P, F> where
    P: ParserOnce<I>,
    Q: ParserOnce<I>,
    F: FnOnce(P::Output) -> Q,
    I: Stream,
 {
    type Output = Q::Output;

    open spec fn ready(&self) -> bool {
        &&& self.parser.ready()
        &&& forall|x: P::Output| call_requires(self.f, (x,))
        &&& forall|x: P::Output, q: Q| call_ensures(self.f, (x,), q) ==> q.ready()
    }

    open spec fn outcome(&self, before: I, r: Option<Q::Output>, after: I) -> bool {
        ||| r is None && self.parser.outcome(before, None, after)
        ||| exists|x: P::Output, mid: I, q: Q|
            {
                &&& #[trigger] self.parser.outcome(before, Some(x), mid)
                &&& #[trigger] call_ensures(self.f, (x,), q)
                &&& advances(before, mid)
                &&& q.outcome(mid, r, after)
            }
    }

    fn parse_once(self, input: &mut I) -> (r: Option<Q::Output>) {
        let ghost before = *input;
        let FlatMap { parser, f } = self;
        match parser.parse_once(input) {
            Some(x) => {
                let ghost mid = *input;
                let q = f(x);
                let r = q.parse_once(input);
                assert(parser.outcome(before, Some(x), mid) && call_ensures(f, (x,), q));
                r
            },
            None => None,
        }
    }
}

impl<P, Q, F, I> ParserMut<I> for FlatMap<P, F> where
    P: ParserMut<I>,
    Q: ParserOnce<I>,
    F: FnMut(P::Output) -> Q,
    I: Stream,
 {
    fn parse_mut(&mut self, input: &mut I) -> (r: Option<Q::Output>) {
        let ghost before = *input;
        match self.parser.parse_mut(input) {
            Some(x) => {
                let ghost mid = *input;
                let q = (self.f)(x);
                let r = q.parse_once(input);
                assert(self.parser.outcome(before, Some(x), mid) && call_ensures(self.f, (x,), q));
                r
            },
            None => None,
        }
    }
}

impl<P, Q, F, I> Parser<I> for FlatMap<P, F> where
    P: Parser<I>,
    Q: ParserOnce<I>,
    F: Fn(P::Output) -> Q,
    I: Stream,
 {
    fn parse(&self, input: &mut I) -> (r: Option<Q::Output>) {
        let ghost before = *input;
        match self.parser.parse(input) {
            Some(x) => {
                let ghost mid = *input;
                let q = (self.f)(x);
                let r = q.parse_once(input);
                assert(self.parser.outcome(before, Some(x), mid) && call_ensures(self.f, (x,), q));
                r
            },
            None => None,
        }
    }
}

/// Wraps a parser and a builder of the parser that follows it.
pub fn flat_map<P, F>(parser: P, f: F) -> (r: FlatMap<P, F>)
    ensures
        r.parser == parser,
        r.f == f,
{
    FlatMap { parser, f }
}

/// Pairs the output of a parser with the output of a second parser.
pub open spec fn paired<A, B>(x: A, s: Option<B>) -> Option<(A, B)> {
    match s {
        Some(y) => Some((x, y)),
        None => None,
    }
}

/// Runs two parsers one after the other and returns both outputs.
///
/// Not atomic: when the second fails, the cursor stays where it left it.
#[derive(Clone, Copy)]
pub struct FollowedBy<P, Q> {
    pub first: P,
    pub second: Q,
}

impl<P, Q, I> ParserOnce<I> for FollowedBy<P, Q> where
    P: ParserOnce<I>,
    Q: ParserOnce<I>,
    I: Stream,
 {
    type Output = (P::Output, Q::Output);

    open spec fn ready(&self) -> bool {
        self.first.ready() && self.second.ready()
    }

    open spec fn outcome(&self, before: I, r: Option<(P::Output, Q::Output)>, after: I) -> bool {
        ||| r is None && self.first.outcome(before, None, after)
        ||| exists|x: P::Output, mid: I, s: Option<Q::Output>|
            {
                &&& #[trigger] self.first.outcome(before, Some(x), mid)
                &&& advances(before, mid)
                &&& #[trigger] self.second.outcome(mid, s, after)
                &&& r == paired(x, s)
            }
    }

    fn parse_once(self, input: &mut I) -> (r: Option<(P::Output, Q::Output)>) {
        let ghost before = *input;
        let FollowedBy { first, second } = self;
        match first.parse_once(input) {
            Some(x) => {
                let ghost mid = *input;
                let s = second.parse_once(input);
                assert(first.outcome(before, Some(x), mid) && second.outcome(mid, s, *input));
                match s {
                    Some(y) => Some((x, y)),
                    None => None,
                }
            },
            None => None,
        }
    }
}

impl<P, Q, I> ParserMut<I> for FollowedBy<P, Q> where
    P: ParserMut<I>,
    Q: ParserMut<I>,
    I: Stream,
 {
    fn parse_mut(&mut self, input: &mut I) -> (r: Option<(P::Output, Q::Output)>) {
        let ghost before = *input;
        match self.first.parse_mut(input) {
            Some(x) => {
                let ghost mid = *input;
                let s = self.second.parse_mut(input);
                assert(self.first.outcome(before, Some(x), mid) && self.second.outcome(
                    mid,
                    s,
                    *input,
                ));
                match s {
                    Some(y) => Some((x, y)),
                    None => None,
                }
            },
            None => None,
        }
    }
}

impl<P, Q, I> Parser<I> for FollowedBy<P, Q> where P: Parser<I>, Q: Parser<I>, I: Stream {
    fn parse(&self, input: &mut I) -> (r: Option<(P::Output, Q::Output)>) {
        let ghost before = *input;
        match self.first.parse(input) {
            Some(x) => {
                let ghost mid = *input;
                let s = self.second.parse(input);
                assert(self.first.outcome(before, Some(x), mid) && self.second.outcome(
                    mid,
                    s,
                    *input,
                ));
                match s {
                    Some(y) => Some((x, y)),
                    None => None,
                }
            },
            None => None,
        }
    }
}

/// Sequences two parsers.
pub fn followed_by<P, Q>(first: P, second: Q) -> (r: FollowedBy<P, Q>)
    ensures
        r.first == first,
        r.second == second,
{
    FollowedBy { first, second }
}

} // verus!

verus! {

/// Tries a first parser, and a second one only when the first failed without
/// consuming input.
#[derive(Clone, Copy)]
pub struct Or<P, Q> {
    pub first: P,
    pub second: Q,
}

impl<P, Q, I> ParserOnce<I> for Or<P, Q> where
    P: ParserOnce<I>,
    Q: ParserOnce<I, Output = P::Output>,
    I: Stream,
 {
    type Output = P::Output;

    open spec fn ready(&self) -> bool {
        self.first.ready() && self.second.ready()
    }

    open spec fn outcome(&self, before: I, r: Option<P::Output>, after: I) -> bool {
        ||| r is Some && self.first.outcome(before, r, after)
        ||| r is None && self.first.outcome(before, None, after) && after.offset()
            != before.offset()
        ||| exists|mid: I|
            {
                &&& #[trigger] self.first.outcome(before, None, mid)
                &&& mid.offset() == before.offset()
                &&& advances(before, mid)
                &&& #[trigger] self.second.outcome(mid, r, after)
            }
    }

    fn parse_once(self, input: &mut I) -> (r: Option<P::Output>) {
        let ghost before = *input;
        let Or { first, second } = self;
        let (r, consumed) = first.parse_once_and_check_consumed(input);
        if r.is_none() && !consumed {
            let ghost mid = *input;
            let s = second.parse_once(input);
            assert(first.outcome(before, None, mid) && second.outcome(mid, s, *input));
            s
        } else {
            r
        }
    }
}

impl<P, Q, I> ParserMut<I> for Or<P, Q> where
    P: ParserMut<I>,
    Q: ParserMut<I, Output = P::Output>,
    I: Stream,
 {
    fn parse_mut(&mut self, input: &mut I) -> (r: Option<P::Output>) {
        let ghost before = *input;
        let (r, consumed) = self.first.parse_mut_and_check_consumed(input);
        if r.is_none() && !consumed {
            let ghost mid = *input;
            let s = self.second.parse_mut(input);
            assert(self.first.outcome(before, None, mid) && self.second.outcome(mid, s, *input));
            s
        } else {
            r
        }
    }
}

impl<P, Q, I> Parser<I> for Or<P, Q> where
    P: Parser<I>,
    Q: Parser<I, Output = P::Output>,
    I: Stream,
 {
    fn parse(&self, input: &mut I) -> (r: Option<P::Output>) {
        let ghost before = *input;
        let (r, consumed) = self.first.parse_and_check_consumed(input);
        if r.is_none() && !consumed {
            let ghost mid = *input;
            let s = self.second.parse(input);
            assert(self.first.outcome(before, None, mid) && self.second.outcome(mid, s, *input));
            s
        } else {
            r
        }
    }
}

/// Ordered alternation of two parsers.
pub fn or<P, Q>(first: P, second: Q) -> (r: Or<P, Q>)
    ensures
        r.first == first,
        r.second == second,
{
    Or { first, second }
}

/// Runs a parser and puts the cursor back where it was when the parser fails.
#[derive(Clone, Copy)]
pub struct Attempt<P> {
    pub parser: P,
}

impl<P, I> ParserOnce<I> for Attempt<P> where P: ParserOnce<I>, I: Stream {
    type Output = P::Output;

    open spec fn ready(&self) -> bool {
        self.parser.ready()
    }

    open spec fn outcome(&self, before: I, r: Option<P::Output>, after: I) -> bool {
        ||| r is Some && self.parser.outcome(before, r, after)
        ||| r is None && after == before && exists|mid: I|
            #[trigger] self.parser.outcome(before, None, mid)
    }

    fn parse_once(self, input: &mut I) -> (r: Option<P::Output>) {
        let copy = *input;
        let r = self.parser.parse_once(input);
        if r.is_none() {
            assert(self.parser.outcome(copy, None, *input));
            *input = copy;
        }
        r
    }
}

impl<P, I> ParserMut<I> for Attempt<P> where P: ParserMut<I>, I: Stream {
    fn parse_mut(&mut self, input: &mut I) -> (r: Option<P::Output>) {
        let copy = *input;
        let r = self.parser.parse_mut(input);
        if r.is_none() {
            assert(self.parser.outcome(copy, None, *input));
            *input = copy;
        }
        r
    }
}

impl<P, I> Parser<I> for Attempt<P> where P: Parser<I>, I: Stream {
    fn parse(&self, input: &mut I) -> (r: Option<P::Output>) {
        let copy = *input;
        let r = self.parser.parse(input);
        if r.is_none() {
            assert(self.parser.outcome(copy, None, *input));
            *input = copy;
        }
        r
    }
}

/// Makes a parser roll back on failure.
pub fn attempt<P>(parser: P) -> (r: Attempt<P>)
    ensures
        r.parser == parser,
{
    Attempt { parser }
}

/// Runs a parser; a failure without consumed input becomes an absent value.
#[derive(Clone, Copy)]
pub struct Optional<P> {
    pub parser: P,
}

impl<P, I> ParserOnce<I> for Optional<P> where P: ParserOnce<I>, I: Stream {
    type Output = Option<P::Output>;

    open spec fn ready(&self) -> bool {
        self.parser.ready()
    }

    open spec fn outcome(&self, before: I, r: Option<Option<P::Output>>, after: I) -> bool {
        match r {
            Some(Some(x)) => self.parser.outcome(before, Some(x), after),
            Some(None) => self.parser.outcome(before, None, after) && after.offset()
                == before.offset(),
            None => self.parser.outcome(before, None, after) && after.offset() != before.offset(),
        }
    }

    fn parse_once(self, input: &mut I) -> (r: Option<Option<P::Output>>) {
        let (output, consumed) = self.parser.parse_once_and_check_consumed(input);
        if output.is_some() {
            Some(output)
        } else if consumed {
            None
        } else {
            Some(None)
        }
    }
}

impl<P, I> ParserMut<I> for Optional<P> where P: ParserMut<I>, I: Stream {
    fn parse_mut(&mut self, input: &mut I) -> (r: Option<Option<P::Output>>) {
        let (output, consumed) = self.parser.parse_mut_and_check_consumed(input);
        if output.is_some() {
            Some(output)
        } else if consumed {
            None
        } else {
            Some(None)
        }
    }
}

impl<P, I> Parser<I> for Optional<P> where P: Parser<I>, I: Stream {
    fn parse(&self, input: &mut I) -> (r: Option<Option<P::Output>>) {
        let (output, consumed) = self.parser.parse_and_check_consumed(input);
        if output.is_some() {
            Some(output)
        } else if consumed {
            None
        } else {
            Some(None)
        }
    }
}

/// Makes a parser optional.
pub fn optional<P>(parser: P) -> (r: Optional<P>)
    ensures
        r.parser == parser,
{
    Optional { parser }
}

/// Runs a parser and returns the span of input it consumed.
#[derive(Clone, Copy)]
pub struct Recognize<P> {
    pub parser: P,
}

impl<P, I> ParserOnce<I> for Recognize<P> where P: ParserOnce<I>, I: Stream {
    type Output = I::Range;

    open spec fn ready(&self) -> bool {
        self.parser.ready()
    }

    open spec fn outcome(&self, before: I, r: Option<I::Range>, after: I) -> bool {
        match r {
            None => self.parser.outcome(before, None, after),
            Some(span) => {
                &&& exists|x: P::Output| #[trigger] self.parser.outcome(before, Some(x), after)
                &&& span@ == before.source().subrange(before.offset() as int, after.offset() as int)
            },
        }
    }

    fn parse_once(self, input: &mut I) -> (r: Option<I::Range>) {
        let ghost before = *input;
        let start = input.position();
        match self.parser.parse_once(input) {
            Some(x) => {
                assert(self.parser.outcome(before, Some(x), *input));
                proof {
                    input.lemma_wf();
                }
                let end = input.position();
                Some(input.between(start, end))
            },
            None => None,
        }
    }
}

impl<P, I> ParserMut<I> for Recognize<P> where P: ParserMut<I>, I: Stream {
    fn parse_mut(&mut self, input: &mut I) -> (r: Option<I::Range>) {
        let ghost before = *input;
        let start = input.position();
        match self.parser.parse_mut(input) {
            Some(x) => {
                assert(self.parser.outcome(before, Some(x), *input));
                proof {
                    input.lemma_wf();
                }
                let end = input.position();
                Some(input.between(start, end))
            },
            None => None,
        }
    }
}

impl<P, I> Parser<I> for Recognize<P> where P: Parser<I>, I: Stream {
    fn parse(&self, input: &mut I) -> (r: Option<I::Range>) {
        let ghost before = *input;
        let start = input.position();
        match self.parser.parse(input) {
            Some(x) => {
                assert(self.parser.outcome(before, Some(x), *input));
                proof {
                    input.lemma_wf();
                }
                let end = input.position();
                Some(input.between(start, end))
            },
            None => None,
        }
    }
}

/// Turns a parser into one that returns the span it consumed.
pub fn recognize<P>(parser: P) -> (r: Recognize<P>)
    ensures
        r.parser == parser,
{
    Recognize { parser }
}

/// Runs three parsers in order and keeps the output of the middle one.
///
/// Not atomic, as sequencing is not.
#[derive(Clone, Copy)]
pub struct Between<P, L, R> {
    pub parser: P,
    pub left: L,
    pub right: R,
}

/// The runs of `left`, then `inner`, then `right`, keeping the middle output.
pub open spec fn between_outcome<I, L, P, R>(
    left: L,
    inner: P,
    right: R,
    before: I,
    r: Option<P::Output>,
    after: I,
) -> bool where I: Stream, L: ParserOnce<I>, P: ParserOnce<I>, R: ParserOnce<I> {
    ||| r is None && left.outcome(before, None, after)
    ||| r is None && exists|x: L::Output, m: I|
        {
            &&& #[trigger] left.outcome(before, Some(x), m)
            &&& advances(before, m)
            &&& inner.outcome(m, None, after)
        }
    ||| exists|x: L::Output, m: I, y: P::Output, n: I, s: Option<R::Output>|
        {
            &&& #[trigger] left.outcome(before, Some(x), m)
            &&& advances(before, m)
            &&& #[trigger] inner.outcome(m, Some(y), n)
            &&& advances(m, n)
            &&& #[trigger] right.outcome(n, s, after)
            &&& r == (if s is Some {
                Some(y)
            } else {
                None
            })
        }
}

impl<P, L, R, I> ParserOnce<I> for Between<P, L, R> where
    P: ParserOnce<I>,
    L: ParserOnce<I>,
    R: ParserOnce<I>,
    I: Stream,
 {
    type Output = P::Output;

    open spec fn ready(&self) -> bool {
        self.parser.ready() && self.left.ready() && self.right.ready()
    }

    open spec fn outcome(&self, before: I, r: Option<P::Output>, after: I) -> bool {
        between_outcome(self.left, self.parser, self.right, before, r, after)
    }

    fn parse_once(self, input: &mut I) -> (r: Option<P::Output>) {
        let ghost before = *input;
        let Between { parser, left, right } = self;
        let x = match left.parse_once(input) {
            Some(x) => x,
            None => return None,
        };
        let ghost m = *input;
        let y = match parser.parse_once(input) {
            Some(y) => y,
            None => {
                assert(left.outcome(before, Some(x), m));
                return None;
            },
        };
        let ghost n = *input;
        let s = right.parse_once(input);
        assert(left.outcome(before, Some(x), m) && parser.outcome(m, Some(y), n) && right.outcome(
            n,
            s,
            *input,
        ));
        match s {
            Some(_) => Some(y),
            None => None,
        }
    }
}

impl<P, L, R, I> ParserMut<I> for Between<P, L, R> where
    P: ParserMut<I>,
    L: ParserMut<I>,
    R: ParserMut<I>,
    I: Stream,
 {
    fn parse_mut(&mut self, input: &mut I) -> (r: Option<P::Output>) {
        let ghost before = *input;
        let x = match self.left.parse_mut(input) {
            Some(x) => x,
            None => return None,
        };
        let ghost m = *input;
        let y = match self.parser.parse_mut(input) {
            Some(y) => y,
            None => {
                assert(self.left.outcome(before, Some(x), m));
                return None;
            },
        };
        let ghost n = *input;
        let s = self.right.parse_mut(input);
        assert(self.left.outcome(before, Some(x), m) && self.parser.outcome(m, Some(y), n)
            && self.right.outcome(n, s, *input));
        match s {
            Some(_) => Some(y),
            None => None,
        }
    }
}

impl<P, L, R, I> Parser<I> for Between<P, L, R> where
    P: Parser<I>,
    L: Parser<I>,
    R: Parser<I>,
    I: Stream,
 {
    fn parse(&self, input: &mut I) -> (r: Option<P::Output>) {
        let ghost before = *input;
        let x = match self.left.parse(input) {
            Some(x) => x,
            None => return None,
        };
        let ghost m = *input;
        let y = match self.parser.parse(input) {
            Some(y) => y,
            None => {
                assert(self.left.outcome(before, Some(x), m));
                return None;
            },
        };
        let ghost n = *input;
        let s = self.right.parse(input);
        assert(self.left.outcome(before, Some(x), m) && self.parser.outcome(m, Some(y), n)
            && self.right.outcome(n, s, *input));
        match s {
            Some(_) => Some(y),
            None => None,
        }
    }
}

/// Encloses a parser between two delimiters.
pub fn between<P, L, R>(parser: P, left: L, right: R) -> (r: Between<P, L, R>)
    ensures
        r.parser == parser,
        r.left == left,
        r.right == right,
{
    Between { parser, left, right }
}

} // verus!
