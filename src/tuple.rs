use core::marker::PhantomData;
use vstd::prelude::*;

use crate::combinator::{FollowedBy, Or};
use crate::parser::{Parser, ParserMut, ParserOnce};
use crate::stream::{advances, Stream};

verus! {

/// A tuple of parsers run in sequence, usable once.
///
/// A tuple `(p0, p1, ..., pn)` runs as `p0` followed by the run of
/// `(p1, ..., pn)`, and returns the flat tuple of the outputs. Not atomic:
/// when a parser fails, the cursor stays where it left it.
pub trait ChainParserOnce<I: Stream>: Sized {
    type Output;

    spec fn chain_ready(&self) -> bool;

    spec fn chain_outcome(&self, before: I, r: Option<Self::Output>, after: I) -> bool;

    fn parse_chain_once(self, input: &mut I) -> (r: Option<Self::Output>)
        requires
            self.chain_ready(),
            old(input).wf(),
        ensures
            advances(*old(input), *final(input)),
            self.chain_outcome(*old(input), r, *final(input)),
    ;
}

/// A tuple of parsers run in sequence through an exclusive handle.
pub trait ChainParserMut<I: Stream>: ChainParserOnce<I> {
    fn parse_chain_mut(&mut self, input: &mut I) -> (r: Option<Self::Output>)
        requires
            old(self).chain_ready(),
            old(input).wf(),
        ensures
            *final(self) == *old(self),
            advances(*old(input), *final(input)),
            old(self).chain_outcome(*old(input), r, *final(input)),
    ;
}

/// A tuple of parsers run in sequence through a shared handle.
pub trait ChainParser<I: Stream>: ChainParserMut<I> {
    fn parse_chain(&self, input: &mut I) -> (r: Option<Self::Output>)
        requires
            self.chain_ready(),
            old(input).wf(),
        ensures
            advances(*old(input), *final(input)),
            self.chain_outcome(*old(input), r, *final(input)),
    ;
}

/// Sequencing of a tuple of parsers.
pub struct Chain<P, O> {
    pub parser: P,
    pub marker: PhantomData<O>,
}

impl<P: Copy, O> Clone for Chain<P, O> {
    fn clone(&self) -> (r: Self)
        ensures
            r == *self,
    {
        Chain { parser: self.parser, marker: PhantomData }
    }
}

impl<P: Copy, O> Copy for Chain<P, O> {

}

impl<P, I, O> ParserOnce<I> for Chain<P, O> where P: ChainParserOnce<I, Output = O>, I: Stream {
    type Output = O;

    open spec fn ready(&self) -> bool {
        self.parser.chain_ready()
    }

    open spec fn outcome(&self, before: I, r: Option<O>, after: I) -> bool {
        self.parser.chain_outcome(before, r, after)
    }

    fn parse_once(self, input: &mut I) -> (r: Option<O>) {
        self.parser.parse_chain_once(input)
    }
}

impl<P, I, O> ParserMut<I> for Chain<P, O> where P: ChainParserMut<I, Output = O>, I: Stream {
    fn parse_mut(&mut self, input: &mut I) -> (r: Option<O>) {
        self.parser.parse_chain_mut(input)
    }
}

impl<P, I, O> Parser<I> for Chain<P, O> where P: ChainParser<I, Output = O>, I: Stream {
    fn parse(&self, input: &mut I) -> (r: Option<O>) {
        self.parser.parse_chain(input)
    }
}

/// Runs the parsers of a tuple in sequence.
pub fn chain<P, I, O>(parser: P) -> (r: Chain<P, O>) where P: ChainParserOnce<I, Output = O>, I: Stream
    ensures
        r.parser == parser,
{
    Chain { parser, marker: PhantomData }
}

/// The flat tuple of a right-nested tuple of 3 outputs.
pub open spec fn flat3<A0, A1, A2>(s: Option<(A0, (A1, A2))>) -> Option<(A0, A1, A2)> {
    match s {
        Some((a0, (a1, a2))) => Some((a0, a1, a2)),
        None => None,
    }
}

/// The flat tuple of a right-nested tuple of 4 outputs.
pub open spec fn flat4<A0, A1, A2, A3>(s: Option<(A0, (A1, (A2, A3)))>) -> Option<(A0, A1, A2, A3)> {
    match s {
        Some((a0, (a1, (a2, a3)))) => Some((a0, a1, a2, a3)),
        None => None,
    }
}

/// The flat tuple of a right-nested tuple of 5 outputs.
pub open spec fn flat5<A0, A1, A2, A3, A4>(s: Option<(A0, (A1, (A2, (A3, A4))))>) -> Option<(A0, A1, A2, A3, A4)> {
    match s {
        Some((a0, (a1, (a2, (a3, a4))))) => Some((a0, a1, a2, a3, a4)),
        None => None,
    }
}

impl<A, B, I> ChainParserOnce<I> for (A, B) where
    A: ParserOnce<I>,
    B: ParserOnce<I>,
    I: Stream,
 {
    type Output = (A::Output, B::Output);

    open spec fn chain_ready(&self) -> bool {
        self.0.ready() && self.1.ready()
    }

    open spec fn chain_outcome(&self, before: I, r: Option<(A::Output, B::Output)>, after: I) -> bool {
        (FollowedBy { first: self.0, second: self.1 }).outcome(before, r, after)
    }

    fn parse_chain_once(self, input: &mut I) -> (r: Option<(A::Output, B::Output)>) {
        let this = self;
        let ghost m0 = *input;
        let ghost n0 = FollowedBy { first: this.0, second: this.1 };
        let x0 = match this.0.parse_once(input) {
            Some(x) => x,
            None => {
                assert(n0.outcome(m0, None, *input));
                return None;
            },
        };
        let ghost m1 = *input;
        let last = this.1.parse_once(input);
        let ghost inner = crate::combinator::paired(x0, last);
        assert(n0.first.outcome(m0, Some(x0), m1) && n0.second.outcome(m1, last, *input));
        assert(n0.outcome(m0, inner, *input));
        match last {
            Some(y) => {
                assert(Some((x0, y)) == inner);
                Some((x0, y))
            },
            None => {
                None
            },
        }
    }
}

impl<A, B, I> ChainParserMut<I> for (A, B) where
    A: ParserMut<I>,
    B: ParserMut<I>,
    I: Stream,
 {
    fn parse_chain_mut(&mut self, input: &mut I) -> (r: Option<(A::Output, B::Output)>) {
        let ghost m0 = *input;
        let ghost n0 = FollowedBy { first: self.0, second: self.1 };
        let x0 = match self.0.parse_mut(input) {
            Some(x) => x,
            None => {
                assert(n0.outcome(m0, None, *input));
                return None;
            },
        };
        let ghost m1 = *input;
        let last = self.1.parse_mut(input);
        let ghost inner = crate::combinator::paired(x0, last);
        assert(n0.first.outcome(m0, Some(x0), m1) && n0.second.outcome(m1, last, *input));
        assert(n0.outcome(m0, inner, *input));
        match last {
            Some(y) => {
                assert(Some((x0, y)) == inner);
                Some((x0, y))
            },
            None => {
                None
            },
        }
    }
}

impl<A, B, I> ChainParser<I> for (A, B) where
    A: Parser<I>,
    B: Parser<I>,
    I: Stream,
 {
    fn parse_chain(&self, input: &mut I) -> (r: Option<(A::Output, B::Output)>) {
        let ghost m0 = *input;
        let ghost n0 = FollowedBy { first: self.0, second: self.1 };
        let x0 = match self.0.parse(input) {
            Some(x) => x,
            None => {
                assert(n0.outcome(m0, None, *input));
                return None;
            },
        };
        let ghost m1 = *input;
        let last = self.1.parse(input);
        let ghost inner = crate::combinator::paired(x0, last);
        assert(n0.first.outcome(m0, Some(x0), m1) && n0.second.outcome(m1, last, *input));
        assert(n0.outcome(m0, inner, *input));
        match last {
            Some(y) => {
                assert(Some((x0, y)) == inner);
                Some((x0, y))
            },
            None => {
                None
            },
        }
    }
}

impl<A, B, C, I> ChainParserOnce<I> for (A, B, C) where
    A: ParserOnce<I>,
    B: ParserOnce<I>,
    C: ParserOnce<I>,
    I: Stream,
 {
    type Output = (A::Output, B::Output, C::Output);

    open spec fn chain_ready(&self) -> bool {
        self.0.ready() && self.1.ready() && self.2.ready()
    }

    open spec fn chain_outcome(&self, before: I, r: Option<(A::Output, B::Output, C::Output)>, after: I) -> bool {
        exists|s: Option<(A::Output, (B::Output, C::Output))>| #[trigger]
            (FollowedBy { first: self.0, second: FollowedBy { first: self.1, second: self.2 } }).outcome(before, s, after) && r == flat3(s)
    }

    fn parse_chain_once(self, input: &mut I) -> (r: Option<(A::Output, B::Output, C::Output)>) {
        let this = self;
        let ghost m0 = *input;
        let ghost n0 = FollowedBy { first: this.0, second: FollowedBy { first: this.1, second: this.2 } };
        let ghost n1 = FollowedBy { first: this.1, second: this.2 };
        let x0 = match this.0.parse_once(input) {
            Some(x) => x,
            None => {
                assert(n0.outcome(m0, None, *input));
                assert(flat3(None::<(A::Output, (B::Output, C::Output))>) == None::<(A::Output, B::Output, C::Output)>);
                return None;
            },
        };
        let ghost m1 = *input;
        let x1 = match this.1.parse_once(input) {
            Some(x) => x,
            None => {
                assert(n1.outcome(m1, None, *input));
                assert(n0.first.outcome(m0, Some(x0), m1) && n0.second.outcome(m1, None, *input));
                assert(n0.outcome(m0, None, *input));
                assert(flat3(None::<(A::Output, (B::Output, C::Output))>) == None::<(A::Output, B::Output, C::Output)>);
                return None;
            },
        };
        let ghost m2 = *input;
        let last = this.2.parse_once(input);
        let ghost inner = crate::combinator::paired(x1, last);
        assert(n1.first.outcome(m1, Some(x1), m2) && n1.second.outcome(m2, last, *input));
        assert(n1.outcome(m1, inner, *input));
        let ghost s0 = crate::combinator::paired(x0, inner);
        assert(n0.first.outcome(m0, Some(x0), m1) && n0.second.outcome(m1, inner, *input));
        assert(n0.outcome(m0, s0, *input));
        match last {
            Some(y) => {
                assert(Some((x0, x1, y)) == flat3(s0));
                Some((x0, x1, y))
            },
            None => {
                assert(None::<(A::Output, B::Output, C::Output)> == flat3(s0));
                None
            },
        }
    }
}

impl<A, B, C, I> ChainParserMut<I> for (A, B, C) where
    A: ParserMut<I>,
    B: ParserMut<I>,
    C: ParserMut<I>,
    I: Stream,
 {
    fn parse_chain_mut(&mut self, input: &mut I) -> (r: Option<(A::Output, B::Output, C::Output)>) {
        let ghost m0 = *input;
        let ghost n0 = FollowedBy { first: self.0, second: FollowedBy { first: self.1, second: self.2 } };
        let ghost n1 = FollowedBy { first: self.1, second: self.2 };
        let x0 = match self.0.parse_mut(input) {
            Some(x) => x,
            None => {
                assert(n0.outcome(m0, None, *input));
                assert(flat3(None::<(A::Output, (B::Output, C::Output))>) == None::<(A::Output, B::Output, C::Output)>);
                return None;
            },
        };
        let ghost m1 = *input;
        let x1 = match self.1.parse_mut(input) {
            Some(x) => x,
            None => {
                assert(n1.outcome(m1, None, *input));
                assert(n0.first.outcome(m0, Some(x0), m1) && n0.second.outcome(m1, None, *input));
                assert(n0.outcome(m0, None, *input));
                assert(flat3(None::<(A::Output, (B::Output, C::Output))>) == None::<(A::Output, B::Output, C::Output)>);
                return None;
            },
        };
        let ghost m2 = *input;
        let last = self.2.parse_mut(input);
        let ghost inner = crate::combinator::paired(x1, last);
        assert(n1.first.outcome(m1, Some(x1), m2) && n1.second.outcome(m2, last, *input));
        assert(n1.outcome(m1, inner, *input));
        let ghost s0 = crate::combinator::paired(x0, inner);
        assert(n0.first.outcome(m0, Some(x0), m1) && n0.second.outcome(m1, inner, *input));
        assert(n0.outcome(m0, s0, *input));
        match last {
            Some(y) => {
                assert(Some((x0, x1, y)) == flat3(s0));
                Some((x0, x1, y))
            },
            None => {
                assert(None::<(A::Output, B::Output, C::Output)> == flat3(s0));
                None
            },
        }
    }
}

impl<A, B, C, I> ChainParser<I> for (A, B, C) where
    A: Parser<I>,
    B: Parser<I>,
    C: Parser<I>,
    I: Stream,
 {
    fn parse_chain(&self, input: &mut I) -> (r: Option<(A::Output, B::Output, C::Output)>) {
        let ghost m0 = *input;
        let ghost n0 = FollowedBy { first: self.0, second: FollowedBy { first: self.1, second: self.2 } };
        let ghost n1 = FollowedBy { first: self.1, second: self.2 };
        let x0 = match self.0.parse(input) {
            Some(x) => x,
            None => {
                assert(n0.outcome(m0, None, *input));
                assert(flat3(None::<(A::Output, (B::Output, C::Output))>) == None::<(A::Output, B::Output, C::Output)>);
                return None;
            },
        };
        let ghost m1 = *input;
        let x1 = match self.1.parse(input) {
            Some(x) => x,
            None => {
                assert(n1.outcome(m1, None, *input));
                assert(n0.first.outcome(m0, Some(x0), m1) && n0.second.outcome(m1, None, *input));
                assert(n0.outcome(m0, None, *input));
                assert(flat3(None::<(A::Output, (B::Output, C::Output))>) == None::<(A::Output, B::Output, C::Output)>);
                return None;
            },
        };
        let ghost m2 = *input;
        let last = self.2.parse(input);
        let ghost inner = crate::combinator::paired(x1, last);
        assert(n1.first.outcome(m1, Some(x1), m2) && n1.second.outcome(m2, last, *input));
        assert(n1.outcome(m1, inner, *input));
        let ghost s0 = crate::combinator::paired(x0, inner);
        assert(n0.first.outcome(m0, Some(x0), m1) && n0.second.outcome(m1, inner, *input));
        assert(n0.outcome(m0, s0, *input));
        match last {
            Some(y) => {
                assert(Some((x0, x1, y)) == flat3(s0));
                Some((x0, x1, y))
            },
            None => {
                assert(None::<(A::Output, B::Output, C::Output)> == flat3(s0));
                None
            },
        }
    }
}

impl<A, B, C, D, I> ChainParserOnce<I> for (A, B, C, D) where
    A: ParserOnce<I>,
    B: ParserOnce<I>,
    C: ParserOnce<I>,
    D: ParserOnce<I>,
    I: Stream,
 {
    type Output = (A::Output, B::Output, C::Output, D::Output);

    open spec fn chain_ready(&self) -> bool {
        self.0.ready() && self.1.ready() && self.2.ready() && self.3.ready()
    }

    open spec fn chain_outcome(&self, before: I, r: Option<(A::Output, B::Output, C::Output, D::Output)>, after: I) -> bool {
        exists|s: Option<(A::Output, (B::Output, (C::Output, D::Output)))>| #[trigger]
            (FollowedBy { first: self.0, second: FollowedBy { first: self.1, second: FollowedBy { first: self.2, second: self.3 } } }).outcome(before, s, after) && r == flat4(s)
    }

    fn parse_chain_once(self, input: &mut I) -> (r: Option<(A::Output, B::Output, C::Output, D::Output)>) {
        let this = self;
        let ghost m0 = *input;
        let ghost n0 = FollowedBy { first: this.0, second: FollowedBy { first: this.1, second: FollowedBy { first: this.2, second: this.3 } } };
        let ghost n1 = FollowedBy { first: this.1, second: FollowedBy { first: this.2, second: this.3 } };
        let ghost n2 = FollowedBy { first: this.2, second: this.3 };
        let x0 = match this.0.parse_once(input) {
            Some(x) => x,
            None => {
                assert(n0.outcome(m0, None, *input));
                assert(flat4(None::<(A::Output, (B::Output, (C::Output, D::Output)))>) == None::<(A::Output, B::Output, C::Output, D::Output)>);
                return None;
            },
        };
        let ghost m1 = *input;
        let x1 = match this.1.parse_once(input) {
            Some(x) => x,
            None => {
                assert(n1.outcome(m1, None, *input));
                assert(n0.first.outcome(m0, Some(x0), m1) && n0.second.outcome(m1, None, *input));
                assert(n0.outcome(m0, None, *input));
                assert(flat4(None::<(A::Output, (B::Output, (C::Output, D::Output)))>) == None::<(A::Output, B::Output, C::Output, D::Output)>);
                return None;
            },
        };
        let ghost m2 = *input;
        let x2 = match this.2.parse_once(input) {
            Some(x) => x,
            None => {
                assert(n2.outcome(m2, None, *input));
                assert(n1.first.outcome(m1, Some(x1), m2) && n1.second.outcome(m2, None, *input));
                assert(n1.outcome(m1, None, *input));
                assert(n0.first.outcome(m0, Some(x0), m1) && n0.second.outcome(m1, None, *input));
                assert(n0.outcome(m0, None, *input));
                assert(flat4(None::<(A::Output, (B::Output, (C::Output, D::Output)))>) == None::<(A::Output, B::Output, C::Output, D::Output)>);
                return None;
            },
        };
        let ghost m3 = *input;
        let last = this.3.parse_once(input);
        let ghost inner = crate::combinator::paired(x2, last);
        assert(n2.first.outcome(m2, Some(x2), m3) && n2.second.outcome(m3, last, *input));
        assert(n2.outcome(m2, inner, *input));
        let ghost s1 = crate::combinator::paired(x1, inner);
        assert(n1.first.outcome(m1, Some(x1), m2) && n1.second.outcome(m2, inner, *input));
        assert(n1.outcome(m1, s1, *input));
        let ghost s0 = crate::combinator::paired(x0, s1);
        assert(n0.first.outcome(m0, Some(x0), m1) && n0.second.outcome(m1, s1, *input));
        assert(n0.outcome(m0, s0, *input));
        match last {
            Some(y) => {
                assert(Some((x0, x1, x2, y)) == flat4(s0));
                Some((x0, x1, x2, y))
            },
            None => {
                assert(None::<(A::Output, B::Output, C::Output, D::Output)> == flat4(s0));
                None
            },
        }
    }
}

impl<A, B, C, D, I> ChainParserMut<I> for (A, B, C, D) where
    A: ParserMut<I>,
    B: ParserMut<I>,
    C: ParserMut<I>,
    D: ParserMut<I>,
    I: Stream,
 {
    fn parse_chain_mut(&mut self, input: &mut I) -> (r: Option<(A::Output, B::Output, C::Output, D::Output)>) {
        let ghost m0 = *input;
        let ghost n0 = FollowedBy { first: self.0, second: FollowedBy { first: self.1, second: FollowedBy { first: self.2, second: self.3 } } };
        let ghost n1 = FollowedBy { first: self.1, second: FollowedBy { first: self.2, second: self.3 } };
        let ghost n2 = FollowedBy { first: self.2, second: self.3 };
        let x0 = match self.0.parse_mut(input) {
            Some(x) => x,
            None => {
                assert(n0.outcome(m0, None, *input));
                assert(flat4(None::<(A::Output, (B::Output, (C::Output, D::Output)))>) == None::<(A::Output, B::Output, C::Output, D::Output)>);
                return None;
            },
        };
        let ghost m1 = *input;
        let x1 = match self.1.parse_mut(input) {
            Some(x) => x,
            None => {
                assert(n1.outcome(m1, None, *input));
                assert(n0.first.outcome(m0, Some(x0), m1) && n0.second.outcome(m1, None, *input));
                assert(n0.outcome(m0, None, *input));
                assert(flat4(None::<(A::Output, (B::Output, (C::Output, D::Output)))>) == None::<(A::Output, B::Output, C::Output, D::Output)>);
                return None;
            },
        };
        let ghost m2 = *input;
        let x2 = match self.2.parse_mut(input) {
            Some(x) => x,
            None => {
                assert(n2.outcome(m2, None, *input));
                assert(n1.first.outcome(m1, Some(x1), m2) && n1.second.outcome(m2, None, *input));
                assert(n1.outcome(m1, None, *input));
                assert(n0.first.outcome(m0, Some(x0), m1) && n0.second.outcome(m1, None, *input));
                assert(n0.outcome(m0, None, *input));
                assert(flat4(None::<(A::Output, (B::Output, (C::Output, D::Output)))>) == None::<(A::Output, B::Output, C::Output, D::Output)>);
                return None;
            },
        };
        let ghost m3 = *input;
        let last = self.3.parse_mut(input);
        let ghost inner = crate::combinator::paired(x2, last);
        assert(n2.first.outcome(m2, Some(x2), m3) && n2.second.outcome(m3, last, *input));
        assert(n2.outcome(m2, inner, *input));
        let ghost s1 = crate::combinator::paired(x1, inner);
        assert(n1.first.outcome(m1, Some(x1), m2) && n1.second.outcome(m2, inner, *input));
        assert(n1.outcome(m1, s1, *input));
        let ghost s0 = crate::combinator::paired(x0, s1);
        assert(n0.first.outcome(m0, Some(x0), m1) && n0.second.outcome(m1, s1, *input));
        assert(n0.outcome(m0, s0, *input));
        match last {
            Some(y) => {
                assert(Some((x0, x1, x2, y)) == flat4(s0));
                Some((x0, x1, x2, y))
            },
            None => {
                assert(None::<(A::Output, B::Output, C::Output, D::Output)> == flat4(s0));
                None
            },
        }
    }
}

impl<A, B, C, D, I> ChainParser<I> for (A, B, C, D) where
    A: Parser<I>,
    B: Parser<I>,
    C: Parser<I>,
    D: Parser<I>,
    I: Stream,
 {
    fn parse_chain(&self, input: &mut I) -> (r: Option<(A::Output, B::Output, C::Output, D::Output)>) {
        let ghost m0 = *input;
        let ghost n0 = FollowedBy { first: self.0, second: FollowedBy { first: self.1, second: FollowedBy { first: self.2, second: self.3 } } };
        let ghost n1 = FollowedBy { first: self.1, second: FollowedBy { first: self.2, second: self.3 } };
        let ghost n2 = FollowedBy { first: self.2, second: self.3 };
        let x0 = match self.0.parse(input) {
            Some(x) => x,
            None => {
                assert(n0.outcome(m0, None, *input));
                assert(flat4(None::<(A::Output, (B::Output, (C::Output, D::Output)))>) == None::<(A::Output, B::Output, C::Output, D::Output)>);
                return None;
            },
        };
        let ghost m1 = *input;
        let x1 = match self.1.parse(input) {
            Some(x) => x,
            None => {
                assert(n1.outcome(m1, None, *input));
                assert(n0.first.outcome(m0, Some(x0), m1) && n0.second.outcome(m1, None, *input));
                assert(n0.outcome(m0, None, *input));
                assert(flat4(None::<(A::Output, (B::Output, (C::Output, D::Output)))>) == None::<(A::Output, B::Output, C::Output, D::Output)>);
                return None;
            },
        };
        let ghost m2 = *input;
        let x2 = match self.2.parse(input) {
            Some(x) => x,
            None => {
                assert(n2.outcome(m2, None, *input));
                assert(n1.first.outcome(m1, Some(x1), m2) && n1.second.outcome(m2, None, *input));
                assert(n1.outcome(m1, None, *input));
                assert(n0.first.outcome(m0, Some(x0), m1) && n0.second.outcome(m1, None, *input));
                assert(n0.outcome(m0, None, *input));
                assert(flat4(None::<(A::Output, (B::Output, (C::Output, D::Output)))>) == None::<(A::Output, B::Output, C::Output, D::Output)>);
                return None;
            },
        };
        let ghost m3 = *input;
        let last = self.3.parse(input);
        let ghost inner = crate::combinator::paired(x2, last);
        assert(n2.first.outcome(m2, Some(x2), m3) && n2.second.outcome(m3, last, *input));
        assert(n2.outcome(m2, inner, *input));
        let ghost s1 = crate::combinator::paired(x1, inner);
        assert(n1.first.outcome(m1, Some(x1), m2) && n1.second.outcome(m2, inner, *input));
        assert(n1.outcome(m1, s1, *input));
        let ghost s0 = crate::combinator::paired(x0, s1);
        assert(n0.first.outcome(m0, Some(x0), m1) && n0.second.outcome(m1, s1, *input));
        assert(n0.outcome(m0, s0, *input));
        match last {
            Some(y) => {
                assert(Some((x0, x1, x2, y)) == flat4(s0));
                Some((x0, x1, x2, y))
            },
            None => {
                assert(None::<(A::Output, B::Output, C::Output, D::Output)> == flat4(s0));
                None
            },
        }
    }
}

impl<A, B, C, D, E, I> ChainParserOnce<I> for (A, B, C, D, E) where
    A: ParserOnce<I>,
    B: ParserOnce<I>,
    C: ParserOnce<I>,
    D: ParserOnce<I>,
    E: ParserOnce<I>,
    I: Stream,
 {
    type Output = (A::Output, B::Output, C::Output, D::Output, E::Output);

    open spec fn chain_ready(&self) -> bool {
        self.0.ready() && self.1.ready() && self.2.ready() && self.3.ready() && self.4.ready()
    }

    open spec fn chain_outcome(&self, before: I, r: Option<(A::Output, B::Output, C::Output, D::Output, E::Output)>, after: I) -> bool {
        exists|s: Option<(A::Output, (B::Output, (C::Output, (D::Output, E::Output))))>| #[trigger]
            (FollowedBy { first: self.0, second: FollowedBy { first: self.1, second: FollowedBy { first: self.2, second: FollowedBy { first: self.3, second: self.4 } } } }).outcome(before, s, after) && r == flat5(s)
    }

    fn parse_chain_once(self, input: &mut I) -> (r: Option<(A::Output, B::Output, C::Output, D::Output, E::Output)>) {
        let this = self;
        let ghost m0 = *input;
        let ghost n0 = FollowedBy { first: this.0, second: FollowedBy { first: this.1, second: FollowedBy { first: this.2, second: FollowedBy { first: this.3, second: this.4 } } } };
        let ghost n1 = FollowedBy { first: this.1, second: FollowedBy { first: this.2, second: FollowedBy { first: this.3, second: this.4 } } };
        let ghost n2 = FollowedBy { first: this.2, second: FollowedBy { first: this.3, second: this.4 } };
        let ghost n3 = FollowedBy { first: this.3, second: this.4 };
        let x0 = match this.0.parse_once(input) {
            Some(x) => x,
            None => {
                assert(n0.outcome(m0, None, *input));
                assert(flat5(None::<(A::Output, (B::Output, (C::Output, (D::Output, E::Output))))>) == None::<(A::Output, B::Output, C::Output, D::Output, E::Output)>);
                return None;
            },
        };
        let ghost m1 = *input;
        let x1 = match this.1.parse_once(input) {
            Some(x) => x,
            None => {
                assert(n1.outcome(m1, None, *input));
                assert(n0.first.outcome(m0, Some(x0), m1) && n0.second.outcome(m1, None, *input));
                assert(n0.outcome(m0, None, *input));
                assert(flat5(None::<(A::Output, (B::Output, (C::Output, (D::Output, E::Output))))>) == None::<(A::Output, B::Output, C::Output, D::Output, E::Output)>);
                return None;
            },
        };
        let ghost m2 = *input;
        let x2 = match this.2.parse_once(input) {
            Some(x) => x,
            None => {
                assert(n2.outcome(m2, None, *input));
                assert(n1.first.outcome(m1, Some(x1), m2) && n1.second.outcome(m2, None, *input));
                assert(n1.outcome(m1, None, *input));
                assert(n0.first.outcome(m0, Some(x0), m1) && n0.second.outcome(m1, None, *input));
                assert(n0.outcome(m0, None, *input));
                assert(flat5(None::<(A::Output, (B::Output, (C::Output, (D::Output, E::Output))))>) == None::<(A::Output, B::Output, C::Output, D::Output, E::Output)>);
                return None;
            },
        };
        let ghost m3 = *input;
        let x3 = match this.3.parse_once(input) {
            Some(x) => x,
            None => {
                assert(n3.outcome(m3, None, *input));
                assert(n2.first.outcome(m2, Some(x2), m3) && n2.second.outcome(m3, None, *input));
                assert(n2.outcome(m2, None, *input));
                assert(n1.first.outcome(m1, Some(x1), m2) && n1.second.outcome(m2, None, *input));
                assert(n1.outcome(m1, None, *input));
                assert(n0.first.outcome(m0, Some(x0), m1) && n0.second.outcome(m1, None, *input));
                assert(n0.outcome(m0, None, *input));
                assert(flat5(None::<(A::Output, (B::Output, (C::Output, (D::Output, E::Output))))>) == None::<(A::Output, B::Output, C::Output, D::Output, E::Output)>);
                return None;
            },
        };
        let ghost m4 = *input;
        let last = this.4.parse_once(input);
        let ghost inner = crate::combinator::paired(x3, last);
        assert(n3.first.outcome(m3, Some(x3), m4) && n3.second.outcome(m4, last, *input));
        assert(n3.outcome(m3, inner, *input));
        let ghost s2 = crate::combinator::paired(x2, inner);
        assert(n2.first.outcome(m2, Some(x2), m3) && n2.second.outcome(m3, inner, *input));
        assert(n2.outcome(m2, s2, *input));
        let ghost s1 = crate::combinator::paired(x1, s2);
        assert(n1.first.outcome(m1, Some(x1), m2) && n1.second.outcome(m2, s2, *input));
        assert(n1.outcome(m1, s1, *input));
        let ghost s0 = crate::combinator::paired(x0, s1);
        assert(n0.first.outcome(m0, Some(x0), m1) && n0.second.outcome(m1, s1, *input));
        assert(n0.outcome(m0, s0, *input));
        match last {
            Some(y) => {
                assert(Some((x0, x1, x2, x3, y)) == flat5(s0));
                Some((x0, x1, x2, x3, y))
            },
            None => {
                assert(None::<(A::Output, B::Output, C::Output, D::Output, E::Output)> == flat5(s0));
                None
            },
        }
    }
}

impl<A, B, C, D, E, I> ChainParserMut<I> for (A, B, C, D, E) where
    A: ParserMut<I>,
    B: ParserMut<I>,
    C: ParserMut<I>,
    D: ParserMut<I>,
    E: ParserMut<I>,
    I: Stream,
 {
    fn parse_chain_mut(&mut self, input: &mut I) -> (r: Option<(A::Output, B::Output, C::Output, D::Output, E::Output)>) {
        let ghost m0 = *input;
        let ghost n0 = FollowedBy { first: self.0, second: FollowedBy { first: self.1, second: FollowedBy { first: self.2, second: FollowedBy { first: self.3, second: self.4 } } } };
        let ghost n1 = FollowedBy { first: self.1, second: FollowedBy { first: self.2, second: FollowedBy { first: self.3, second: self.4 } } };
        let ghost n2 = FollowedBy { first: self.2, second: FollowedBy { first: self.3, second: self.4 } };
        let ghost n3 = FollowedBy { first: self.3, second: self.4 };
        let x0 = match self.0.parse_mut(input) {
            Some(x) => x,
            None => {
                assert(n0.outcome(m0, None, *input));
                assert(flat5(None::<(A::Output, (B::Output, (C::Output, (D::Output, E::Output))))>) == None::<(A::Output, B::Output, C::Output, D::Output, E::Output)>);
                return None;
            },
        };
        let ghost m1 = *input;
        let x1 = match self.1.parse_mut(input) {
            Some(x) => x,
            None => {
                assert(n1.outcome(m1, None, *input));
                assert(n0.first.outcome(m0, Some(x0), m1) && n0.second.outcome(m1, None, *input));
                assert(n0.outcome(m0, None, *input));
                assert(flat5(None::<(A::Output, (B::Output, (C::Output, (D::Output, E::Output))))>) == None::<(A::Output, B::Output, C::Output, D::Output, E::Output)>);
                return None;
            },
        };
        let ghost m2 = *input;
        let x2 = match self.2.parse_mut(input) {
            Some(x) => x,
            None => {
                assert(n2.outcome(m2, None, *input));
                assert(n1.first.outcome(m1, Some(x1), m2) && n1.second.outcome(m2, None, *input));
                assert(n1.outcome(m1, None, *input));
                assert(n0.first.outcome(m0, Some(x0), m1) && n0.second.outcome(m1, None, *input));
                assert(n0.outcome(m0, None, *input));
                assert(flat5(None::<(A::Output, (B::Output, (C::Output, (D::Output, E::Output))))>) == None::<(A::Output, B::Output, C::Output, D::Output, E::Output)>);
                return None;
            },
        };
        let ghost m3 = *input;
        let x3 = match self.3.parse_mut(input) {
            Some(x) => x,
            None => {
                assert(n3.outcome(m3, None, *input));
                assert(n2.first.outcome(m2, Some(x2), m3) && n2.second.outcome(m3, None, *input));
                assert(n2.outcome(m2, None, *input));
                assert(n1.first.outcome(m1, Some(x1), m2) && n1.second.outcome(m2, None, *input));
                assert(n1.outcome(m1, None, *input));
                assert(n0.first.outcome(m0, Some(x0), m1) && n0.second.outcome(m1, None, *input));
                assert(n0.outcome(m0, None, *input));
                assert(flat5(None::<(A::Output, (B::Output, (C::Output, (D::Output, E::Output))))>) == None::<(A::Output, B::Output, C::Output, D::Output, E::Output)>);
                return None;
            },
        };
        let ghost m4 = *input;
        let last = self.4.parse_mut(input);
        let ghost inner = crate::combinator::paired(x3, last);
        assert(n3.first.outcome(m3, Some(x3), m4) && n3.second.outcome(m4, last, *input));
        assert(n3.outcome(m3, inner, *input));
        let ghost s2 = crate::combinator::paired(x2, inner);
        assert(n2.first.outcome(m2, Some(x2), m3) && n2.second.outcome(m3, inner, *input));
        assert(n2.outcome(m2, s2, *input));
        let ghost s1 = crate::combinator::paired(x1, s2);
        assert(n1.first.outcome(m1, Some(x1), m2) && n1.second.outcome(m2, s2, *input));
        assert(n1.outcome(m1, s1, *input));
        let ghost s0 = crate::combinator::paired(x0, s1);
        assert(n0.first.outcome(m0, Some(x0), m1) && n0.second.outcome(m1, s1, *input));
        assert(n0.outcome(m0, s0, *input));
        match last {
            Some(y) => {
                assert(Some((x0, x1, x2, x3, y)) == flat5(s0));
                Some((x0, x1, x2, x3, y))
            },
            None => {
                assert(None::<(A::Output, B::Output, C::Output, D::Output, E::Output)> == flat5(s0));
                None
            },
        }
    }
}

impl<A, B, C, D, E, I> ChainParser<I> for (A, B, C, D, E) where
    A: Parser<I>,
    B: Parser<I>,
    C: Parser<I>,
    D: Parser<I>,
    E: Parser<I>,
    I: Stream,
 {
    fn parse_chain(&self, input: &mut I) -> (r: Option<(A::Output, B::Output, C::Output, D::Output, E::Output)>) {
        let ghost m0 = *input;
        let ghost n0 = FollowedBy { first: self.0, second: FollowedBy { first: self.1, second: FollowedBy { first: self.2, second: FollowedBy { first: self.3, second: self.4 } } } };
        let ghost n1 = FollowedBy { first: self.1, second: FollowedBy { first: self.2, second: FollowedBy { first: self.3, second: self.4 } } };
        let ghost n2 = FollowedBy { first: self.2, second: FollowedBy { first: self.3, second: self.4 } };
        let ghost n3 = FollowedBy { first: self.3, second: self.4 };
        let x0 = match self.0.parse(input) {
            Some(x) => x,
            None => {
                assert(n0.outcome(m0, None, *input));
                assert(flat5(None::<(A::Output, (B::Output, (C::Output, (D::Output, E::Output))))>) == None::<(A::Output, B::Output, C::Output, D::Output, E::Output)>);
                return None;
            },
        };
        let ghost m1 = *input;
        let x1 = match self.1.parse(input) {
            Some(x) => x,
            None => {
                assert(n1.outcome(m1, None, *input));
                assert(n0.first.outcome(m0, Some(x0), m1) && n0.second.outcome(m1, None, *input));
                assert(n0.outcome(m0, None, *input));
                assert(flat5(None::<(A::Output, (B::Output, (C::Output, (D::Output, E::Output))))>) == None::<(A::Output, B::Output, C::Output, D::Output, E::Output)>);
                return None;
            },
        };
        let ghost m2 = *input;
        let x2 = match self.2.parse(input) {
            Some(x) => x,
            None => {
                assert(n2.outcome(m2, None, *input));
                assert(n1.first.outcome(m1, Some(x1), m2) && n1.second.outcome(m2, None, *input));
                assert(n1.outcome(m1, None, *input));
                assert(n0.first.outcome(m0, Some(x0), m1) && n0.second.outcome(m1, None, *input));
                assert(n0.outcome(m0, None, *input));
                assert(flat5(None::<(A::Output, (B::Output, (C::Output, (D::Output, E::Output))))>) == None::<(A::Output, B::Output, C::Output, D::Output, E::Output)>);
                return None;
            },
        };
        let ghost m3 = *input;
        let x3 = match self.3.parse(input) {
            Some(x) => x,
            None => {
                assert(n3.outcome(m3, None, *input));
                assert(n2.first.outcome(m2, Some(x2), m3) && n2.second.outcome(m3, None, *input));
                assert(n2.outcome(m2, None, *input));
                assert(n1.first.outcome(m1, Some(x1), m2) && n1.second.outcome(m2, None, *input));
                assert(n1.outcome(m1, None, *input));
                assert(n0.first.outcome(m0, Some(x0), m1) && n0.second.outcome(m1, None, *input));
                assert(n0.outcome(m0, None, *input));
                assert(flat5(None::<(A::Output, (B::Output, (C::Output, (D::Output, E::Output))))>) == None::<(A::Output, B::Output, C::Output, D::Output, E::Output)>);
                return None;
            },
        };
        let ghost m4 = *input;
        let last = self.4.parse(input);
        let ghost inner = crate::combinator::paired(x3, last);
        assert(n3.first.outcome(m3, Some(x3), m4) && n3.second.outcome(m4, last, *input));
        assert(n3.outcome(m3, inner, *input));
        let ghost s2 = crate::combinator::paired(x2, inner);
        assert(n2.first.outcome(m2, Some(x2), m3) && n2.second.outcome(m3, inner, *input));
        assert(n2.outcome(m2, s2, *input));
        let ghost s1 = crate::combinator::paired(x1, s2);
        assert(n1.first.outcome(m1, Some(x1), m2) && n1.second.outcome(m2, s2, *input));
        assert(n1.outcome(m1, s1, *input));
        let ghost s0 = crate::combinator::paired(x0, s1);
        assert(n0.first.outcome(m0, Some(x0), m1) && n0.second.outcome(m1, s1, *input));
        assert(n0.outcome(m0, s0, *input));
        match last {
            Some(y) => {
                assert(Some((x0, x1, x2, x3, y)) == flat5(s0));
                Some((x0, x1, x2, x3, y))
            },
            None => {
                assert(None::<(A::Output, B::Output, C::Output, D::Output, E::Output)> == flat5(s0));
                None
            },
        }
    }
}

} // verus!

verus! {

/// A tuple of alternative parsers, usable once.
///
/// A tuple `(p0, p1, ..., pn)` runs as `p0` or else the run of
/// `(p1, ..., pn)`: a later parser is tried only when every earlier one
/// failed without consuming input.
pub trait ChoiceParserOnce<I: Stream>: Sized {
    type Output;

    spec fn choice_ready(&self) -> bool;

    spec fn choice_outcome(&self, before: I, r: Option<Self::Output>, after: I) -> bool;

    fn parse_choice_once(self, input: &mut I) -> (r: Option<Self::Output>)
        requires
            self.choice_ready(),
            old(input).wf(),
        ensures
            advances(*old(input), *final(input)),
            self.choice_outcome(*old(input), r, *final(input)),
    ;
}

/// A tuple of alternative parsers run through an exclusive handle.
pub trait ChoiceParserMut<I: Stream>: ChoiceParserOnce<I> {
    fn parse_choice_mut(&mut self, input: &mut I) -> (r: Option<Self::Output>)
        requires
            old(self).choice_ready(),
            old(input).wf(),
        ensures
            *final(self) == *old(self),
            advances(*old(input), *final(input)),
            old(self).choice_outcome(*old(input), r, *final(input)),
    ;
}

/// A tuple of alternative parsers run through a shared handle.
pub trait ChoiceParser<I: Stream>: ChoiceParserMut<I> {
    fn parse_choice(&self, input: &mut I) -> (r: Option<Self::Output>)
        requires
            self.choice_ready(),
            old(input).wf(),
        ensures
            advances(*old(input), *final(input)),
            self.choice_outcome(*old(input), r, *final(input)),
    ;
}

/// Ordered alternation of a tuple of parsers.
pub struct Choice<P, O> {
    pub parser: P,
    pub marker: PhantomData<O>,
}

impl<P: Copy, O> Clone for Choice<P, O> {
    fn clone(&self) -> (r: Self)
        ensures
            r == *self,
    {
        Choice { parser: self.parser, marker: PhantomData }
    }
}

impl<P: Copy, O> Copy for Choice<P, O> {

}

impl<P, I, O> ParserOnce<I> for Choice<P, O> where P: ChoiceParserOnce<I, Output = O>, I: Stream {
    type Output = O;

    open spec fn ready(&self) -> bool {
        self.parser.choice_ready()
    }

    open spec fn outcome(&self, before: I, r: Option<O>, after: I) -> bool {
        self.parser.choice_outcome(before, r, after)
    }

    fn parse_once(self, input: &mut I) -> (r: Option<O>) {
        self.parser.parse_choice_once(input)
    }
}

impl<P, I, O> ParserMut<I> for Choice<P, O> where P: ChoiceParserMut<I, Output = O>, I: Stream {
    fn parse_mut(&mut self, input: &mut I) -> (r: Option<O>) {
        self.parser.parse_choice_mut(input)
    }
}

impl<P, I, O> Parser<I> for Choice<P, O> where P: ChoiceParser<I, Output = O>, I: Stream {
    fn parse(&self, input: &mut I) -> (r: Option<O>) {
        self.parser.parse_choice(input)
    }
}

/// Tries the parsers of a tuple in order.
pub fn choice<P, I, O>(parser: P) -> (r: Choice<P, O>) where P: ChoiceParserOnce<I, Output = O>, I: Stream
    ensures
        r.parser == parser,
{
    Choice { parser, marker: PhantomData }
}

impl<A, B, I, O> ChoiceParserOnce<I> for (A, B) where
    A: ParserOnce<I, Output = O>,
    B: ParserOnce<I, Output = O>,
    I: Stream,
 {
    type Output = O;

    open spec fn choice_ready(&self) -> bool {
        self.0.ready() && self.1.ready()
    }

    open spec fn choice_outcome(&self, before: I, r: Option<O>, after: I) -> bool {
        (Or { first: self.0, second: self.1 }).outcome(before, r, after)
    }

    fn parse_choice_once(self, input: &mut I) -> (r: Option<O>) {
        let this = self;
        let ghost m0 = *input;
        let ghost n0 = Or { first: this.0, second: this.1 };
        let (r0, c0) = this.0.parse_once_and_check_consumed(input);
        if r0.is_some() || c0 {
            assert(n0.outcome(m0, r0, *input));
            return r0;
        }
        let ghost m1 = *input;
        let last = this.1.parse_once(input);
        assert(n0.first.outcome(m0, None, m1) && n0.second.outcome(m1, last, *input));
        assert(n0.outcome(m0, last, *input));
        last
    }
}

impl<A, B, I, O> ChoiceParserMut<I> for (A, B) where
    A: ParserMut<I, Output = O>,
    B: ParserMut<I, Output = O>,
    I: Stream,
 {
    fn parse_choice_mut(&mut self, input: &mut I) -> (r: Option<O>) {
        let ghost m0 = *input;
        let ghost n0 = Or { first: self.0, second: self.1 };
        let (r0, c0) = self.0.parse_mut_and_check_consumed(input);
        if r0.is_some() || c0 {
            assert(n0.outcome(m0, r0, *input));
            return r0;
        }
        let ghost m1 = *input;
        let last = self.1.parse_mut(input);
        assert(n0.first.outcome(m0, None, m1) && n0.second.outcome(m1, last, *input));
        assert(n0.outcome(m0, last, *input));
        last
    }
}

impl<A, B, I, O> ChoiceParser<I> for (A, B) where
    A: Parser<I, Output = O>,
    B: Parser<I, Output = O>,
    I: Stream,
 {
    fn parse_choice(&self, input: &mut I) -> (r: Option<O>) {
        let ghost m0 = *input;
        let ghost n0 = Or { first: self.0, second: self.1 };
        let (r0, c0) = self.0.parse_and_check_consumed(input);
        if r0.is_some() || c0 {
            assert(n0.outcome(m0, r0, *input));
            return r0;
        }
        let ghost m1 = *input;
        let last = self.1.parse(input);
        assert(n0.first.outcome(m0, None, m1) && n0.second.outcome(m1, last, *input));
        assert(n0.outcome(m0, last, *input));
        last
    }
}

impl<A, B, C, I, O> ChoiceParserOnce<I> for (A, B, C) where
    A: ParserOnce<I, Output = O>,
    B: ParserOnce<I, Output = O>,
    C: ParserOnce<I, Output = O>,
    I: Stream,
 {
    type Output = O;

    open spec fn choice_ready(&self) -> bool {
        self.0.ready() && self.1.ready() && self.2.ready()
    }

    open spec fn choice_outcome(&self, before: I, r: Option<O>, after: I) -> bool {
        (Or { first: self.0, second: Or { first: self.1, second: self.2 } }).outcome(before, r, after)
    }

    fn parse_choice_once(self, input: &mut I) -> (r: Option<O>) {
        let this = self;
        let ghost m0 = *input;
        let ghost n0 = Or { first: this.0, second: Or { first: this.1, second: this.2 } };
        let ghost n1 = Or { first: this.1, second: this.2 };
        let (r0, c0) = this.0.parse_once_and_check_consumed(input);
        if r0.is_some() || c0 {
            assert(n0.outcome(m0, r0, *input));
            return r0;
        }
        let ghost m1 = *input;
        let (r1, c1) = this.1.parse_once_and_check_consumed(input);
        if r1.is_some() || c1 {
            assert(n1.outcome(m1, r1, *input));
            assert(n0.first.outcome(m0, None, m1) && n0.second.outcome(m1, r1, *input));
            assert(n0.outcome(m0, r1, *input));
            return r1;
        }
        let ghost m2 = *input;
        let last = this.2.parse_once(input);
        assert(n1.first.outcome(m1, None, m2) && n1.second.outcome(m2, last, *input));
        assert(n1.outcome(m1, last, *input));
        assert(n0.first.outcome(m0, None, m1) && n0.second.outcome(m1, last, *input));
        assert(n0.outcome(m0, last, *input));
        last
    }
}

impl<A, B, C, I, O> ChoiceParserMut<I> for (A, B, C) where
    A: ParserMut<I, Output = O>,
    B: ParserMut<I, Output = O>,
    C: ParserMut<I, Output = O>,
    I: Stream,
 {
    fn parse_choice_mut(&mut self, input: &mut I) -> (r: Option<O>) {
        let ghost m0 = *input;
        let ghost n0 = Or { first: self.0, second: Or { first: self.1, second: self.2 } };
        let ghost n1 = Or { first: self.1, second: self.2 };
        let (r0, c0) = self.0.parse_mut_and_check_consumed(input);
        if r0.is_some() || c0 {
            assert(n0.outcome(m0, r0, *input));
            return r0;
        }
        let ghost m1 = *input;
        let (r1, c1) = self.1.parse_mut_and_check_consumed(input);
        if r1.is_some() || c1 {
            assert(n1.outcome(m1, r1, *input));
            assert(n0.first.outcome(m0, None, m1) && n0.second.outcome(m1, r1, *input));
            assert(n0.outcome(m0, r1, *input));
            return r1;
        }
        let ghost m2 = *input;
        let last = self.2.parse_mut(input);
        assert(n1.first.outcome(m1, None, m2) && n1.second.outcome(m2, last, *input));
        assert(n1.outcome(m1, last, *input));
        assert(n0.first.outcome(m0, None, m1) && n0.second.outcome(m1, last, *input));
        assert(n0.outcome(m0, last, *input));
        last
    }
}

impl<A, B, C, I, O> ChoiceParser<I> for (A, B, C) where
    A: Parser<I, Output = O>,
    B: Parser<I, Output = O>,
    C: Parser<I, Output = O>,
    I: Stream,
 {
    fn parse_choice(&self, input: &mut I) -> (r: Option<O>) {
        let ghost m0 = *input;
        let ghost n0 = Or { first: self.0, second: Or { first: self.1, second: self.2 } };
        let ghost n1 = Or { first: self.1, second: self.2 };
        let (r0, c0) = self.0.parse_and_check_consumed(input);
        if r0.is_some() || c0 {
            assert(n0.outcome(m0, r0, *input));
            return r0;
        }
        let ghost m1 = *input;
        let (r1, c1) = self.1.parse_and_check_consumed(input);
        if r1.is_some() || c1 {
            assert(n1.outcome(m1, r1, *input));
            assert(n0.first.outcome(m0, None, m1) && n0.second.outcome(m1, r1, *input));
            assert(n0.outcome(m0, r1, *input));
            return r1;
        }
        let ghost m2 = *input;
        let last = self.2.parse(input);
        assert(n1.first.outcome(m1, None, m2) && n1.second.outcome(m2, last, *input));
        assert(n1.outcome(m1, last, *input));
        assert(n0.first.outcome(m0, None, m1) && n0.second.outcome(m1, last, *input));
        assert(n0.outcome(m0, last, *input));
        last
    }
}

impl<A, B, C, D, I, O> ChoiceParserOnce<I> for (A, B, C, D) where
    A: ParserOnce<I, Output = O>,
    B: ParserOnce<I, Output = O>,
    C: ParserOnce<I, Output = O>,
    D: ParserOnce<I, Output = O>,
    I: Stream,
 {
    type Output = O;

    open spec fn choice_ready(&self) -> bool {
        self.0.ready() && self.1.ready() && self.2.ready() && self.3.ready()
    }

    open spec fn choice_outcome(&self, before: I, r: Option<O>, after: I) -> bool {
        (Or { first: self.0, second: Or { first: self.1, second: Or { first: self.2, second: self.3 } } }).outcome(before, r, after)
    }

    fn parse_choice_once(self, input: &mut I) -> (r: Option<O>) {
        let this = self;
        let ghost m0 = *input;
        let ghost n0 = Or { first: this.0, second: Or { first: this.1, second: Or { first: this.2, second: this.3 } } };
        let ghost n1 = Or { first: this.1, second: Or { first: this.2, second: this.3 } };
        let ghost n2 = Or { first: this.2, second: this.3 };
        let (r0, c0) = this.0.parse_once_and_check_consumed(input);
        if r0.is_some() || c0 {
            assert(n0.outcome(m0, r0, *input));
            return r0;
        }
        let ghost m1 = *input;
        let (r1, c1) = this.1.parse_once_and_check_consumed(input);
        if r1.is_some() || c1 {
            assert(n1.outcome(m1, r1, *input));
            assert(n0.first.outcome(m0, None, m1) && n0.second.outcome(m1, r1, *input));
            assert(n0.outcome(m0, r1, *input));
            return r1;
        }
        let ghost m2 = *input;
        let (r2, c2) = this.2.parse_once_and_check_consumed(input);
        if r2.is_some() || c2 {
            assert(n2.outcome(m2, r2, *input));
            assert(n1.first.outcome(m1, None, m2) && n1.second.outcome(m2, r2, *input));
            assert(n1.outcome(m1, r2, *input));
            assert(n0.first.outcome(m0, None, m1) && n0.second.outcome(m1, r2, *input));
            assert(n0.outcome(m0, r2, *input));
            return r2;
        }
        let ghost m3 = *input;
        let last = this.3.parse_once(input);
        assert(n2.first.outcome(m2, None, m3) && n2.second.outcome(m3, last, *input));
        assert(n2.outcome(m2, last, *input));
        assert(n1.first.outcome(m1, None, m2) && n1.second.outcome(m2, last, *input));
        assert(n1.outcome(m1, last, *input));
        assert(n0.first.outcome(m0, None, m1) && n0.second.outcome(m1, last, *input));
        assert(n0.outcome(m0, last, *input));
        last
    }
}

impl<A, B, C, D, I, O> ChoiceParserMut<I> for (A, B, C, D) where
    A: ParserMut<I, Output = O>,
    B: ParserMut<I, Output = O>,
    C: ParserMut<I, Output = O>,
    D: ParserMut<I, Output = O>,
    I: Stream,
 {
    fn parse_choice_mut(&mut self, input: &mut I) -> (r: Option<O>) {
        let ghost m0 = *input;
        let ghost n0 = Or { first: self.0, second: Or { first: self.1, second: Or { first: self.2, second: self.3 } } };
        let ghost n1 = Or { first: self.1, second: Or { first: self.2, second: self.3 } };
        let ghost n2 = Or { first: self.2, second: self.3 };
        let (r0, c0) = self.0.parse_mut_and_check_consumed(input);
        if r0.is_some() || c0 {
            assert(n0.outcome(m0, r0, *input));
            return r0;
        }
        let ghost m1 = *input;
        let (r1, c1) = self.1.parse_mut_and_check_consumed(input);
        if r1.is_some() || c1 {
            assert(n1.outcome(m1, r1, *input));
            assert(n0.first.outcome(m0, None, m1) && n0.second.outcome(m1, r1, *input));
            assert(n0.outcome(m0, r1, *input));
            return r1;
        }
        let ghost m2 = *input;
        let (r2, c2) = self.2.parse_mut_and_check_consumed(input);
        if r2.is_some() || c2 {
            assert(n2.outcome(m2, r2, *input));
            assert(n1.first.outcome(m1, None, m2) && n1.second.outcome(m2, r2, *input));
            assert(n1.outcome(m1, r2, *input));
            assert(n0.first.outcome(m0, None, m1) && n0.second.outcome(m1, r2, *input));
            assert(n0.outcome(m0, r2, *input));
            return r2;
        }
        let ghost m3 = *input;
        let last = self.3.parse_mut(input);
        assert(n2.first.outcome(m2, None, m3) && n2.second.outcome(m3, last, *input));
        assert(n2.outcome(m2, last, *input));
        assert(n1.first.outcome(m1, None, m2) && n1.second.outcome(m2, last, *input));
        assert(n1.outcome(m1, last, *input));
        assert(n0.first.outcome(m0, None, m1) && n0.second.outcome(m1, last, *input));
        assert(n0.outcome(m0, last, *input));
        last
    }
}

impl<A, B, C, D, I, O> ChoiceParser<I> for (A, B, C, D) where
    A: Parser<I, Output = O>,
    B: Parser<I, Output = O>,
    C: Parser<I, Output = O>,
    D: Parser<I, Output = O>,
    I: Stream,
 {
    fn parse_choice(&self, input: &mut I) -> (r: Option<O>) {
        let ghost m0 = *input;
        let ghost n0 = Or { first: self.0, second: Or { first: self.1, second: Or { first: self.2, second: self.3 } } };
        let ghost n1 = Or { first: self.1, second: Or { first: self.2, second: self.3 } };
        let ghost n2 = Or { first: self.2, second: self.3 };
        let (r0, c0) = self.0.parse_and_check_consumed(input);
        if r0.is_some() || c0 {
            assert(n0.outcome(m0, r0, *input));
            return r0;
        }
        let ghost m1 = *input;
        let (r1, c1) = self.1.parse_and_check_consumed(input);
        if r1.is_some() || c1 {
            assert(n1.outcome(m1, r1, *input));
            assert(n0.first.outcome(m0, None, m1) && n0.second.outcome(m1, r1, *input));
            assert(n0.outcome(m0, r1, *input));
            return r1;
        }
        let ghost m2 = *input;
        let (r2, c2) = self.2.parse_and_check_consumed(input);
        if r2.is_some() || c2 {
            assert(n2.outcome(m2, r2, *input));
            assert(n1.first.outcome(m1, None, m2) && n1.second.outcome(m2, r2, *input));
            assert(n1.outcome(m1, r2, *input));
            assert(n0.first.outcome(m0, None, m1) && n0.second.outcome(m1, r2, *input));
            assert(n0.outcome(m0, r2, *input));
            return r2;
        }
        let ghost m3 = *input;
        let last = self.3.parse(input);
        assert(n2.first.outcome(m2, None, m3) && n2.second.outcome(m3, last, *input));
        assert(n2.outcome(m2, last, *input));
        assert(n1.first.outcome(m1, None, m2) && n1.second.outcome(m2, last, *input));
        assert(n1.outcome(m1, last, *input));
        assert(n0.first.outcome(m0, None, m1) && n0.second.outcome(m1, last, *input));
        assert(n0.outcome(m0, last, *input));
        last
    }
}

impl<A, B, C, D, E, I, O> ChoiceParserOnce<I> for (A, B, C, D, E) where
    A: ParserOnce<I, Output = O>,
    B: ParserOnce<I, Output = O>,
    C: ParserOnce<I, Output = O>,
    D: ParserOnce<I, Output = O>,
    E: ParserOnce<I, Output = O>,
    I: Stream,
 {
    type Output = O;

    open spec fn choice_ready(&self) -> bool {
        self.0.ready() && self.1.ready() && self.2.ready() && self.3.ready() && self.4.ready()
    }

    open spec fn choice_outcome(&self, before: I, r: Option<O>, after: I) -> bool {
        (Or { first: self.0, second: Or { first: self.1, second: Or { first: self.2, second: Or { first: self.3, second: self.4 } } } }).outcome(before, r, after)
    }

    fn parse_choice_once(self, input: &mut I) -> (r: Option<O>) {
        let this = self;
        let ghost m0 = *input;
        let ghost n0 = Or { first: this.0, second: Or { first: this.1, second: Or { first: this.2, second: Or { first: this.3, second: this.4 } } } };
        let ghost n1 = Or { first: this.1, second: Or { first: this.2, second: Or { first: this.3, second: this.4 } } };
        let ghost n2 = Or { first: this.2, second: Or { first: this.3, second: this.4 } };
        let ghost n3 = Or { first: this.3, second: this.4 };
        let (r0, c0) = this.0.parse_once_and_check_consumed(input);
        if r0.is_some() || c0 {
            assert(n0.outcome(m0, r0, *input));
            return r0;
        }
        let ghost m1 = *input;
        let (r1, c1) = this.1.parse_once_and_check_consumed(input);
        if r1.is_some() || c1 {
            assert(n1.outcome(m1, r1, *input));
            assert(n0.first.outcome(m0, None, m1) && n0.second.outcome(m1, r1, *input));
            assert(n0.outcome(m0, r1, *input));
            return r1;
        }
        let ghost m2 = *input;
        let (r2, c2) = this.2.parse_once_and_check_consumed(input);
        if r2.is_some() || c2 {
            assert(n2.outcome(m2, r2, *input));
            assert(n1.first.outcome(m1, None, m2) && n1.second.outcome(m2, r2, *input));
            assert(n1.outcome(m1, r2, *input));
            assert(n0.first.outcome(m0, None, m1) && n0.second.outcome(m1, r2, *input));
            assert(n0.outcome(m0, r2, *input));
            return r2;
        }
        let ghost m3 = *input;
        let (r3, c3) = this.3.parse_once_and_check_consumed(input);
        if r3.is_some() || c3 {
            assert(n3.outcome(m3, r3, *input));
            assert(n2.first.outcome(m2, None, m3) && n2.second.outcome(m3, r3, *input));
            assert(n2.outcome(m2, r3, *input));
            assert(n1.first.outcome(m1, None, m2) && n1.second.outcome(m2, r3, *input));
            assert(n1.outcome(m1, r3, *input));
            assert(n0.first.outcome(m0, None, m1) && n0.second.outcome(m1, r3, *input));
            assert(n0.outcome(m0, r3, *input));
            return r3;
        }
        let ghost m4 = *input;
        let last = this.4.parse_once(input);
        assert(n3.first.outcome(m3, None, m4) && n3.second.outcome(m4, last, *input));
        assert(n3.outcome(m3, last, *input));
        assert(n2.first.outcome(m2, None, m3) && n2.second.outcome(m3, last, *input));
        assert(n2.outcome(m2, last, *input));
        assert(n1.first.outcome(m1, None, m2) && n1.second.outcome(m2, last, *input));
        assert(n1.outcome(m1, last, *input));
        assert(n0.first.outcome(m0, None, m1) && n0.second.outcome(m1, last, *input));
        assert(n0.outcome(m0, last, *input));
        last
    }
}

impl<A, B, C, D, E, I, O> ChoiceParserMut<I> for (A, B, C, D, E) where
    A: ParserMut<I, Output = O>,
    B: ParserMut<I, Output = O>,
    C: ParserMut<I, Output = O>,
    D: ParserMut<I, Output = O>,
    E: ParserMut<I, Output = O>,
    I: Stream,
 {
    fn parse_choice_mut(&mut self, input: &mut I) -> (r: Option<O>) {
        let ghost m0 = *input;
        let ghost n0 = Or { first: self.0, second: Or { first: self.1, second: Or { first: self.2, second: Or { first: self.3, second: self.4 } } } };
        let ghost n1 = Or { first: self.1, second: Or { first: self.2, second: Or { first: self.3, second: self.4 } } };
        let ghost n2 = Or { first: self.2, second: Or { first: self.3, second: self.4 } };
        let ghost n3 = Or { first: self.3, second: self.4 };
        let (r0, c0) = self.0.parse_mut_and_check_consumed(input);
        if r0.is_some() || c0 {
            assert(n0.outcome(m0, r0, *input));
            return r0;
        }
        let ghost m1 = *input;
        let (r1, c1) = self.1.parse_mut_and_check_consumed(input);
        if r1.is_some() || c1 {
            assert(n1.outcome(m1, r1, *input));
            assert(n0.first.outcome(m0, None, m1) && n0.second.outcome(m1, r1, *input));
            assert(n0.outcome(m0, r1, *input));
            return r1;
        }
        let ghost m2 = *input;
        let (r2, c2) = self.2.parse_mut_and_check_consumed(input);
        if r2.is_some() || c2 {
            assert(n2.outcome(m2, r2, *input));
            assert(n1.first.outcome(m1, None, m2) && n1.second.outcome(m2, r2, *input));
            assert(n1.outcome(m1, r2, *input));
            assert(n0.first.outcome(m0, None, m1) && n0.second.outcome(m1, r2, *input));
            assert(n0.outcome(m0, r2, *input));
            return r2;
        }
        let ghost m3 = *input;
        let (r3, c3) = self.3.parse_mut_and_check_consumed(input);
        if r3.is_some() || c3 {
            assert(n3.outcome(m3, r3, *input));
            assert(n2.first.outcome(m2, None, m3) && n2.second.outcome(m3, r3, *input));
            assert(n2.outcome(m2, r3, *input));
            assert(n1.first.outcome(m1, None, m2) && n1.second.outcome(m2, r3, *input));
            assert(n1.outcome(m1, r3, *input));
            assert(n0.first.outcome(m0, None, m1) && n0.second.outcome(m1, r3, *input));
            assert(n0.outcome(m0, r3, *input));
            return r3;
        }
        let ghost m4 = *input;
        let last = self.4.parse_mut(input);
        assert(n3.first.outcome(m3, None, m4) && n3.second.outcome(m4, last, *input));
        assert(n3.outcome(m3, last, *input));
        assert(n2.first.outcome(m2, None, m3) && n2.second.outcome(m3, last, *input));
        assert(n2.outcome(m2, last, *input));
        assert(n1.first.outcome(m1, None, m2) && n1.second.outcome(m2, last, *input));
        assert(n1.outcome(m1, last, *input));
        assert(n0.first.outcome(m0, None, m1) && n0.second.outcome(m1, last, *input));
        assert(n0.outcome(m0, last, *input));
        last
    }
}

impl<A, B, C, D, E, I, O> ChoiceParser<I> for (A, B, C, D, E) where
    A: Parser<I, Output = O>,
    B: Parser<I, Output = O>,
    C: Parser<I, Output = O>,
    D: Parser<I, Output = O>,
    E: Parser<I, Output = O>,
    I: Stream,
 {
    fn parse_choice(&self, input: &mut I) -> (r: Option<O>) {
        let ghost m0 = *input;
        let ghost n0 = Or { first: self.0, second: Or { first: self.1, second: Or { first: self.2, second: Or { first: self.3, second: self.4 } } } };
        let ghost n1 = Or { first: self.1, second: Or { first: self.2, second: Or { first: self.3, second: self.4 } } };
        let ghost n2 = Or { first: self.2, second: Or { first: self.3, second: self.4 } };
        let ghost n3 = Or { first: self.3, second: self.4 };
        let (r0, c0) = self.0.parse_and_check_consumed(input);
        if r0.is_some() || c0 {
            assert(n0.outcome(m0, r0, *input));
            return r0;
        }
        let ghost m1 = *input;
        let (r1, c1) = self.1.parse_and_check_consumed(input);
        if r1.is_some() || c1 {
            assert(n1.outcome(m1, r1, *input));
            assert(n0.first.outcome(m0, None, m1) && n0.second.outcome(m1, r1, *input));
            assert(n0.outcome(m0, r1, *input));
            return r1;
        }
        let ghost m2 = *input;
        let (r2, c2) = self.2.parse_and_check_consumed(input);
        if r2.is_some() || c2 {
            assert(n2.outcome(m2, r2, *input));
            assert(n1.first.outcome(m1, None, m2) && n1.second.outcome(m2, r2, *input));
            assert(n1.outcome(m1, r2, *input));
            assert(n0.first.outcome(m0, None, m1) && n0.second.outcome(m1, r2, *input));
            assert(n0.outcome(m0, r2, *input));
            return r2;
        }
        let ghost m3 = *input;
        let (r3, c3) = self.3.parse_and_check_consumed(input);
        if r3.is_some() || c3 {
            assert(n3.outcome(m3, r3, *input));
            assert(n2.first.outcome(m2, None, m3) && n2.second.outcome(m3, r3, *input));
            assert(n2.outcome(m2, r3, *input));
            assert(n1.first.outcome(m1, None, m2) && n1.second.outcome(m2, r3, *input));
            assert(n1.outcome(m1, r3, *input));
            assert(n0.first.outcome(m0, None, m1) && n0.second.outcome(m1, r3, *input));
            assert(n0.outcome(m0, r3, *input));
            return r3;
        }
        let ghost m4 = *input;
        let last = self.4.parse(input);
        assert(n3.first.outcome(m3, None, m4) && n3.second.outcome(m4, last, *input));
        assert(n3.outcome(m3, last, *input));
        assert(n2.first.outcome(m2, None, m3) && n2.second.outcome(m3, last, *input));
        assert(n2.outcome(m2, last, *input));
        assert(n1.first.outcome(m1, None, m2) && n1.second.outcome(m2, last, *input));
        assert(n1.outcome(m1, last, *input));
        assert(n0.first.outcome(m0, None, m1) && n0.second.outcome(m1, last, *input));
        assert(n0.outcome(m0, last, *input));
        last
    }
}

} // verus!
