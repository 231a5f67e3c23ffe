use vstd::prelude::*;

use crate::combinator::{
    AndThen, Attempt, Between, FlatMap, FollowedBy, Mapped, Optional, Or, Recognize,
};
use crate::num::FromStr;
use crate::repeat::{
    CollectMany, CollectMany1, Many, Many1, Many1Mut, ManyIter, ManyMut, SkipMany, SkipMany1,
};
use crate::sep::{CollectSepBy, SepBy, SepByIter, SepByMut, SkipSepBy};
use crate::stream::{advances, Stream};
use core::marker::PhantomData;

verus! {

/// A parser that may be run once; running it consumes the parser value.
///
/// `outcome(before, r, after)` holds of every run that may start at the
/// cursor `before`, return `r` and leave the cursor at `after`. A run never
/// moves the cursor backwards or out of its lineage.
pub trait ParserOnce<I: Stream>: Sized {
    type Output;

    /// What a run needs of the parser's parts (the preconditions of closures).
    spec fn ready(&self) -> bool;

    /// The runs this parser may make.
    spec fn outcome(&self, before: I, r: Option<Self::Output>, after: I) -> bool;

    fn parse_once(self, input: &mut I) -> (r: Option<Self::Output>)
        requires
            self.ready(),
            old(input).wf(),
        ensures
            advances(*old(input), *final(input)),
            self.outcome(*old(input), r, *final(input)),
    ;

    /// Runs the parser and reports whether it moved the cursor.
    fn parse_once_and_check_consumed(self, input: &mut I) -> (r: (Option<Self::Output>, bool))
        requires
            self.ready(),
            old(input).wf(),
        ensures
            advances(*old(input), *final(input)),
            self.outcome(*old(input), r.0, *final(input)),
            r.1 == (old(input).offset() != final(input).offset()),
    {
        let start = input.position();
        let output = self.parse_once(input);
        (output, input.position() != start)
    }

    /// Runs the parser on a copy of the cursor.
    fn parse_partial(self, input: I) -> (r: Option<Self::Output>)
        requires
            self.ready(),
            input.wf(),
        ensures
            exists|after: I| advances(input, after) && self.outcome(input, r, after),
    {
        let mut input = input;
        self.parse_once(&mut input)
    }
    /// Runs the parser on a copy of the cursor and asks that it consume all
    /// of the input.
    fn parse_to_end(self, input: I) -> (r: Option<Self::Output>)
        requires
            self.ready(),
            input.wf(),
        ensures
            exists|after: I, s: Option<Self::Output>|
                {
                    &&& #[trigger] self.outcome(input, s, after)
                    &&& advances(input, after)
                    &&& r == (if after.offset() == after.source().len() {
                        s
                    } else {
                        None
                    })
                },
    {
        let mut input = input;
        let ghost before = input;
        let s = self.parse_once(&mut input);
        proof {
            input.lemma_wf();
        }
        if input.is_empty() {
            s
        } else {
            None
        }
    }

    /// Applies `f` to the output.
    fn map_once<O, F>(self, f: F) -> (r: Mapped<Self, F>) where F: FnOnce(Self::Output) -> O
        ensures
            r.parser == self,
            r.f == f,
    {
        Mapped { parser: self, f }
    }

    /// Runs the parser that `f` builds from the output.
    fn flat_map_once<P, F>(self, f: F) -> (r: FlatMap<Self, F>) where
        F: FnOnce(Self::Output) -> P,

        ensures
            r.parser == self,
            r.f == f,
    {
        FlatMap { parser: self, f }
    }

    /// Applies `f`, which may reject the output.
    fn and_then_once<O, F>(self, f: F) -> (r: AndThen<Self, F>) where
        F: FnOnce(Self::Output) -> Option<O>,

        ensures
            r.parser == self,
            r.f == f,
    {
        AndThen { parser: self, f }
    }

    /// Turns a failure without consumed input into an absent value.
    fn optional(self) -> (r: Optional<Self>)
        ensures
            r.parser == self,
    {
        Optional { parser: self }
    }

    /// Returns the span consumed instead of the output.
    fn recognize(self) -> (r: Recognize<Self>)
        ensures
            r.parser == self,
    {
        Recognize { parser: self }
    }

    /// Reads a value from the text that the parser returns.
    fn from_str<O>(self) -> (r: FromStr<Self, O>)
        ensures
            r.parser == self,
    {
        FromStr { parser: self, marker: PhantomData }
    }

    /// Puts the cursor back when the parser fails.
    fn attempt(self) -> (r: Attempt<Self>)
        ensures
            r.parser == self,
    {
        Attempt { parser: self }
    }

    /// Encloses the parser between `left` and `right`.
    fn between<L, R>(self, left: L, right: R) -> (r: Between<Self, L, R>)
        ensures
            r.parser == self,
            r.left == left,
            r.right == right,
    {
        Between { parser: self, left, right }
    }

    /// Tries `parser` when this one fails without consuming input.
    fn or<P>(self, parser: P) -> (r: Or<Self, P>)
        ensures
            r.first == self,
            r.second == parser,
    {
        Or { first: self, second: parser }
    }

    /// Runs `parser` after this one.
    fn followed_by<P>(self, parser: P) -> (r: FollowedBy<Self, P>)
        ensures
            r.first == self,
            r.second == parser,
    {
        FollowedBy { first: self, second: parser }
    }
}

/// A parser that may be run any number of times through an exclusive handle.
///
/// A run may change the parser's private state, but not the runs that the
/// contract allows it.
pub trait ParserMut<I: Stream>: ParserOnce<I> {
    fn parse_mut(&mut self, input: &mut I) -> (r: Option<Self::Output>)
        requires
            old(self).ready(),
            old(input).wf(),
        ensures
            *final(self) == *old(self),
            advances(*old(input), *final(input)),
            old(self).outcome(*old(input), r, *final(input)),
    ;

    /// Runs the parser and reports whether it moved the cursor.
    fn parse_mut_and_check_consumed(&mut self, input: &mut I) -> (r: (Option<Self::Output>, bool))
        requires
            old(self).ready(),
            old(input).wf(),
        ensures
            *final(self) == *old(self),
            advances(*old(input), *final(input)),
            old(self).outcome(*old(input), r.0, *final(input)),
            r.1 == (old(input).offset() != final(input).offset()),
    {
        let start = input.position();
        let output = self.parse_mut(input);
        (output, input.position() != start)
    }
    /// Applies `f`, which may keep state, to the output.
    fn map_mut<O, F>(self, f: F) -> (r: Mapped<Self, F>) where F: FnMut(Self::Output) -> O
        ensures
            r.parser == self,
            r.f == f,
    {
        Mapped { parser: self, f }
    }

    /// Runs the parser that `f`, which may keep state, builds from the output.
    fn flat_map_mut<P, F>(self, f: F) -> (r: FlatMap<Self, F>) where
        F: FnMut(Self::Output) -> P,

        ensures
            r.parser == self,
            r.f == f,
    {
        FlatMap { parser: self, f }
    }

    /// Applies `f`, which may keep state and may reject the output.
    fn and_then_mut<O, F>(self, f: F) -> (r: AndThen<Self, F>) where
        F: FnMut(Self::Output) -> Option<O>,

        ensures
            r.parser == self,
            r.f == f,
    {
        AndThen { parser: self, f }
    }

    /// Zero-or-more repetition, reduced by `f`.
    fn many_mut<F, O>(self, f: F) -> (r: ManyMut<Self, F>) where
        F: FnMut(Vec<Self::Output>) -> Option<O>,

        ensures
            r.parser == self,
            r.f == f,
    {
        ManyMut { parser: self, f }
    }

    /// Steps through the runs of the parser from `input`.
    fn iter_many(self, input: I) -> (r: ManyIter<Self, I>)
        ensures
            r.parser == self,
            r.input == input,
    {
        ManyIter { parser: self, input }
    }

    /// Zero-or-more repetition, outputs discarded.
    fn skip_many(self) -> (r: SkipMany<Self>)
        ensures
            r.parser == self,
    {
        SkipMany { parser: self }
    }

    /// Zero-or-more repetition, outputs collected.
    fn collect_many(self) -> (r: CollectMany<Self>)
        ensures
            r.parser == self,
    {
        CollectMany { parser: self }
    }

    /// One-or-more repetition, reduced by `f`.
    fn many1_mut<F, O>(self, f: F) -> (r: Many1Mut<Self, F>) where
        F: FnMut(Vec<Self::Output>) -> Option<O>,

        ensures
            r.parser == self,
            r.f == f,
    {
        Many1Mut { parser: self, f }
    }

    /// One-or-more repetition, outputs discarded.
    fn skip_many1(self) -> (r: SkipMany1<Self>)
        ensures
            r.parser == self,
    {
        SkipMany1 { parser: self }
    }

    /// One-or-more repetition, outputs collected.
    fn collect_many1(self) -> (r: CollectMany1<Self>)
        ensures
            r.parser == self,
    {
        CollectMany1 { parser: self }
    }

    /// A list separated by `separator`, reduced by `f`.
    fn sep_by_mut<P, F, O>(self, separator: P, f: F) -> (r: SepByMut<Self, P, F>) where
        F: FnMut(Vec<Self::Output>) -> Option<O>,

        ensures
            r.parser == self,
            r.separator == separator,
            r.f == f,
    {
        SepByMut { parser: self, separator, f }
    }

    /// Steps through a list separated by `separator`, from `input`.
    fn iter_sep_by<P>(self, separator: P, input: I) -> (r: SepByIter<Self, P, I>)
        ensures
            r.parser == self,
            r.separator == separator,
            r.start,
            r.input == input,
    {
        SepByIter { parser: self, separator, start: true, input }
    }

    /// A list separated by `separator`, elements discarded.
    fn skip_sep_by<P>(self, separator: P) -> (r: SkipSepBy<Self, P>)
        ensures
            r.parser == self,
            r.separator == separator,
    {
        SkipSepBy { parser: self, separator }
    }

    /// A list separated by `separator`, elements collected.
    fn collect_sep_by<P>(self, separator: P) -> (r: CollectSepBy<Self, P>)
        ensures
            r.parser == self,
            r.separator == separator,
    {
        CollectSepBy { parser: self, separator }
    }
}

/// A parser that may be run any number of times through a shared handle.
pub trait Parser<I: Stream>: ParserMut<I> {
    fn parse(&self, input: &mut I) -> (r: Option<Self::Output>)
        requires
            self.ready(),
            old(input).wf(),
        ensures
            advances(*old(input), *final(input)),
            self.outcome(*old(input), r, *final(input)),
    ;

    /// Runs the parser and reports whether it moved the cursor.
    fn parse_and_check_consumed(&self, input: &mut I) -> (r: (Option<Self::Output>, bool))
        requires
            self.ready(),
            old(input).wf(),
        ensures
            advances(*old(input), *final(input)),
            self.outcome(*old(input), r.0, *final(input)),
            r.1 == (old(input).offset() != final(input).offset()),
    {
        let start = input.position();
        let output = self.parse(input);
        (output, input.position() != start)
    }
    /// Applies `f` to the output.
    fn map<O, F>(self, f: F) -> (r: Mapped<Self, F>) where F: Fn(Self::Output) -> O
        ensures
            r.parser == self,
            r.f == f,
    {
        Mapped { parser: self, f }
    }

    /// Runs the parser that `f` builds from the output.
    fn flat_map<P, F>(self, f: F) -> (r: FlatMap<Self, F>) where
        F: Fn(Self::Output) -> P,

        ensures
            r.parser == self,
            r.f == f,
    {
        FlatMap { parser: self, f }
    }

    /// Applies `f`, which may reject the output.
    fn and_then<O, F>(self, f: F) -> (r: AndThen<Self, F>) where F: Fn(Self::Output) -> Option<O>
        ensures
            r.parser == self,
            r.f == f,
    {
        AndThen { parser: self, f }
    }

    /// Zero-or-more repetition, reduced by `f`.
    fn many<F, O>(self, f: F) -> (r: Many<Self, F>) where F: Fn(Vec<Self::Output>) -> Option<O>
        ensures
            r.parser == self,
            r.f == f,
    {
        Many { parser: self, f }
    }

    /// One-or-more repetition, reduced by `f`.
    fn many1<F, O>(self, f: F) -> (r: Many1<Self, F>) where F: Fn(Vec<Self::Output>) -> Option<O>
        ensures
            r.parser == self,
            r.f == f,
    {
        Many1 { parser: self, f }
    }

    /// A shared handle to the parser, itself a parser with the same runs.
    fn by_ref(&self) -> (r: &Self)
        ensures
            *r == *self,
    {
        self
    }

    /// A list separated by `separator`, reduced by `f`.
    fn sep_by<P, F, O>(self, separator: P, f: F) -> (r: SepBy<Self, P, F>) where
        F: Fn(Vec<Self::Output>) -> Option<O>,

        ensures
            r.parser == self,
            r.separator == separator,
            r.f == f,
    {
        SepBy { parser: self, separator, f }
    }
}

impl<'r, P: Parser<I>, I: Stream> ParserOnce<I> for &'r P {
    type Output = P::Output;

    open spec fn ready(&self) -> bool {
        (**self).ready()
    }

    open spec fn outcome(&self, before: I, r: Option<P::Output>, after: I) -> bool {
        (**self).outcome(before, r, after)
    }

    fn parse_once(self, input: &mut I) -> (r: Option<P::Output>) {
        (*self).parse(input)
    }
}

impl<'r, P: Parser<I>, I: Stream> ParserMut<I> for &'r P {
    fn parse_mut(&mut self, input: &mut I) -> (r: Option<P::Output>) {
        (**self).parse(input)
    }
}

impl<'r, P: Parser<I>, I: Stream> Parser<I> for &'r P {
    fn parse(&self, input: &mut I) -> (r: Option<P::Output>) {
        (**self).parse(input)
    }
}

} // verus!
