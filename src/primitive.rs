use core::marker::PhantomData;
use vstd::prelude::*;
use vstd::std_specs::cmp::PartialEqSpec;

use crate::parser::{Parser, ParserMut, ParserOnce};
use crate::stream::{advances, moved_by, next_item, peek, remaining, skip_one, Stream};

verus! {

/// Hands the next element to a function and consumes it when the function
/// returns a value.
pub struct SatisfyMap<F, I, O> {
    pub f: F,
    pub marker: PhantomData<(I, O)>,
}

impl<F: Copy, I, O> Clone for SatisfyMap<F, I, O> {
    fn clone(&self) -> (r: Self)
        ensures
            r == *self,
    {
        SatisfyMap { f: self.f, marker: PhantomData }
    }
}

impl<F: Copy, I, O> Copy for SatisfyMap<F, I, O> {

}

impl<F, I, O> ParserOnce<I> for SatisfyMap<F, I, O> where
    F: FnOnce(I::Item) -> Option<O>,
    I: Stream,
 {
    type Output = O;

    open spec fn ready(&self) -> bool {
        forall|x: I::Item| call_requires(self.f, (x,))
    }

    open spec fn outcome(&self, before: I, r: Option<O>, after: I) -> bool {
        match next_item(before) {
            None => r is None && after == before,
            Some(x) => {
                &&& call_ensures(self.f, (x,), r)
                &&& r is Some ==> moved_by(before, after, 1)
                &&& r is None ==> after == before
            },
        }
    }

    fn parse_once(self, input: &mut I) -> (r: Option<O>) {
        input.uncons_map(self.f)
    }
}

impl<F, I, O> ParserMut<I> for SatisfyMap<F, I, O> where
    F: FnMut(I::Item) -> Option<O>,
    I: Stream,
 {
    fn parse_mut(&mut self, input: &mut I) -> (r: Option<O>) {
        match peek(input) {
            None => None,
            Some(x) => {
                let r = (self.f)(x);
                if r.is_some() {
                    skip_one(input);
                }
                r
            },
        }
    }
}

impl<F, I, O> Parser<I> for SatisfyMap<F, I, O> where
    F: Fn(I::Item) -> Option<O>,
    I: Stream,
 {
    fn parse(&self, input: &mut I) -> (r: Option<O>) {
        broadcast use vstd::function::group_function_axioms;

        input.uncons_map(&self.f)
    }
}

/// A parser from a function of the element, usable once.
pub fn satisfy_map_once<F, I, O>(f: F) -> (r: SatisfyMap<F, I, O>) where
    F: FnOnce(I::Item) -> Option<O>,
    I: Stream,

    ensures
        r.f == f,
{
    SatisfyMap { f, marker: PhantomData }
}

/// A parser from a function of the element that may keep state.
pub fn satisfy_map_mut<F, I, O>(f: F) -> (r: SatisfyMap<F, I, O>) where
    F: FnMut(I::Item) -> Option<O>,
    I: Stream,

    ensures
        r.f == f,
{
    SatisfyMap { f, marker: PhantomData }
}

/// A parser from a function of the element.
pub fn satisfy_map<F, I, O>(f: F) -> (r: SatisfyMap<F, I, O>) where
    F: Fn(I::Item) -> Option<O>,
    I: Stream,

    ensures
        r.f == f,
{
    SatisfyMap { f, marker: PhantomData }
}

/// A parser made of a function from a cursor to a result and the cursor after it.
pub struct FromFn<F> {
    pub f: F,
}

impl<F: Copy> Clone for FromFn<F> {
    fn clone(&self) -> (r: Self)
        ensures
            r == *self,
    {
        FromFn { f: self.f }
    }
}

impl<F: Copy> Copy for FromFn<F> {

}

impl<F, I, O> ParserOnce<I> for FromFn<F> where F: FnOnce(I) -> (Option<O>, I), I: Stream {
    type Output = O;

    open spec fn ready(&self) -> bool {
        &&& forall|i: I| i.wf() ==> call_requires(self.f, (i,))
        &&& forall|i: I, r: Option<O>, j: I|
            i.wf() && call_ensures(self.f, (i,), (r, j)) ==> advances(i, j)
    }

    open spec fn outcome(&self, before: I, r: Option<O>, after: I) -> bool {
        call_ensures(self.f, (before,), (r, after))
    }

    fn parse_once(self, input: &mut I) -> (r: Option<O>) {
        let (r, next) = (self.f)(*input);
        *input = next;
        r
    }
}

impl<F, I, O> ParserMut<I> for FromFn<F> where F: FnMut(I) -> (Option<O>, I), I: Stream {
    fn parse_mut(&mut self, input: &mut I) -> (r: Option<O>) {
        let (r, next) = (self.f)(*input);
        *input = next;
        r
    }
}

impl<F, I, O> Parser<I> for FromFn<F> where F: Fn(I) -> (Option<O>, I), I: Stream {
    fn parse(&self, input: &mut I) -> (r: Option<O>) {
        let (r, next) = (self.f)(*input);
        *input = next;
        r
    }
}

/// A single-use parser from a function on cursors.
pub fn from_fn_once<F, I, O>(f: F) -> (r: FromFn<F>) where
    F: FnOnce(I) -> (Option<O>, I),
    I: Stream,

    ensures
        r.f == f,
{
    FromFn { f }
}

/// A repeatable parser from a function on cursors that may keep state.
pub fn from_fn_mut<F, I, O>(f: F) -> (r: FromFn<F>) where
    F: FnMut(I) -> (Option<O>, I),
    I: Stream,

    ensures
        r.f == f,
{
    FromFn { f }
}

/// A reentrant parser from a function on cursors.
pub fn from_fn<F, I, O>(f: F) -> (r: FromFn<F>) where F: Fn(I) -> (Option<O>, I), I: Stream
    ensures
        r.f == f,
{
    FromFn { f }
}

} // verus!

verus! {

/// Consumes the next element when a predicate holds of it, and returns it.
pub struct Satisfy<F, I> {
    pub f: F,
    pub marker: PhantomData<I>,
}

impl<F: Copy, I> Clone for Satisfy<F, I> {
    fn clone(&self) -> (r: Self)
        ensures
            r == *self,
    {
        Satisfy { f: self.f, marker: PhantomData }
    }
}

impl<F: Copy, I> Copy for Satisfy<F, I> {

}

impl<F, I> ParserOnce<I> for Satisfy<F, I> where F: FnOnce(I::Item) -> bool, I: Stream {
    type Output = I::Item;

    open spec fn ready(&self) -> bool {
        forall|x: I::Item| call_requires(self.f, (x,))
    }

    open spec fn outcome(&self, before: I, r: Option<I::Item>, after: I) -> bool {
        match next_item(before) {
            None => r is None && after == before,
            Some(x) => {
                ||| r == Some(x) && call_ensures(self.f, (x,), true) && moved_by(before, after, 1)
                ||| r is None && call_ensures(self.f, (x,), false) && after == before
            },
        }
    }

    fn parse_once(self, input: &mut I) -> (r: Option<I::Item>) {
        match peek(input) {
            None => None,
            Some(x) => if (self.f)(x) {
                skip_one(input);
                Some(x)
            } else {
                None
            },
        }
    }
}

impl<F, I> ParserMut<I> for Satisfy<F, I> where F: FnMut(I::Item) -> bool, I: Stream {
    fn parse_mut(&mut self, input: &mut I) -> (r: Option<I::Item>) {
        match peek(input) {
            None => None,
            Some(x) => if (self.f)(x) {
                skip_one(input);
                Some(x)
            } else {
                None
            },
        }
    }
}

impl<F, I> Parser<I> for Satisfy<F, I> where F: Fn(I::Item) -> bool, I: Stream {
    fn parse(&self, input: &mut I) -> (r: Option<I::Item>) {
        match peek(input) {
            None => None,
            Some(x) => if (self.f)(x) {
                skip_one(input);
                Some(x)
            } else {
                None
            },
        }
    }
}

/// A parser of one element for which `f` holds.
pub fn satisfy<F, I>(f: F) -> (r: Satisfy<F, I>) where F: Fn(I::Item) -> bool, I: Stream
    ensures
        r.f == f,
{
    Satisfy { f, marker: PhantomData }
}

/// Consumes the next element when it equals a given one.
pub struct Token<T, I> {
    pub item: T,
    pub marker: PhantomData<I>,
}

impl<T: Copy, I> Clone for Token<T, I> {
    fn clone(&self) -> (r: Self)
        ensures
            r == *self,
    {
        Token { item: self.item, marker: PhantomData }
    }
}

impl<T: Copy, I> Copy for Token<T, I> {

}

impl<T, I> ParserOnce<I> for Token<T, I> where T: PartialEq + Copy, I: Stream<Item = T> {
    type Output = T;

    open spec fn ready(&self) -> bool {
        true
    }

    open spec fn outcome(&self, before: I, r: Option<T>, after: I) -> bool {
        match next_item(before) {
            None => r is None && after == before,
            Some(x) => {
                &&& r == Some(x) && moved_by(before, after, 1) || r is None && after == before
                &&& T::obeys_eq_spec() ==> (r is Some <==> x.eq_spec(&self.item))
            },
        }
    }

    fn parse_once(self, input: &mut I) -> (r: Option<T>) {
        self.parse(input)
    }
}

impl<T, I> ParserMut<I> for Token<T, I> where T: PartialEq + Copy, I: Stream<Item = T> {
    fn parse_mut(&mut self, input: &mut I) -> (r: Option<T>) {
        self.parse(input)
    }
}

impl<T, I> Parser<I> for Token<T, I> where T: PartialEq + Copy, I: Stream<Item = T> {
    fn parse(&self, input: &mut I) -> (r: Option<T>) {
        match peek(input) {
            None => None,
            Some(x) => if x == self.item {
                skip_one(input);
                Some(x)
            } else {
                None
            },
        }
    }
}

/// A parser of one element equal to `item`.
pub fn token<T: PartialEq + Copy, I: Stream<Item = T>>(item: T) -> (r: Token<T, I>)
    ensures
        r.item == item,
{
    Token { item, marker: PhantomData }
}

/// Consumes any one element.
pub struct Any<I> {
    pub marker: PhantomData<I>,
}

impl<I> Clone for Any<I> {
    fn clone(&self) -> (r: Self)
        ensures
            r == *self,
    {
        Any { marker: PhantomData }
    }
}

impl<I> Copy for Any<I> {

}

impl<I: Stream> ParserOnce<I> for Any<I> {
    type Output = I::Item;

    open spec fn ready(&self) -> bool {
        true
    }

    open spec fn outcome(&self, before: I, r: Option<I::Item>, after: I) -> bool {
        match next_item(before) {
            None => r is None && after == before,
            Some(x) => r == Some(x) && moved_by(before, after, 1),
        }
    }

    fn parse_once(self, input: &mut I) -> (r: Option<I::Item>) {
        self.parse(input)
    }
}

impl<I: Stream> ParserMut<I> for Any<I> {
    fn parse_mut(&mut self, input: &mut I) -> (r: Option<I::Item>) {
        self.parse(input)
    }
}

impl<I: Stream> Parser<I> for Any<I> {
    fn parse(&self, input: &mut I) -> (r: Option<I::Item>) {
        let r = peek(input);
        if r.is_some() {
            skip_one(input);
        }
        r
    }
}

/// A parser of any one element.
pub fn any<I: Stream>() -> Any<I> {
    Any { marker: PhantomData }
}

/// Succeeds, consuming nothing, exactly at the end of the input.
pub struct Eof<I> {
    pub marker: PhantomData<I>,
}

impl<I> Clone for Eof<I> {
    fn clone(&self) -> (r: Self)
        ensures
            r == *self,
    {
        Eof { marker: PhantomData }
    }
}

impl<I> Copy for Eof<I> {

}

impl<I: Stream> ParserOnce<I> for Eof<I> {
    type Output = ();

    open spec fn ready(&self) -> bool {
        true
    }

    open spec fn outcome(&self, before: I, r: Option<()>, after: I) -> bool {
        &&& after == before
        &&& r == (if next_item(before) is None {
            Some(())
        } else {
            None
        })
    }

    fn parse_once(self, input: &mut I) -> (r: Option<()>) {
        self.parse(input)
    }
}

impl<I: Stream> ParserMut<I> for Eof<I> {
    fn parse_mut(&mut self, input: &mut I) -> (r: Option<()>) {
        self.parse(input)
    }
}

impl<I: Stream> Parser<I> for Eof<I> {
    fn parse(&self, input: &mut I) -> (r: Option<()>) {
        proof {
            input.lemma_wf();
        }
        if input.is_empty() {
            Some(())
        } else {
            None
        }
    }
}

/// A parser that succeeds only at the end of the input.
pub fn eof<I: Stream>() -> Eof<I> {
    Eof { marker: PhantomData }
}

/// Succeeds with a fixed value, consuming nothing.
pub struct Value<O, I> {
    pub output: O,
    pub marker: PhantomData<I>,
}

impl<O: Copy, I> Clone for Value<O, I> {
    fn clone(&self) -> (r: Self)
        ensures
            r == *self,
    {
        Value { output: self.output, marker: PhantomData }
    }
}

impl<O: Copy, I> Copy for Value<O, I> {

}

impl<I: Stream, O: Copy> ParserOnce<I> for Value<O, I> {
    type Output = O;

    open spec fn ready(&self) -> bool {
        true
    }

    open spec fn outcome(&self, before: I, r: Option<O>, after: I) -> bool {
        r == Some(self.output) && after == before
    }

    fn parse_once(self, input: &mut I) -> (r: Option<O>) {
        self.parse(input)
    }
}

impl<I: Stream, O: Copy> ParserMut<I> for Value<O, I> {
    fn parse_mut(&mut self, input: &mut I) -> (r: Option<O>) {
        self.parse(input)
    }
}

impl<I: Stream, O: Copy> Parser<I> for Value<O, I> {
    fn parse(&self, input: &mut I) -> (r: Option<O>) {
        Some(self.output)
    }
}

/// A parser that returns `output` without reading anything.
pub fn value<O: Copy, I: Stream>(output: O) -> (r: Value<O, I>)
    ensures
        r.output == output,
{
    Value { output, marker: PhantomData }
}

} // verus!

verus! {

/// A run of a literal: the longest prefix of `lit` that matches the input is
/// consumed, and the run succeeds exactly when that prefix is all of `lit`.
pub open spec fn literal_outcome<I: Stream>(
    lit: Seq<I::Item>,
    before: I,
    r: Option<()>,
    after: I,
) -> bool {
    let k = after.offset() - before.offset();
    let rest = remaining(before);
    &&& advances(before, after)
    &&& k <= lit.len()
    &&& k <= rest.len()
    &&& lit.take(k) == rest.take(k)
    &&& (r is Some <==> k == lit.len())
    &&& k < lit.len() && k < rest.len() ==> lit[k] != rest[k]
}

/// Matches the characters of a string one by one.
///
/// The match is not atomic: on a mismatch the characters that did match stay
/// consumed.
pub struct Str<'a, I> {
    pub text: &'a str,
    pub marker: PhantomData<I>,
}

impl<'a, I> Clone for Str<'a, I> {
    fn clone(&self) -> (r: Self)
        ensures
            r == *self,
    {
        Str { text: self.text, marker: PhantomData }
    }
}

impl<'a, I> Copy for Str<'a, I> {

}

impl<'a, I: Stream<Item = char>> ParserOnce<I> for Str<'a, I> {
    type Output = ();

    open spec fn ready(&self) -> bool {
        true
    }

    open spec fn outcome(&self, before: I, r: Option<()>, after: I) -> bool {
        literal_outcome(self.text@, before, r, after)
    }

    fn parse_once(self, input: &mut I) -> (r: Option<()>) {
        self.parse(input)
    }
}

impl<'a, I: Stream<Item = char>> ParserMut<I> for Str<'a, I> {
    fn parse_mut(&mut self, input: &mut I) -> (r: Option<()>) {
        self.parse(input)
    }
}

impl<'a, I: Stream<Item = char>> Parser<I> for Str<'a, I> {
    fn parse(&self, input: &mut I) -> (r: Option<()>) {
        let ghost before = *input;
        let lit = self.text;
        let n = lit.unicode_len();
        let mut i: usize = 0;
        proof {
            input.lemma_wf();
        }
        while i < n
            invariant
                before == *old(input),
                lit == self.text,
                n == lit@.len(),
                i <= n,
                advances(before, *input),
                input.offset() == before.offset() + i,
                i <= remaining(before).len(),
                lit@.take(i as int) == remaining(before).take(i as int),
            decreases n - i,
        {
            proof {
                input.lemma_wf();
            }
            let want = lit.get_char(i);
            match peek(input) {
                None => {
                    assert(remaining(before).len() == i);
                    return None;
                },
                Some(c) => {
                    assert(remaining(before)[i as int] == c);
                    if c == want {
                        skip_one(input);
                        proof {
                            assert(lit@.take(i + 1) =~= remaining(before).take(i + 1));
                        }
                        i = i + 1;
                    } else {
                        return None;
                    }
                },
            }
        }
        Some(())
    }
}

/// A parser of the literal `text`.
pub fn string<'a, I: Stream<Item = char>>(text: &'a str) -> (r: Str<'a, I>)
    ensures
        r.text == text,
{
    Str { text, marker: PhantomData }
}

/// Matches the elements of a slice one by one; not atomic, as [`Str`].
pub struct Tokens<'a, T, I> {
    pub items: &'a [T],
    pub marker: PhantomData<I>,
}

impl<'a, T, I> Clone for Tokens<'a, T, I> {
    fn clone(&self) -> (r: Self)
        ensures
            r == *self,
    {
        Tokens { items: self.items, marker: PhantomData }
    }
}

impl<'a, T, I> Copy for Tokens<'a, T, I> {

}

impl<'a, T, I> ParserOnce<I> for Tokens<'a, T, I> where T: PartialEq + Copy, I: Stream<Item = T> {
    type Output = ();

    open spec fn ready(&self) -> bool {
        true
    }

    open spec fn outcome(&self, before: I, r: Option<()>, after: I) -> bool {
        let k = after.offset() - before.offset();
        let lit = self.items@;
        let rest = remaining(before);
        &&& advances(before, after)
        &&& k <= lit.len()
        &&& k <= rest.len()
        &&& (r is Some <==> k == lit.len())
        &&& T::obeys_eq_spec() ==> {
            &&& forall|j: int| 0 <= j < k ==> #[trigger] rest[j].eq_spec(&lit[j])
            &&& k < lit.len() && k < rest.len() ==> !rest[k].eq_spec(&lit[k])
        }
    }

    fn parse_once(self, input: &mut I) -> (r: Option<()>) {
        self.parse(input)
    }
}

impl<'a, T, I> ParserMut<I> for Tokens<'a, T, I> where T: PartialEq + Copy, I: Stream<Item = T> {
    fn parse_mut(&mut self, input: &mut I) -> (r: Option<()>) {
        self.parse(input)
    }
}

impl<'a, T, I> Parser<I> for Tokens<'a, T, I> where T: PartialEq + Copy, I: Stream<Item = T> {
    fn parse(&self, input: &mut I) -> (r: Option<()>) {
        let ghost before = *input;
        let n = self.items.len();
        let mut i: usize = 0;
        proof {
            input.lemma_wf();
        }
        while i < n
            invariant
                before == *old(input),
                n == self.items@.len(),
                i <= n,
                advances(before, *input),
                input.offset() == before.offset() + i,
                i <= remaining(before).len(),
                T::obeys_eq_spec() ==> forall|j: int|
                    0 <= j < i ==> #[trigger] remaining(before)[j].eq_spec(&self.items@[j]),
            decreases n - i,
        {
            proof {
                input.lemma_wf();
            }
            let want = self.items[i];
            match peek(input) {
                None => {
                    return None;
                },
                Some(x) => {
                    if x == want {
                        skip_one(input);
                        i = i + 1;
                    } else {
                        return None;
                    }
                },
            }
        }
        Some(())
    }
}

/// A parser of the elements of `items`, in order.
pub fn tokens<'a, T: PartialEq + Copy, I: Stream<Item = T>>(items: &'a [T]) -> (r: Tokens<'a, T, I>)
    ensures
        r.items == items,
{
    Tokens { items, marker: PhantomData }
}

/// The value of a decimal digit.
pub open spec fn digit_value(c: char) -> Option<u32> {
    if '0' <= c && c <= '9' {
        Some((c as u32 - '0' as u32) as u32)
    } else {
        None
    }
}

/// Consumes one decimal digit and returns its value.
pub struct Digit<I> {
    pub marker: PhantomData<I>,
}

impl<I> Clone for Digit<I> {
    fn clone(&self) -> (r: Self)
        ensures
            r == *self,
    {
        Digit { marker: PhantomData }
    }
}

impl<I> Copy for Digit<I> {

}

impl<I: Stream<Item = char>> ParserOnce<I> for Digit<I> {
    type Output = u32;

    open spec fn ready(&self) -> bool {
        true
    }

    open spec fn outcome(&self, before: I, r: Option<u32>, after: I) -> bool {
        match next_item(before) {
            Some(c) if digit_value(c) is Some => r == digit_value(c) && moved_by(before, after, 1),
            _ => r is None && after == before,
        }
    }

    fn parse_once(self, input: &mut I) -> (r: Option<u32>) {
        self.parse(input)
    }
}

impl<I: Stream<Item = char>> ParserMut<I> for Digit<I> {
    fn parse_mut(&mut self, input: &mut I) -> (r: Option<u32>) {
        self.parse(input)
    }
}

impl<I: Stream<Item = char>> Parser<I> for Digit<I> {
    fn parse(&self, input: &mut I) -> (r: Option<u32>) {
        match peek(input) {
            Some(c) => {
                if '0' <= c && c <= '9' {
                    skip_one(input);
                    Some(c as u32 - '0' as u32)
                } else {
                    None
                }
            },
            None => None,
        }
    }
}

/// A parser of one decimal digit.
pub fn digit<I: Stream<Item = char>>() -> Digit<I> {
    Digit { marker: PhantomData }
}

} // verus!
