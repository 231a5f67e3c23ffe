use core::marker::PhantomData;
use vstd::prelude::*;

use crate::parser::{Parser, ParserMut, ParserOnce};
use crate::combinator::{FollowedBy, Optional, Recognize};
use crate::primitive::{token, Digit, Token};
use crate::repeat::SkipMany1;
use crate::stream::{Stream, Text};

verus! {

/// `s` is one or more ASCII decimal digits.
pub open spec fn is_decimal(s: Seq<char>) -> bool {
    &&& s.len() > 0
    &&& forall|i: int| 0 <= i < s.len() ==> '0' <= #[trigger] s[i] && s[i] <= '9'
}

/// The number that the decimal digits `s` denote.
pub open spec fn decimal_value(s: Seq<char>) -> nat
    decreases s.len(),
{
    if s.len() == 0 {
        0
    } else {
        decimal_value(s.drop_last()) * 10 + (s.last() as nat - '0' as nat) as nat
    }
}

/// The number an unsigned text denotes: an optional `+`, then decimal digits.
pub open spec fn unsigned_text(s: Seq<char>) -> Option<int> {
    let digits = if s.len() > 0 && s[0] == '+' {
        s.drop_first()
    } else {
        s
    };
    if is_decimal(digits) {
        Some(decimal_value(digits) as int)
    } else {
        None
    }
}

/// The number a signed text denotes: an optional `+` or `-`, then decimal digits.
pub open spec fn signed_text(s: Seq<char>) -> Option<int> {
    if s.len() > 0 && s[0] == '-' {
        if is_decimal(s.drop_first()) {
            Some(-(decimal_value(s.drop_first()) as int))
        } else {
            None
        }
    } else {
        unsigned_text(s)
    }
}

/// `v`, when it lies within `lo ..= hi`.
pub open spec fn within(v: Option<int>, lo: int, hi: int) -> Option<int> {
    match v {
        Some(n) if lo <= n <= hi => Some(n),
        _ => None,
    }
}

/// Values that can be read from text.
pub trait FromText: Sized {
    /// Whether the text `s` denotes a value.
    spec fn readable(s: Seq<char>) -> bool;

    /// `v` is the value that the text `s` denotes.
    spec fn denotes(s: Seq<char>, v: Self) -> bool;

    fn from_text(s: &str) -> (r: Option<Self>)
        ensures
            r is Some <==> Self::readable(s@),
            r matches Some(v) ==> Self::denotes(s@, v),
    ;
}

/// The `u32` that a text denotes, if any.
pub open spec fn u32_text(s: Seq<char>) -> Option<u32> {
    match within(unsigned_text(s), 0, u32::MAX as int) {
        Some(n) => Some(n as u32),
        None => None,
    }
}

/// Relies on `<u32 as core::str::FromStr>::from_str`: an optional `+` and
/// then ASCII decimal digits, with a value that fits; anything else is an error.
#[verifier::external_body]
fn parse_u32(s: &str) -> (r: Option<u32>)
    ensures
        r == u32_text(s@),
{
    s.parse::<u32>().ok()
}

/// The `u64` that a text denotes, if any.
pub open spec fn u64_text(s: Seq<char>) -> Option<u64> {
    match within(unsigned_text(s), 0, u64::MAX as int) {
        Some(n) => Some(n as u64),
        None => None,
    }
}

/// Relies on `<u64 as core::str::FromStr>::from_str`: an optional `+` and
/// then ASCII decimal digits, with a value that fits; anything else is an error.
#[verifier::external_body]
fn parse_u64(s: &str) -> (r: Option<u64>)
    ensures
        r == u64_text(s@),
{
    s.parse::<u64>().ok()
}

/// The `i32` that a text denotes, if any.
pub open spec fn i32_text(s: Seq<char>) -> Option<i32> {
    match within(signed_text(s), i32::MIN as int, i32::MAX as int) {
        Some(n) => Some(n as i32),
        None => None,
    }
}

/// Relies on `<i32 as core::str::FromStr>::from_str`: an optional `+` or `-`
/// and then ASCII decimal digits, with a value that fits; anything else is an
/// error.
#[verifier::external_body]
fn parse_i32(s: &str) -> (r: Option<i32>)
    ensures
        r == i32_text(s@),
{
    s.parse::<i32>().ok()
}

/// The `i64` that a text denotes, if any.
pub open spec fn i64_text(s: Seq<char>) -> Option<i64> {
    match within(signed_text(s), i64::MIN as int, i64::MAX as int) {
        Some(n) => Some(n as i64),
        None => None,
    }
}

/// Relies on `<i64 as core::str::FromStr>::from_str`: an optional `+` or `-`
/// and then ASCII decimal digits, with a value that fits; anything else is an
/// error.
#[verifier::external_body]
fn parse_i64(s: &str) -> (r: Option<i64>)
    ensures
        r == i64_text(s@),
{
    s.parse::<i64>().ok()
}

impl FromText for u32 {
    open spec fn readable(s: Seq<char>) -> bool {
        u32_text(s) is Some
    }

    open spec fn denotes(s: Seq<char>, v: u32) -> bool {
        u32_text(s) == Some(v)
    }

    fn from_text(s: &str) -> (r: Option<u32>) {
        parse_u32(s)
    }
}

impl FromText for u64 {
    open spec fn readable(s: Seq<char>) -> bool {
        u64_text(s) is Some
    }

    open spec fn denotes(s: Seq<char>, v: u64) -> bool {
        u64_text(s) == Some(v)
    }

    fn from_text(s: &str) -> (r: Option<u64>) {
        parse_u64(s)
    }
}

impl FromText for i32 {
    open spec fn readable(s: Seq<char>) -> bool {
        i32_text(s) is Some
    }

    open spec fn denotes(s: Seq<char>, v: i32) -> bool {
        i32_text(s) == Some(v)
    }

    fn from_text(s: &str) -> (r: Option<i32>) {
        parse_i32(s)
    }
}

impl FromText for i64 {
    open spec fn readable(s: Seq<char>) -> bool {
        i64_text(s) is Some
    }

    open spec fn denotes(s: Seq<char>, v: i64) -> bool {
        i64_text(s) == Some(v)
    }

    fn from_text(s: &str) -> (r: Option<i64>) {
        parse_i64(s)
    }
}

impl FromText for String {
    open spec fn readable(s: Seq<char>) -> bool {
        true
    }

    open spec fn denotes(s: Seq<char>, v: String) -> bool {
        v@ == s
    }

    fn from_text(s: &str) -> (r: Option<String>) {
        Some(s.to_owned())
    }
}

/// Reads a value from the text that a parser returns.
///
/// When the text denotes no value the run fails, though the parser has
/// consumed it.
pub struct FromStr<P, O> {
    pub parser: P,
    pub marker: PhantomData<O>,
}

impl<P: Copy, O> Clone for FromStr<P, O> {
    fn clone(&self) -> (r: Self)
        ensures
            r == *self,
    {
        FromStr { parser: self.parser, marker: PhantomData }
    }
}

impl<P: Copy, O> Copy for FromStr<P, O> {

}

impl<'a, P, I, O> ParserOnce<I> for FromStr<P, O> where
    P: ParserOnce<I, Output = &'a str>,
    O: FromText,
    I: Stream,
 {
    type Output = O;

    open spec fn ready(&self) -> bool {
        self.parser.ready()
    }

    open spec fn outcome(&self, before: I, r: Option<O>, after: I) -> bool {
        ||| r is None && self.parser.outcome(before, None, after)
        ||| exists|s: &'a str|
            {
                &&& #[trigger] self.parser.outcome(before, Some(s), after)
                &&& r is Some <==> O::readable(s@)
                &&& r matches Some(v) ==> O::denotes(s@, v)
            }
    }

    fn parse_once(self, input: &mut I) -> (r: Option<O>) {
        let ghost before = *input;
        match self.parser.parse_once(input) {
            Some(s) => {
                assert(self.parser.outcome(before, Some(s), *input));
                O::from_text(s)
            },
            None => None,
        }
    }
}

impl<'a, P, I, O> ParserMut<I> for FromStr<P, O> where
    P: ParserMut<I, Output = &'a str>,
    O: FromText,
    I: Stream,
 {
    fn parse_mut(&mut self, input: &mut I) -> (r: Option<O>) {
        let ghost before = *input;
        match self.parser.parse_mut(input) {
            Some(s) => {
                assert(self.parser.outcome(before, Some(s), *input));
                O::from_text(s)
            },
            None => None,
        }
    }
}

impl<'a, P, I, O> Parser<I> for FromStr<P, O> where
    P: Parser<I, Output = &'a str>,
    O: FromText,
    I: Stream,
 {
    fn parse(&self, input: &mut I) -> (r: Option<O>) {
        let ghost before = *input;
        match self.parser.parse(input) {
            Some(s) => {
                assert(self.parser.outcome(before, Some(s), *input));
                O::from_text(s)
            },
            None => None,
        }
    }
}

/// Reads a value of type `O` from the text that `parser` returns.
pub fn from_str<P, O>(parser: P) -> (r: FromStr<P, O>)
    ensures
        r.parser == parser,
{
    FromStr { parser, marker: PhantomData }
}

/// An unsigned decimal: one or more digits, read as a `u32`.
pub fn u32<'a>() -> FromStr<Recognize<SkipMany1<Digit<Text<'a>>>>, u32> {
    FromStr { parser: Recognize { parser: SkipMany1 { parser: Digit { marker: PhantomData } } }, marker: PhantomData }
}

/// An unsigned decimal: one or more digits, read as a `u64`.
pub fn u64<'a>() -> FromStr<Recognize<SkipMany1<Digit<Text<'a>>>>, u64> {
    FromStr { parser: Recognize { parser: SkipMany1 { parser: Digit { marker: PhantomData } } }, marker: PhantomData }
}

/// A signed decimal: an optional `-` and one or more digits, read as an `i32`.
pub fn i32<'a>() -> FromStr<Recognize<FollowedBy<Optional<Token<char, Text<'a>>>, SkipMany1<Digit<Text<'a>>>>>, i32> {
    FromStr {
        parser: Recognize {
            parser: FollowedBy {
                first: Optional { parser: token('-') },
                second: SkipMany1 { parser: Digit { marker: PhantomData } },
            },
        },
        marker: PhantomData,
    }
}

/// A signed decimal: an optional `-` and one or more digits, read as an `i64`.
pub fn i64<'a>() -> FromStr<Recognize<FollowedBy<Optional<Token<char, Text<'a>>>, SkipMany1<Digit<Text<'a>>>>>, i64> {
    FromStr {
        parser: Recognize {
            parser: FollowedBy {
                first: Optional { parser: token('-') },
                second: SkipMany1 { parser: Digit { marker: PhantomData } },
            },
        },
        marker: PhantomData,
    }
}

} // verus!
