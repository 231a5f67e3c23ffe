use vstd::prelude::*;
use vstd::slice::{axiom_spec_len, slice_subrange};
use vstd::string::{StrSliceExecFns, StringSliceAdditionalSpecFns};
use vstd::utf8::{
    char_is_scalar, encode_scalar, encode_utf8, encode_utf8_decode_utf8, encode_utf8_first_scalar,
    encode_utf8_valid_utf8, is_char_boundary,
};

verus! {

/// A cheaply copyable cursor over an input sequence.
///
/// A cursor is modelled by the whole input it was created over (`source`) and
/// the index of the next element (`offset`). Cursors derived from one another
/// by copying and advancing share their source, so positions taken from them
/// can be combined into ranges.
pub trait Stream: Copy + Sized {
    type Item: Copy;

    type Range: View<V = Seq<Self::Item>>;

    /// The whole input of this cursor's lineage.
    spec fn source(&self) -> Seq<Self::Item>;

    /// How many elements of the source lie behind the cursor.
    spec fn offset(&self) -> nat;

    /// The cursor points inside its source.
    spec fn wf(&self) -> bool;

    /// Every well-formed cursor has its offset within the source.
    proof fn lemma_wf(&self)
        requires
            self.wf(),
        ensures
            self.offset() <= self.source().len(),
            self.source().len() <= usize::MAX,
    ;

    /// Whether no input remains.
    fn is_empty(&self) -> (b: bool)
        requires
            self.wf(),
        ensures
            b == (self.offset() == self.source().len()),
    ;

    /// The position of the cursor within its source.
    fn position(&self) -> (p: usize)
        requires
            self.wf(),
        ensures
            p == self.offset(),
    ;

    /// Hands the next element to `f`; consumes it exactly when `f` returns a value.
    fn uncons_map<O, F: FnOnce(Self::Item) -> Option<O>>(&mut self, f: F) -> (r: Option<O>)
        requires
            old(self).wf(),
            old(self).offset() < old(self).source().len() ==> call_requires(
                f,
                (old(self).source()[old(self).offset() as int],),
            ),
        ensures
            old(self).offset() >= old(self).source().len() ==> r is None && *final(self)
                == *old(self),
            old(self).offset() < old(self).source().len() ==> call_ensures(
                f,
                (old(self).source()[old(self).offset() as int],),
                r,
            ),
            r is None ==> *final(self) == *old(self),
            r is Some ==> {
                &&& final(self).wf()
                &&& final(self).source() == old(self).source()
                &&& final(self).offset() == old(self).offset() + 1
            },
    ;

    /// The elements of the source between two positions of this lineage.
    fn between(&self, start: usize, end: usize) -> (r: Self::Range)
        requires
            self.wf(),
            start <= end <= self.source().len(),
        ensures
            r@ == self.source().subrange(start as int, end as int),
    ;
}

/// The input that lies ahead of a cursor.
pub open spec fn remaining<I: Stream>(s: I) -> Seq<I::Item> {
    s.source().skip(s.offset() as int)
}

/// The element the cursor would consume next, if any.
pub open spec fn next_item<I: Stream>(s: I) -> Option<I::Item> {
    if s.offset() < s.source().len() {
        Some(s.source()[s.offset() as int])
    } else {
        None
    }
}

/// `b` is `a` moved forward by exactly `n` elements.
pub open spec fn moved_by<I: Stream>(a: I, b: I, n: nat) -> bool {
    &&& b.wf()
    &&& b.source() == a.source()
    &&& b.offset() == a.offset() + n
}

/// `b` lies in the lineage of `a`, at or after it.
pub open spec fn advances<I: Stream>(a: I, b: I) -> bool {
    &&& b.wf()
    &&& b.source() == a.source()
    &&& a.offset() <= b.offset()
}

/// The next element, left in place.
pub fn peek<I: Stream>(input: &I) -> (r: Option<I::Item>)
    requires
        input.wf(),
    ensures
        r == next_item(*input),
{
    let mut probe = *input;
    probe.uncons_map(|y: I::Item| -> (o: Option<I::Item>) ensures o == Some(y) { Some(y) })
}

/// Consumes the next element.
pub fn skip_one<I: Stream>(input: &mut I)
    requires
        old(input).wf(),
        old(input).offset() < old(input).source().len(),
    ensures
        moved_by(*old(input), *final(input), 1),
{
    let _ = input.uncons_map(|y: I::Item| -> (o: Option<I::Item>) ensures o == Some(y) { Some(y) });
}

/// The number of bytes that the UTF-8 encoding of `c` takes.
fn utf8_width(c: char) -> (n: usize)
    ensures
        n == encode_scalar(c as u32).len(),
{
    proof {
        char_is_scalar(c);
    }
    let u = c as u32;
    if u <= 0x7F {
        1
    } else if u <= 0x7FF {
        2
    } else if u <= 0xFFFF {
        3
    } else {
        4
    }
}

/// A cursor over text: the items are characters, a range is a string slice.
///
/// The cursor keeps the text that remains as a slice of its own, so reading
/// the next character takes constant time.
#[derive(Clone, Copy, Debug)]
pub struct Text<'a> {
    text: &'a str,
    rest: &'a str,
    pos: usize,
    len: usize,
}

impl<'a> Text<'a> {
    /// A cursor at the start of `text`.
    pub fn new(text: &'a str) -> (r: Text<'a>)
        ensures
            r.wf(),
            r.source() == text@,
            r.offset() == 0,
    {
        let r = Text { text, rest: text, pos: 0, len: text.unicode_len() };
        assert(text@.skip(0) =~= text@);
        r
    }

    /// The text that remains ahead of the cursor.
    pub fn as_str(&self) -> (r: &'a str)
        requires
            self.wf(),
        ensures
            r@ == remaining(*self),
    {
        self.rest
    }
}

impl<'a> Stream for Text<'a> {
    type Item = char;

    type Range = &'a str;

    closed spec fn source(&self) -> Seq<char> {
        self.text@
    }

    closed spec fn offset(&self) -> nat {
        self.pos as nat
    }

    closed spec fn wf(&self) -> bool {
        &&& self.pos <= self.len
        &&& self.len == self.text@.len()
        &&& self.rest@ == self.text@.skip(self.pos as int)
    }

    proof fn lemma_wf(&self) {
    }

    fn is_empty(&self) -> (b: bool) {
        self.pos == self.len
    }

    fn position(&self) -> (p: usize) {
        self.pos
    }

    fn uncons_map<O, F: FnOnce(char) -> Option<O>>(&mut self, f: F) -> (r: Option<O>) {
        if self.pos == self.len {
            return None;
        }
        let rest = self.rest;
        let c = rest.get_char(0);
        let r = f(c);
        if r.is_some() {
            let n = utf8_width(c);
            proof {
                let chars = rest@;
                let bytes = encode_utf8(chars);
                encode_utf8_first_scalar(chars);
                encode_utf8_valid_utf8(chars);
                assert(bytes =~= encode_scalar(chars[0] as u32) + encode_utf8(chars.drop_first()));
                reveal_with_fuel(is_char_boundary, 2);
                assert(is_char_boundary(rest.spec_bytes(), n as int));
            }
            let (_, tail) = rest.split_at(n);
            proof {
                let chars = rest@;
                assert(tail.spec_bytes() =~= encode_utf8(chars.drop_first()));
                encode_utf8_decode_utf8(tail@);
                encode_utf8_decode_utf8(chars.drop_first());
                assert(tail@ =~= self.text@.skip(self.pos + 1));
            }
            self.rest = tail;
            self.pos = self.pos + 1;
        }
        r
    }

    fn between(&self, start: usize, end: usize) -> (r: &'a str) {
        self.text.substring_char(start, end)
    }
}

/// A cursor over a slice of copyable elements; a range is a sub-slice.
#[derive(Clone, Copy, Debug)]
pub struct Items<'a, T> {
    items: &'a [T],
    pos: usize,
}

impl<'a, T: Copy> Items<'a, T> {
    /// A cursor at the start of `items`.
    pub fn new(items: &'a [T]) -> (r: Items<'a, T>)
        ensures
            r.wf(),
            r.source() == items@,
            r.offset() == 0,
    {
        proof {
            axiom_spec_len(items);
        }
        Items { items, pos: 0 }
    }

    /// The elements that remain ahead of the cursor.
    pub fn as_slice(&self) -> (r: &'a [T])
        requires
            self.wf(),
        ensures
            r@ == remaining(*self),
    {
        slice_subrange(self.items, self.pos, self.items.len())
    }
}

impl<'a, T: Copy> Stream for Items<'a, T> {
    type Item = T;

    type Range = &'a [T];

    closed spec fn source(&self) -> Seq<T> {
        self.items@
    }

    closed spec fn offset(&self) -> nat {
        self.pos as nat
    }

    closed spec fn wf(&self) -> bool {
        self.pos <= self.items@.len() && self.items@.len() <= usize::MAX
    }

    proof fn lemma_wf(&self) {
    }

    fn is_empty(&self) -> (b: bool) {
        self.pos == self.items.len()
    }

    fn position(&self) -> (p: usize) {
        self.pos
    }

    fn uncons_map<O, F: FnOnce(T) -> Option<O>>(&mut self, f: F) -> (r: Option<O>) {
        if self.pos == self.items.len() {
            return None;
        }
        let x = self.items[self.pos];
        let r = f(x);
        if r.is_some() {
            self.pos = self.pos + 1;
        }
        r
    }

    fn between(&self, start: usize, end: usize) -> (r: &'a [T]) {
        slice_subrange(self.items, start, end)
    }
}

} // verus!
