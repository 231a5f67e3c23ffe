//! Parser combinators over copyable cursors.
//!
//! Every parser states its behaviour as a relation between the cursor before
//! a run, the result, and the cursor after it (`ParserOnce::outcome`); each
//! combinator's relation is built from the relations of its parts, and every
//! run is checked against it.
use vstd::prelude::*;

pub mod combinator;
pub mod laws;
pub mod num;
pub mod parser;
pub mod primitive;
pub mod repeat;
pub mod sep;
pub mod stream;
pub mod tuple;

pub use combinator::{
    and_then, attempt, between, flat_map, followed_by, optional, or, recognize,
};
pub use num::{from_str, i32, i64, u32, u64, FromText};
pub use parser::{Parser, ParserMut, ParserOnce};
pub use primitive::{
    any, digit, eof, from_fn, from_fn_mut, from_fn_once, satisfy, satisfy_map, satisfy_map_mut,
    satisfy_map_once, string, token, tokens, value,
};
pub use repeat::{collect_many, collect_many1, many, many1, many1_mut, many_mut, skip_many, skip_many1};
pub use sep::{collect_sep_by, sep_by, sep_by_mut, skip_sep_by};
pub use stream::{Items, Stream, Text};
pub use tuple::{chain, choice};

verus! {

} // verus!
