use parser::{
    chain, choice, digit, from_fn, from_fn_mut, satisfy, string, token, Parser, ParserMut,
    ParserOnce, Text,
};
use std::fmt::Debug;

fn assert_parse<'a, P>(
    parser: P,
    input: &'a str,
    output: Option<<P as ParserOnce<Text<'a>>>::Output>,
    remainder: &str,
) where
    P: Parser<Text<'a>>,
    <P as ParserOnce<Text<'a>>>::Output: Debug + PartialEq,
{
    let mut cursor = Text::new(input);
    assert_eq!(parser.parse(&mut cursor), output);
    assert_eq!(cursor.as_str(), remainder);
}

#[test]
fn iter_test_many() {
    let number = digit().many1(|digits: Vec<u32>| Some(digits.iter().fold(0, |n, d| 10 * n + d)));
    let mut input = Text::new("123abc");
    assert_eq!(number.parse(&mut input), Some(123));
    assert_eq!(input.as_str(), "abc");
}

#[test]
fn test_many_mut() {
    // The parser succeeds without consuming input, so repeating it would not
    // end on its own: the repetition fails instead of looping.
    let mut stack = vec![2, 3, 5, 7, 11];
    let parser = from_fn_mut(|input: Text| (stack.pop(), input)).collect_many();
    let mut input = Text::new("");
    assert_eq!(parser.parse_once(&mut input), None);
    assert_eq!(input.as_str(), "");
}

#[test]
fn test_satisfy_map() {
    assert_parse(digit(), "", None, "");
    assert_parse(digit(), "a1", None, "a1");
    assert_parse(digit(), "1a", Some(1), "a");
}

#[test]
fn test_or() {
    assert_parse(choice((string("aa"), string("ab"))), "abc", None, "bc");
}

#[test]
fn test_attempt() {
    assert_parse(
        choice((string("aa").attempt(), string("ab"))).recognize(),
        "abc",
        Some("ab"),
        "c",
    );
}

#[test]
fn test_chain() {
    assert_parse(
        chain((parser::u32(), string("ab").recognize())),
        "123abc",
        Some((123, "ab")),
        "c",
    );
}

#[test]
fn test_number() {
    assert_parse(parser::u32(), "123abc", Some(123), "abc");
    assert_parse(parser::u32(), "123123123123abc", None, "abc");
    assert_parse(parser::u32(), "abc", None, "abc");
    assert_parse(parser::i32(), "123abc", Some(123), "abc");
    assert_parse(parser::i32(), "123123123123abc", None, "abc");
    assert_parse(parser::i32(), "-123abc", Some(-123), "abc");
    assert_parse(parser::i32(), "-123123123123abc", None, "abc");
    assert_parse(parser::i32(), "abc", None, "abc");
}

#[test]
fn lib_test_many() {
    let mut input = Text::new("abcabcabcde");
    let vec: Vec<_> = string("abc")
        .recognize()
        .collect_many()
        .parse(&mut input)
        .unwrap();
    assert_eq!(vec, vec!["abc", "abc", "abc"]);
    assert_eq!(input.as_str(), "de");
}

#[test]
fn test_sep_by() {
    let mut input = Text::new("abc123abc26abde");
    let vec = string("abc")
        .recognize()
        .collect_sep_by(parser::u32())
        .parse(&mut input);
    assert_eq!(vec, Some(vec!["abc", "abc"]));
    assert_eq!(input.as_str(), "26abde");
}

#[test]
fn test_iter_many() {
    let input = Text::new("abcabcabcde");
    let mut runs = string("abc").recognize().iter_many(input);
    let mut seen = Vec::new();
    while let Some(string) = runs.next() {
        seen.push(string);
    }
    assert_eq!(seen, vec!["abc", "abc", "abc"]);
}

#[allow(unused)]
enum Json {
    Array(Vec<Json>),
    Object(Vec<(String, Json)>),
    Number(i32),
    String(String),
}

#[allow(unused)]
fn json<'a>() -> impl Parser<Text<'a>, Output = Json> {
    from_fn(|input: Text<'a>| {
        let mut input = input;
        let output = choice((
            parser::i32().map(Json::Number),
            json_string().map(Json::String),
            json_array().map(Json::Array),
            json_object().map(Json::Object),
        ))
        .parse(&mut input);
        (output, input)
    })
}

#[allow(unused)]
fn json_string<'a>() -> impl Parser<Text<'a>, Output = String> {
    satisfy(char::is_alphabetic)
        .skip_many1()
        .recognize()
        .from_str()
        .between(token('"'), token('"'))
}

#[allow(unused)]
fn json_array<'a>() -> impl Parser<Text<'a>, Output = Vec<Json>> {
    json()
        .collect_sep_by(token(','))
        .between(token('['), token(']'))
}

#[allow(unused)]
fn json_object<'a>() -> impl Parser<Text<'a>, Output = Vec<(String, Json)>> {
    chain((json_string(), token(':'), json()))
        .map(|(key, _, value)| (key, value))
        .collect_sep_by(token(','))
        .between(token('{'), token('}'))
}

#[test]
fn test_recursive() {
    let _ = json::<'static>;
}

#[test]
fn test_string() {
    let mut input = Text::new("abcde");
    assert_eq!(string("abc").recognize().parse(&mut input), Some("abc"));
    assert_eq!(input.as_str(), "de");

    let mut input = Text::new("abde");
    assert_eq!(string("abc").recognize().parse(&mut input), None);
    assert_eq!(input.as_str(), "de");
}
