use parser::{
    any, between, chain, choice, collect_many, digit, eof, from_fn, optional, or, satisfy,
    satisfy_map, skip_many, string, token, tokens, value, Items, Parser, ParserMut, ParserOnce,
    Text,
};

#[test]
fn or_runs_second_after_clean_failure() {
    let mut input = Text::new("abc");
    assert_eq!(or(string("x"), string("ab")).recognize().parse(&mut input), Some("ab"));
    assert_eq!(input.as_str(), "c");
}

#[test]
fn or_stops_after_consuming_failure() {
    let mut input = Text::new("abc");
    assert_eq!(or(string("ax"), string("ab")).parse(&mut input), None);
    assert_eq!(input.as_str(), "bc");
}

#[test]
fn optional_absent_after_clean_failure() {
    let mut input = Text::new("abc");
    assert_eq!(optional(string("x")).parse(&mut input), Some(None));
    assert_eq!(input.as_str(), "abc");
}

#[test]
fn optional_fails_after_consuming_failure() {
    let mut input = Text::new("abc");
    assert_eq!(string("ax").optional().parse(&mut input), None);
    assert_eq!(input.as_str(), "bc");
}

#[test]
fn optional_present_on_success() {
    let mut input = Text::new("abc");
    assert_eq!(string("ab").optional().parse(&mut input), Some(Some(())));
    assert_eq!(input.as_str(), "c");
}

#[test]
fn attempt_restores_after_consuming_failure() {
    let mut input = Text::new("abc");
    assert_eq!(string("abd").attempt().parse(&mut input), None);
    assert_eq!(input.as_str(), "abc");

    let mut bare = Text::new("abc");
    assert_eq!(string("abd").parse(&mut bare), None);
    assert_eq!(bare.as_str(), "c");
}

#[test]
fn attempt_keeps_success() {
    let mut input = Text::new("abc");
    assert_eq!(string("ab").attempt().parse(&mut input), Some(()));
    assert_eq!(input.as_str(), "c");
}

#[test]
fn recognize_returns_consumed_span_and_round_trips() {
    let p = digit().followed_by(string("ab"));
    let mut input = Text::new("7abz");
    let span = p.recognize().parse(&mut input).unwrap();
    assert_eq!(span, "7ab");
    assert_eq!(input.as_str(), "z");

    let mut again = Text::new(span);
    assert_eq!(p.parse(&mut again), Some((7, ())));
    assert_eq!(again.as_str(), "");
}

#[test]
fn recognize_fails_with_parser() {
    let mut input = Text::new("xyz");
    assert_eq!(string("ab").recognize().parse(&mut input), None);
    assert_eq!(input.as_str(), "xyz");
}

#[test]
fn many_of_non_consuming_parser_fails() {
    let mut input = Text::new("abc");
    assert_eq!(value(1).collect_many().parse(&mut input), None);
    assert_eq!(input.as_str(), "abc");

    let mut empty = Text::new("");
    assert_eq!(eof().skip_many().parse(&mut empty), None);
    assert_eq!(collect_many(value('x')).parse(&mut empty), None);
}

#[test]
fn many_aborts_on_consuming_failure() {
    let mut input = Text::new("ababac");
    assert_eq!(string("ab").collect_many().parse(&mut input), None);
    assert_eq!(input.as_str(), "c");
}

#[test]
fn many_of_nothing_is_empty() {
    let mut input = Text::new("xyz");
    assert_eq!(digit().collect_many().parse(&mut input), Some(vec![]));
    assert_eq!(input.as_str(), "xyz");
    assert_eq!(skip_many(digit()).parse(&mut input), Some(()));
    assert_eq!(input.as_str(), "xyz");
}

#[test]
fn many_hands_outputs_to_reducer() {
    let mut input = Text::new("1234x");
    let sum = digit().many(|ds: Vec<u32>| Some(ds.iter().sum::<u32>()));
    assert_eq!(sum.parse(&mut input), Some(10));
    assert_eq!(input.as_str(), "x");

    let mut input = Text::new("12x");
    let reject = digit().many(|ds: Vec<u32>| if ds.len() > 2 { Some(ds) } else { None });
    assert_eq!(reject.parse(&mut input), None);
    assert_eq!(input.as_str(), "x");
}

#[test]
fn many1_needs_one() {
    let mut input = Text::new("x");
    assert_eq!(digit().collect_many1().parse(&mut input), None);
    assert_eq!(digit().skip_many1().parse(&mut input), None);
    assert_eq!(input.as_str(), "x");

    let mut input = Text::new("42x");
    assert_eq!(digit().collect_many1().parse(&mut input), Some(vec![4, 2]));
    assert_eq!(input.as_str(), "x");
}

#[test]
fn many_mut_with_stateful_parser() {
    let mut budget = 2;
    let limited = from_fn_mut_counter(&mut budget);
    let mut input = Text::new("aaaa");
    assert_eq!(limited.collect_many().parse_once(&mut input), Some(vec!['a', 'a']));
    assert_eq!(input.as_str(), "aa");
}

fn from_fn_mut_counter<'a>(
    budget: &'a mut u32,
) -> impl ParserMut<Text<'static>, Output = char> + 'a {
    parser::from_fn_mut(move |input: Text<'static>| {
        if *budget == 0 {
            return (None, input);
        }
        *budget -= 1;
        let mut input = input;
        let r = any().parse(&mut input);
        (r, input)
    })
}

#[test]
fn sep_by_letters_and_commas() {
    let letter = satisfy(char::is_alphabetic).recognize();
    let mut input = Text::new("a,b,c");
    assert_eq!(letter.collect_sep_by(token(',')).parse(&mut input), Some(vec!["a", "b", "c"]));
    assert_eq!(input.as_str(), "");
}

#[test]
fn sep_by_leaves_trailing_separator() {
    let letter = satisfy(char::is_alphabetic).recognize();
    let mut input = Text::new("a,b,");
    assert_eq!(letter.collect_sep_by(token(',')).parse(&mut input), Some(vec!["a", "b"]));
    assert_eq!(input.as_str(), ",");
}

#[test]
fn sep_by_empty_and_failing_first() {
    let mut input = Text::new("9");
    assert_eq!(string("ab").collect_sep_by(token(',')).parse(&mut input), Some(vec![]));
    assert_eq!(input.as_str(), "9");

    let mut input = Text::new("ax");
    assert_eq!(string("ab").collect_sep_by(token(',')).parse(&mut input), None);
    assert_eq!(input.as_str(), "x");
}

#[test]
fn sep_by_reducer_and_skip() {
    let mut input = Text::new("1;2;3;");
    let sum = digit().sep_by(token(';'), |ds: Vec<u32>| Some(ds.iter().sum::<u32>()));
    assert_eq!(sum.parse(&mut input), Some(6));
    assert_eq!(input.as_str(), ";");

    let mut input = Text::new("1;2x");
    assert_eq!(digit().skip_sep_by(token(';')).parse(&mut input), Some(()));
    assert_eq!(input.as_str(), "x");
}

#[test]
fn sep_by_fails_on_non_consuming_unit() {
    let mut input = Text::new("abc");
    assert_eq!(value(1).collect_sep_by(value(())).parse(&mut input), None);
}

#[test]
fn iter_sep_by_steps() {
    let mut runs = digit().iter_sep_by(token(','), Text::new("1,2,x"));
    assert_eq!(runs.next(), Some(1));
    assert_eq!(runs.next(), Some(2));
    assert_eq!(runs.next(), None);
    assert_eq!(runs.input.as_str(), ",x");
}

#[test]
fn numeric_presets() {
    let mut input = Text::new("123abc");
    assert_eq!(parser::u32().parse(&mut input), Some(123));
    assert_eq!(input.as_str(), "abc");

    let mut input = Text::new("-123abc");
    assert_eq!(parser::i32().parse(&mut input), Some(-123));
    assert_eq!(input.as_str(), "abc");

    let mut input = Text::new("abc");
    assert_eq!(parser::u32().parse(&mut input), None);
    assert_eq!(input.as_str(), "abc");
    assert_eq!(parser::i32().parse(&mut input), None);
    assert_eq!(input.as_str(), "abc");
}

#[test]
fn wide_numeric_presets() {
    let mut input = Text::new("123123123123abc");
    assert_eq!(parser::u64().parse(&mut input), Some(123123123123));
    assert_eq!(input.as_str(), "abc");

    let mut input = Text::new("-123123123123abc");
    assert_eq!(parser::i64().parse(&mut input), Some(-123123123123));
    assert_eq!(input.as_str(), "abc");

    let mut input = Text::new("99999999999999999999;");
    assert_eq!(parser::u64().parse(&mut input), None);
    assert_eq!(input.as_str(), ";");
}

#[test]
fn signed_bounds() {
    let mut input = Text::new("-2147483648");
    assert_eq!(parser::i32().parse(&mut input), Some(i32::MIN));
    let mut input = Text::new("2147483648");
    assert_eq!(parser::i32().parse(&mut input), None);
    assert_eq!(input.as_str(), "");
    let mut input = Text::new("-x");
    assert_eq!(parser::i32().parse(&mut input), None);
    assert_eq!(input.as_str(), "x");
}

#[test]
fn from_str_reads_strings() {
    let word = satisfy(char::is_alphabetic).skip_many1().recognize().from_str::<String>();
    let mut input = Text::new("hello world");
    assert_eq!(word.parse(&mut input), Some(String::from("hello")));
    assert_eq!(input.as_str(), " world");
}

#[test]
fn sequence_of_three_is_not_atomic() {
    let seq = chain((string("ab"), string("cd"), string("ef")));
    let mut input = Text::new("abcxef");
    assert_eq!(seq.parse(&mut input), None);
    assert_eq!(input.as_str(), "xef");

    let mut input = Text::new("abcxef");
    assert_eq!(seq.attempt().parse(&mut input), None);
    assert_eq!(input.as_str(), "abcxef");

    let mut input = Text::new("abcdefg");
    assert_eq!(seq.parse(&mut input), Some(((), (), ())));
    assert_eq!(input.as_str(), "g");
}

#[test]
fn longer_chains_and_choices() {
    let four = chain((digit(), digit(), digit(), digit()));
    let mut input = Text::new("12345");
    assert_eq!(four.parse(&mut input), Some((1, 2, 3, 4)));
    let five = chain((digit(), token('-'), digit(), token('-'), digit()));
    let mut input = Text::new("1-2-3");
    assert_eq!(five.parse(&mut input), Some((1, '-', 2, '-', 3)));
    assert_eq!(input.as_str(), "");

    let pick = choice((token('a'), token('b'), token('c'), token('d'), token('e')));
    let mut input = Text::new("ez");
    assert_eq!(pick.parse(&mut input), Some('e'));
    assert_eq!(input.as_str(), "z");
    let mut input = Text::new("z");
    assert_eq!(pick.parse(&mut input), None);
    assert_eq!(input.as_str(), "z");

    let three = choice((string("ab"), string("cd"), string("ef")));
    let mut input = Text::new("cdx");
    assert_eq!(three.parse(&mut input), Some(()));
    assert_eq!(input.as_str(), "x");
}

#[test]
fn map_and_then_flat_map() {
    let mut input = Text::new("7x");
    assert_eq!(parser::combinator::map(digit(), |d: u32| d * 2).parse(&mut input), Some(14));

    let mut input = Text::new("7x");
    let odd = digit().and_then(|d: u32| if d % 2 == 1 { Some(d) } else { None });
    assert_eq!(odd.parse(&mut input), Some(7));
    let mut input = Text::new("8x");
    assert_eq!(odd.parse(&mut input), None);
    assert_eq!(input.as_str(), "x");

    // a digit saying how many letters follow
    let counted = digit().flat_map(|n: u32| {
        from_fn(move |input: Text<'static>| {
            let mut input = input;
            let mut taken = Vec::new();
            for _ in 0..n {
                match satisfy(char::is_alphabetic).parse(&mut input) {
                    Some(c) => taken.push(c),
                    None => return (None, input),
                }
            }
            (Some(taken), input)
        })
    });
    let mut input = Text::new("2abc");
    assert_eq!(counted.parse(&mut input), Some(vec!['a', 'b']));
    assert_eq!(input.as_str(), "c");
}

#[test]
fn between_delimiters() {
    let mut input = Text::new("[5]!");
    assert_eq!(between(digit(), token('['), token(']')).parse(&mut input), Some(5));
    assert_eq!(input.as_str(), "!");
    let mut input = Text::new("[5)");
    assert_eq!(digit().between(token('['), token(']')).parse(&mut input), None);
    assert_eq!(input.as_str(), ")");
}

#[test]
fn single_elements() {
    let mut input = Text::new("ab");
    assert_eq!(any().parse(&mut input), Some('a'));
    assert_eq!(token('b').parse(&mut input), Some('b'));
    assert_eq!(any::<Text>().parse(&mut input), None);
    assert_eq!(eof().parse(&mut input), Some(()));

    let mut input = Text::new("5");
    assert_eq!(eof().parse(&mut input), None);
    let hex = satisfy_map(|c: char| c.to_digit(16));
    let mut input = Text::new("fz");
    assert_eq!(hex.parse(&mut input), Some(15));
    assert_eq!(hex.parse(&mut input), None);
    assert_eq!(input.as_str(), "z");
}

#[test]
fn parse_to_end_and_partial() {
    assert_eq!(digit().parse_to_end(Text::new("5")), Some(5));
    assert_eq!(digit().parse_to_end(Text::new("55")), None);
    assert_eq!(digit().parse_partial(Text::new("55")), Some(5));
}

#[test]
fn cursor_over_items() {
    let data = [1u8, 2, 3, 4];
    let mut input = Items::new(&data);
    assert_eq!(tokens(&[1u8, 2]).recognize().parse(&mut input), Some(&data[0..2]));
    assert_eq!(input.as_slice(), &[3u8, 4]);
    assert_eq!(tokens(&[3u8, 5]).parse(&mut input), None);
    assert_eq!(input.as_slice(), &[4u8]);
    assert_eq!(token(4u8).parse(&mut input), Some(4));
    assert_eq!(eof().parse(&mut input), Some(()));
}

#[test]
fn shared_handle_parses_like_parser() {
    let p = digit();
    let mut input = Text::new("12");
    assert_eq!(p.by_ref().parse(&mut input), Some(1));
    assert_eq!(chain((&p, &p)).parse(&mut Text::new("34")), Some((3, 4)));
}
