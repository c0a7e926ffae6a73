use magic_regexp::decimal::decimal_text;
use magic_regexp::escape::{escape, ESCAPE_REPLACEMENT, ESCAPE_REPLACE_RE};
use magic_regexp::traits::compile;
use magic_regexp::{
    create_reg_exp, not, AsRegex, Char, Condition, Digit, Exactly, Input, LetterLowercase, Maybe,
    OneOrMore, Options, Text, Times, Whitespace, Word,
};
use regex::Regex;

const TO_SEARCH: &str = "On 2010-03-14, foo happened. On 2014-10-14, bar happened.";

#[test]
fn one_or_more_renders_in_a_group() {
    assert_eq!(OneOrMore(Digit).to_string(), r"(\d+)");
    assert_eq!(OneOrMore(Text("ab".into())).to_string(), "(ab+)");
    assert_eq!(OneOrMore(Text("a.b".into())).to_string(), "(a.b+)");
}

#[test]
fn maybe_renders_in_a_group() {
    assert_eq!(Maybe(Digit).to_string(), r"(\d?)");
    assert_eq!(Maybe(Word).to_string(), r"(\b\w+\b?)");
}

#[test]
fn exactly_renders_the_part_as_it_is() {
    assert_eq!(Exactly(Digit).to_string(), r"\d");
    assert_eq!(Exactly(Whitespace).to_string(), r"\s");
    assert_eq!(Exactly(Options("01".into())).to_string(), "[01]");
}

#[test]
fn exactly_escapes_a_literal_text() {
    assert_eq!(Exactly(Text("abc".into())).to_string(), "abc");
    assert_eq!(Exactly(Text(".".to_string())).to_string(), r"\.");
    assert_eq!(Exactly(Text("1+1=2?".into())).to_string(), r"1\+1=2\?");
    assert_eq!(Exactly(Text("".into())).to_string(), "");
}

#[test]
fn exactly_text_matches_the_text_itself() {
    let regex = create_reg_exp(Exactly(Text("a.c".into()))).unwrap();
    assert!(regex.is_match("a.c"));
    assert!(!regex.is_match("abc"));
    let every = r".*+?^${}()|[]\/";
    let regex = create_reg_exp(Exactly(Text(every.into()))).unwrap();
    assert_eq!(regex.find(every).unwrap().as_str(), every);
}

#[test]
fn exactly_text_in_brackets_is_no_class() {
    assert_eq!(Exactly(Text("[x]".into())).to_string(), r"\[x\]");
    let regex = create_reg_exp(Exactly(Text("[x]".into()))).unwrap();
    assert!(regex.is_match("a[x]"));
    assert!(!regex.is_match("x"));
}

#[test]
fn times_renders_the_count_in_braces() {
    assert_eq!(Times(Digit, 4).to_string(), r"\d{4}");
    assert_eq!(Times(Digit, 0).to_string(), r"\d{0}");
    assert_eq!(Times(Char, 10).to_string(), ".{10}");
    assert_eq!(Times(Text("a.".into()), 12345).to_string(), "a.{12345}");
}

#[test]
fn decimal_text_writes_every_digit() {
    assert_eq!(decimal_text(0), "0");
    assert_eq!(decimal_text(7), "7");
    assert_eq!(decimal_text(10), "10");
    assert_eq!(decimal_text(1234567890), "1234567890");
    assert_eq!(decimal_text(usize::MAX), usize::MAX.to_string());
}

#[test]
fn escape_puts_a_backslash_before_each_listed_character() {
    assert_eq!(escape(".*+?^${}()|").unwrap(), r"\.\*\+\?\^\$\{\}\(\)\|");
    assert_eq!(escape("[x]").unwrap(), r"\[x\]");
    assert_eq!(escape(r"a\b/c").unwrap(), r"a\\b\/c");
    assert_eq!(escape("a.b.c").unwrap(), r"a\.b\.c");
}

#[test]
fn escape_leaves_every_other_character() {
    assert_eq!(escape("welt").unwrap(), "welt");
    assert_eq!(escape("-_ ,;:#é").unwrap(), "-_ ,;:#é");
    assert_eq!(escape("").unwrap(), "");
}

#[test]
fn escape_constants_hold_the_class_and_the_replacement() {
    assert_eq!(ESCAPE_REPLACE_RE, r"[.*+?^${}()|\[\]\\/]");
    assert_eq!(ESCAPE_REPLACEMENT, r"\$0");
    assert!(Regex::new(ESCAPE_REPLACE_RE).is_ok());
}

#[test]
fn failure_holds_the_engines_report_on_the_text() {
    let expected = Regex::new("a(").unwrap_err();
    let refused = compile("a(");
    assert!(matches!(refused, Err(magic_regexp::Error::RegexError(cause)) if cause == expected));
    let refused = create_reg_exp(Text("a(".into()));
    assert!(matches!(refused, Err(magic_regexp::Error::RegexError(cause)) if cause == expected));
    let refused = Regex::new("a").unwrap().try_and(Text("(".into()));
    assert!(matches!(refused, Err(magic_regexp::Error::RegexError(cause)) if cause == expected));
    let other = Regex::new("[]").unwrap_err();
    assert_ne!(other, expected);
}

#[test]
fn compile_keeps_the_pattern_text() {
    assert_eq!(compile(r"a+\d").unwrap().as_str(), r"a+\d");
    assert!(compile("(").is_err());
    assert!(compile("[]").is_err());
}

#[test]
fn render_agrees_with_to_string() {
    assert_eq!(OneOrMore(Digit).render().unwrap(), r"(\d+)");
    assert_eq!(Exactly(Text("a.b".into())).render().unwrap(), r"a\.b");
    assert_eq!(Times(Digit, 2).render().unwrap(), r"\d{2}");
    assert_eq!(Maybe(Digit).render().unwrap(), r"(\d?)");
}

#[test]
fn compiled_pattern_renders_as_its_source() {
    let regex = Regex::new(r"x\d").unwrap();
    assert_eq!(regex.render().unwrap(), r"x\d");
    assert_eq!(regex.as_regex().unwrap().as_str(), r"x\d");
}

#[test]
fn grouped_as_names_the_capture() {
    let regex = create_reg_exp(OneOrMore(Digit).grouped_as("digits").unwrap()).unwrap();
    assert_eq!(regex.as_str(), r"(?P<digits>(\d+))");
    assert_eq!(&regex.captures("1").unwrap()["digits"], "1");
}

#[test]
fn as_named_is_grouped_as() {
    let regex = Exactly(Digit).as_named("d").unwrap();
    assert_eq!(regex.as_str(), r"(?P<d>\d)");
    assert_eq!(&regex.captures("a7").unwrap()["d"], "7");
    assert!(Exactly(Digit).as_named("").is_err());
}

#[test]
fn grouped_makes_a_positional_capture() {
    let regex = OneOrMore(Digit).grouped();
    assert_eq!(regex.as_str(), r"((\d+))");
    assert_eq!(&regex.captures("this is the 134 test 213").unwrap()[1], "134");
}

#[test]
fn grouped_as_reports_a_bad_name() {
    assert!(Exactly(Digit).grouped_as("1st").is_err());
    let regex = Exactly(Digit).grouped_as("first").unwrap();
    assert_eq!(regex.as_str(), r"(?P<first>\d)");
}

#[test]
fn grouped_as_reports_an_empty_name() {
    let refused = OneOrMore(Digit).grouped_as("");
    let expected = Regex::new(r"(?P<>(\d+))").unwrap_err();
    assert!(matches!(refused, Err(magic_regexp::Error::RegexError(cause)) if cause == expected));
}

#[test]
fn grouped_as_reports_an_input_that_does_not_compile() {
    assert!(Exactly(Options("".into())).grouped_as("set").is_err());
}

#[test]
fn try_grouped_reports_a_bad_pattern() {
    assert!(Exactly(Options("".into())).try_grouped().is_err());
    assert_eq!(Maybe(Digit).try_grouped().unwrap().as_str(), r"((\d?))");
}

#[test]
fn and_joins_the_texts() {
    let regex = Times(Digit, 2).and(Exactly(LetterLowercase));
    assert_eq!(regex.as_str(), r"\d{2}[a-z]");
    assert!(regex.is_match("12a"));
    assert!(!regex.is_match("1a"));
}

#[test]
fn or_puts_a_bar_between_the_texts() {
    let regex = Exactly(Digit).or(Exactly(LetterLowercase));
    assert_eq!(regex.as_str(), r"\d|[a-z]");
    assert!(regex.is_match("1"));
    assert!(regex.is_match("a"));
    assert!(!regex.is_match("A"));
}

#[test]
fn optionally_wraps_in_a_group() {
    let regex = Exactly(Digit).optionally();
    assert_eq!(regex.as_str(), r"(\d)?");
    assert!(regex.is_match(""));
    let chained = OneOrMore(Char).or(Exactly(Whitespace)).optionally();
    assert_eq!(chained.as_str(), r"((.+)|\s)?");
}

#[test]
fn try_forms_agree_with_the_plain_forms() {
    assert_eq!(Times(Digit, 2).try_and(Exactly(Digit)).unwrap().as_str(), r"\d{2}\d");
    assert_eq!(Exactly(Digit).try_or(Word).unwrap().as_str(), r"\d|\b\w+\b");
    assert_eq!(Maybe(Digit).try_optionally().unwrap().as_str(), r"((\d?))?");
}

#[test]
fn try_forms_report_what_the_engine_refuses() {
    let unbalanced = Regex::new("a").unwrap().try_and(Options("".into()));
    assert!(matches!(unbalanced, Err(magic_regexp::Error::RegexError(_))));
    assert!(Exactly(Digit).try_or(Options("".into())).is_err());
    assert!(Exactly(Options("".into())).try_optionally().is_err());
}

#[test]
fn date_pattern_finds_both_dates() {
    let input = Times(Digit, 4)
        .and(Exactly(Text("-".to_string())))
        .and(Times(Digit, 2))
        .and(Exactly(Text("-".to_string())))
        .and(Times(Digit, 2));
    assert_eq!(input.to_string(), r"\d{4}-\d{2}-\d{2}");
    let regex = create_reg_exp(input).unwrap();
    assert_eq!(regex.find_iter(TO_SEARCH).count(), 2);
}

#[test]
fn date_pattern_with_named_groups_captures_the_parts() {
    let input = Times(Digit, 4)
        .grouped_as("year")
        .unwrap()
        .and(Exactly(Text("-".to_string())))
        .and(Times(Digit, 2).grouped_as("month").unwrap())
        .and(Exactly(Text("-".to_string())))
        .and(Times(Digit, 2).grouped_as("day").unwrap());
    let regex = create_reg_exp(input).unwrap();
    assert!(regex.is_match("2014-01-01"));
    assert_eq!(regex.find_iter(TO_SEARCH).count(), 2);
    let first = regex.captures(TO_SEARCH).unwrap();
    assert_eq!(&first["year"], "2010");
    assert_eq!(&first["month"], "03");
    assert_eq!(&first["day"], "14");
}

#[test]
fn negated_set_strips_everything_but_its_body() {
    let input = OneOrMore(not(Options("01".to_string())));
    assert_eq!(input.to_string(), r"([^01]+)");
    let regex = Regex::new(&input.to_string()).unwrap();
    assert_eq!(regex.replace("1078910", ""), "1010");
}

#[test]
fn twice_negated_set_renders_as_before() {
    let input = OneOrMore(not(not(Options("01".to_string()))));
    assert_eq!(input.to_string(), r"([01]+)");
}

#[test]
fn inputs_compare_by_part_and_count() {
    assert_eq!(Times(Digit, 2), Input::Times(magic_regexp::Type::Digit, 2));
    assert_ne!(Times(Digit, 2), Times(Digit, 3));
    assert_ne!(Exactly(Digit), OneOrMore(Digit));
}
