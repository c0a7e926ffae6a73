use magic_regexp::{create_reg_exp, not, Exactly, Maybe, OneOrMore, Text, Type::Digit};
use regex::Regex;

/// Whether the pattern matches the text from its first character to its last.
fn matches_whole(regex: &Regex, text: &str) -> bool {
    let whole = format!("^(?:{})$", regex.as_str());
    Regex::new(&whole).unwrap().is_match(text)
}

#[test]
fn lib_test_single_digit() {
    let input = Exactly(Digit);
    let regex = create_reg_exp(input).unwrap();
    assert!(regex.is_match("1"));
    assert!(!matches_whole(&regex, "12"));
    assert!(regex.is_match("1 2"));
}

#[test]
fn lib_test_maybe_digit() {
    let input = Maybe(Digit);
    let regex = create_reg_exp(input).unwrap();
    assert!(regex.is_match("1"));
    assert!(regex.is_match(""));
    assert!(regex.is_match("12"));
    assert!(regex.is_match("1 2"));
}

#[test]
fn lib_test_one_or_more_digits() {
    let input = OneOrMore(Digit);
    let regex = create_reg_exp(input).unwrap();
    assert!(regex.is_match("1"));
    assert!(regex.is_match("12"));
    assert!(regex.is_match("1 2"));
    assert!(regex.is_match("123"));
    assert!(regex.is_match("12a3"));
}

#[test]
fn lib_test_not_digit() {
    let input = Exactly(not(Digit));
    let regex = create_reg_exp(input).unwrap();
    assert!(!regex.is_match("1"));
    assert!(regex.is_match("a"));
}

#[test]
fn lib_test_not_not_stuff() {
    let input = Exactly(not(not(Digit)));
    let regex = create_reg_exp(input).unwrap();
    assert!(regex.is_match("1"));
    assert!(!regex.is_match("a"));
}

#[test]
fn lib_test_exactly_text() {
    let input = Exactly(Text("welt".into()));
    let regex = create_reg_exp(input).unwrap();
    assert!(regex.is_match("Hallo welt"));
    assert!(!regex.is_match("Hallo Welt"));
}

#[test]
fn single_digit_is_found_inside_a_longer_run() {
    let regex = create_reg_exp(Exactly(Digit)).unwrap();
    assert_eq!(regex.as_str(), r"\d");
    assert_eq!(regex.find("12").unwrap().as_str(), "1");
    assert!(matches_whole(&regex, "1"));
}

#[test]
fn one_or_more_digits_takes_the_leading_run() {
    let regex = create_reg_exp(OneOrMore(Digit)).unwrap();
    assert_eq!(regex.as_str(), r"(\d+)");
    assert_eq!(regex.find("12a3").unwrap().as_str(), "12");
}

#[test]
fn maybe_digit_renders_in_a_group() {
    let regex = create_reg_exp(Maybe(Digit)).unwrap();
    assert_eq!(regex.as_str(), r"(\d?)");
}

#[test]
fn create_reg_exp_compiles_every_kind_of_value() {
    assert_eq!(create_reg_exp(Digit).unwrap().as_str(), r"\d");
    assert_eq!(create_reg_exp(OneOrMore(Digit)).unwrap().as_str(), r"(\d+)");
    let compiled = Regex::new("a+").unwrap();
    assert_eq!(create_reg_exp(compiled).unwrap().as_str(), "a+");
}

#[test]
fn create_reg_exp_reports_what_the_engine_refuses() {
    let unbalanced = create_reg_exp(Text("(".into()));
    assert!(matches!(unbalanced, Err(magic_regexp::Error::RegexError(_))));
    let empty_set = create_reg_exp(Exactly(magic_regexp::Options(String::new())));
    assert!(empty_set.is_err());
}

#[test]
fn error_message_is_fixed() {
    let error = create_reg_exp(Text("(".into())).unwrap_err();
    assert_eq!(error.message(), "a pattern-compilation error occurred");
    let magic_regexp::Error::RegexError(cause) = error;
    assert!(matches!(cause, regex::Error::Syntax(_)));
}

#[test]
fn error_is_made_from_the_engines_error() {
    let cause = Regex::new("(").unwrap_err();
    let expected = cause.clone();
    let magic_regexp::Error::RegexError(kept) = magic_regexp::Error::from(cause);
    assert_eq!(kept, expected);
}
