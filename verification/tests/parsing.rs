use hangman::game_state::ParseError;
use hangman::user_input::{check_letter, parse_char, parse_lowercased};

fn line(text: &str) -> String {
    String::from(text)
}

fn not_one(text: &str) -> Result<char, ParseError> {
    Err(ParseError::ExpectedOneCharacterInput { user_input: String::from(text) })
}

fn no_letter(c: char) -> Result<char, ParseError> {
    Err(ParseError::NonAlphabeticInput { user_input: c })
}

#[test]
fn one_letter_and_a_newline_is_a_guess() {
    assert_eq!(parse_char(&line("a\n")), Ok('a'));
    assert_eq!(parse_char(&line("z\n")), Ok('z'));
}

#[test]
fn digit_is_not_alphabetic() {
    assert_eq!(parse_char(&line("1\n")), no_letter('1'));
}

#[test]
fn two_characters_are_not_one() {
    assert_eq!(parse_char(&line("ab\n")), not_one("ab"));
}

#[test]
fn empty_line_is_not_one_character() {
    assert_eq!(parse_char(&line("\n")), not_one(""));
}

#[test]
fn nothing_at_all_is_not_one_character() {
    assert_eq!(parse_char(&line("")), not_one(""));
}

#[test]
fn capital_letter_is_put_in_lowercase() {
    assert_eq!(parse_char(&line("A\n")), Ok('a'));
    assert_eq!(parse_char(&line("É\n")), Ok('é'));
}

#[test]
fn rejected_text_is_reported_in_lowercase() {
    assert_eq!(parse_char(&line("AB\n")), not_one("ab"));
}

#[test]
fn letter_outside_ascii_is_a_guess() {
    assert_eq!(parse_char(&line("é\n")), Ok('é'));
    assert_eq!(parse_char(&line("京\n")), Ok('京'));
}

#[test]
fn punctuation_and_blank_are_not_alphabetic() {
    assert_eq!(parse_char(&line("!\n")), no_letter('!'));
    assert_eq!(parse_char(&line(" \n")), no_letter(' '));
    assert_eq!(parse_char(&line("_\n")), no_letter('_'));
}

#[test]
fn last_character_is_dropped_whatever_it_is() {
    assert_eq!(parse_char(&line("a")), not_one(""));
    assert_eq!(parse_char(&line("ab")), Ok('a'));
    assert_eq!(parse_char(&line("a\n\n")), not_one("a\n"));
}

#[test]
fn carriage_return_stays_with_the_text() {
    assert_eq!(parse_char(&line("a\r\n")), not_one("a\r"));
    assert_eq!(parse_char(&line("\r\n")), no_letter('\r'));
}

#[test]
fn capital_that_grows_in_lowercase_is_not_one_character() {
    // The lowercase form of this capital is an i followed by a combining dot.
    assert_eq!(parse_char(&line("İ\n")), not_one("i\u{307}"));
}

#[test]
fn parse_lowercased_takes_the_text_as_it_is() {
    assert_eq!(parse_lowercased(line("a\n")), Ok('a'));
    assert_eq!(parse_lowercased(line("A\n")), Ok('A'));
    assert_eq!(parse_lowercased(line("7\n")), no_letter('7'));
    assert_eq!(parse_lowercased(line("abc\n")), not_one("abc"));
    assert_eq!(parse_lowercased(line("")), not_one(""));
}

#[test]
fn check_letter_goes_by_the_flag() {
    assert_eq!(check_letter('a', true), Ok('a'));
    assert_eq!(check_letter('a', false), no_letter('a'));
    assert_eq!(check_letter('1', true), Ok('1'));
    assert_eq!(check_letter('1', false), no_letter('1'));
}

#[test]
fn messages_quote_the_offending_input() {
    let error = ParseError::ExpectedOneCharacterInput { user_input: String::from("ab") };
    assert_eq!(error.message(), "'ab' is not one character.");
    let error = ParseError::ExpectedOneCharacterInput { user_input: String::new() };
    assert_eq!(error.message(), "'' is not one character.");
    let error = ParseError::NonAlphabeticInput { user_input: '1' };
    assert_eq!(error.message(), "'1' is non alphabetic.");
}
