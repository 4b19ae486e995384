//! From a raw line of text to a guess.

use vstd::prelude::*;
use vstd::string::StrSliceExecFns;

use crate::game_state::ParseError;
use crate::model::Rejection;

verus! {

/// The lowercase form of a text: what `str::to_lowercase` returns for it.
pub uninterp spec fn lowercase(text: Seq<char>) -> Seq<char>;

/// Whether a character is a letter: what `char::is_alphabetic` returns for it.
pub uninterp spec fn alphabetic(c: char) -> bool;

/// `str::to_lowercase` of the standard library. The lowercase form of a text
/// follows from Unicode's case tables and is a function of the text alone;
/// the contract gives it its name.
pub assume_specification[ str::to_lowercase ](text: &str) -> (lowered: String)
    ensures
        lowered@ == lowercase(text@),
;

/// `char::is_alphabetic` of the standard library. Whether a character has
/// Unicode's `Alphabetic` property is a function of the character alone; the
/// contract gives it its name.
pub assume_specification[ char::is_alphabetic ](c: char) -> (yes: bool)
    ensures
        yes == alphabetic(c),
;

/// A line without its last character, which is taken to be the line
/// terminator. Of an empty line nothing is taken.
pub open spec fn without_terminator(line: Seq<char>) -> Seq<char> {
    if line.len() == 0 {
        line
    } else {
        line.drop_last()
    }
}

/// The guess that the single character `c` stands for, given whether it is a
/// letter.
pub open spec fn letter(c: char, is_alphabetic: bool) -> Result<char, Rejection> {
    if is_alphabetic {
        Ok(c)
    } else {
        Err(Rejection::NotAlphabetic { found: c })
    }
}

/// The guess that a lowercased line stands for: the one letter that is left
/// once the terminator is taken off.
pub open spec fn guess_of_lowercased(lowered: Seq<char>) -> Result<char, Rejection> {
    let rest = without_terminator(lowered);
    if rest.len() == 1 {
        letter(rest[0], alphabetic(rest[0]))
    } else {
        Err(Rejection::NotSingleCharacter { text: rest })
    }
}

/// The guess that a raw line stands for.
pub open spec fn guess_of(line: Seq<char>) -> Result<char, Rejection> {
    guess_of_lowercased(lowercase(line))
}

/// A result of parsing, with the error taken by its view.
pub open spec fn viewed(parsed: Result<char, ParseError>) -> Result<char, Rejection> {
    match parsed {
        Ok(c) => Ok(c),
        Err(error) => Err(error@),
    }
}

/// Accepts the single character `c` as a guess if it is a letter, and
/// rejects it otherwise.
pub fn check_letter(c: char, is_alphabetic: bool) -> (parsed: Result<char, ParseError>)
    ensures
        viewed(parsed) == letter(c, is_alphabetic),
{
    if !is_alphabetic {
        Err(ParseError::NonAlphabeticInput { user_input: c })
    } else {
        Ok(c)
    }
}

/// Parses a line that is in lowercase already: takes the terminator off and
/// accepts what is left if it is exactly one letter.
pub fn parse_lowercased(lowercased_chars: String) -> (parsed: Result<char, ParseError>)
    ensures
        viewed(parsed) == guess_of_lowercased(lowercased_chars@),
{
    let mut lowercased_chars = lowercased_chars;
    // The last character is the line terminator.
    lowercased_chars.pop();
    if lowercased_chars.as_str().unicode_len() == 1 {
        let c = lowercased_chars.as_str().get_char(0);
        check_letter(c, c.is_alphabetic())
    } else {
        Err(ParseError::ExpectedOneCharacterInput { user_input: lowercased_chars })
    }
}

/// Parses a raw line of input into a guess: the line is put in lowercase,
/// its terminator is taken off, and what is left has to be exactly one
/// letter.
pub fn parse_char(user_input: &String) -> (parsed: Result<char, ParseError>)
    ensures
        viewed(parsed) == guess_of(user_input@),
{
    parse_lowercased(user_input.as_str().to_lowercase())
}

} // verus!
