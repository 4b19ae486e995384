//! Building display text: the few `String` operations the library needs, and
//! decimal numbers.

use vstd::prelude::*;

verus! {

/// `String::push` of the standard library: the character is appended to the
/// end of the string and nothing else changes.
pub assume_specification[ String::push ](text: &mut String, ch: char)
    ensures
        final(text)@ == old(text)@.push(ch),
;

/// `String::pop` of the standard library: the last character is taken off
/// and returned; an empty string stays as it is and gives `None`.
pub assume_specification[ String::pop ](text: &mut String) -> (last: Option<char>)
    ensures
        old(text)@.len() == 0 ==> last is None && final(text)@ == old(text)@,
        old(text)@.len() > 0 ==> last == Some(old(text)@.last()) && final(text)@ == old(
            text,
        )@.drop_last(),
;

/// The text that `{:?}` formatting gives for a list of characters: what
/// `<Vec<char> as core::fmt::Debug>::fmt` writes.
pub uninterp spec fn debug_list(chars: Seq<char>) -> Seq<char>;

/// `<Vec<char> as core::fmt::Debug>::fmt` of the standard library, through
/// `format!`: the characters as a bracketed list, each one quoted and escaped
/// as `char`'s `Debug` does it. The result is a function of the characters
/// alone, and the contract gives it its name.
#[verifier::external_body]
pub(crate) fn format_debug_list(chars: &Vec<char>) -> (text: String)
    ensures
        text@ == debug_list(chars@),
{
    format!("{:?}", chars)
}

/// The character that stands for the digit `d`.
pub open spec fn digit(d: nat) -> char
    recommends
        d < 10,
{
    (48 + d) as u8 as char
}

/// `n` in decimal notation, without leading zeros.
pub open spec fn decimal(n: nat) -> Seq<char>
    decreases n,
{
    if n < 10 {
        seq![digit(n)]
    } else {
        decimal(n / 10).push(digit(n % 10))
    }
}

/// Appends `n` in decimal notation to `text`.
pub fn push_decimal(text: &mut String, n: u8)
    ensures
        final(text)@ == old(text)@ + decimal(n as nat),
    decreases n,
{
    if n >= 10 {
        push_decimal(text, n / 10);
    }
    text.push((48u8 + n % 10) as char);
}

} // verus!
