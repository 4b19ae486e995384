//! Terminal colour for display text.

use colored::Colorize;
use vstd::prelude::*;

verus! {

/// The escape sequence that switches the foreground colour to red.
pub open spec fn red_on() -> Seq<char> {
    seq!['\x1b', '[', '3', '1', 'm']
}

/// The escape sequence that switches the foreground colour to green.
pub open spec fn green_on() -> Seq<char> {
    seq!['\x1b', '[', '3', '2', 'm']
}

/// The escape sequence that switches every colour and style off again.
pub open spec fn reset() -> Seq<char> {
    seq!['\x1b', '[', '0', 'm']
}

/// `text` holds the reset sequence somewhere.
pub open spec fn has_reset(text: Seq<char>) -> bool {
    exists|i: int| 0 <= i && i + 4 <= text.len() && #[trigger] text.subrange(i, i + 4) == reset()
}

/// `shown` is `text` as a terminal is to show it in the colour that
/// `switch_on` selects. Where colours are switched off for the process it is
/// the bare text; where they are on, the text stands between `switch_on` and
/// the reset sequence. Of a text that itself holds a reset sequence only the
/// bare form is described: its coloured form, in which the colour is switched
/// on again behind each reset, is left open.
pub open spec fn is_painted(shown: Seq<char>, text: Seq<char>, switch_on: Seq<char>) -> bool {
    shown == text || (!has_reset(text) ==> shown == switch_on + text + reset())
}

/// `colored::Colorize::red`, formatted into a `String`. Whether the crate
/// paints at all depends on the terminal, on the variables `NO_COLOR`,
/// `CLICOLOR` and `CLICOLOR_FORCE`, and on `colored::control::set_override`,
/// so the contract allows both results. It takes for granted that the
/// override is not changed while the text is being formatted.
#[verifier::external_body]
pub(crate) fn red(text: &str) -> (shown: String)
    ensures
        is_painted(shown@, text@, red_on()),
{
    format!("{}", text.red())
}

/// `colored::Colorize::green`, formatted into a `String`. Whether the crate
/// paints at all depends on the terminal, on the variables `NO_COLOR`,
/// `CLICOLOR` and `CLICOLOR_FORCE`, and on `colored::control::set_override`,
/// so the contract allows both results. It takes for granted that the
/// override is not changed while the text is being formatted.
#[verifier::external_body]
pub(crate) fn green(text: &str) -> (shown: String)
    ensures
        is_painted(shown@, text@, green_on()),
{
    format!("{}", text.green())
}

} // verus!
