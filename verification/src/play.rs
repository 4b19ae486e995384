//! One turn of a round, as the loop that drives a session takes it: the loop
//! shows the state, stops once the round is over, and otherwise reads a line
//! and hands it to `play_turn`.

use vstd::prelude::*;

use crate::game_state::{GameState, ParseError};
use crate::model::{Rejection, Round};
use crate::user_input::{guess_of, parse_char, viewed};

verus! {

/// The state that follows `round` once the player's line was parsed: the
/// guess is played, and a line that is no guess only clears the outcome.
pub open spec fn after_input(round: Round, parsed: Result<char, Rejection>) -> Round {
    match parsed {
        Ok(c) => round.guess(c),
        Err(_) => round.skip(),
    }
}

/// What is to be reported of a parsed line: its rejection, if it is one.
pub open spec fn complaint(parsed: Result<char, Rejection>) -> Option<Rejection> {
    match parsed {
        Ok(_) => None,
        Err(rejection) => Some(rejection),
    }
}

/// A parse error, or the absence of one, taken by its view.
pub open spec fn viewed_complaint(error: Option<ParseError>) -> Option<Rejection> {
    match error {
        Some(error) => Some(error@),
        None => None,
    }
}

/// Takes the round one turn further with the player's parsed line. A guess is
/// played. A rejected line changes nothing but the outcome, which is cleared,
/// and the rejection is handed back to be shown.
pub fn advance(game_state: &GameState, parsed: Result<char, ParseError>) -> (turn: (
    GameState,
    Option<ParseError>,
))
    ensures
        turn.0@ == after_input(game_state@, viewed(parsed)),
        turn.0@.wf(),
        viewed_complaint(turn.1) == complaint(viewed(parsed)),
{
    match parsed {
        Ok(c) => (game_state.guess(c), None),
        Err(error) => (game_state.skip(), Some(error)),
    }
}

/// Takes the round one turn further with the raw line that the player
/// entered.
pub fn play_turn(game_state: &GameState, user_input: &String) -> (turn: (
    GameState,
    Option<ParseError>,
))
    ensures
        turn.0@ == after_input(game_state@, guess_of(user_input@)),
        turn.0@.wf(),
        viewed_complaint(turn.1) == complaint(guess_of(user_input@)),
{
    advance(game_state, parse_char(user_input))
}

} // verus!
