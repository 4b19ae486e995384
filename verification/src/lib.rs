//! A single-player, turn-based word-guessing round.
//!
//! The player guesses one letter at a time until the target word is fully
//! uncovered or the failure budget is used up.
//!
//! - [`model`] is the mathematical model: what a round is and what a guess
//!   does to it.
//! - [`game_state`] holds the executable round, specified against the model.
//! - [`user_input`] turns a raw line of text into a guess.
//! - [`play`] takes a round one turn further with what the player entered.
//! - [`lemmas`] proves what holds of every round.
//! - [`text`] and [`paint`] build and colour the text that is displayed.

pub mod game_state;
pub mod lemmas;
pub mod model;
pub mod paint;
pub mod play;
pub mod text;
pub mod user_input;
