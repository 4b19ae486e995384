use colored::control::set_override;
use hangman::game_state::{GameState, ParseError};

const RED: &str = "\u{1b}[31m";
const GREEN: &str = "\u{1b}[32m";
const RESET: &str = "\u{1b}[0m";

fn play(word: &str, guesses: &[char]) -> GameState {
    let mut state = GameState::new(String::from(word));
    for c in guesses {
        state = state.guess(*c);
    }
    state
}

#[test]
fn miss_is_shown_in_red() {
    set_override(true);
    let state = play("cat", &['x']);
    assert_eq!(
        state.display_outcome(),
        format!("{RED}'x' in not in the word. You have 5 more incorrect guesses.{RESET}")
    );
}

#[test]
fn duplicate_is_shown_in_red() {
    set_override(true);
    let state = play("cat", &['c', 'c']);
    assert_eq!(
        state.display_outcome(),
        format!("{RED}You've already guessed 'c'.{RESET}")
    );
}

#[test]
fn loss_is_shown_in_red() {
    set_override(true);
    let state = play("cat", &['x', 'y', 'z', 'q', 'w', 'v']);
    assert_eq!(
        state.display_outcome(),
        format!("{RED}You lose! The word was 'cat'.{RESET}")
    );
}

#[test]
fn win_is_shown_in_green() {
    set_override(true);
    let state = play("cat", &['c', 'a', 't']);
    assert_eq!(
        state.display_outcome(),
        format!("{GREEN}You win! The word was 'cat'.{RESET}")
    );
}

#[test]
fn hit_and_fresh_round_show_nothing_even_with_colour() {
    set_override(true);
    assert_eq!(play("cat", &[]).display_outcome(), "");
    assert_eq!(play("cat", &['c']).display_outcome(), "");
    assert_eq!(play("cat", &['x']).skip().display_outcome(), "");
}

#[test]
fn whole_display_with_colour() {
    set_override(true);
    let state = play("cat", &['c', 'x']);
    let message = "'x' in not in the word. You have 5 more incorrect guesses.";
    assert_eq!(
        state.to_string(),
        format!("{RED}{message}{RESET}\n\nGuesses: ['c', 'x']\nc _ _")
    );
    let state = state.guess('a').guess('t');
    let message = "You win! The word was 'cat'.";
    assert_eq!(
        state.to_string(),
        format!("{GREEN}{message}{RESET}\n\nGuesses: ['c', 'x', 'a', 't']\nc a t")
    );
}

#[test]
fn parse_errors_are_shown_in_red() {
    set_override(true);
    let error = ParseError::ExpectedOneCharacterInput { user_input: String::from("ab") };
    assert_eq!(error.to_string(), format!("{RED}'ab' is not one character.{RESET}"));
    let error = ParseError::NonAlphabeticInput { user_input: '1' };
    assert_eq!(error.to_string(), format!("{RED}'1' is non alphabetic.{RESET}"));
}

#[test]
fn colour_is_resumed_after_a_reset_inside_the_text() {
    set_override(true);
    let state = play("a\u{1b}[0mb", &['x', 'y', 'z', 'q', 'w', 'v']);
    assert_eq!(state.outcome_message(), format!("You lose! The word was 'a{RESET}b'."));
    assert_eq!(
        state.display_outcome(),
        format!("{RED}You lose! The word was 'a{RESET}{RED}b'.{RESET}")
    );
}
