use colored::control::set_override;
use hangman::game_state::{frame_state, GameState, ParseError, SolutionState};

fn play(word: &str, guesses: &[char]) -> GameState {
    let mut state = GameState::new(String::from(word));
    for c in guesses {
        state = state.guess(*c);
    }
    state
}

#[test]
fn outcome_messages_without_colour() {
    set_override(false);
    assert_eq!(
        play("cat", &['x']).display_outcome(),
        "'x' in not in the word. You have 5 more incorrect guesses."
    );
    assert_eq!(play("cat", &['c', 'c']).display_outcome(), "You've already guessed 'c'.");
    assert_eq!(
        play("cat", &['c', 'a', 't']).display_outcome(),
        "You win! The word was 'cat'."
    );
    assert_eq!(
        play("cat", &['x', 'y', 'z', 'q', 'w', 'v']).display_outcome(),
        "You lose! The word was 'cat'."
    );
    assert_eq!(play("cat", &['c']).display_outcome(), "");
    assert_eq!(play("cat", &[]).display_outcome(), "");
}

#[test]
fn outcome_message_is_the_display_without_colour() {
    set_override(false);
    for guesses in [
        vec![],
        vec!['c'],
        vec!['x'],
        vec!['x', 'x'],
        vec!['c', 'a', 't'],
        vec!['x', 'y', 'z', 'q', 'w', 'v'],
    ] {
        let state = play("cat", &guesses);
        assert_eq!(state.display_outcome(), state.outcome_message());
    }
}

#[test]
fn hit_has_no_message() {
    assert_eq!(play("cat", &['c']).outcome_message(), "");
    assert_eq!(play("cat", &[]).outcome_message(), "");
    assert_eq!(play("cat", &['x']).skip().outcome_message(), "");
}

#[test]
fn current_state_of_a_fresh_round() {
    assert_eq!(play("cat", &[]).display_current_state(), "\n\nGuesses: []\n_ _ _");
}

#[test]
fn current_state_lists_the_guesses_quoted() {
    assert_eq!(
        play("cat", &['c', 'x', 'a']).display_current_state(),
        "\n\nGuesses: ['c', 'x', 'a']\nc a _"
    );
}

#[test]
fn current_state_escapes_what_is_not_printable() {
    assert_eq!(
        play("cat", &['\n', '\'', '\u{1b}']).display_current_state(),
        "\n\nGuesses: ['\\n', '\\'', '\\u{1b}']\n_ _ _"
    );
}

#[test]
fn whole_display_of_a_fresh_round() {
    assert_eq!(play("cat", &[]).to_string(), "\n\nGuesses: []\n_ _ _");
}

#[test]
fn whole_display_after_a_hit() {
    assert_eq!(play("cat", &['a']).to_string(), "\n\nGuesses: ['a']\n_ a _");
}

#[test]
fn whole_display_without_colour() {
    set_override(false);
    assert_eq!(
        play("cat", &['c', 'x']).to_string(),
        "'x' in not in the word. You have 5 more incorrect guesses.\n\nGuesses: ['c', 'x']\nc _ _"
    );
    assert_eq!(
        play("cat", &['c', 'a', 't']).to_string(),
        "You win! The word was 'cat'.\n\nGuesses: ['c', 'a', 't']\nc a t"
    );
}

#[test]
fn parse_errors_without_colour() {
    set_override(false);
    let error = ParseError::ExpectedOneCharacterInput { user_input: String::from("ab") };
    assert_eq!(error.to_string(), "'ab' is not one character.");
    let error = ParseError::NonAlphabeticInput { user_input: '1' };
    assert_eq!(error.to_string(), "'1' is non alphabetic.");
}

#[test]
fn frame_state_puts_heading_list_and_word_together() {
    assert_eq!(
        frame_state(&String::from("['a']"), &String::from("_ a _")),
        "\n\nGuesses: ['a']\n_ a _"
    );
    assert_eq!(frame_state(&String::new(), &String::new()), "\n\nGuesses: \n");
}

#[test]
fn obfuscated_word_has_one_token_per_character() {
    let progress = SolutionState::new(String::from("banana"));
    assert_eq!(progress.to_string(), "_ _ _ _ _ _");
    let progress = progress.add_guess('a');
    assert_eq!(progress.to_string(), "_ a _ a _ a");
    let progress = progress.add_guess('n').add_guess('q');
    assert_eq!(progress.to_string(), "_ a n a n a");
    let progress = progress.add_guess('b');
    assert_eq!(progress.to_string(), "b a n a n a");
}

#[test]
fn underscore_in_the_word_looks_covered_either_way() {
    let progress = SolutionState::new(String::from("a_b"));
    assert_eq!(progress.to_string(), "_ _ _");
    assert_eq!(progress.get_remaining_letters(), 3);
    let progress = progress.add_guess('_');
    assert_eq!(progress.to_string(), "_ _ _");
    assert_eq!(progress.get_remaining_letters(), 2);
}
