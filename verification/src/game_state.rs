//! The state of a round and the rules that take it from one guess to the next.

use vstd::prelude::*;
use vstd::string::StringExecFns;

use crate::model::{classify, state_text, Progress, Rejection, Round};
use crate::paint::{green, is_painted, red, red_on};
use crate::text::{format_debug_list, push_decimal};

verus! {

/// The number of wrong guesses that ends a round: head, body, 2 arms, 2 legs.
pub const MAX_FAILURES: u8 = 6;

/// How a single guess turned out.
#[derive(Copy, Clone, Debug, PartialEq, Eq, PartialOrd, Ord, Hash, Structural)]
pub enum RoundOutcome {
    /// Discovered a new letter
    Hit,
    /// Found a letter not in the word
    Miss,
    /// Already guessed this letter
    Duplicate,
    /// Successfully found the word
    Win,
    /// Failed to find the word
    Lose,
}

/// Guessing progress against one fixed target word.
#[derive(Debug, PartialEq, Eq, PartialOrd, Ord, Hash)]
pub struct SolutionState {
    guesses: Vec<char>,
    target_word: String,
}

impl View for SolutionState {
    type V = Progress;

    closed spec fn view(&self) -> Progress {
        Progress { target: self.target_word@, guesses: self.guesses@ }
    }
}

impl SolutionState {
    #[verifier::type_invariant]
    closed spec fn inv(self) -> bool {
        self@.wf()
    }

    /// Progress on `target_word` before any guess.
    pub fn new(target_word: String) -> (fresh: SolutionState)
        requires
            target_word@.len() > 0,
        ensures
            fresh@ == Progress::fresh(target_word@),
            fresh@.wf(),
    {
        SolutionState { guesses: Vec::new(), target_word }
    }

    /// How many distinct characters of the target word are still covered.
    pub fn get_remaining_letters(&self) -> (count: usize)
        ensures
            count == self@.remaining(),
    {
        let mut missing_chars: Vec<char> = Vec::new();
        for letter in it: self.target_word.as_str().chars()
            invariant
                it.seq() == self.target_word@,
                missing_chars@.no_duplicates(),
                missing_chars@.to_set() == (Progress {
                    target: self.target_word@.take(it.index() as int),
                    guesses: self.guesses@,
                }).missing(),
        {
            proof {
                let i = it.index() as int;
                self.target_word@.lemma_take_succ_push(i);
                self.target_word@.take(i).lemma_push_to_set_commute(letter);
                missing_chars@.lemma_push_to_set_commute(letter);
            }
            if !holds(&self.guesses, letter) && !holds(&missing_chars, letter) {
                missing_chars.push(letter);
            }
        }
        proof {
            self.target_word@.lemma_take_len();
            missing_chars@.unique_seq_to_set();
        }
        missing_chars.len()
    }

    /// The word as the player sees it: each character of the target word that
    /// was tried shows as itself, every other one as `_`, and a single space
    /// stands between two neighbours.
    pub fn to_string(&self) -> (shown: String)
        ensures
            shown@ == self@.obfuscated(),
    {
        let mut shown = String::new();
        let mut first = true;
        for letter in it: self.target_word.as_str().chars()
            invariant
                it.seq() == self.target_word@,
                first == (it.index() == 0),
                shown@ == (Progress {
                    target: self.target_word@.take(it.index() as int),
                    guesses: self.guesses@,
                }).obfuscated(),
        {
            if !first {
                shown.push(' ');
            }
            shown.push(if holds(&self.guesses, letter) { letter } else { '_' });
            first = false;
        }
        proof {
            self.target_word@.lemma_take_len();
        }
        shown
    }

    /// Whether `char` was tried before.
    pub fn has_seen(&self, char: &char) -> (seen: bool)
        ensures
            seen == self@.has_seen(*char),
    {
        holds(&self.guesses, *char)
    }

    /// The progress with `char` recorded as tried. Nothing changes if it was
    /// tried before.
    pub fn add_guess(&self, char: char) -> (next: SolutionState)
        ensures
            next@ == self@.add_guess(char),
            next@.wf(),
    {
        proof {
            use_type_invariant(self);
        }
        let mut new_guesses = self.guesses.clone();
        if !holds(&new_guesses, char) {
            new_guesses.push(char);
        }
        SolutionState { guesses: new_guesses, target_word: self.target_word.clone() }
    }
}

impl Clone for SolutionState {
    fn clone(&self) -> (copy: SolutionState)
        ensures
            copy@ == self@,
    {
        proof {
            use_type_invariant(self);
        }
        SolutionState { guesses: self.guesses.clone(), target_word: self.target_word.clone() }
    }
}

/// The full state of a round.
#[derive(Debug, PartialEq, Eq, PartialOrd, Ord, Hash)]
pub struct GameState {
    round_outcome: Option<RoundOutcome>,
    solution_state: SolutionState,
    last_guess: char,
    num_wrong_remaining: u8,
}

impl View for GameState {
    type V = Round;

    closed spec fn view(&self) -> Round {
        Round {
            progress: self.solution_state@,
            last_guess: self.last_guess,
            failures_remaining: self.num_wrong_remaining as nat,
            outcome: self.round_outcome,
        }
    }
}

impl GameState {
    #[verifier::type_invariant]
    closed spec fn inv(self) -> bool {
        self@.wf()
    }

    /// The first state of a round on `target_word`, with the full failure
    /// budget.
    pub fn new(target_word: String) -> (fresh: GameState)
        requires
            target_word@.len() > 0,
        ensures
            fresh@ == Round::fresh(target_word@, MAX_FAILURES as nat),
            fresh@.wf(),
    {
        GameState::with_budget(target_word, MAX_FAILURES)
    }

    /// The first state of a round on `target_word` that the `budget`-th wrong
    /// guess ends.
    pub fn with_budget(target_word: String, budget: u8) -> (fresh: GameState)
        requires
            target_word@.len() > 0,
            budget >= 1,
        ensures
            fresh@ == Round::fresh(target_word@, budget as nat),
            fresh@.wf(),
    {
        GameState {
            solution_state: SolutionState::new(target_word),
            round_outcome: None,
            num_wrong_remaining: budget,
            last_guess: ' ',
        }
    }

    /// The state after a turn in which no guess could be read: the outcome is
    /// cleared, nothing else changes.
    pub fn skip(&self) -> (next: GameState)
        ensures
            next@ == self@.skip(),
            next@.progress == self@.progress,
            next@.last_guess == self@.last_guess,
            next@.failures_remaining == self@.failures_remaining,
            next@.outcome is None,
            next@.wf(),
    {
        proof {
            use_type_invariant(self);
        }
        GameState {
            round_outcome: None,
            solution_state: self.solution_state.clone(),
            last_guess: self.last_guess,
            num_wrong_remaining: self.num_wrong_remaining,
        }
    }

    /// How the last transition turned out; `None` before the first guess and
    /// after a skipped turn.
    pub fn round_outcome(&self) -> (outcome: Option<RoundOutcome>)
        ensures
            outcome == self@.outcome,
    {
        self.round_outcome
    }

    /// Whether the round has ended: the last guess won or lost it.
    pub fn is_over(&self) -> (over: bool)
        ensures
            over == self@.is_over(),
    {
        match self.round_outcome {
            Some(RoundOutcome::Win) => true,
            Some(RoundOutcome::Lose) => true,
            _ => false,
        }
    }

    /// The characters tried so far, in the order in which they were first
    /// tried.
    pub fn get_all_guesses(&self) -> (guesses: Vec<char>)
        ensures
            guesses@ == self@.progress.guesses,
    {
        self.solution_state.guesses.clone()
    }

    /// The word as the player sees it.
    pub fn get_obfuscated_word(&self) -> (shown: String)
        ensures
            shown@ == self@.progress.obfuscated(),
    {
        self.solution_state.to_string()
    }

    /// The outcome of guessing `guess` in this state, where
    /// `new_solution_state` is the progress with that guess recorded.
    pub fn score(&self, new_solution_state: &SolutionState, guess: char) -> (outcome: RoundOutcome)
        ensures
            outcome == classify(
                self@.progress.has_seen(guess),
                self@.progress.in_word(guess),
                new_solution_state@.remaining(),
                self@.failures_remaining,
            ),
    {
        let is_duplicate = self.solution_state.has_seen(&guess);
        let is_in_word = word_holds(&self.solution_state.target_word, guess);
        let num_blanks_remaining = new_solution_state.get_remaining_letters();

        if !is_duplicate && !is_in_word && self.num_wrong_remaining == 1 {
            RoundOutcome::Lose
        } else if num_blanks_remaining == 0 {
            RoundOutcome::Win
        } else if is_duplicate {
            RoundOutcome::Duplicate
        } else if !is_in_word {
            RoundOutcome::Miss
        } else {
            RoundOutcome::Hit
        }
    }

    /// The state after guessing `guess`: the guess is recorded, the outcome
    /// says how it went, and a miss costs one failure.
    pub fn guess(&self, guess: char) -> (next: GameState)
        ensures
            next@ == self@.guess(guess),
            next@.wf(),
    {
        proof {
            use_type_invariant(self);
        }
        let new_solution_state = self.solution_state.add_guess(guess);
        let round_outcome = self.score(&new_solution_state, guess);
        let cost: u8 = if round_outcome == RoundOutcome::Miss {
            1
        } else {
            0
        };
        let num_wrong_remaining = self.num_wrong_remaining - cost;

        GameState {
            solution_state: new_solution_state,
            round_outcome: Some(round_outcome),
            num_wrong_remaining,
            last_guess: guess,
        }
    }

    /// The guesses so far and the word as the player sees it.
    pub fn display_current_state(&self) -> (text: String)
        ensures
            text@ == self@.current_state_text(),
    {
        let guesses = self.get_all_guesses();
        let obfuscated_word = self.get_obfuscated_word();

        frame_state(&format_debug_list(&guesses), &obfuscated_word)
    }

    /// What the player is told about the last transition, as plain text.
    pub fn outcome_message(&self) -> (text: String)
        ensures
            text@ == self@.outcome_message(),
    {
        match &self.round_outcome {
            Some(RoundOutcome::Hit) => String::new(),
            Some(RoundOutcome::Miss) => {
                let mut text = String::from_str("'");
                text.push(self.last_guess);
                text.append("' in not in the word. You have ");
                push_decimal(&mut text, self.num_wrong_remaining);
                text.append(" more incorrect guesses.");
                text
            },
            Some(RoundOutcome::Duplicate) => {
                let mut text = String::from_str("You've already guessed '");
                text.push(self.last_guess);
                text.append("'.");
                text
            },
            Some(RoundOutcome::Win) => {
                let mut text = String::from_str("You win! The word was '");
                text.append(self.solution_state.target_word.as_str());
                text.append("'.");
                text
            },
            Some(RoundOutcome::Lose) => {
                let mut text = String::from_str("You lose! The word was '");
                text.append(self.solution_state.target_word.as_str());
                text.append("'.");
                text
            },
            None => String::new(),
        }
    }

    /// The outcome message as a terminal is to show it: green for a win, red
    /// for a miss, a duplicate and a loss.
    pub fn display_outcome(&self) -> (shown: String)
        ensures
            self@.is_outcome_display(shown@),
    {
        let message = self.outcome_message();
        match &self.round_outcome {
            Some(RoundOutcome::Hit) => message,
            Some(RoundOutcome::Miss) => red(message.as_str()),
            Some(RoundOutcome::Duplicate) => red(message.as_str()),
            Some(RoundOutcome::Win) => green(message.as_str()),
            Some(RoundOutcome::Lose) => red(message.as_str()),
            None => message,
        }
    }

    /// Everything the player is shown after a transition: the outcome
    /// message, then the current state.
    pub fn to_string(&self) -> (shown: String)
        ensures
            self@.is_display(shown@),
    {
        let mut shown = self.display_outcome();
        let ghost head = shown@;
        shown.append(self.display_current_state().as_str());
        assert(self@.is_outcome_display(head) && shown@ == head + self@.current_state_text());
        shown
    }
}

impl Clone for GameState {
    fn clone(&self) -> (copy: GameState)
        ensures
            copy@ == self@,
    {
        proof {
            use_type_invariant(self);
        }
        GameState {
            round_outcome: self.round_outcome,
            solution_state: self.solution_state.clone(),
            last_guess: self.last_guess,
            num_wrong_remaining: self.num_wrong_remaining,
        }
    }
}

/// The text that shows a state, put together from the list of guesses as
/// text and the word as the player sees it.
pub fn frame_state(guess_list: &String, word: &String) -> (text: String)
    ensures
        text@ == state_text(guess_list@, word@),
{
    let mut text = String::from_str("\n\nGuesses: ");
    text.append(guess_list.as_str());
    text.append("\n");
    text.append(word.as_str());
    text
}

/// Why a line of input is no guess. Each variant carries the offending input.
#[derive(Debug, PartialEq, Eq, PartialOrd, Ord, Hash)]
#[allow(inconsistent_fields)]
pub enum ParseError {
    /// Something other than one character was left of the line.
    ExpectedOneCharacterInput { user_input: String },
    /// The one character left of the line is no letter.
    NonAlphabeticInput { user_input: char },
}

impl View for ParseError {
    type V = Rejection;

    open spec fn view(&self) -> Rejection {
        match self {
            ParseError::ExpectedOneCharacterInput { user_input } => Rejection::NotSingleCharacter {
                text: user_input@,
            },
            ParseError::NonAlphabeticInput { user_input } => Rejection::NotAlphabetic {
                found: *user_input,
            },
        }
    }
}

impl Clone for ParseError {
    fn clone(&self) -> (copy: ParseError)
        ensures
            copy@ == self@,
    {
        match self {
            ParseError::ExpectedOneCharacterInput { user_input } => {
                ParseError::ExpectedOneCharacterInput { user_input: user_input.clone() }
            },
            ParseError::NonAlphabeticInput { user_input } => ParseError::NonAlphabeticInput {
                user_input: *user_input,
            },
        }
    }
}

impl ParseError {
    /// What the player is told about the rejected input, as plain text.
    pub fn message(&self) -> (text: String)
        ensures
            text@ == self@.message(),
    {
        match self {
            ParseError::ExpectedOneCharacterInput { user_input } => {
                let mut text = String::from_str("'");
                text.append(user_input.as_str());
                text.append("' is not one character.");
                text
            },
            ParseError::NonAlphabeticInput { user_input } => {
                let mut text = String::from_str("'");
                text.push(*user_input);
                text.append("' is non alphabetic.");
                text
            },
        }
    }

    /// The message as a terminal is to show it, in red.
    pub fn to_string(&self) -> (shown: String)
        ensures
            is_painted(shown@, self@.message(), red_on()),
    {
        red(self.message().as_str())
    }
}

/// Whether `c` occurs in `chars`.
fn holds(chars: &Vec<char>, c: char) -> (found: bool)
    ensures
        found == chars@.contains(c),
{
    let mut i: usize = 0;
    while i < chars.len()
        invariant
            i <= chars.len(),
            forall|k: int| 0 <= k < i ==> chars@[k] != c,
        decreases chars.len() - i,
    {
        if chars[i] == c {
            return true;
        }
        i += 1;
    }
    false
}

/// Whether `c` occurs in `word`.
fn word_holds(word: &String, c: char) -> (found: bool)
    ensures
        found == word@.contains(c),
{
    let mut found = false;
    for letter in it: word.as_str().chars()
        invariant
            it.seq() == word@,
            found == exists|k: int| 0 <= k < it.index() && word@[k] == c,
    {
        if letter == c {
            found = true;
        }
    }
    found
}

} // verus!
