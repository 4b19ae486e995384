//! The mathematical model of a round: what a round is, and what a guess does
//! to it. The executable types in [`crate::game_state`] are specified as
//! views into this model.

use vstd::prelude::*;

use crate::game_state::RoundOutcome;
use crate::paint::{green_on, is_painted, red_on};
use crate::text::{debug_list, decimal};

verus! {

/// The glyph shown in place of a letter that has not been uncovered yet.
pub open spec fn placeholder() -> char {
    '_'
}

/// The glyph between two letters of the displayed word.
pub open spec fn separator() -> char {
    ' '
}

/// The value of `last_guess` before the first guess.
pub open spec fn no_guess_yet() -> char {
    ' '
}

/// The length of `n` one-character tokens joined by a one-character separator.
pub open spec fn joined_len(n: nat) -> nat {
    if n == 0 {
        0
    } else {
        (2 * n - 1) as nat
    }
}

/// Guessing progress against one fixed target word.
pub struct Progress {
    /// The word to uncover.
    pub target: Seq<char>,
    /// The characters tried so far, in the order in which they were first tried.
    pub guesses: Seq<char>,
}

impl Progress {
    /// The target word is not empty and no character was recorded twice.
    pub open spec fn wf(self) -> bool {
        &&& self.target.len() > 0
        &&& self.guesses.no_duplicates()
    }

    /// Progress on `target` before any guess.
    pub open spec fn fresh(target: Seq<char>) -> Progress {
        Progress { target, guesses: Seq::empty() }
    }

    /// `c` was tried before.
    pub open spec fn has_seen(self, c: char) -> bool {
        self.guesses.contains(c)
    }

    /// `c` occurs somewhere in the target word.
    pub open spec fn in_word(self, c: char) -> bool {
        self.target.contains(c)
    }

    /// The distinct characters of the target word that were not tried yet.
    pub open spec fn missing(self) -> Set<char> {
        self.target.to_set().difference(self.guesses.to_set())
    }

    /// How many distinct characters of the target word are still covered.
    pub open spec fn remaining(self) -> nat {
        self.missing().len()
    }

    /// Records `c` as tried; nothing changes if it was tried before.
    pub open spec fn add_guess(self, c: char) -> Progress {
        if self.has_seen(c) {
            self
        } else {
            Progress { target: self.target, guesses: self.guesses.push(c) }
        }
    }

    /// What is shown for the `i`-th character of the target word: the
    /// character itself once it was tried, the placeholder before.
    pub open spec fn token(self, i: int) -> char {
        if self.has_seen(self.target[i]) {
            self.target[i]
        } else {
            placeholder()
        }
    }

    /// The displayed word: one token per character of the target word, two
    /// neighbours separated by a single separator.
    pub open spec fn obfuscated(self) -> Seq<char> {
        Seq::new(
            joined_len(self.target.len()),
            |j: int|
                if j % 2 == 0 {
                    self.token(j / 2)
                } else {
                    separator()
                },
        )
    }
}

/// The outcome of a guess, decided from four facts about it. The order of the
/// tests matters: a losing miss is recognised before a win, a win before a
/// duplicate, a duplicate before a miss.
pub open spec fn classify(
    is_duplicate: bool,
    is_in_word: bool,
    remaining: nat,
    failures_remaining: nat,
) -> RoundOutcome {
    if !is_duplicate && !is_in_word && failures_remaining == 1 {
        RoundOutcome::Lose
    } else if remaining == 0 {
        RoundOutcome::Win
    } else if is_duplicate {
        RoundOutcome::Duplicate
    } else if !is_in_word {
        RoundOutcome::Miss
    } else {
        RoundOutcome::Hit
    }
}

/// The whole state of a round.
pub struct Round {
    /// Which characters were tried against which word.
    pub progress: Progress,
    /// The character tried last, `no_guess_yet()` before the first guess.
    pub last_guess: char,
    /// How many more wrong guesses end the round.
    pub failures_remaining: nat,
    /// How the last transition turned out, `None` before the first guess and
    /// after a skipped turn.
    pub outcome: Option<RoundOutcome>,
}

impl Round {
    /// The progress is well formed and the failure budget is not used up: the
    /// miss that would take the counter from one to zero is the one that loses.
    pub open spec fn wf(self) -> bool {
        &&& self.progress.wf()
        &&& self.failures_remaining >= 1
    }

    /// The first state of a round on `target` that ends with the `budget`-th
    /// wrong guess.
    pub open spec fn fresh(target: Seq<char>, budget: nat) -> Round {
        Round {
            progress: Progress::fresh(target),
            last_guess: no_guess_yet(),
            failures_remaining: budget,
            outcome: None,
        }
    }

    /// The outcome that guessing `c` in this state has.
    pub open spec fn score(self, c: char) -> RoundOutcome {
        classify(
            self.progress.has_seen(c),
            self.progress.in_word(c),
            self.progress.add_guess(c).remaining(),
            self.failures_remaining,
        )
    }

    /// The state after guessing `c`. Only a miss costs one failure.
    pub open spec fn guess(self, c: char) -> Round {
        let outcome = self.score(c);
        Round {
            progress: self.progress.add_guess(c),
            last_guess: c,
            failures_remaining: if outcome == RoundOutcome::Miss {
                (self.failures_remaining - 1) as nat
            } else {
                self.failures_remaining
            },
            outcome: Some(outcome),
        }
    }

    /// The state after a turn in which no guess could be read: the outcome is
    /// cleared and nothing else changes.
    pub open spec fn skip(self) -> Round {
        Round { outcome: None, ..self }
    }

    /// The state after guessing the characters of `guesses` one after another.
    pub open spec fn play(self, guesses: Seq<char>) -> Round
        decreases guesses.len(),
    {
        if guesses.len() == 0 {
            self
        } else {
            self.play(guesses.drop_last()).guess(guesses.last())
        }
    }

    /// The round has ended: the last guess won or lost it.
    pub open spec fn is_over(self) -> bool {
        self.outcome == Some(RoundOutcome::Win) || self.outcome == Some(RoundOutcome::Lose)
    }

    /// What the player is told about the last transition, as plain text. A
    /// hit needs no comment, and neither does a state without an outcome.
    pub open spec fn outcome_message(self) -> Seq<char> {
        match self.outcome {
            Some(RoundOutcome::Miss) => "'"@ + seq![self.last_guess]
                + "' in not in the word. You have "@ + decimal(self.failures_remaining)
                + " more incorrect guesses."@,
            Some(RoundOutcome::Duplicate) => "You've already guessed '"@ + seq![self.last_guess]
                + "'."@,
            Some(RoundOutcome::Win) => "You win! The word was '"@ + self.progress.target + "'."@,
            Some(RoundOutcome::Lose) => "You lose! The word was '"@ + self.progress.target
                + "'."@,
            Some(RoundOutcome::Hit) | None => Seq::empty(),
        }
    }

    /// `shown` is the outcome message as a terminal is to show it: green for
    /// a win, red for a miss, a duplicate and a loss, and nothing at all
    /// where there is no message.
    pub open spec fn is_outcome_display(self, shown: Seq<char>) -> bool {
        match self.outcome {
            Some(RoundOutcome::Win) => is_painted(shown, self.outcome_message(), green_on()),
            Some(RoundOutcome::Miss) | Some(RoundOutcome::Duplicate) | Some(RoundOutcome::Lose) => {
                is_painted(shown, self.outcome_message(), red_on())
            },
            Some(RoundOutcome::Hit) | None => shown == Seq::<char>::empty(),
        }
    }

    /// The guesses so far and the word as the player sees it.
    pub open spec fn current_state_text(self) -> Seq<char> {
        state_text(debug_list(self.progress.guesses), self.progress.obfuscated())
    }

    /// `shown` is everything the player is shown after a transition: the
    /// outcome message as a terminal is to show it, then the current state.
    pub open spec fn is_display(self, shown: Seq<char>) -> bool {
        exists|head: Seq<char>| #[trigger]
            self.is_outcome_display(head) && shown == head + self.current_state_text()
    }
}

/// Why a line of input is no guess.
pub enum Rejection {
    /// Something other than one character was left of the line.
    NotSingleCharacter { text: Seq<char> },
    /// The one character left of the line is no letter.
    NotAlphabetic { found: char },
}

impl Rejection {
    /// What the player is told about the rejected input, as plain text.
    pub open spec fn message(self) -> Seq<char> {
        match self {
            Rejection::NotSingleCharacter { text } => "'"@ + text + "' is not one character."@,
            Rejection::NotAlphabetic { found } => "'"@ + seq![found] + "' is non alphabetic."@,
        }
    }
}

/// The text that shows a state: after two line breaks the list of guesses
/// behind its heading, and the word on the line below.
pub open spec fn state_text(guess_list: Seq<char>, word: Seq<char>) -> Seq<char> {
    "\n\nGuesses: "@ + guess_list + "\n"@ + word
}

} // verus!
