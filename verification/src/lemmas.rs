//! What holds of every round, proved over the model.

use vstd::prelude::*;
use vstd::seq_lib::seq_to_set_is_finite;
use vstd::set_lib::lemma_len_subset;

use crate::game_state::RoundOutcome;
use crate::model::{joined_len, separator, Progress, Round};

verus! {

/// Recording a guess leaves the target word alone, and the characters seen
/// afterwards are the ones seen before and the guess.
pub proof fn lemma_add_guess_sees(progress: Progress, c: char)
    ensures
        progress.add_guess(c).target == progress.target,
        forall|x: char| #[trigger]
            progress.add_guess(c).has_seen(x) <==> progress.has_seen(x) || x == c,
        progress.wf() ==> progress.add_guess(c).wf(),
{
    assert forall|x: char| #[trigger]
        progress.add_guess(c).has_seen(x) <==> progress.has_seen(x) || x == c by {
        if !progress.has_seen(c) {
            let grown = progress.guesses.push(c);
            if progress.has_seen(x) {
                let k = choose|k: int| 0 <= k < progress.guesses.len() && progress.guesses[k] == x;
                assert(grown[k] == x);
            }
            if x == c {
                assert(grown[grown.len() - 1] == x);
            }
        }
    }
}

/// A guess never covers a letter again: the count of covered letters does not
/// grow, and it stays as it is when the guess is not in the word.
pub proof fn lemma_remaining_never_grows(progress: Progress, c: char)
    ensures
        progress.add_guess(c).remaining() <= progress.remaining(),
        !progress.in_word(c) ==> progress.add_guess(c).remaining() == progress.remaining(),
{
    let after = progress.add_guess(c);
    lemma_add_guess_sees(progress, c);
    seq_to_set_is_finite(progress.target);
    assert forall|x: char| after.missing().contains(x) implies progress.missing().contains(x) by {
        assert(after.has_seen(x) <==> progress.has_seen(x) || x == c);
    }
    lemma_len_subset(after.missing(), progress.missing());
    if !progress.in_word(c) {
        assert(after.missing() =~= progress.missing());
    }
}

/// While a letter of the target word is untried, the count of covered letters
/// is not zero; once every letter was tried, it is.
pub proof fn lemma_remaining_zero_iff_all_seen(progress: Progress)
    ensures
        progress.remaining() == 0 <==> forall|i: int|
            0 <= i < progress.target.len() ==> progress.has_seen(#[trigger] progress.target[i]),
{
    seq_to_set_is_finite(progress.target);
    if forall|i: int|
        0 <= i < progress.target.len() ==> progress.has_seen(#[trigger] progress.target[i]) {
        assert(progress.missing() =~= Set::<char>::empty());
    } else {
        let i = choose|i: int|
            0 <= i < progress.target.len() && !progress.has_seen(#[trigger] progress.target[i]);
        assert(progress.missing().contains(progress.target[i]));
    }
}

/// The displayed word has one token for each character of the target word,
/// in the order of the word, and a single separator between two neighbours.
pub proof fn lemma_obfuscated_tokens(progress: Progress)
    ensures
        progress.obfuscated().len() == joined_len(progress.target.len()),
        forall|i: int|
            0 <= i < progress.target.len() ==> progress.obfuscated()[2 * i]
                == #[trigger] progress.token(i),
        forall|i: int|
            0 <= i < progress.target.len() - 1 ==> #[trigger] progress.obfuscated()[2 * i + 1]
                == separator(),
{
}

/// Once no letter is covered, the displayed word shows every character of the
/// target word.
pub proof fn lemma_uncovered_word_is_shown(progress: Progress)
    requires
        progress.remaining() == 0,
    ensures
        forall|i: int|
            0 <= i < progress.target.len() ==> #[trigger] progress.token(i) == progress.target[i],
{
    lemma_remaining_zero_iff_all_seen(progress);
}

/// A guess keeps a round well formed: no character is recorded twice, and the
/// failure counter neither grows nor reaches zero.
pub proof fn lemma_guess_keeps_well_formed(round: Round, c: char)
    requires
        round.wf(),
    ensures
        round.guess(c).wf(),
        round.guess(c).progress.target == round.progress.target,
        1 <= round.guess(c).failures_remaining <= round.failures_remaining,
{
    lemma_add_guess_sees(round.progress, c);
}

/// Only a miss costs a failure, and it costs exactly one.
pub proof fn lemma_only_a_miss_costs_a_failure(round: Round, c: char)
    requires
        round.wf(),
    ensures
        round.guess(c).outcome == Some(RoundOutcome::Miss) <==> round.guess(c).failures_remaining
            == round.failures_remaining - 1,
        round.guess(c).outcome != Some(RoundOutcome::Miss) <==> round.guess(c).failures_remaining
            == round.failures_remaining,
{
}

/// Playing a sequence of guesses keeps a round well formed and leaves the
/// target word alone; the characters seen afterwards are the ones seen before
/// and the guesses.
pub proof fn lemma_play_keeps_well_formed(round: Round, guesses: Seq<char>)
    ensures
        round.play(guesses).progress.target == round.progress.target,
        forall|x: char| #[trigger]
            round.play(guesses).progress.has_seen(x) <==> round.progress.has_seen(x)
                || guesses.contains(x),
        round.wf() ==> round.play(guesses).wf(),
        round.wf() ==> 1 <= round.play(guesses).failures_remaining <= round.failures_remaining,
    decreases guesses.len(),
{
    if guesses.len() > 0 {
        let earlier = guesses.drop_last();
        let before = round.play(earlier);
        lemma_play_keeps_well_formed(round, earlier);
        lemma_add_guess_sees(before.progress, guesses.last());
        if round.wf() {
            lemma_guess_keeps_well_formed(before, guesses.last());
        }
        assert forall|x: char| #[trigger]
            round.play(guesses).progress.has_seen(x) <==> round.progress.has_seen(x)
                || guesses.contains(x) by {
            assert(before.progress.has_seen(x) <==> round.progress.has_seen(x) || earlier.contains(
                x,
            ));
            if guesses.contains(x) && x != guesses.last() {
                let k = choose|k: int| 0 <= k < guesses.len() && guesses[k] == x;
                assert(earlier[k] == x);
            }
        }
    }
}

/// Once every letter of the target word was tried, the round is won: if the
/// guesses played from `round` all occur in the word, and together with the
/// ones tried before leave no letter of it out, the last of them wins.
pub proof fn lemma_uncovering_every_letter_wins(round: Round, guesses: Seq<char>)
    requires
        guesses.len() > 0,
        forall|i: int| 0 <= i < guesses.len() ==> round.progress.in_word(#[trigger] guesses[i]),
        forall|i: int|
            0 <= i < round.progress.target.len() ==> round.progress.has_seen(
                #[trigger] round.progress.target[i],
            ) || guesses.contains(round.progress.target[i]),
    ensures
        round.play(guesses).outcome == Some(RoundOutcome::Win),
        round.play(guesses).progress.remaining() == 0,
{
    // The last guess is in the word, so it is no losing miss ...
    lemma_play_keeps_well_formed(round, guesses.drop_last());
    // ... and after it every letter of the word was tried.
    lemma_play_keeps_well_formed(round, guesses);
    lemma_remaining_zero_iff_all_seen(round.play(guesses).progress);
}

/// For every target word and every sequence of guesses that holds only
/// characters of the word and every one of them: after the guesses, played
/// from the start of a round, the outcome is a win and no letter is covered.
pub proof fn lemma_guessing_every_letter_wins(target: Seq<char>, budget: nat, guesses: Seq<char>)
    requires
        target.len() > 0,
        forall|i: int| 0 <= i < guesses.len() ==> target.contains(#[trigger] guesses[i]),
        forall|i: int| 0 <= i < target.len() ==> guesses.contains(#[trigger] target[i]),
    ensures
        Round::fresh(target, budget).play(guesses).outcome == Some(RoundOutcome::Win),
        Round::fresh(target, budget).play(guesses).progress.remaining() == 0,
{
    assert(guesses.len() > 0) by {
        assert(guesses.contains(target[0]));
    }
    lemma_uncovering_every_letter_wins(Round::fresh(target, budget), guesses);
}

/// In a round that is still to be won, guessing the same character twice in
/// a row, where the first guess does not win, gives a duplicate the second
/// time; the second guess costs no failure and records nothing.
pub proof fn lemma_repeated_guess_is_duplicate(round: Round, c: char)
    requires
        round.progress.remaining() > 0,
        round.guess(c).outcome != Some(RoundOutcome::Win),
    ensures
        round.guess(c).guess(c).outcome == Some(RoundOutcome::Duplicate),
        round.guess(c).guess(c).failures_remaining == round.guess(c).failures_remaining,
        round.guess(c).guess(c).progress == round.guess(c).progress,
{
    lemma_add_guess_sees(round.progress, c);
    lemma_remaining_never_grows(round.progress, c);
}

/// As long as no character of the target word was tried, some letter is
/// covered.
proof fn lemma_untried_word_is_covered(progress: Progress)
    requires
        progress.target.len() > 0,
        forall|i: int|
            0 <= i < progress.guesses.len() ==> !progress.target.contains(
                #[trigger] progress.guesses[i],
            ),
    ensures
        progress.remaining() > 0,
{
    lemma_remaining_zero_iff_all_seen(progress);
    assert(!progress.has_seen(progress.target[0]));
}

/// The states that a round on `target` goes through while the player tries
/// characters that are not in the word, one new character at a time: as long
/// as fewer wrong guesses were made than the budget allows, each one is a
/// miss and costs one failure.
proof fn lemma_wrong_guesses_miss(target: Seq<char>, budget: nat, guesses: Seq<char>)
    requires
        target.len() > 0,
        guesses.len() < budget,
        guesses.no_duplicates(),
        forall|i: int| 0 <= i < guesses.len() ==> !target.contains(#[trigger] guesses[i]),
    ensures
        Round::fresh(target, budget).play(guesses).progress == (Progress { target, guesses }),
        Round::fresh(target, budget).play(guesses).failures_remaining == budget - guesses.len(),
        guesses.len() > 0 ==> Round::fresh(target, budget).play(guesses).outcome == Some(
            RoundOutcome::Miss,
        ),
    decreases guesses.len(),
{
    if guesses.len() == 0 {
        assert(guesses =~= Seq::<char>::empty());
    } else {
        let earlier = guesses.drop_last();
        lemma_wrong_guesses_miss(target, budget, earlier);
        assert(!earlier.contains(guesses.last()));
        assert(earlier.push(guesses.last()) =~= guesses);
        lemma_untried_word_is_covered(Progress { target, guesses });
    }
}

/// A round that allows `budget` failures is lost by the `budget`-th wrong
/// guess and not before: when the player tries `budget` different characters
/// of which none is in the word, every guess before the last is a miss that
/// takes the failure counter down by one, and the last one loses, with the
/// counter left at one.
pub proof fn lemma_budget_of_wrong_guesses_loses(
    target: Seq<char>,
    budget: nat,
    guesses: Seq<char>,
)
    requires
        target.len() > 0,
        budget >= 1,
        guesses.len() == budget,
        guesses.no_duplicates(),
        forall|i: int| 0 <= i < guesses.len() ==> !target.contains(#[trigger] guesses[i]),
    ensures
        forall|k: int|
            #![trigger guesses.take(k)]
            0 < k < budget ==> {
                let round = Round::fresh(target, budget).play(guesses.take(k));
                &&& round.outcome == Some(RoundOutcome::Miss)
                &&& round.failures_remaining == budget - k
            },
        Round::fresh(target, budget).play(guesses).outcome == Some(RoundOutcome::Lose),
        Round::fresh(target, budget).play(guesses).failures_remaining == 1,
{
    assert forall|k: int| #![trigger guesses.take(k)] 0 < k < budget implies {
        let round = Round::fresh(target, budget).play(guesses.take(k));
        &&& round.outcome == Some(RoundOutcome::Miss)
        &&& round.failures_remaining == budget - k
    } by {
        lemma_wrong_guesses_miss(target, budget, guesses.take(k));
    }
    // Before the last guess one failure is left, and the last guess is new
    // and not in the word.
    lemma_wrong_guesses_miss(target, budget, guesses.drop_last());
    assert(!guesses.drop_last().contains(guesses.last()));
}

} // verus!
