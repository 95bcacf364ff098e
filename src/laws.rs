use vstd::prelude::*;

use crate::game::{
    evaluate, game_inv, holds_letter, initial_game, is_hint, is_perfect, is_target, lacks_hint,
    lemma_initial_inv, lemma_learn_guess, lemma_step_inv, step, strength, GameStatus, GameView,
    GuessErrors, MatchType, MAX_GUESSES,
};
use crate::word::WORD_SIZE;

verus! {

/// The game after submitting the words `ws` in order.
pub open spec fn play(s: GameView, ws: Seq<Seq<char>>) -> GameView
    decreases ws.len(),
{
    if ws.len() == 0 {
        s
    } else {
        step(play(s, ws.drop_last()), ws.last()).0
    }
}

/// A word scored against itself is a perfect match.
pub proof fn lemma_evaluate_self(w: Seq<char>)
    requires
        w.len() == WORD_SIZE,
    ensures
        is_perfect(evaluate(w, w)),
{
}

/// In a game under way, guessing the target wins.
pub proof fn lemma_target_wins(s: GameView)
    requires
        game_inv(s),
        s.status == GameStatus::InProgress,
    ensures
        step(s, s.target).1 == Ok::<GameStatus, GuessErrors>(GameStatus::Success),
        step(s, s.target).0.status == GameStatus::Success,
{
    let g = evaluate(s.target, s.target);
    lemma_evaluate_self(s.target);
    if s.guesses.contains(g) {
        let i = choose|i: int| 0 <= i < s.guesses.len() && s.guesses[i] == g;
        assert(!is_perfect(s.guesses[i]));
    }
    if lacks_hint(g, s.letters) {
        let j = choose|j: int| 0 <= j < s.letters.len() && is_hint((#[trigger] s.letters[j]).1) && !holds_letter(g, s.letters[j].0);
        let c = s.letters[j].0;
        let i = choose|i: int| 0 <= i < s.target.len() && s.target[i] == c;
        assert(g[i].0 == c);
    }
}

/// A turned-away submission leaves the game as it was.
pub proof fn lemma_rejection_keeps_game(s: GameView, w: Seq<char>)
    requires
        game_inv(s),
    ensures
        step(s, w).1 is Err ==> step(s, w).0 == s,
{
}

/// One submission never weakens what is known of a letter, and an exact match stays.
pub proof fn lemma_step_monotone(s: GameView, w: Seq<char>)
    requires
        game_inv(s),
    ensures
        step(s, w).0.letters.len() == s.letters.len(),
        forall|j: int|
            0 <= j < s.letters.len() ==> {
                let e = #[trigger] step(s, w).0.letters[j];
                &&& e.0 == s.letters[j].0
                &&& strength(e.1) >= strength(s.letters[j].1)
                &&& (s.letters[j].1 == MatchType::ExactMatch ==> e.1 == MatchType::ExactMatch)
            },
{
    lemma_learn_guess(s.letters, evaluate(s.target, w));
}

/// Over any run of submissions, what is known of a letter never weakens, and an exact
/// match stays.
pub proof fn lemma_play_monotone(s: GameView, ws: Seq<Seq<char>>)
    requires
        game_inv(s),
    ensures
        game_inv(play(s, ws)),
        play(s, ws).letters.len() == s.letters.len(),
        forall|j: int|
            0 <= j < s.letters.len() ==> {
                let e = #[trigger] play(s, ws).letters[j];
                &&& e.0 == s.letters[j].0
                &&& strength(e.1) >= strength(s.letters[j].1)
                &&& (s.letters[j].1 == MatchType::ExactMatch ==> e.1 == MatchType::ExactMatch)
            },
    decreases ws.len(),
{
    if ws.len() > 0 {
        let p = play(s, ws.drop_last());
        lemma_play_monotone(s, ws.drop_last());
        lemma_step_inv(p, ws.last());
        lemma_step_monotone(p, ws.last());
        assert forall|j: int| 0 <= j < s.letters.len() implies {
            let e = #[trigger] play(s, ws).letters[j];
            &&& e.0 == s.letters[j].0
            &&& strength(e.1) >= strength(s.letters[j].1)
            &&& (s.letters[j].1 == MatchType::ExactMatch ==> e.1 == MatchType::ExactMatch)
        } by {
            assert(p.letters[j] == play(s, ws.drop_last()).letters[j]);
        }
    }
}

/// A game never holds more than `MAX_GUESSES` guesses, and a submission ends it in
/// `Failure` exactly when it is accepted as the last allowed guess without a perfect match.
pub proof fn lemma_guess_bound(s: GameView, w: Seq<char>)
    requires
        game_inv(s),
    ensures
        step(s, w).0.guesses.len() <= MAX_GUESSES,
        (s.status != GameStatus::Failure && step(s, w).0.status == GameStatus::Failure) <==> (
        step(s, w).1 is Ok && s.guesses.len() + 1 == MAX_GUESSES && step(s, w).0.guesses.len()
            == MAX_GUESSES && !is_perfect(step(s, w).0.guesses.last())),
{
    lemma_step_inv(s, w);
}

/// However many words are submitted to a new game, it never holds more than
/// `MAX_GUESSES` guesses.
pub proof fn lemma_play_bound(t: Seq<char>, ws: Seq<Seq<char>>)
    requires
        is_target(t),
    ensures
        play(initial_game(t), ws).guesses.len() <= MAX_GUESSES,
{
    lemma_initial_inv(t);
    lemma_play_monotone(initial_game(t), ws);
}

} // verus!
