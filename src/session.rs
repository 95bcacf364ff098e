use vstd::prelude::*;

use crate::game::{initial_game, step, GameState, GameStatus, GuessErrors};
use crate::word::{is_valid_word, upper_seq, GameWord};

verus! {

/// Text with white space taken off both ends, as `str::trim` gives it.
pub uninterp spec fn trimmed(s: Seq<char>) -> Seq<char>;

/// Relies on `str::trim`: the text without its leading and trailing white space, which
/// depends on the text alone.
#[verifier::external_body]
fn trim(s: &str) -> (r: &str)
    ensures
        r@ == trimmed(s@),
{
    s.trim()
}

/// Trimmed text as a line: `None` when it is empty.
pub fn non_blank(t: &str) -> (r: Option<String>)
    ensures
        r is None <==> t@.len() == 0,
        r matches Some(s) ==> s@ == t@,
{
    if t.is_empty() {
        None
    } else {
        Some(t.to_owned())
    }
}

/// A line typed by the player, trimmed; `None` when nothing but white space was typed.
pub fn entered_line(raw: &str) -> (r: Option<String>)
    ensures
        r is None <==> trimmed(raw@).len() == 0,
        r matches Some(t) ==> t@ == trimmed(raw@),
{
    non_blank(trim(raw))
}

/// How a game launched from the command line begins.
pub enum Launch {
    /// The arguments are not a program name and a target.
    Usage,
    /// The target given is not a word.
    InvalidTarget,
    /// A game on the target given.
    Play(GameState),
}

/// Starts play from the command line, the program name then the target: the game to
/// play on that target, or why none can start.
pub fn init_and_play_game(args: &Vec<String>) -> (r: Launch)
    ensures
        r is Usage <==> args@.len() != 2,
        r is InvalidTarget <==> args@.len() == 2 && !is_valid_word(args@[1]@),
        r matches Launch::Play(g) ==> g.wf() && g@ == initial_game(upper_seq(args@[1]@)),
{
    if args.len() != 2 {
        return Launch::Usage;
    }
    match GameWord::new(args[1].as_str()) {
        Ok(target) => Launch::Play(GameState::new(target)),
        Err(_) => Launch::InvalidTarget,
    }
}

/// What the game answers to a line typed by the player.
#[derive(Clone, Copy, Debug, PartialEq, Eq)]
pub enum Reply {
    /// The line is not a word; the game is unchanged.
    InvalidWord,
    /// The word was turned away; the game is unchanged.
    Rejected(GuessErrors),
    /// The word was taken; the status that follows.
    Accepted(GameStatus),
}

/// Submits a typed line to `game` as a word.
pub fn play_line(game: &mut GameState, line: &str) -> (r: Reply)
    requires
        old(game).wf(),
    ensures
        final(game).wf(),
        !is_valid_word(line@) ==> r == Reply::InvalidWord && final(game)@ == old(game)@,
        is_valid_word(line@) ==> final(game)@ == step(old(game)@, upper_seq(line@)).0 && match step(
            old(game)@,
            upper_seq(line@),
        ).1 {
            Ok(st) => r == Reply::Accepted(st),
            Err(e) => r == Reply::Rejected(e),
        },
{
    match GameWord::new(line) {
        Err(_) => Reply::InvalidWord,
        Ok(word) => match game.add_guess(&word) {
            Ok(st) => Reply::Accepted(st),
            Err(e) => Reply::Rejected(e),
        },
    }
}

} // verus!
