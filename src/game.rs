use vstd::prelude::*;

use crate::word::{GameWord, WORD_SIZE};

verus! {

/// Number of guesses a game allows.
pub const MAX_GUESSES: usize = 6;

/// Number of letters in the alphabet the knowledge covers.
pub const ALPHABET_SIZE: usize = 26;

/// Why a guess was turned away.
#[derive(Clone, Copy, Debug, PartialEq, Eq, Structural)]
pub enum GuessErrors {
    DuplicateGuessError,
    UnusedHintsError,
}

/// What is known of a letter.
#[derive(Clone, Copy, Debug, PartialEq, Eq, Structural)]
pub enum MatchType {
    Unknown,
    NoMatch,
    WrongPosition,
    ExactMatch,
}

/// A letter paired with what is known of it.
#[derive(Clone, Copy, Debug, PartialEq, Eq, Structural)]
pub struct GameLetter(pub char, pub MatchType);

/// Where a game stands.
#[derive(Clone, Copy, Debug, PartialEq, Eq, Structural)]
pub enum GameStatus {
    InProgress,
    Success,
    Failure,
}

/// A scored guess: each letter of the guess with its outcome, in order.
#[derive(Clone, Copy, Debug, PartialEq, Eq)]
pub struct GameGuess(pub [GameLetter; WORD_SIZE]);

impl View for GameGuess {
    type V = Seq<GameLetter>;

    open spec fn view(&self) -> Seq<GameLetter> {
        self.0@
    }
}

/// How much an outcome tells: `Unknown` < `NoMatch` < `WrongPosition` < `ExactMatch`.
pub open spec fn strength(m: MatchType) -> nat {
    match m {
        MatchType::Unknown => 0,
        MatchType::NoMatch => 1,
        MatchType::WrongPosition => 2,
        MatchType::ExactMatch => 3,
    }
}

/// An outcome that says the letter is in the target.
pub open spec fn is_hint(m: MatchType) -> bool {
    m == MatchType::WrongPosition || m == MatchType::ExactMatch
}

/// The outcome of guessing `c` at position `i` against `target`.
pub open spec fn score_at(target: Seq<char>, c: char, i: int) -> GameLetter {
    if c == target[i] {
        GameLetter(c, MatchType::ExactMatch)
    } else if target.contains(c) {
        GameLetter(c, MatchType::WrongPosition)
    } else {
        GameLetter(c, MatchType::NoMatch)
    }
}

/// The scored form of `guess` against `target`, position by position.
pub open spec fn evaluate(target: Seq<char>, guess: Seq<char>) -> Seq<GameLetter> {
    Seq::new(WORD_SIZE as nat, |i: int| score_at(target, guess[i], i))
}

/// Every position of the scored guess is an exact match.
pub open spec fn is_perfect(g: Seq<GameLetter>) -> bool {
    forall|i: int| 0 <= i < g.len() ==> (#[trigger] g[i]).1 == MatchType::ExactMatch
}

/// Some position of the scored guess holds the letter `c`.
pub open spec fn holds_letter(g: Seq<GameLetter>, c: char) -> bool {
    exists|i: int| 0 <= i < g.len() && (#[trigger] g[i]).0 == c
}

/// Whether a new outcome replaces the recorded one.
pub open spec fn needs_update(new: MatchType, recorded: MatchType) -> bool {
    match (new, recorded) {
        (_, MatchType::ExactMatch) => false,
        (MatchType::ExactMatch, _) => true,
        (MatchType::WrongPosition, _) => true,
        (MatchType::NoMatch, MatchType::Unknown) => true,
        _ => false,
    }
}

/// The recorded outcome once `new` has been learned.
pub open spec fn merge(recorded: MatchType, new: MatchType) -> MatchType {
    if needs_update(new, recorded) {
        new
    } else {
        recorded
    }
}

/// Knowledge after learning one scored letter: every entry for that letter is merged.
pub open spec fn learn_letter(k: Seq<GameLetter>, l: GameLetter) -> Seq<GameLetter> {
    k.map_values(|e: GameLetter| if e.0 == l.0 { GameLetter(e.0, merge(e.1, l.1)) } else { e })
}

/// Knowledge after learning the letters of a scored guess, in order.
pub open spec fn learn_guess(k: Seq<GameLetter>, g: Seq<GameLetter>) -> Seq<GameLetter>
    decreases g.len(),
{
    if g.len() == 0 {
        k
    } else {
        learn_letter(learn_guess(k, g.drop_last()), g.last())
    }
}

/// Some hint recorded in `k` names a letter that the scored guess lacks.
pub open spec fn lacks_hint(g: Seq<GameLetter>, k: Seq<GameLetter>) -> bool {
    exists|j: int| 0 <= j < k.len() && is_hint((#[trigger] k[j]).1) && !holds_letter(g, k[j].0)
}

/// The letter of the alphabet at index `i`, from `'A'`.
pub open spec fn alphabet_letter(i: int) -> char {
    ((65 + i) as u8) as char
}

/// Knowledge at the start of a game: every letter, in order, unknown.
pub open spec fn initial_knowledge() -> Seq<GameLetter> {
    Seq::new(ALPHABET_SIZE as nat, |i: int| GameLetter(alphabet_letter(i), MatchType::Unknown))
}

/// A game seen as values: the target, the scored guesses, the knowledge and the status.
pub struct GameView {
    pub target: Seq<char>,
    pub guesses: Seq<Seq<GameLetter>>,
    pub letters: Seq<GameLetter>,
    pub status: GameStatus,
}

/// The game a target starts.
pub open spec fn initial_game(target: Seq<char>) -> GameView {
    GameView {
        target,
        guesses: Seq::empty(),
        letters: initial_knowledge(),
        status: GameStatus::InProgress,
    }
}

/// The status after accepting scored guess `g` as guess number `n`.
pub open spec fn status_after(g: Seq<GameLetter>, n: nat) -> GameStatus {
    if is_perfect(g) {
        GameStatus::Success
    } else if n >= MAX_GUESSES {
        GameStatus::Failure
    } else {
        GameStatus::InProgress
    }
}

/// Submitting the word `w`: the game that follows and what the submission returns.
pub open spec fn step(s: GameView, w: Seq<char>) -> (GameView, Result<GameStatus, GuessErrors>) {
    if s.status != GameStatus::InProgress || s.guesses.len() >= MAX_GUESSES {
        (s, Ok(s.status))
    } else {
        let g = evaluate(s.target, w);
        if s.guesses.contains(g) {
            (s, Err(GuessErrors::DuplicateGuessError))
        } else if lacks_hint(g, s.letters) {
            (s, Err(GuessErrors::UnusedHintsError))
        } else {
            let n = GameView {
                target: s.target,
                guesses: s.guesses.push(g),
                letters: learn_guess(s.letters, g),
                status: status_after(g, s.guesses.len() + 1),
            };
            (n, Ok(n.status))
        }
    }
}

/// The target is a word: `WORD_SIZE` upper-case letters.
pub open spec fn is_target(t: Seq<char>) -> bool {
    t.len() == WORD_SIZE && forall|i: int| 0 <= i < t.len() ==> 'A' <= #[trigger] t[i] && t[i] <= 'Z'
}

/// The knowledge has one entry per letter of the alphabet, in order.
pub open spec fn is_alphabet(k: Seq<GameLetter>) -> bool {
    k.len() == ALPHABET_SIZE && forall|i: int| 0 <= i < k.len() ==> (#[trigger] k[i]).0 == alphabet_letter(i)
}

/// Every letter that `k` records as a hint is in the target.
pub open spec fn hints_in_target(k: Seq<GameLetter>, t: Seq<char>) -> bool {
    forall|j: int| 0 <= j < k.len() && is_hint((#[trigger] k[j]).1) ==> t.contains(k[j].0)
}

/// What holds of every game: a valid target, at most `MAX_GUESSES` guesses, an entry per
/// letter, hints only of target letters, and a status that agrees with the guesses.
pub open spec fn game_inv(s: GameView) -> bool {
    &&& is_target(s.target)
    &&& s.guesses.len() <= MAX_GUESSES
    &&& is_alphabet(s.letters)
    &&& hints_in_target(s.letters, s.target)
    &&& (s.status == GameStatus::InProgress ==> s.guesses.len() < MAX_GUESSES && forall|i: int|
        0 <= i < s.guesses.len() ==> !is_perfect(#[trigger] s.guesses[i]))
    &&& (s.status == GameStatus::Success ==> s.guesses.len() > 0 && is_perfect(s.guesses.last()))
    &&& (s.status == GameStatus::Failure ==> s.guesses.len() == MAX_GUESSES && !is_perfect(
        s.guesses.last(),
    ))
}

impl GameGuess {
    /// Whether every position is an exact match.
    pub fn perfect_match(&self) -> (r: bool)
        ensures
            r == is_perfect(self@),
    {
        let mut i: usize = 0;
        while i < WORD_SIZE
            invariant
                self@.len() == WORD_SIZE,
                forall|j: int| 0 <= j < i ==> (#[trigger] self@[j]).1 == MatchType::ExactMatch,
            decreases WORD_SIZE - i,
        {
            if self.0[i].1 != MatchType::ExactMatch {
                return false;
            }
            i = i + 1;
        }
        true
    }

    /// Whether some position holds the letter `c`.
    pub fn includes(&self, c: &char) -> (r: bool)
        ensures
            r == holds_letter(self@, *c),
    {
        let mut i: usize = 0;
        while i < WORD_SIZE
            invariant
                self@.len() == WORD_SIZE,
                forall|j: int| 0 <= j < i ==> (#[trigger] self@[j]).0 != *c,
            decreases WORD_SIZE - i,
        {
            if self.0[i].0 == *c {
                return true;
            }
            i = i + 1;
        }
        false
    }

    /// Whether two scored guesses hold the same letters with the same outcomes.
    pub fn same_as(&self, other: &GameGuess) -> (r: bool)
        ensures
            r == (self@ == other@),
    {
        let mut i: usize = 0;
        while i < WORD_SIZE
            invariant
                self@.len() == WORD_SIZE,
                other@.len() == WORD_SIZE,
                forall|j: int| 0 <= j < i ==> self@[j] == other@[j],
            decreases WORD_SIZE - i,
        {
            if self.0[i] != other.0[i] {
                return false;
            }
            i = i + 1;
        }
        assert(self@ =~= other@);
        true
    }
}

/// Scores the letter of `guess` at position `i` against `target`.
fn score_letter(target: &GameWord, guess: &GameWord, i: usize) -> (r: GameLetter)
    requires
        i < WORD_SIZE,
    ensures
        r == score_at(target@, guess@[i as int], i as int),
{
    proof {
        target.lemma_len();
        guess.lemma_len();
    }
    let g = guess.letter(i);
    if target.letter(i) == g {
        GameLetter(g, MatchType::ExactMatch)
    } else if target.chars_contains(&g) {
        GameLetter(g, MatchType::WrongPosition)
    } else {
        GameLetter(g, MatchType::NoMatch)
    }
}

/// Scores `guess` against `target`: an exact match where the letters agree, a wrong
/// position where the guessed letter is elsewhere in the target, no match otherwise.
pub fn evaluate_guess(target: &GameWord, guess: &GameWord) -> (r: GameGuess)
    ensures
        r@ == evaluate(target@, guess@),
{
    let r = GameGuess(
        [
            score_letter(target, guess, 0),
            score_letter(target, guess, 1),
            score_letter(target, guess, 2),
            score_letter(target, guess, 3),
            score_letter(target, guess, 4),
        ],
    );
    assert(r@ =~= evaluate(target@, guess@));
    r
}

/// Turns `guess` away if it was already made.
pub fn check_unique_guess(guess: &GameGuess, guesses: &Vec<GameGuess>) -> (r: Result<(), GuessErrors>)
    ensures
        r is Ok <==> !guesses@.map_values(|g: GameGuess| g@).contains(guess@),
        r is Err ==> r == Err::<(), GuessErrors>(GuessErrors::DuplicateGuessError),
{
    let ghost seen = guesses@.map_values(|g: GameGuess| g@);
    let mut i: usize = 0;
    while i < guesses.len()
        invariant
            seen == guesses@.map_values(|g: GameGuess| g@),
            forall|j: int| 0 <= j < i ==> seen[j] != guess@,
        decreases guesses.len() - i,
    {
        if guesses[i].same_as(guess) {
            assert(seen[i as int] == guess@);
            return Err(GuessErrors::DuplicateGuessError);
        }
        i = i + 1;
    }
    proof {
        if seen.contains(guess@) {
            let j = choose|j: int| 0 <= j < seen.len() && seen[j] == guess@;
            assert(seen[j] != guess@);
        }
    }
    Ok(())
}

/// Whether some hint of `letters` names a letter that `guess` lacks.
pub fn missing_hints(guess: &GameGuess, letters: &Vec<GameLetter>) -> (r: bool)
    ensures
        r == lacks_hint(guess@, letters@),
{
    let mut j: usize = 0;
    while j < letters.len()
        invariant
            forall|t: int|
                0 <= t < j ==> !(is_hint((#[trigger] letters@[t]).1) && !holds_letter(guess@, letters@[t].0)),
        decreases letters.len() - j,
    {
        let l = letters[j];
        if (l.1 == MatchType::WrongPosition || l.1 == MatchType::ExactMatch) && !guess.includes(&l.0) {
            assert(is_hint(letters@[j as int].1) && !holds_letter(guess@, letters@[j as int].0));
            return true;
        }
        j = j + 1;
    }
    false
}

/// Turns `guess` away if it leaves out a letter that `letters` records as a hint.
pub fn check_all_hints_used(guess: &GameGuess, letters: &Vec<GameLetter>) -> (r: Result<(), GuessErrors>)
    ensures
        r is Ok <==> !lacks_hint(guess@, letters@),
        r is Err ==> r == Err::<(), GuessErrors>(GuessErrors::UnusedHintsError),
{
    if missing_hints(guess, letters) {
        Err(GuessErrors::UnusedHintsError)
    } else {
        Ok(())
    }
}

/// Whether a new outcome replaces the recorded one: an exact match is never replaced,
/// a wrong position replaces anything weaker, no match replaces only the unknown.
pub fn needs_letter_update(guess_type: &MatchType, letter_type: &MatchType) -> (r: bool)
    ensures
        r == needs_update(*guess_type, *letter_type),
{
    match (guess_type, letter_type) {
        (_, MatchType::ExactMatch) => false,
        (MatchType::ExactMatch, _) => true,
        (MatchType::WrongPosition, _) => *letter_type != MatchType::ExactMatch,
        (MatchType::NoMatch, MatchType::Unknown) => true,
        _ => false,
    }
}

/// The knowledge a game starts with: every letter from `'A'` to `'Z'`, unknown.
pub fn initial_letters() -> (r: Vec<GameLetter>)
    ensures
        r@ == initial_knowledge(),
{
    let mut r: Vec<GameLetter> = Vec::with_capacity(ALPHABET_SIZE);
    let mut i: u8 = 0;
    while i < ALPHABET_SIZE as u8
        invariant
            i <= ALPHABET_SIZE,
            r@ =~= initial_knowledge().take(i as int),
        decreases ALPHABET_SIZE - i,
    {
        r.push(GameLetter((65 + i) as char, MatchType::Unknown));
        i = i + 1;
    }
    r
}

/// Records what one scored letter tells in `letters`.
fn learn_one(letters: &mut Vec<GameLetter>, l: GameLetter)
    ensures
        final(letters)@ == learn_letter(old(letters)@, l),
{
    let ghost start = letters@;
    let mut j: usize = 0;
    while j < letters.len()
        invariant
            letters@.len() == start.len(),
            forall|t: int| 0 <= t < j ==> letters@[t] == learn_letter(start, l)[t],
            forall|t: int| j <= t < letters@.len() ==> letters@[t] == start[t],
        decreases letters.len() - j,
    {
        let e = letters[j];
        if e.0 == l.0 && needs_letter_update(&l.1, &e.1) {
            letters[j] = l;
        }
        j = j + 1;
    }
    assert(letters@ =~= learn_letter(start, l));
}

/// Records what `guess` tells in `letters`, letter by letter; a letter without an entry
/// in `letters` is passed over.
pub fn update_letters(letters: &mut Vec<GameLetter>, guess: &GameGuess)
    ensures
        final(letters)@ == learn_guess(old(letters)@, guess@),
{
    let ghost start = letters@;
    assert(guess@.take(0) =~= Seq::<GameLetter>::empty());
    let mut i: usize = 0;
    while i < WORD_SIZE
        invariant
            i <= WORD_SIZE,
            guess@.len() == WORD_SIZE,
            letters@ == learn_guess(start, guess@.take(i as int)),
        decreases WORD_SIZE - i,
    {
        learn_one(letters, guess.0[i]);
        assert(guess@.take(i + 1).drop_last() =~= guess@.take(i as int));
        assert(guess@.take(i + 1).last() == guess@[i as int]);
        assert(letters@ == learn_guess(start, guess@.take(i + 1)));
        i = i + 1;
    }
    assert(guess@.take(WORD_SIZE as int) =~= guess@);
}

/// What learning a scored guess does to each entry of the knowledge: the letter stays,
/// the outcome never weakens, an exact match stays, and a changed outcome is one the
/// guess gave that letter.
pub proof fn lemma_learn_guess(k: Seq<GameLetter>, g: Seq<GameLetter>)
    ensures
        learn_guess(k, g).len() == k.len(),
        forall|j: int|
            0 <= j < k.len() ==> {
                let e = #[trigger] learn_guess(k, g)[j];
                &&& e.0 == k[j].0
                &&& strength(e.1) >= strength(k[j].1)
                &&& (k[j].1 == MatchType::ExactMatch ==> e.1 == MatchType::ExactMatch)
                &&& (e.1 == k[j].1 || exists|i: int| 0 <= i < g.len() && (#[trigger] g[i]).0 == k[j].0 && g[i].1 == e.1)
            },
    decreases g.len(),
{
    if g.len() > 0 {
        let p = g.drop_last();
        lemma_learn_guess(k, p);
        let before = learn_guess(k, p);
        assert forall|j: int| 0 <= j < k.len() implies {
            let e = #[trigger] learn_guess(k, g)[j];
            &&& e.0 == k[j].0
            &&& strength(e.1) >= strength(k[j].1)
            &&& (k[j].1 == MatchType::ExactMatch ==> e.1 == MatchType::ExactMatch)
            &&& (e.1 == k[j].1 || exists|i: int| 0 <= i < g.len() && (#[trigger] g[i]).0 == k[j].0 && g[i].1 == e.1)
        } by {
            let b = before[j];
            let e = learn_guess(k, g)[j];
            if b.1 != k[j].1 {
                let i = choose|i: int| 0 <= i < p.len() && (#[trigger] p[i]).0 == k[j].0 && p[i].1 == b.1;
                assert(g[i] == p[i]);
            }
            if e.1 != b.1 {
                assert(g[g.len() - 1] == g.last());
            }
        }
    }
}

/// Every letter that a scored guess marks as a hint is in the target.
pub proof fn lemma_evaluate_hints(t: Seq<char>, w: Seq<char>)
    requires
        t.len() == WORD_SIZE,
    ensures
        forall|i: int|
            0 <= i < WORD_SIZE && is_hint((#[trigger] evaluate(t, w)[i]).1) ==> t.contains(evaluate(t, w)[i].0),
{
    assert forall|i: int|
        0 <= i < WORD_SIZE && is_hint((#[trigger] evaluate(t, w)[i]).1) implies t.contains(evaluate(t, w)[i].0) by {
        if w[i] == t[i] {
            assert(t[i] == w[i]);
        }
    }
}

/// A new game holds the invariant.
pub proof fn lemma_initial_inv(t: Seq<char>)
    requires
        is_target(t),
    ensures
        game_inv(initial_game(t)),
{
}

/// Every submission keeps the invariant.
pub proof fn lemma_step_inv(s: GameView, w: Seq<char>)
    requires
        game_inv(s),
    ensures
        game_inv(step(s, w).0),
        step(s, w).1 matches Ok(st) ==> st == step(s, w).0.status,
{
    if s.status == GameStatus::InProgress && s.guesses.len() < MAX_GUESSES {
        let g = evaluate(s.target, w);
        if !s.guesses.contains(g) && !lacks_hint(g, s.letters) {
            let n = step(s, w).0;
            lemma_learn_guess(s.letters, g);
            lemma_evaluate_hints(s.target, w);
            assert forall|j: int| 0 <= j < n.letters.len() && is_hint((#[trigger] n.letters[j]).1) implies s.target.contains(n.letters[j].0) by {
                let e = n.letters[j];
                if e.1 != s.letters[j].1 {
                    let i = choose|i: int| 0 <= i < g.len() && (#[trigger] g[i]).0 == s.letters[j].0 && g[i].1 == e.1;
                }
            }
            assert(n.guesses.last() == g);
            if n.status == GameStatus::InProgress {
                assert forall|i: int| 0 <= i < n.guesses.len() implies !is_perfect(#[trigger] n.guesses[i]) by {
                    if i < s.guesses.len() {
                        assert(n.guesses[i] == s.guesses[i]);
                    }
                }
            }
        }
    }
}

/// A game under way: the target, the guesses accepted so far, what is known of each
/// letter, and the status.
pub struct GameState {
    target: GameWord,
    guesses: Vec<GameGuess>,
    letters: Vec<GameLetter>,
    status: GameStatus,
}

impl View for GameState {
    type V = GameView;

    closed spec fn view(&self) -> GameView {
        GameView {
            target: self.target@,
            guesses: self.guesses@.map_values(|g: GameGuess| g@),
            letters: self.letters@,
            status: self.status,
        }
    }
}

impl GameState {
    /// The invariant every game holds.
    pub open spec fn wf(&self) -> bool {
        game_inv(self@)
    }

    /// Starts a game on `target`: no guesses, every letter unknown, in progress.
    pub fn new(target: GameWord) -> (r: GameState)
        requires
            target.wf(),
        ensures
            r@ == initial_game(target@),
            r.wf(),
    {
        proof {
            target.lemma_len();
        }
        let r = GameState {
            target,
            guesses: Vec::with_capacity(MAX_GUESSES),
            letters: initial_letters(),
            status: GameStatus::InProgress,
        };
        assert(r@.guesses =~= Seq::<Seq<GameLetter>>::empty());
        proof {
            lemma_initial_inv(target@);
        }
        r
    }

    /// Where the game stands.
    pub fn status(&self) -> (r: GameStatus)
        ensures
            r == self@.status,
    {
        self.status
    }

    /// The target word.
    pub fn target(&self) -> (r: &GameWord)
        ensures
            r@ == self@.target,
    {
        &self.target
    }

    /// The scored guesses accepted so far, oldest first.
    pub fn guesses(&self) -> (r: &Vec<GameGuess>)
        ensures
            r@.map_values(|g: GameGuess| g@) == self@.guesses,
    {
        &self.guesses
    }

    /// What is known of each letter, from `'A'` to `'Z'`.
    pub fn letters(&self) -> (r: &Vec<GameLetter>)
        ensures
            r@ == self@.letters,
    {
        &self.letters
    }

    /// Submits `proposal`. A finished game is left as it is and its status returned.
    /// Otherwise the proposal is scored against the target; a scored guess already made is
    /// turned away with `DuplicateGuessError`, one that leaves out a letter known to be in
    /// the target with `UnusedHintsError`, and the game is then unchanged. An accepted
    /// guess is recorded, its letters are learned, and the status becomes `Success` on a
    /// perfect match, `Failure` once `MAX_GUESSES` guesses are spent.
    pub fn add_guess(&mut self, proposal: &GameWord) -> (r: Result<GameStatus, GuessErrors>)
        requires
            old(self).wf(),
        ensures
            final(self).wf(),
            (final(self)@, r) == step(old(self)@, proposal@),
    {
        proof {
            lemma_step_inv(self@, proposal@);
        }
        let ghost start = self@;
        if self.status == GameStatus::InProgress && self.guesses.len() < MAX_GUESSES {
            let guess = evaluate_guess(&self.target, proposal);
            match check_unique_guess(&guess, &self.guesses) {
                Ok(()) => {},
                Err(e) => {
                    return Err(e);
                },
            }
            match check_all_hints_used(&guess, &self.letters) {
                Ok(()) => {},
                Err(e) => {
                    return Err(e);
                },
            }
            self.guesses.push(guess);
            update_letters(&mut self.letters, &guess);
            if guess.perfect_match() {
                self.status = GameStatus::Success;
            } else if self.guesses.len() >= MAX_GUESSES {
                self.status = GameStatus::Failure;
            }
            assert(self@.guesses =~= start.guesses.push(guess@));
        }
        Ok(self.status)
    }
}

} // verus!
