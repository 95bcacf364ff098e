use vstd::prelude::*;

verus! {

/// Number of letters in every word of the game.
pub const WORD_SIZE: usize = 5;

/// An ASCII letter, either case.
pub open spec fn is_alpha(c: char) -> bool {
    ('A' <= c && c <= 'Z') || ('a' <= c && c <= 'z')
}

/// The upper-case form of an ASCII letter; other characters are left alone.
pub open spec fn upper(c: char) -> char {
    if 'a' <= c && c <= 'z' {
        ((c as u32) - 32) as char
    } else {
        c
    }
}

/// Text that names a word: exactly `WORD_SIZE` ASCII letters.
pub open spec fn is_valid_word(s: Seq<char>) -> bool {
    s.len() == WORD_SIZE && forall|i: int| 0 <= i < s.len() ==> is_alpha(#[trigger] s[i])
}

/// The text with every letter upper-cased.
pub open spec fn upper_seq(s: Seq<char>) -> Seq<char> {
    s.map_values(|c: char| upper(c))
}

/// Relies on `String::from_iter`: collecting characters gives the string of those
/// characters, in order.
#[verifier::external_body]
fn string_of_chars(chars: &[char; WORD_SIZE]) -> (r: String)
    ensures
        r@ == chars@,
{
    String::from_iter(chars.iter())
}

fn is_alpha_byte(b: u8) -> (r: bool)
    ensures
        r == is_alpha(b as char),
{
    (65 <= b && b <= 90) || (97 <= b && b <= 122)
}

fn upper_byte(b: u8) -> (c: char)
    ensures
        c == upper(b as char),
{
    if 97 <= b && b <= 122 {
        (b - 32) as char
    } else {
        b as char
    }
}

/// A word of the game: `WORD_SIZE` upper-case ASCII letters.
#[derive(Clone, Copy, Debug, PartialEq, Eq)]
pub struct GameWord([char; WORD_SIZE]);

/// The text given for a word is not `WORD_SIZE` ASCII letters.
#[derive(Clone, Copy, Debug, PartialEq, Eq, Structural)]
pub struct InvalidWordError;

impl View for GameWord {
    type V = Seq<char>;

    closed spec fn view(&self) -> Seq<char> {
        self.0@
    }
}

impl GameWord {
    /// Every letter of the word is an upper-case ASCII letter.
    pub open spec fn wf(&self) -> bool {
        forall|i: int| 0 <= i < WORD_SIZE ==> 'A' <= #[trigger] self@[i] && self@[i] <= 'Z'
    }

    /// The word always holds `WORD_SIZE` letters.
    pub proof fn lemma_len(&self)
        ensures
            self@.len() == WORD_SIZE,
    {
    }

    /// The letter at position `i`.
    pub fn letter(&self, i: usize) -> (c: char)
        requires
            i < WORD_SIZE,
        ensures
            c == self@[i as int],
    {
        self.0[i]
    }

    /// The letters of the word, in order.
    pub fn chars_iter(&self) -> (r: Vec<char>)
        ensures
            r@ == self@,
    {
        let r = vec![self.0[0], self.0[1], self.0[2], self.0[3], self.0[4]];
        assert(r@ =~= self@);
        r
    }

    /// Whether `c` is one of the letters of the word.
    pub fn chars_contains(&self, c: &char) -> (r: bool)
        ensures
            r == self@.contains(*c),
    {
        let mut i: usize = 0;
        while i < WORD_SIZE
            invariant
                self@.len() == WORD_SIZE,
                forall|j: int| 0 <= j < i ==> self@[j] != *c,
            decreases WORD_SIZE - i,
        {
            if self.0[i] == *c {
                return true;
            }
            i = i + 1;
        }
        false
    }

    /// The word as text.
    pub fn to_string(&self) -> (r: String)
        ensures
            r@ == self@,
    {
        string_of_chars(&self.0)
    }

    /// Parses `string` as a word, upper-casing its letters.
    pub fn new(string: &str) -> (r: Result<GameWord, InvalidWordError>)
        ensures
            r is Ok <==> is_valid_word(string@),
            r matches Ok(w) ==> w@ == upper_seq(string@) && w.wf(),
    {
        if !string.is_ascii() {
            proof {
                let k = choose|k: int| 0 <= k < string@.len() && !('\0' <= string@[k] && string@[k] <= '\u{7f}');
                assert(!is_alpha(string@[k]));
            }
            return Err(InvalidWordError);
        }
        let b = string.as_bytes();
        proof {
            broadcast use vstd::string::is_ascii_spec_bytes;
            assert(b@ =~= Seq::new(string@.len(), |i| string@[i] as u8));
            assert(b@.len() == string@.len());
            assert forall|i: int| 0 <= i < string@.len() implies string@[i] == (b@[i] as char) by {
                assert(string@[i] <= '\u{7f}');
            }
        }
        if b.len() != WORD_SIZE {
            assert(string@.len() != WORD_SIZE);
            return Err(InvalidWordError);
        }
        let mut i: usize = 0;
        while i < WORD_SIZE
            invariant
                b@.len() == WORD_SIZE,
                string@.len() == WORD_SIZE,
                forall|j: int| 0 <= j < string@.len() ==> string@[j] == (b@[j] as char),
                forall|j: int| 0 <= j < i ==> is_alpha(#[trigger] string@[j]),
            decreases WORD_SIZE - i,
        {
            if !is_alpha_byte(b[i]) {
                assert(!is_alpha(string@[i as int]));
                return Err(InvalidWordError);
            }
            i = i + 1;
        }
        let w = GameWord(
            [upper_byte(b[0]), upper_byte(b[1]), upper_byte(b[2]), upper_byte(b[3]), upper_byte(b[4])],
        );
        assert(w@ =~= upper_seq(string@));
        Ok(w)
    }
}

} // verus!
