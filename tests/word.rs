use wordle::word::{GameWord, InvalidWordError};

const TODAY_CHARS: [char; 5] = ['T', 'O', 'D', 'A', 'Y'];

#[test]
fn trigger_word_partial_eq() {
    let chars: String = TODAY_CHARS.iter().collect();
    assert_eq!(GameWord::new(&chars), GameWord::new(&chars));
}

#[test]
fn length_just_right() {
    assert_eq!(GameWord::new("today").unwrap().chars_iter(), TODAY_CHARS.to_vec());
}

#[test]
fn length_too_short() {
    assert_eq!(GameWord::new("few"), Err(InvalidWordError));
}

#[test]
fn length_too_long() {
    assert_eq!(GameWord::new("toolong"), Err(InvalidWordError));
}

#[test]
fn expected_to_string() {
    assert_eq!(GameWord::new("today").unwrap().to_string(), "TODAY");
}

#[test]
fn mixed_case_is_upper_cased() {
    assert_eq!(GameWord::new("ToDaY").unwrap().to_string(), "TODAY");
    assert_eq!(GameWord::new("TODAY"), GameWord::new("today"));
}

#[test]
fn non_letters_are_refused() {
    assert_eq!(GameWord::new("t0day"), Err(InvalidWordError));
    assert_eq!(GameWord::new("to-ay"), Err(InvalidWordError));
    assert_eq!(GameWord::new(" today"), Err(InvalidWordError));
    assert_eq!(GameWord::new("today\n"), Err(InvalidWordError));
    assert_eq!(GameWord::new("to ay"), Err(InvalidWordError));
}

#[test]
fn non_ascii_letters_are_refused() {
    assert_eq!(GameWord::new("tödày"), Err(InvalidWordError));
    assert_eq!(GameWord::new("éclat"), Err(InvalidWordError));
}

#[test]
fn empty_text_is_refused() {
    assert_eq!(GameWord::new(""), Err(InvalidWordError));
}

#[test]
fn letters_and_membership() {
    let w = GameWord::new("today").unwrap();
    assert_eq!(w.letter(0), 'T');
    assert_eq!(w.letter(4), 'Y');
    assert!(w.chars_contains(&'D'));
    assert!(!w.chars_contains(&'d'));
    assert!(!w.chars_contains(&'X'));
}
