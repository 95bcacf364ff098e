use wordle::game::{GameStatus, GuessErrors};
use wordle::session::{entered_line, init_and_play_game, non_blank, play_line, Launch, Reply};
use wordle::word::GameWord;

fn args(items: &[&str]) -> Vec<String> {
    items.iter().map(|s| s.to_string()).collect()
}

fn start(target: &str) -> wordle::game::GameState {
    match init_and_play_game(&args(&["test", target])) {
        Launch::Play(game) => game,
        _ => panic!("expected a game"),
    }
}

#[test]
fn nominal_main_success() {
    assert!(matches!(init_and_play_game(&args(&["wordle"])), Launch::Usage));
}

#[test]
fn read_trimmed_line() {
    assert_eq!(entered_line(" test \n"), Some("test".to_string()));
}

#[test]
fn read_empty_line() {
    assert_eq!(entered_line("  \n"), None);
}

#[test]
fn read_trimmed_word_after_skipping_invalid_word() {
    let mut game = start("today");
    let bad = entered_line("bad\n").unwrap();
    assert_eq!(play_line(&mut game, &bad), Reply::InvalidWord);
    let line = entered_line(" today \n").unwrap();
    assert_eq!(GameWord::new(&line), Ok(GameWord::new("TODAY").unwrap()));
}

#[test]
fn trigger_all_guess_errors() {
    let mut game = start("TODAY");
    assert_eq!(play_line(&mut game, "arise"), Reply::Accepted(GameStatus::InProgress));
    assert_eq!(
        play_line(&mut game, "arise"),
        Reply::Rejected(GuessErrors::DuplicateGuessError)
    );
    assert_eq!(
        play_line(&mut game, "xxxxx"),
        Reply::Rejected(GuessErrors::UnusedHintsError)
    );
    assert_eq!(game.guesses().len(), 1);
    assert_eq!(entered_line(""), None);
}

#[test]
fn no_arguments_prints_usage() {
    assert!(matches!(init_and_play_game(&args(&["test"])), Launch::Usage));
}

#[test]
fn no_game_with_invalid_target() {
    assert!(matches!(init_and_play_game(&args(&["test", "test"])), Launch::InvalidTarget));
}

#[test]
fn terminate_game_with_empty_line() {
    let game = start("today");
    assert_eq!(game.status(), GameStatus::InProgress);
    assert_eq!(game.guesses().len(), 0);
    assert_eq!(entered_line("\n"), None);
}

#[test]
fn launch_needs_exactly_a_target() {
    assert!(matches!(init_and_play_game(&args(&[])), Launch::Usage));
    assert!(matches!(init_and_play_game(&args(&["test", "today", "more"])), Launch::Usage));
}

#[test]
fn launch_starts_a_game_on_the_target() {
    let game = start("today");
    assert_eq!(game.target().to_string(), "TODAY");
    assert_eq!(game.guesses().len(), 0);
    assert_eq!(game.status(), GameStatus::InProgress);
}

#[test]
fn entered_line_is_trimmed() {
    assert_eq!(entered_line("today"), Some("today".to_string()));
    assert_eq!(entered_line("\t to day \r\n"), Some("to day".to_string()));
    assert_eq!(entered_line(""), None);
}

#[test]
fn lines_drive_a_game() {
    let mut game = start("today");
    assert_eq!(play_line(&mut game, "bad"), Reply::InvalidWord);
    assert_eq!(game.guesses().len(), 0);
    assert_eq!(play_line(&mut game, "arise"), Reply::Accepted(GameStatus::InProgress));
    assert_eq!(
        play_line(&mut game, "ARISE"),
        Reply::Rejected(GuessErrors::DuplicateGuessError)
    );
    assert_eq!(play_line(&mut game, "ToDaY"), Reply::Accepted(GameStatus::Success));
}

#[test]
fn non_blank_keeps_text() {
    assert_eq!(non_blank("today"), Some("today".to_string()));
    assert_eq!(non_blank(" a "), Some(" a ".to_string()));
    assert_eq!(non_blank(""), None);
}
