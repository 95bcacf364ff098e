use ansi_term::Colour;
use wordle::colour::colour_for_match_type;
use wordle::game::MatchType;

#[test]
fn use_right_colour_for_match_type() {
    assert_eq!(colour_for_match_type(&MatchType::Unknown), Colour::White);
    assert_eq!(colour_for_match_type(&MatchType::NoMatch), Colour::Red);
    assert_eq!(colour_for_match_type(&MatchType::WrongPosition), Colour::Yellow);
    assert_eq!(colour_for_match_type(&MatchType::ExactMatch), Colour::Green);
}
