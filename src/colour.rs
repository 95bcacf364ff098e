use vstd::prelude::*;

use ansi_term::Colour;

use crate::game::MatchType;

verus! {

/// Declares ansi_term's `Colour`, whose variants Verus reads as the crate defines them.
#[verifier::external_type_specification]
pub struct ExColour(Colour);

/// Unknown letters are white, absent ones red, misplaced ones yellow, placed ones green.
pub open spec fn colour_of(m: MatchType) -> Colour {
    match m {
        MatchType::Unknown => Colour::White,
        MatchType::NoMatch => Colour::Red,
        MatchType::WrongPosition => Colour::Yellow,
        MatchType::ExactMatch => Colour::Green,
    }
}

/// The colour a letter is shown in for what is known of it.
pub fn colour_for_match_type(match_type: &MatchType) -> (r: Colour)
    ensures
        r == colour_of(*match_type),
{
    match match_type {
        MatchType::Unknown => Colour::White,
        MatchType::NoMatch => Colour::Red,
        MatchType::WrongPosition => Colour::Yellow,
        MatchType::ExactMatch => Colour::Green,
    }
}

} // verus!
