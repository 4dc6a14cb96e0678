//! Counting the attempts of a game. A game session does not count them
//! itself: whoever runs the game does, with the help of this module.

use vstd::prelude::*;
use crate::letters::Letter;
use crate::scoring::{all_correct, is_win, Word};

verus! {

/// The number of guesses a player has.
pub const TOTAL_GUESSES: u8 = 6;

/// How the game goes on after a guess was scored.
#[derive(Clone, Copy, Debug, PartialEq, Eq, Structural)]
pub enum Turn {
    /// The guess was the secret.
    Won,
    /// The guess was wrong and no guess is left.
    OutOfGuesses,
    /// The guess was wrong and this many guesses are left.
    Remaining(u8),
}

/// What follows a scored guess that was made with `remaining` guesses left,
/// itself included.
pub open spec fn turn_after(remaining: u8, letters: Seq<Letter>) -> Turn {
    if all_correct(letters) {
        Turn::Won
    } else if remaining <= 1 {
        Turn::OutOfGuesses
    } else {
        Turn::Remaining((remaining - 1) as u8)
    }
}

/// Decides how the game goes on after the guess scored as `word`, which was
/// made with `remaining` guesses left, itself included.
pub fn after_guess(remaining: u8, word: &Word) -> (turn: Turn)
    ensures
        turn == turn_after(remaining, word@),
{
    if is_win(word) {
        Turn::Won
    } else if remaining <= 1 {
        Turn::OutOfGuesses
    } else {
        Turn::Remaining(remaining - 1)
    }
}

} // verus!
