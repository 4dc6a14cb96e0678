//! Letters and the verdict a guess earns for each of them.

use vstd::prelude::*;
use crate::text::text_contains;

verus! {

/// Whether `c` is one of the twenty-six upper-case ASCII letters.
pub open spec fn is_upper_letter(c: char) -> bool {
    'A' <= c <= 'Z'
}

/// The ASCII upper-case form of `c`: `a`..`z` map to `A`..`Z`, every other
/// character is left alone.
pub open spec fn upper_char(c: char) -> char {
    if 'a' <= c <= 'z' {
        ((c as u32) - 32) as char
    } else {
        c
    }
}

/// The ASCII upper-case form of a text, character by character.
pub open spec fn upper_text(s: Seq<char>) -> Seq<char> {
    Seq::new(s.len(), |i: int| upper_char(s[i]))
}

/// The verdict for one letter of a guess.
///
/// The variants are listed from least to most informative.
#[derive(Clone, Copy, Debug, PartialEq, Eq, Structural)]
pub enum Position {
    /// The letter is absent from the word, or every occurrence of it is
    /// already accounted for by other letters of the guess.
    NotInWord,
    /// The letter is in the word, but not here.
    WrongPosition,
    /// The letter is in the word at exactly this place.
    Correct,
}

impl Position {
    /// How informative a verdict is: 1 for `NotInWord`, 2 for
    /// `WrongPosition`, 3 for `Correct`.
    pub open spec fn rank(self) -> nat {
        match self {
            Position::NotInWord => 1,
            Position::WrongPosition => 2,
            Position::Correct => 3,
        }
    }
}

/// The rank of a keyboard slot: 0 while nothing is known about the key,
/// otherwise the rank of the recorded verdict.
pub open spec fn slot_rank(slot: Option<Position>) -> nat {
    match slot {
        None => 0,
        Some(p) => p.rank(),
    }
}

/// One scored character of a guess.
#[derive(Clone, Copy, Debug, PartialEq, Eq, Structural)]
pub struct Letter {
    /// The character, in upper case.
    pub letter: char,
    /// The verdict for this character at its place in the guess.
    pub position: Position,
}

/// `char::to_ascii_uppercase` from the standard library. Trusted: the result
/// is the argument with `a`..`z` mapped to `A`..`Z` and anything else
/// unchanged.
#[verifier::external_body]
fn char_to_ascii_uppercase(c: char) -> (r: char)
    ensures
        r == upper_char(c),
{
    c.to_ascii_uppercase()
}

impl Letter {
    /// Whether the character is an upper-case ASCII letter.
    pub open spec fn wf(self) -> bool {
        is_upper_letter(self.letter)
    }

    /// A letter with the given verdict. The character is converted to ASCII
    /// upper case.
    pub fn new(letter: char, position: Position) -> (r: Self)
        ensures
            r.letter == upper_char(letter),
            r.position == position,
    {
        Self { letter: char_to_ascii_uppercase(letter), position }
    }

    /// What one place of a guess tells on its own.
    ///
    /// `letter` is the guessed character, `expected_letter` the character the
    /// word has at the same place. The verdict is `Correct` when the two are
    /// equal and `NotInWord` when `word` does not hold `letter` at all. In
    /// every other case the result is `None`: the letter is somewhere else in
    /// the word, and whether it counts depends on the rest of the guess.
    ///
    /// The comparison is exact; nothing is converted to upper case here.
    pub fn simple_check_letter_pair(letter: &char, expected_letter: &char, word: &str) -> (r:
        Option<Self>)
        ensures
            r == Self::spec_check_letter_pair(*letter, *expected_letter, word@),
    {
        if *letter == *expected_letter {
            Some(Self { letter: *letter, position: Position::Correct })
        } else if !text_contains(word, *letter) {
            Some(Self { letter: *letter, position: Position::NotInWord })
        } else {
            None
        }
    }

    /// The result of [`Letter::simple_check_letter_pair`].
    pub open spec fn spec_check_letter_pair(letter: char, expected_letter: char, word: Seq<char>)
        -> Option<Self> {
        if letter == expected_letter {
            Some(Letter { letter, position: Position::Correct })
        } else if !word.contains(letter) {
            Some(Letter { letter, position: Position::NotInWord })
        } else {
            None
        }
    }
}

} // verus!
