//! A plain round of the game: a secret word and guesses scored against it,
//! with no keyboard kept.

use vstd::prelude::*;
use crate::game::{validation, GuessError};
use crate::letters::{upper_text, Letter};
use crate::scoring::{is_word, score, score_guess};
use crate::text::str_to_ascii_uppercase;
use crate::valid_words::{is_word_text, Dictionary};

verus! {

/// Why a guess was turned down.
#[derive(Clone, Copy, Debug, PartialEq, Eq, Structural)]
pub enum WordleError {
    /// The guess is not exactly five characters long.
    WrongWordLength,
    /// The guess holds a character outside ASCII.
    IncludesNonAscii,
    /// The guess is not one of the acceptable words.
    InvalidWord,
}

impl WordleError {
    /// The same reason, as this module names it.
    pub open spec fn of(e: GuessError) -> WordleError {
        match e {
            GuessError::IncludesNonAscii => WordleError::IncludesNonAscii,
            GuessError::InvalidWord => WordleError::InvalidWord,
            GuessError::WrongWordLength => WordleError::WrongWordLength,
        }
    }
}

/// A secret word to guess at.
pub struct Game {
    word: String,
}

impl Game {
    /// The secret word.
    pub closed spec fn secret(self) -> Seq<char> {
        self.word@
    }

    /// The secret is a five-letter word in upper case.
    #[verifier::type_invariant]
    pub open spec fn wf(self) -> bool {
        is_word(self.secret())
    }

    /// Starts a round on a secret picked at random among the words of
    /// `words` that may be chosen.
    pub fn new(words: &Dictionary) -> (game: Self)
        ensures
            game.wf(),
            words.good_words().contains(game.secret()),
    {
        Self { word: words.pick_secret() }
    }

    /// Starts a round on the given secret, read in upper case. The result is
    /// `None` where the secret is not a five-letter word.
    pub fn with_word(word: &str) -> (r: Option<Self>)
        ensures
            r is Some <==> is_word(upper_text(word@)),
            r matches Some(game) ==> game.wf() && game.secret() == upper_text(word@),
    {
        let upper = str_to_ascii_uppercase(word);
        if is_word_text(upper.as_str()) {
            Some(Self { word: upper })
        } else {
            None
        }
    }

    /// Scores a guess against the secret.
    ///
    /// The guess is read in upper case. It is turned down, in this order, for
    /// a character outside ASCII, for a length other than five, and for not
    /// being an acceptable word; any other guess is scored, see [`score`].
    pub fn make_guess(&self, guess: &str, words: &Dictionary) -> (r: Result<
        [Letter; 5],
        WordleError,
    >)
        ensures
            match r {
                Ok(word) => {
                    &&& validation(guess@, words.valid_words()) is Ok
                    &&& word@ == score(self.secret(), upper_text(guess@))
                },
                Err(e) => {
                    &&& validation(guess@, words.valid_words()) matches Err(reason)
                    &&& e == WordleError::of(reason)
                },
            },
    {
        match crate::game::Game::is_valid_guess(guess, words) {
            Err(GuessError::IncludesNonAscii) => Err(WordleError::IncludesNonAscii),
            Err(GuessError::WrongWordLength) => Err(WordleError::WrongWordLength),
            Err(GuessError::InvalidWord) => Err(WordleError::InvalidWord),
            Ok(()) => {
                let upper = str_to_ascii_uppercase(guess);
                proof {
                    use_type_invariant(self);
                    use_type_invariant(words);
                    let valid = words.valid_words();
                    let i = choose|i: int| 0 <= i < valid.len() && valid[i] == upper@;
                    assert(is_word(valid[i]));
                }
                Ok(score_guess(self.word.as_str(), upper.as_str()))
            },
        }
    }
}

} // verus!
