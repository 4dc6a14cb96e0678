//! A game session: the secret word and the keyboard, and the guesses made
//! against them.

use vstd::prelude::*;
use vstd::string::StrSliceExecFns;
use vstd::utf8::is_ascii_chars;
use crate::keyboard::{folded, lemma_best_seen_no_worse, Keyboard};
use crate::letters::{is_upper_letter, slot_rank, upper_text};
use crate::scoring::{is_word, score, score_guess, Word};
use crate::text::str_to_ascii_uppercase;
use crate::valid_words::{is_word_text, Dictionary};

verus! {

/// Why a guess was turned down.
#[derive(Clone, Copy, Debug, PartialEq, Eq, Structural)]
pub enum GuessError {
    /// The guess holds a character outside ASCII.
    IncludesNonAscii,
    /// The guess is not one of the acceptable words.
    InvalidWord,
    /// The guess is not exactly five characters long.
    WrongWordLength,
}

/// What validating `guess` against the acceptable words `valid` gives.
///
/// The guess is read in upper case. A character outside ASCII is reported
/// first, then a length other than five, then a word that is not in the list.
pub open spec fn validation(guess: Seq<char>, valid: Seq<Seq<char>>) -> Result<(), GuessError> {
    if !is_ascii_chars(guess) {
        Err(GuessError::IncludesNonAscii)
    } else if guess.len() != 5 {
        Err(GuessError::WrongWordLength)
    } else if !valid.contains(upper_text(guess)) {
        Err(GuessError::InvalidWord)
    } else {
        Ok(())
    }
}

/// Upper-casing neither adds nor removes characters outside ASCII.
proof fn lemma_upper_text_ascii(s: Seq<char>)
    ensures
        is_ascii_chars(upper_text(s)) <==> is_ascii_chars(s),
{
    let u = upper_text(s);
    if is_ascii_chars(s) {
        assert forall|i: int| 0 <= i < u.len() implies '\0' <= #[trigger] u[i] <= '\u{7f}' by {
            assert('\0' <= s[i] <= '\u{7f}');
        }
    }
    if is_ascii_chars(u) {
        assert forall|i: int| 0 <= i < s.len() implies '\0' <= #[trigger] s[i] <= '\u{7f}' by {
            assert('\0' <= u[i] <= '\u{7f}');
        }
    }
}

/// A word in upper case is its own upper-case form.
proof fn lemma_upper_text_of_word(s: Seq<char>)
    requires
        is_word(s),
    ensures
        upper_text(s) == s,
{
    assert(upper_text(s) =~= s);
}

/// A game in progress.
#[derive(Debug, PartialEq)]
pub struct Game {
    /// The word to be guessed: five upper-case letters, fixed for the game.
    pub word: String,
    /// For every letter, the best verdict that a guess has earned so far.
    pub keyboard: Keyboard,
}

impl Clone for Game {
    fn clone(&self) -> (r: Self)
        ensures
            r == *self,
    {
        Game { word: self.word.clone(), keyboard: self.keyboard.clone() }
    }
}

impl Game {
    /// The secret is a five-letter word in upper case.
    pub open spec fn wf(self) -> bool {
        is_word(self.word@)
    }

    /// Starts a game on a secret picked at random among the words of `words`
    /// that may be chosen, with a keyboard on which nothing is known. The
    /// secret is always an acceptable guess, so the game can be won.
    pub fn new(words: &Dictionary) -> (game: Self)
        ensures
            game.wf(),
            words.good_words().contains(game.word@),
            validation(game.word@, words.valid_words()) is Ok,
            game.keyboard@ == Keyboard::blank(),
    {
        let picked = words.pick_secret();
        proof {
            use_type_invariant(words);
            lemma_upper_text_of_word(picked@);
            lemma_listed_guess_is_valid(picked@, words.valid_words());
        }
        Self { word: str_to_ascii_uppercase(picked.as_str()), keyboard: Self::new_keyboard_map() }
    }

    /// Starts a game on the given secret, read in upper case, with a keyboard
    /// on which nothing is known. The result is `None` where the secret is
    /// not a five-letter word.
    pub fn with_word(word: &str) -> (r: Option<Self>)
        ensures
            r is Some <==> is_word(upper_text(word@)),
            r matches Some(game) ==> {
                &&& game.wf()
                &&& game.word@ == upper_text(word@)
                &&& game.keyboard@ == Keyboard::blank()
            },
    {
        let upper = str_to_ascii_uppercase(word);
        if is_word_text(upper.as_str()) {
            Some(Self { word: upper, keyboard: Self::new_keyboard_map() })
        } else {
            None
        }
    }

    /// A keyboard on which nothing is known: every letter from `A` to `Z`,
    /// each mapped to `None`.
    pub fn new_keyboard_map() -> (keyboard: Keyboard)
        ensures
            keyboard@ == Keyboard::blank(),
    {
        Keyboard::new()
    }

    /// Checks a guess against the acceptable words.
    ///
    /// The guess is read in upper case, so its case does not matter. It is
    /// turned down, in this order, for a character outside ASCII, for a
    /// length other than five, and for not being an acceptable word.
    pub fn is_valid_guess(guess: &str, words: &Dictionary) -> (r: Result<(), GuessError>)
        ensures
            r == validation(guess@, words.valid_words()),
    {
        let upper = str_to_ascii_uppercase(guess);
        proof {
            lemma_upper_text_ascii(guess@);
        }
        let text = upper.as_str();
        if !text.is_ascii() {
            Err(GuessError::IncludesNonAscii)
        } else if text.unicode_len() != 5 {
            Err(GuessError::WrongWordLength)
        } else if !words.contains(&upper) {
            Err(GuessError::InvalidWord)
        } else {
            Ok(())
        }
    }

    /// Scores a guess against the secret and folds the result into the
    /// keyboard.
    ///
    /// A guess that [`Game::is_valid_guess`] turns down is answered with its
    /// error, and the game is left as it was. Any other guess is scored in
    /// upper case, see [`score`]; each letter of the result then raises the
    /// keyboard slot of its character where its verdict is better than what
    /// the slot held. No slot ever gets worse.
    pub fn make_guess(&mut self, guess: &str, words: &Dictionary) -> (r: Result<Word, GuessError>)
        requires
            old(self).wf(),
        ensures
            final(self).wf(),
            final(self).word == old(self).word,
            match r {
                Ok(word) => {
                    &&& validation(guess@, words.valid_words()) is Ok
                    &&& word@ == score(old(self).word@, upper_text(guess@))
                    &&& final(self).keyboard@ == folded(old(self).keyboard@, word@, 5)
                },
                Err(e) => {
                    &&& validation(guess@, words.valid_words()) == Err::<(), GuessError>(e)
                    &&& *final(self) == *old(self)
                },
            },
            forall|c: char|
                is_upper_letter(c) ==> slot_rank(old(self).keyboard@[c]) <= slot_rank(
                    #[trigger] final(self).keyboard@[c],
                ),
    {
        match Self::is_valid_guess(guess, words) {
            Err(e) => Err(e),
            Ok(()) => {
                let upper = str_to_ascii_uppercase(guess);
                proof {
                    use_type_invariant(words);
                    let valid = words.valid_words();
                    let i = choose|i: int| 0 <= i < valid.len() && valid[i] == upper@;
                    assert(is_word(valid[i]));
                }
                let word = score_guess(self.word.as_str(), upper.as_str());
                self.update_keyboard(&word);
                proof {
                    assert forall|c: char| is_upper_letter(c) implies slot_rank(
                        old(self).keyboard@[c],
                    ) <= slot_rank(#[trigger] self.keyboard@[c]) by {
                        old(self).keyboard.lemma_keys();
                        lemma_best_seen_no_worse(old(self).keyboard@[c], word@, c, 5);
                    }
                }
                Ok(word)
            },
        }
    }

    /// Folds a scored guess into the keyboard: each letter raises the slot of
    /// its character where its verdict is better than what the slot held.
    pub fn update_keyboard(&mut self, letters: &Word)
        requires
            forall|i: int| 0 <= i < 5 ==> (#[trigger] letters@[i]).wf(),
        ensures
            final(self).word == old(self).word,
            final(self).keyboard@ == folded(old(self).keyboard@, letters@, 5),
    {
        let ghost start = self.keyboard@;
        proof {
            self.keyboard.lemma_keys();
            assert(start =~= folded(start, letters@, 0));
        }
        let mut i: usize = 0;
        while i < 5
            invariant
                i <= 5,
                self.word == old(self).word,
                forall|j: int| 0 <= j < 5 ==> (#[trigger] letters@[j]).wf(),
                start.dom() == Set::new(|c: char| is_upper_letter(c)),
                self.keyboard@ == folded(start, letters@, i as int),
            decreases 5 - i,
        {
            let l = letters[i];
            assert(letters@[i as int].wf());
            self.keyboard.record(l.letter, l.position);
            assert(self.keyboard@ =~= folded(start, letters@, i + 1));
            i += 1;
        }
    }
}

/// A guess whose upper-case form is one of the acceptable words is never
/// turned down, whatever its case.
pub proof fn lemma_listed_guess_is_valid(guess: Seq<char>, valid: Seq<Seq<char>>)
    requires
        forall|i: int| 0 <= i < valid.len() ==> is_word(#[trigger] valid[i]),
        valid.contains(upper_text(guess)),
    ensures
        validation(guess, valid) is Ok,
{
    let u = upper_text(guess);
    let i = choose|i: int| 0 <= i < valid.len() && valid[i] == u;
    assert(is_word(valid[i]));
    assert forall|k: int| 0 <= k < u.len() implies '\0' <= #[trigger] u[k] <= '\u{7f}' by {
        assert(is_upper_letter(u[k]));
    }
    lemma_upper_text_ascii(guess);
}

} // verus!
