//! The words of the game: which guesses are accepted, and which words may be
//! chosen as the secret.

use rand::seq::SliceRandom;
use vstd::prelude::*;
use vstd::string::StrSliceExecFns;
use crate::scoring::is_word;

verus! {

/// The texts of a list of strings, in order.
pub open spec fn texts(list: Seq<String>) -> Seq<Seq<char>> {
    Seq::new(list.len(), |i: int| list[i]@)
}

/// What makes two lists the word lists of a game: every acceptable guess is a
/// five-letter upper-case word, at least one word may be chosen as the
/// secret, and every such word is itself an acceptable guess.
pub open spec fn lists_ok(valid: Seq<Seq<char>>, good: Seq<Seq<char>>) -> bool {
    &&& forall|i: int| 0 <= i < valid.len() ==> is_word(#[trigger] valid[i])
    &&& good.len() > 0
    &&& forall|i: int| 0 <= i < good.len() ==> valid.contains(#[trigger] good[i])
}

/// Whether `s` is a five-letter word in upper-case ASCII.
pub fn is_word_text(s: &str) -> (r: bool)
    ensures
        r == is_word(s@),
{
    if s.unicode_len() != 5 {
        return false;
    }
    let mut i: usize = 0;
    while i < 5
        invariant
            i <= 5,
            s@.len() == 5,
            forall|j: int| 0 <= j < i ==> 'A' <= #[trigger] s@[j] <= 'Z',
        decreases 5 - i,
    {
        let c = s.get_char(i);
        if !('A' <= c && c <= 'Z') {
            return false;
        }
        i += 1;
    }
    true
}

/// Whether `word` is one of `list`.
fn list_contains(list: &Vec<String>, word: &String) -> (r: bool)
    ensures
        r == texts(list@).contains(word@),
{
    let mut i: usize = 0;
    while i < list.len()
        invariant
            i <= list@.len(),
            forall|j: int| 0 <= j < i ==> texts(list@)[j] != word@,
        decreases list@.len() - i,
    {
        if list[i] == *word {
            assert(texts(list@)[i as int] == word@);
            return true;
        }
        i += 1;
    }
    false
}

/// `SliceRandom::choose` of the crate `rand` on the words of `list`, drawing
/// from the generator that `rand::thread_rng` hands out. Trusted: the result
/// is `None` exactly for the empty list, and otherwise one of the list's
/// entries. Which entry it is depends on chance, and nothing is said of it.
#[verifier::external_body]
fn choose_word(list: &Vec<String>) -> (r: Option<&String>)
    ensures
        r is None <==> list@.len() == 0,
        r matches Some(w) ==> exists|i: int| 0 <= i < list@.len() && list@[i] == *w,
{
    list.choose(&mut rand::thread_rng())
}

/// The word lists of a game.
pub struct Dictionary {
    valid: Vec<String>,
    good: Vec<String>,
}

impl Dictionary {
    /// The acceptable guesses.
    pub closed spec fn valid_words(self) -> Seq<Seq<char>> {
        texts(self.valid@)
    }

    /// The words that may be chosen as the secret.
    pub closed spec fn good_words(self) -> Seq<Seq<char>> {
        texts(self.good@)
    }

    /// The lists are the word lists of a game, see [`lists_ok`].
    #[verifier::type_invariant]
    pub open spec fn wf(self) -> bool {
        lists_ok(self.valid_words(), self.good_words())
    }

    /// Makes a dictionary of the acceptable guesses `valid_words` and of the
    /// words `good_words` that may be chosen as the secret. The result is
    /// `None` where the two lists are not the word lists of a game.
    pub fn new(valid_words: Vec<String>, good_words: Vec<String>) -> (r: Option<Self>)
        ensures
            r is Some <==> lists_ok(texts(valid_words@), texts(good_words@)),
            r matches Some(d) ==> {
                &&& d.wf()
                &&& d.valid_words() == texts(valid_words@)
                &&& d.good_words() == texts(good_words@)
            },
    {
        let mut i: usize = 0;
        while i < valid_words.len()
            invariant
                i <= valid_words@.len(),
                forall|j: int| 0 <= j < i ==> is_word(#[trigger] texts(valid_words@)[j]),
            decreases valid_words@.len() - i,
        {
            if !is_word_text(valid_words[i].as_str()) {
                assert(!is_word(texts(valid_words@)[i as int]));
                return None;
            }
            i += 1;
        }
        if good_words.len() == 0 {
            return None;
        }
        let mut k: usize = 0;
        while k < good_words.len()
            invariant
                k <= good_words@.len(),
                forall|j: int|
                    0 <= j < k ==> texts(valid_words@).contains(#[trigger] texts(good_words@)[j]),
            decreases good_words@.len() - k,
        {
            if !list_contains(&valid_words, &good_words[k]) {
                assert(!texts(valid_words@).contains(texts(good_words@)[k as int]));
                return None;
            }
            k += 1;
        }
        Some(Dictionary { valid: valid_words, good: good_words })
    }

    /// One of the words that may be chosen as the secret, picked at random.
    pub fn pick_secret(&self) -> (w: String)
        ensures
            self.good_words().contains(w@),
            is_word(w@),
    {
        proof {
            use_type_invariant(self);
        }
        match choose_word(&self.good) {
            Some(w) => {
                proof {
                    let i = choose|i: int| 0 <= i < self.good@.len() && self.good@[i] == *w;
                    assert(self.good_words()[i] == w@);
                    let j = choose|j: int|
                        0 <= j < self.valid_words().len() && self.valid_words()[j]
                            == self.good_words()[i];
                    assert(is_word(self.valid_words()[j]));
                }
                w.clone()
            },
            None => vstd::pervasive::unreached(),
        }
    }

    /// Whether `word` is an acceptable guess, compared exactly.
    pub fn contains(&self, word: &String) -> (r: bool)
        ensures
            r == self.valid_words().contains(word@),
    {
        list_contains(&self.valid, word)
    }
}

} // verus!
