//! The keyboard: for every letter, the best verdict seen so far.

use vstd::prelude::*;
use crate::letters::{is_upper_letter, slot_rank, Letter, Position};
use crate::ordered_position::OrderedPosition;

verus! {

/// A slot after the verdict `p` was seen for its letter: `p` where that is an
/// improvement, the slot as it was otherwise.
pub open spec fn improved(slot: Option<Position>, p: Position) -> Option<Position> {
    if p.rank() > slot_rank(slot) {
        Some(p)
    } else {
        slot
    }
}

/// The slot of `c` after the first `n` of `letters` were seen: the best of
/// the slot as it was and of those letters' verdicts for `c`.
pub open spec fn best_seen(slot: Option<Position>, letters: Seq<Letter>, c: char, n: int)
    -> Option<Position>
    decreases n,
{
    if n <= 0 {
        slot
    } else {
        let earlier = best_seen(slot, letters, c, n - 1);
        if letters[n - 1].letter == c {
            improved(earlier, letters[n - 1].position)
        } else {
            earlier
        }
    }
}

/// The keyboard after the first `n` of `letters` were folded into it.
pub open spec fn folded(
    keys: Map<char, Option<Position>>,
    letters: Seq<Letter>,
    n: int,
) -> Map<char, Option<Position>> {
    Map::new(|c: char| keys.dom().contains(c), |c: char| best_seen(keys[c], letters, c, n))
}

/// The keyboard after the first `n` scored guesses of a session were folded
/// into it, one after the other.
pub open spec fn session_keyboard(
    keys: Map<char, Option<Position>>,
    results: Seq<Seq<Letter>>,
    n: int,
) -> Map<char, Option<Position>>
    decreases n,
{
    if n <= 0 {
        keys
    } else {
        folded(session_keyboard(keys, results, n - 1), results[n - 1], results[n - 1].len() as int)
    }
}

/// Folding letters into a slot never lowers its rank.
pub proof fn lemma_best_seen_no_worse(slot: Option<Position>, letters: Seq<Letter>, c: char, n: int)
    ensures
        slot_rank(slot) <= slot_rank(best_seen(slot, letters, c, n)),
    decreases n,
{
    if n > 0 {
        lemma_best_seen_no_worse(slot, letters, c, n - 1);
    }
}

/// After a fold, the slot of `c` is the best of what it held and of the
/// verdicts seen for `c`: it ranks at least as high as each of them, and it
/// is one of them.
pub proof fn lemma_best_seen_is_best(slot: Option<Position>, letters: Seq<Letter>, c: char, n: int)
    requires
        0 <= n <= letters.len(),
    ensures
        forall|j: int|
            0 <= j < n && (#[trigger] letters[j]).letter == c ==> letters[j].position.rank()
                <= slot_rank(best_seen(slot, letters, c, n)),
        best_seen(slot, letters, c, n) == slot || exists|j: int|
            0 <= j < n && (#[trigger] letters[j]).letter == c && best_seen(slot, letters, c, n)
                == Some(letters[j].position),
    decreases n,
{
    if n > 0 {
        lemma_best_seen_is_best(slot, letters, c, n - 1);
        let earlier = best_seen(slot, letters, c, n - 1);
        let now = best_seen(slot, letters, c, n);
        if now != slot {
            if now == earlier {
                let j = choose|j: int|
                    0 <= j < n - 1 && (#[trigger] letters[j]).letter == c && earlier == Some(
                        letters[j].position,
                    );
                assert(0 <= j < n && letters[j].letter == c && now == Some(letters[j].position));
            } else {
                assert(letters[n - 1].letter == c && now == Some(letters[n - 1].position));
            }
        }
    }
}

/// Over a whole session no key ever regresses: after more guesses the slot of
/// each letter ranks at least as high as after fewer, in the order unknown,
/// `NotInWord`, `WrongPosition`, `Correct`.
pub proof fn lemma_keyboard_never_regresses(
    keys: Map<char, Option<Position>>,
    results: Seq<Seq<Letter>>,
    i: int,
    j: int,
    c: char,
)
    requires
        0 <= i <= j <= results.len(),
        keys.dom().contains(c),
    ensures
        session_keyboard(keys, results, j).dom() == keys.dom(),
        slot_rank(session_keyboard(keys, results, i)[c]) <= slot_rank(
            session_keyboard(keys, results, j)[c],
        ),
    decreases j,
{
    if j <= 0 {
    } else if i == j {
        lemma_keyboard_never_regresses(keys, results, i - 1, j - 1, c);
        assert(session_keyboard(keys, results, j).dom() =~= keys.dom());
    } else {
        lemma_keyboard_never_regresses(keys, results, i, j - 1, c);
        let earlier = session_keyboard(keys, results, j - 1);
        lemma_best_seen_no_worse(earlier[c], results[j - 1], c, results[j - 1].len() as int);
        assert(session_keyboard(keys, results, j).dom() =~= keys.dom());
    }
}

/// A map from each of the twenty-six upper-case letters to the best verdict
/// seen for it, or to `None` while the letter has not been guessed.
#[derive(Debug, PartialEq, Eq)]
pub struct Keyboard {
    slots: [Option<Position>; 26],
}

impl Clone for Keyboard {
    fn clone(&self) -> (r: Self)
        ensures
            r == *self,
    {
        Keyboard { slots: self.slots }
    }
}

impl View for Keyboard {
    type V = Map<char, Option<Position>>;

    closed spec fn view(&self) -> Map<char, Option<Position>> {
        Map::new(|c: char| is_upper_letter(c), |c: char| self.slots@[c as int - 65])
    }
}

impl Keyboard {
    /// The keyboard on which nothing is known yet.
    pub open spec fn blank() -> Map<char, Option<Position>> {
        Map::new(|c: char| is_upper_letter(c), |c: char| None::<Position>)
    }

    /// The keys of a keyboard are the upper-case letters, whatever it holds.
    pub proof fn lemma_keys(self)
        ensures
            self@.dom() == Set::new(|c: char| is_upper_letter(c)),
    {
        assert(self@.dom() =~= Set::new(|c: char| is_upper_letter(c)));
    }

    /// A keyboard with every letter unknown.
    pub fn new() -> (k: Self)
        ensures
            k@ == Self::blank(),
    {
        let slots: [Option<Position>; 26] = [None;26];
        let k = Keyboard { slots };
        assert(k@ =~= Self::blank());
        k
    }

    /// The slot of `letter`: `Some` of it for an upper-case letter, `None`
    /// for any other character.
    pub fn get(&self, letter: char) -> (r: Option<Option<Position>>)
        ensures
            r == if is_upper_letter(letter) {
                Some(self@[letter])
            } else {
                None
            },
    {
        if 'A' <= letter && letter <= 'Z' {
            Some(self.slots[(letter as u8 - 65) as usize])
        } else {
            None
        }
    }

    /// Records that `position` was seen for `letter`. The slot changes only
    /// where that is an improvement; no other slot changes.
    pub fn record(&mut self, letter: char, position: Position)
        requires
            is_upper_letter(letter),
        ensures
            final(self)@ == old(self)@.insert(letter, improved(old(self)@[letter], position)),
    {
        let i = (letter as u8 - 65) as usize;
        let current = self.slots[i];
        if OrderedPosition(Some(position)) > OrderedPosition(current) {
            self.slots[i] = Some(position);
        }
        assert(self@ =~= old(self)@.insert(letter, improved(old(self)@[letter], position)));
    }
}

} // verus!
