//! Scoring a guess against the secret word.

use vstd::prelude::*;
use crate::letters::{is_upper_letter, Letter, Position};
use crate::text::text_chars;

verus! {

/// A scored guess: five letters, in the order of the guess.
pub type Word = [Letter; 5];

/// A five-letter word in upper-case ASCII.
pub open spec fn is_word(s: Seq<char>) -> bool {
    &&& s.len() == 5
    &&& forall|i: int| 0 <= i < s.len() ==> is_upper_letter(#[trigger] s[i])
}

/// How often `c` occurs among the first `n` characters of `s`.
pub open spec fn occurrences(s: Seq<char>, c: char, n: int) -> nat
    decreases n,
{
    if n <= 0 {
        0
    } else {
        occurrences(s, c, n - 1) + if s[n - 1] == c { 1nat } else { 0nat }
    }
}

/// Among the first `n` places, how often the guess has `c` exactly where the
/// secret has it.
pub open spec fn placed(secret: Seq<char>, guess: Seq<char>, c: char, n: int) -> nat
    decreases n,
{
    if n <= 0 {
        0
    } else {
        placed(secret, guess, c, n - 1) + if guess[n - 1] == c && secret[n - 1] == c {
            1nat
        } else {
            0nat
        }
    }
}

/// Among the first `n` places, how often the guess has `c` where the secret
/// has something else.
pub open spec fn misplaced(secret: Seq<char>, guess: Seq<char>, c: char, n: int) -> nat
    decreases n,
{
    if n <= 0 {
        0
    } else {
        misplaced(secret, guess, c, n - 1) + if guess[n - 1] == c && secret[n - 1] != c {
            1nat
        } else {
            0nat
        }
    }
}

/// The copies of `c` in the secret that the guess has not matched in place:
/// as many copies of `c` may still be credited as present but misplaced.
pub open spec fn spare(secret: Seq<char>, guess: Seq<char>, c: char) -> int {
    occurrences(secret, c, secret.len() as int) - placed(secret, guess, c, guess.len() as int)
}

/// The verdict for place `i` of the guess.
///
/// A letter in its right place is `Correct`. Any other letter is
/// `WrongPosition` as long as the earlier misplaced copies of it in the guess
/// have not used up the secret's spare copies, and `NotInWord` after that.
pub open spec fn verdict(secret: Seq<char>, guess: Seq<char>, i: int) -> Position {
    if guess[i] == secret[i] {
        Position::Correct
    } else if misplaced(secret, guess, guess[i], i) < spare(secret, guess, guess[i]) {
        Position::WrongPosition
    } else {
        Position::NotInWord
    }
}

/// Place `i` of the scored guess: the character of the guess with its verdict.
pub open spec fn scored_letter(secret: Seq<char>, guess: Seq<char>, i: int) -> Letter {
    Letter { letter: guess[i], position: verdict(secret, guess, i) }
}

/// The scored guess: each character of the guess with its verdict.
pub open spec fn score(secret: Seq<char>, guess: Seq<char>) -> Seq<Letter> {
    Seq::new(guess.len(), |i: int| scored_letter(secret, guess, i))
}

/// The letter that owns slot `k` of a per-letter table: `A` for 0, `Z` for 25.
pub open spec fn slot_letter(k: int) -> char {
    (k + 65) as char
}

/// The slot of an upper-case letter in a per-letter table.
fn letter_slot(c: char) -> (k: usize)
    requires
        is_upper_letter(c),
    ensures
        k < 26,
        slot_letter(k as int) == c,
{
    (c as u8 - 65) as usize
}

/// A table with one zero for each letter of the alphabet.
fn zero_table() -> (t: Vec<usize>)
    ensures
        t@.len() == 26,
        forall|k: int| 0 <= k < 26 ==> t@[k] == 0,
{
    let mut t: Vec<usize> = Vec::new();
    let mut k: usize = 0;
    while k < 26
        invariant
            k <= 26,
            t@.len() == k,
            forall|j: int| 0 <= j < k ==> t@[j] == 0,
        decreases 26 - k,
    {
        t.push(0);
        k += 1;
    }
    t
}

/// The spare copies never run below zero: the guess cannot match a letter in
/// place more often than the secret holds it.
pub proof fn lemma_placed_le_occurrences(secret: Seq<char>, guess: Seq<char>, c: char, n: int)
    ensures
        placed(secret, guess, c, n) <= occurrences(secret, c, n),
    decreases n,
{
    if n > 0 {
        lemma_placed_le_occurrences(secret, guess, c, n - 1);
    }
}

/// A letter that the secret does not hold occurs zero times in it.
proof fn lemma_absent_occurs_never(s: Seq<char>, c: char, n: int)
    requires
        !s.contains(c),
        n <= s.len(),
    ensures
        occurrences(s, c, n) == 0,
    decreases n,
{
    if n > 0 {
        lemma_absent_occurs_never(s, c, n - 1);
    }
}

/// The copies of `c` that places `i` and later of the guess may still claim
/// as present but misplaced.
pub open spec fn unclaimed(secret: Seq<char>, guess: Seq<char>, c: char, i: int) -> int {
    let d = spare(secret, guess, c) - misplaced(secret, guess, c, i);
    if d > 0 {
        d
    } else {
        0
    }
}

/// Scores `guess` against `secret`.
///
/// Each place is first judged on its own: a letter in its right place is
/// `Correct`, a letter the secret does not hold is `NotInWord`. For every
/// letter the secret's copies that were not matched in place are then handed
/// out, from left to right, to the remaining places of the guess that hold
/// that letter: such a place is `WrongPosition` while copies are left and
/// `NotInWord` afterwards.
pub fn score_guess(secret: &str, guess: &str) -> (word: Word)
    requires
        is_word(secret@),
        is_word(guess@),
    ensures
        word@ == score(secret@, guess@),
{
    let s = text_chars(secret);
    let g = text_chars(guess);

    // Each place on its own.
    let mut known: Vec<Option<Letter>> = Vec::new();
    let mut i: usize = 0;
    while i < 5
        invariant
            i <= 5,
            s@ == secret@,
            g@ == guess@,
            s@.len() == 5,
            g@.len() == 5,
            known@.len() == i,
            forall|j: int|
                0 <= j < i ==> #[trigger] known@[j] == Letter::spec_check_letter_pair(
                    g@[j],
                    s@[j],
                    s@,
                ),
        decreases 5 - i,
    {
        known.push(Letter::simple_check_letter_pair(&g[i], &s[i], secret));
        i += 1;
    }

    // How often each letter occurs in the secret.
    let mut total = zero_table();
    i = 0;
    while i < 5
        invariant
            i <= 5,
            is_word(s@),
            total@.len() == 26,
            forall|k: int|
                0 <= k < 26 ==> #[trigger] total@[k] == occurrences(s@, slot_letter(k), i as int),
            forall|k: int| 0 <= k < 26 ==> #[trigger] total@[k] <= i,
        decreases 5 - i,
    {
        let k = letter_slot(s[i]);
        total.set(k, total[k] + 1);
        i += 1;
    }

    // How often the guess has each letter in its right place.
    let mut confirmed = zero_table();
    i = 0;
    while i < 5
        invariant
            i <= 5,
            is_word(s@),
            is_word(g@),
            known@.len() == 5,
            forall|j: int|
                0 <= j < 5 ==> #[trigger] known@[j] == Letter::spec_check_letter_pair(
                    g@[j],
                    s@[j],
                    s@,
                ),
            confirmed@.len() == 26,
            forall|k: int|
                0 <= k < 26 ==> #[trigger] confirmed@[k] == placed(
                    s@,
                    g@,
                    slot_letter(k),
                    i as int,
                ),
            forall|k: int| 0 <= k < 26 ==> #[trigger] confirmed@[k] <= i,
        decreases 5 - i,
    {
        match known[i] {
            Some(l) => {
                if l.position == Position::Correct {
                    let k = letter_slot(l.letter);
                    confirmed.set(k, confirmed[k] + 1);
                }
            },
            None => {},
        }
        i += 1;
    }

    // What is left of each letter for the places that are still open.
    let mut remaining = zero_table();
    let mut k: usize = 0;
    while k < 26
        invariant
            k <= 26,
            s@.len() == 5,
            g@.len() == 5,
            total@.len() == 26,
            confirmed@.len() == 26,
            remaining@.len() == 26,
            forall|j: int|
                0 <= j < 26 ==> #[trigger] total@[j] == occurrences(s@, slot_letter(j), 5),
            forall|j: int|
                0 <= j < 26 ==> #[trigger] confirmed@[j] == placed(s@, g@, slot_letter(j), 5),
            forall|j: int|
                0 <= j < k ==> #[trigger] remaining@[j] == unclaimed(s@, g@, slot_letter(j), 0),
        decreases 26 - k,
    {
        proof {
            lemma_placed_le_occurrences(s@, g@, slot_letter(k as int), 5);
        }
        remaining.set(k, total[k] - confirmed[k]);
        k += 1;
    }

    // The open places, from left to right.
    let mut word: Word = [Letter { letter: 'A', position: Position::NotInWord };5];
    i = 0;
    while i < 5
        invariant
            i <= 5,
            is_word(s@),
            is_word(g@),
            known@.len() == 5,
            forall|j: int|
                0 <= j < 5 ==> #[trigger] known@[j] == Letter::spec_check_letter_pair(
                    g@[j],
                    s@[j],
                    s@,
                ),
            remaining@.len() == 26,
            forall|j: int|
                0 <= j < 26 ==> #[trigger] remaining@[j] == unclaimed(
                    s@,
                    g@,
                    slot_letter(j),
                    i as int,
                ),
            forall|j: int|
                0 <= j < i ==> #[trigger] word@[j] == scored_letter(s@, g@, j),
        decreases 5 - i,
    {
        let c = g[i];
        let k = letter_slot(c);
        match known[i] {
            Some(l) => {
                proof {
                    if l.position == Position::NotInWord {
                        lemma_absent_occurs_never(s@, c, 5);
                    }
                }
                word[i] = l;
            },
            None => {
                if remaining[k] > 0 {
                    remaining.set(k, remaining[k] - 1);
                    word[i] = Letter::new(c, Position::WrongPosition);
                } else {
                    word[i] = Letter::new(c, Position::NotInWord);
                }
            },
        }
        i += 1;
    }
    assert(word@ =~= score(s@, g@));
    word
}

/// Whether every letter carries the verdict `Correct`.
pub open spec fn all_correct(letters: Seq<Letter>) -> bool {
    forall|i: int| 0 <= i < letters.len() ==> (#[trigger] letters[i]).position == Position::Correct
}

/// Whether a scored guess wins the game: all five letters are `Correct`.
pub fn is_win(word: &Word) -> (r: bool)
    ensures
        r == all_correct(word@),
{
    let mut i: usize = 0;
    while i < 5
        invariant
            i <= 5,
            forall|j: int| 0 <= j < i ==> (#[trigger] word@[j]).position == Position::Correct,
        decreases 5 - i,
    {
        if word[i].position != Position::Correct {
            return false;
        }
        i += 1;
    }
    true
}

/// A guess wins exactly when it is the secret.
pub proof fn lemma_win_iff_secret(secret: Seq<char>, guess: Seq<char>)
    requires
        secret.len() == guess.len(),
    ensures
        all_correct(score(secret, guess)) <==> guess == secret,
{
    let scored = score(secret, guess);
    if all_correct(scored) {
        assert forall|i: int| 0 <= i < guess.len() implies guess[i] == secret[i] by {
            assert(scored[i].position == Position::Correct);
        }
        assert(guess =~= secret);
    }
}

/// How many of the first `n` places hold the same character in both texts.
pub open spec fn matching_places(secret: Seq<char>, guess: Seq<char>, n: int) -> nat
    decreases n,
{
    if n <= 0 {
        0
    } else {
        matching_places(secret, guess, n - 1) + if guess[n - 1] == secret[n - 1] {
            1nat
        } else {
            0nat
        }
    }
}

/// How many of the first `n` letters carry the verdict `Correct`.
pub open spec fn correct_count(letters: Seq<Letter>, n: int) -> nat
    decreases n,
{
    if n <= 0 {
        0
    } else {
        correct_count(letters, n - 1) + if letters[n - 1].position == Position::Correct {
            1nat
        } else {
            0nat
        }
    }
}

/// How many of the first `n` letters are the character `c` with a verdict
/// other than `NotInWord`.
pub open spec fn credited(letters: Seq<Letter>, c: char, n: int) -> nat
    decreases n,
{
    if n <= 0 {
        0
    } else {
        credited(letters, c, n - 1) + if letters[n - 1].letter == c && letters[n - 1].position
            != Position::NotInWord {
            1nat
        } else {
            0nat
        }
    }
}

/// A scored guess has exactly as many `Correct` letters as the guess has
/// places at which it agrees with the secret.
pub proof fn lemma_correct_count_is_matching_places(secret: Seq<char>, guess: Seq<char>)
    requires
        secret.len() == guess.len(),
    ensures
        correct_count(score(secret, guess), guess.len() as int) == matching_places(
            secret,
            guess,
            guess.len() as int,
        ),
{
    lemma_correct_count_prefix(secret, guess, guess.len() as int);
}

proof fn lemma_correct_count_prefix(secret: Seq<char>, guess: Seq<char>, n: int)
    requires
        0 <= n <= guess.len(),
    ensures
        correct_count(score(secret, guess), n) == matching_places(secret, guess, n),
    decreases n,
{
    if n > 0 {
        lemma_correct_count_prefix(secret, guess, n - 1);
        assert(score(secret, guess)[n - 1] == scored_letter(secret, guess, n - 1));
    }
}

/// For every character, a scored guess credits it (as `Correct` or
/// `WrongPosition`) at most as often as the secret holds it.
pub proof fn lemma_credit_within_secret(secret: Seq<char>, guess: Seq<char>, c: char)
    requires
        secret.len() == guess.len(),
    ensures
        credited(score(secret, guess), c, guess.len() as int) <= occurrences(
            secret,
            c,
            secret.len() as int,
        ),
{
    let n = guess.len() as int;
    lemma_credit_prefix(secret, guess, c, n);
    lemma_placed_le_occurrences(secret, guess, c, n);
}

/// Among the first `n` places, the credit given to `c` is made of the places
/// where it is matched and of the spare copies claimed so far.
proof fn lemma_credit_prefix(secret: Seq<char>, guess: Seq<char>, c: char, n: int)
    requires
        0 <= n <= guess.len(),
    ensures
        credited(score(secret, guess), c, n) == placed(secret, guess, c, n) + unclaimed(
            secret,
            guess,
            c,
            0,
        ) - unclaimed(secret, guess, c, n),
    decreases n,
{
    if n > 0 {
        lemma_credit_prefix(secret, guess, c, n - 1);
        assert(score(secret, guess)[n - 1] == scored_letter(secret, guess, n - 1));
    }
}

/// Scoring is a function of the secret and the guess alone: equal arguments
/// give equal results.
pub proof fn lemma_score_deterministic(
    secret_a: Seq<char>,
    guess_a: Seq<char>,
    secret_b: Seq<char>,
    guess_b: Seq<char>,
)
    requires
        secret_a == secret_b,
        guess_a == guess_b,
    ensures
        score(secret_a, guess_a) == score(secret_b, guess_b),
{
}

} // verus!
