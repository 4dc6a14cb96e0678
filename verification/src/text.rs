//! Small helpers for reading the characters of a text.

use vstd::prelude::*;
use vstd::string::StrSliceExecFns;
use crate::letters::upper_text;

verus! {

/// `str::to_ascii_uppercase` from the standard library. Trusted: the result
/// has the characters of the argument, in order, with `a`..`z` mapped to
/// `A`..`Z` and every other character unchanged.
#[verifier::external_body]
pub(crate) fn str_to_ascii_uppercase(s: &str) -> (r: String)
    ensures
        r@ == upper_text(s@),
{
    s.to_ascii_uppercase()
}

/// The characters of `s`, in order.
pub(crate) fn text_chars(s: &str) -> (v: Vec<char>)
    ensures
        v@ == s@,
{
    let n: usize = s.unicode_len();
    let mut v: Vec<char> = Vec::new();
    let mut i: usize = 0;
    while i < n
        invariant
            n == s@.len(),
            i <= n,
            v@ == s@.subrange(0, i as int),
        decreases n - i,
    {
        v.push(s.get_char(i));
        i += 1;
    }
    v
}

/// Whether `c` occurs in `s`.
pub(crate) fn text_contains(s: &str, c: char) -> (r: bool)
    ensures
        r == s@.contains(c),
{
    let n: usize = s.unicode_len();
    let mut i: usize = 0;
    while i < n
        invariant
            n == s@.len(),
            i <= n,
            forall|j: int| 0 <= j < i ==> s@[j] != c,
        decreases n - i,
    {
        if s.get_char(i) == c {
            return true;
        }
        i += 1;
    }
    false
}

} // verus!
