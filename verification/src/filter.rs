//! The text filter: deleting vowels while keeping every other character
//! in place.

use vstd::prelude::*;
use crate::lemmas::{
    is_subsequence, lemma_is_subsequence, lemma_no_vowel_remains, lemma_occurrences, occurrences,
};

verus! {

/// Whether `c` is one of the ten vowel characters `a e i o u A E I O U`.
///
/// Membership goes by exact character identity; no other letter, in
/// whatever script, counts.
pub open spec fn is_vowel(c: char) -> bool {
    c == 'a' || c == 'e' || c == 'i' || c == 'o' || c == 'u'
        || c == 'A' || c == 'E' || c == 'I' || c == 'O' || c == 'U'
}

/// The text `s` with every vowel deleted and all else kept in order.
pub open spec fn without_vowels(s: Seq<char>) -> Seq<char>
    decreases s.len(),
{
    if s.len() == 0 {
        Seq::empty()
    } else if is_vowel(s.last()) {
        without_vowels(s.drop_last())
    } else {
        without_vowels(s.drop_last()).push(s.last())
    }
}

/// Decides whether `c` is a vowel.
pub fn is_vowel_char(c: char) -> (b: bool)
    ensures
        b == is_vowel(c),
{
    c == 'a' || c == 'e' || c == 'i' || c == 'o' || c == 'u'
        || c == 'A' || c == 'E' || c == 'I' || c == 'O' || c == 'U'
}

/// Appends one character to a string.
///
/// States of `String::push` what its documentation gives: afterwards the
/// string holds what it held before, followed by `c`.
#[verifier::external_body]
fn push_char(out: &mut String, c: char)
    ensures
        final(out)@ == old(out)@.push(c),
{
    out.push(c)
}

/// Returns `s` without its vowels: every character of `s` that is not one
/// of `a e i o u A E I O U`, in the order in which `s` holds them.
///
/// The result holds no vowel, is a subsequence of `s`, and holds every
/// other character as often as `s` does.
pub fn disemvowel(s: &str) -> (out: String)
    ensures
        out@ == without_vowels(s@),
        forall|i: int| 0 <= i < out@.len() ==> !is_vowel(#[trigger] out@[i]),
        is_subsequence(out@, s@),
        forall|c: char| !is_vowel(c) ==> #[trigger] occurrences(out@, c) == occurrences(s@, c),
{
    let mut out = String::new();
    for c in it: s.chars()
        invariant
            it.seq() == s@,
            out@ == without_vowels(s@.take(it.index())),
    {
        proof {
            assert(s@.take(it.index() + 1).drop_last() == s@.take(it.index()));
        }
        if !is_vowel_char(c) {
            push_char(&mut out, c);
        }
    }
    proof {
        assert(s@.take(s@.len() as int) == s@);
        lemma_no_vowel_remains(s@);
        lemma_is_subsequence(s@);
        assert forall|c: char| !is_vowel(c) implies #[trigger] occurrences(out@, c)
            == occurrences(s@, c) by {
            lemma_occurrences(s@, c);
        }
    }
    out
}

} // verus!
