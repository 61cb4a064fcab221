//! What holds of the filter on every text: theorems over
//! [`without_vowels`](crate::filter::without_vowels).

use vstd::prelude::*;
use crate::filter::{is_vowel, without_vowels};

verus! {

/// The positions of `s` that hold a character other than a vowel, in
/// rising order.
pub open spec fn kept_positions(s: Seq<char>) -> Seq<int>
    decreases s.len(),
{
    if s.len() == 0 {
        Seq::empty()
    } else if is_vowel(s.last()) {
        kept_positions(s.drop_last())
    } else {
        kept_positions(s.drop_last()).push(s.len() - 1)
    }
}

/// `idx` places `a` inside `b`: it gives, for each position of `a`, a
/// position of `b` that holds the same character, and later positions of
/// `a` go to later positions of `b`.
pub open spec fn embeds(idx: Seq<int>, a: Seq<char>, b: Seq<char>) -> bool {
    &&& idx.len() == a.len()
    &&& forall|i: int|
        0 <= i < idx.len() ==> 0 <= #[trigger] idx[i] < b.len() && a[i] == b[idx[i]]
    &&& forall|i: int, j: int| 0 <= i < j < idx.len() ==> idx[i] < idx[j]
}

/// `a` can be had from `b` by deleting characters, without reordering.
pub open spec fn is_subsequence(a: Seq<char>, b: Seq<char>) -> bool {
    exists|idx: Seq<int>| embeds(idx, a, b)
}

/// How often `c` occurs in `s`.
pub open spec fn occurrences(s: Seq<char>, c: char) -> nat
    decreases s.len(),
{
    if s.len() == 0 {
        0
    } else if s.last() == c {
        occurrences(s.drop_last(), c) + 1
    } else {
        occurrences(s.drop_last(), c)
    }
}

/// No vowel is left: no position of the filtered text holds one of the ten
/// vowel characters.
pub proof fn lemma_no_vowel_remains(s: Seq<char>)
    ensures
        forall|i: int|
            0 <= i < without_vowels(s).len() ==> !is_vowel(#[trigger] without_vowels(s)[i]),
    decreases s.len(),
{
    if s.len() > 0 {
        let w = without_vowels(s.drop_last());
        lemma_no_vowel_remains(s.drop_last());
        assert forall|i: int| 0 <= i < without_vowels(s).len() implies !is_vowel(
            #[trigger] without_vowels(s)[i],
        ) by {
            if i < w.len() {
                assert(without_vowels(s)[i] == w[i]);
            }
        }
    }
}

/// A text that holds no vowel passes through the filter unchanged.
pub proof fn lemma_vowel_free_unchanged(s: Seq<char>)
    requires
        forall|i: int| 0 <= i < s.len() ==> !is_vowel(#[trigger] s[i]),
    ensures
        without_vowels(s) == s,
    decreases s.len(),
{
    if s.len() > 0 {
        lemma_vowel_free_unchanged(s.drop_last());
        assert(s.drop_last().push(s.last()) == s);
    } else {
        assert(s == Seq::<char>::empty());
    }
}

/// Filtering twice gives what filtering once gives.
pub proof fn lemma_idempotent(s: Seq<char>)
    ensures
        without_vowels(without_vowels(s)) == without_vowels(s),
{
    lemma_no_vowel_remains(s);
    lemma_vowel_free_unchanged(without_vowels(s));
}

/// The kept positions place the filtered text inside the input, and
/// they are exactly the positions that hold no vowel: every character
/// other than a vowel stays, at its place among the others, and nothing
/// else does.
pub proof fn lemma_kept_positions(s: Seq<char>)
    ensures
        embeds(kept_positions(s), without_vowels(s), s),
        forall|i: int|
            0 <= i < s.len() ==> (!is_vowel(#[trigger] s[i]) <==> kept_positions(s).contains(i)),
    decreases s.len(),
{
    if s.len() > 0 {
        let t = s.drop_last();
        let n = s.len() - 1;
        lemma_kept_positions(t);
        let kt = kept_positions(t);
        let ks = kept_positions(s);
        assert forall|i: int| 0 <= i < s.len() implies (!is_vowel(#[trigger] s[i])
            <==> ks.contains(i)) by {
            if i < n {
                assert(s[i] == t[i]);
                if kt.contains(i) {
                    let j = choose|j: int| 0 <= j < kt.len() && kt[j] == i;
                    assert(ks[j] == i);
                }
                if ks.contains(i) {
                    let j = choose|j: int| 0 <= j < ks.len() && ks[j] == i;
                    assert(kt[j] == i);
                }
            } else {
                if !is_vowel(s[i]) {
                    assert(ks[ks.len() - 1] == i);
                }
                if ks.contains(i) {
                    let j = choose|j: int| 0 <= j < ks.len() && ks[j] == i;
                    if is_vowel(s[i]) {
                        assert(kt[j] < t.len());
                    }
                }
            }
        }
    }
}

/// The filtered text is a subsequence of the input: deleting alone
/// leads from one to the other, with no character moved, added or changed.
pub proof fn lemma_is_subsequence(s: Seq<char>)
    ensures
        is_subsequence(without_vowels(s), s),
{
    lemma_kept_positions(s);
}

/// A character other than a vowel occurs in the filtered text as often as
/// in the input, and a vowel does not occur in it at all.
pub proof fn lemma_occurrences(s: Seq<char>, c: char)
    ensures
        !is_vowel(c) ==> occurrences(without_vowels(s), c) == occurrences(s, c),
        is_vowel(c) ==> occurrences(without_vowels(s), c) == 0,
    decreases s.len(),
{
    if s.len() > 0 {
        lemma_occurrences(s.drop_last(), c);
        if !is_vowel(s.last()) {
            let w = without_vowels(s.drop_last());
            assert(w.push(s.last()).drop_last() == w);
        }
    }
}

} // verus!
