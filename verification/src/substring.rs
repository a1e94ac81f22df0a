//! Substring containment: the mathematical predicate and the executable
//! test that the whitelist and blacklist rules are built on.

use vstd::prelude::*;

verus! {

/// `p` occurs in `s` as a contiguous run of characters starting at index `i`.
pub open spec fn is_substring_at(s: Seq<char>, p: Seq<char>, i: int) -> bool {
    0 <= i && i + p.len() <= s.len() && s.subrange(i, i + p.len()) == p
}

/// `p` occurs somewhere in `s` as a contiguous run of characters.
pub open spec fn contains_substr(s: Seq<char>, p: Seq<char>) -> bool {
    exists|i: int| is_substring_at(s, p, i)
}

/// Relies on str::contains: true exactly when the pattern occurs as a
/// substring of the string. For valid UTF-8 text, containment of one
/// encoded string in another coincides with containment of its character
/// sequence, since every occurrence starts on a character boundary.
#[verifier::external_body]
pub(crate) fn str_contains(s: &str, pattern: &str) -> (r: bool)
    ensures
        r == contains_substr(s@, pattern@),
{
    s.contains(pattern)
}

/// The empty pattern occurs in every string: it stands at index 0.
pub proof fn lemma_empty_pattern_contained(s: Seq<char>)
    ensures
        contains_substr(s, Seq::<char>::empty()),
{
    assert(s.subrange(0, 0) =~= Seq::<char>::empty());
    assert(is_substring_at(s, Seq::<char>::empty(), 0));
}

} // verus!
