//! String helpers over the character view of `str`.

use vstd::prelude::*;

verus! {

/// Whether `s` begins with `prefix`, character by character.
pub fn starts_with(s: &str, prefix: &str) -> (found: bool)
    ensures
        found == prefix@.is_prefix_of(s@),
{
    let n: usize = s.unicode_len();
    let m: usize = prefix.unicode_len();
    if m > n {
        return false;
    }
    let mut i: usize = 0;
    while i < m
        invariant
            i <= m <= n,
            n == s@.len(),
            m == prefix@.len(),
            forall|j: int| 0 <= j < i ==> s@[j] == prefix@[j],
        decreases m - i,
    {
        if s.get_char(i) != prefix.get_char(i) {
            return false;
        }
        i += 1;
    }
    true
}

/// Whether `left` and `right` hold the same characters.
pub fn same_text(left: &str, right: &str) -> (same: bool)
    ensures
        same == (left@ == right@),
{
    if left.unicode_len() != right.unicode_len() {
        return false;
    }
    let same = starts_with(left, right);
    assert(right@.is_prefix_of(left@) ==> left@ =~= right@);
    same
}

/// The part of `s` from character `from` to its end, as an owned string.
pub fn tail_from(s: &str, from: usize) -> (tail: String)
    requires
        from <= s@.len(),
    ensures
        tail@ == s@.skip(from as int),
{
    let n: usize = s.unicode_len();
    let rest = s.substring_char(from, n);
    String::from_str(rest)
}

} // verus!
