//! Exact, case-sensitive substring search over text, the only kind of
//! matching the stock checker does: no HTML semantics, no case folding.

use vstd::prelude::*;

verus! {

/// `needle` occurs in `haystack` starting at character position `i`.
pub open spec fn occurs_at(haystack: Seq<char>, needle: Seq<char>, i: int) -> bool {
    &&& 0 <= i
    &&& i + needle.len() <= haystack.len()
    &&& forall|j: int| 0 <= j < needle.len() ==> haystack[i + j] == needle[j]
}

/// `needle` occurs somewhere in `haystack` (the empty needle occurs in
/// every text, as it does for Rust's `str::contains`).
pub open spec fn contains_seq(haystack: Seq<char>, needle: Seq<char>) -> bool {
    exists|i: int| occurs_at(haystack, needle, i)
}

/// Whether `needle` occurs in `haystack` as an exact, case-sensitive
/// substring.
pub fn contains_substring(haystack: &str, needle: &str) -> (r: bool)
    ensures
        r == contains_seq(haystack@, needle@),
{
    let n = haystack.unicode_len();
    let m = needle.unicode_len();
    if m > n {
        assert(forall|i: int| !occurs_at(haystack@, needle@, i));
        return false;
    }
    let mut i: usize = 0;
    while i <= n - m
        invariant
            n == haystack@.len(),
            m == needle@.len(),
            m <= n,
            i <= n - m + 1,
            forall|k: int| 0 <= k < i ==> !occurs_at(haystack@, needle@, k),
        decreases n - m - i + 1,
    {
        let mut j: usize = 0;
        let mut matches = true;
        while j < m
            invariant
                n == haystack@.len(),
                m == needle@.len(),
                i + m <= n,
                j <= m,
                matches == (forall|q: int| 0 <= q < j ==> haystack@[i + q] == needle@[q]),
            decreases m - j,
        {
            if haystack.get_char(i + j) != needle.get_char(j) {
                matches = false;
                j = m;
            } else {
                j += 1;
            }
        }
        if matches {
            assert(occurs_at(haystack@, needle@, i as int));
            return true;
        }
        i += 1;
    }
    assert forall|k: int| !occurs_at(haystack@, needle@, k) by {
        if 0 <= k && k + needle@.len() <= haystack@.len() {
            assert(0 <= k < i);
        }
    };
    false
}

} // verus!
