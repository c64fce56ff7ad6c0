//! The signature scanner: finds the first occurrence of a byte pattern with
//! per-byte wildcards inside a block of bytes read from the target module.
//! Deterministic single pass; retry policy belongs to the caller.
use vstd::prelude::*;

verus! {

/// The pattern matches the haystack at position `i`: the pattern fits, and
/// every non-wildcard pattern byte equals the haystack byte under it.
/// `mask[j]` is true where the pattern byte must match, false for a wildcard.
pub open spec fn matches_at(hay: Seq<u8>, pat: Seq<u8>, mask: Seq<bool>, i: int) -> bool {
    &&& 0 <= i
    &&& i + pat.len() <= hay.len()
    &&& forall|j: int| 0 <= j < pat.len() ==> (mask[j] ==> hay[i + j] == pat[j])
}

/// Finds the index of the first match of the pattern in the haystack, or
/// `None` when no position matches. Wildcard positions (mask false) match
/// any byte.
pub fn scan(hay: &Vec<u8>, pat: &Vec<u8>, mask: &Vec<bool>) -> (r: Option<usize>)
    requires
        pat@.len() == mask@.len(),
    ensures
        match r {
            Some(i) => matches_at(hay@, pat@, mask@, i as int) && forall|k: int|
                0 <= k < i ==> !matches_at(hay@, pat@, mask@, k),
            None => forall|k: int| !matches_at(hay@, pat@, mask@, k),
        },
{
    if pat.len() == 0 {
        return Some(0);
    }
    if pat.len() > hay.len() {
        return None;
    }
    let last: usize = hay.len() - pat.len();
    let mut i: usize = 0;
    while i <= last
        invariant
            pat@.len() == mask@.len(),
            1 <= pat@.len() <= hay@.len(),
            hay@.len() <= usize::MAX,
            last == hay@.len() - pat@.len(),
            i <= last + 1,
            forall|k: int| 0 <= k < i ==> !matches_at(hay@, pat@, mask@, k),
        decreases last + 1 - i,
    {
        let mut j: usize = 0;
        let mut hit: bool = true;
        while j < pat.len()
            invariant
                pat@.len() == mask@.len(),
                i + pat@.len() <= hay@.len(),
                hay@.len() <= usize::MAX,
                j <= pat@.len(),
                hit == forall|m: int| 0 <= m < j ==> (mask@[m] ==> hay@[i + m] == pat@[m]),
            decreases pat@.len() - j,
        {
            if mask[j] && hay[i + j] != pat[j] {
                hit = false;
                j = pat.len();
            } else {
                j = j + 1;
            }
        }
        if hit {
            return Some(i);
        }
        assert(!matches_at(hay@, pat@, mask@, i as int));
        i = i + 1;
    }
    assert forall|k: int| !matches_at(hay@, pat@, mask@, k) by {
        if matches_at(hay@, pat@, mask@, k) {
            assert(0 <= k <= last);
        }
    }
    None
}

} // verus!
