//! Dialogue samples: fixed-length buffers of 16-bit code units, zero-padded
//! after the first terminating zero value of the raw read.
use vstd::prelude::*;

verus! {

/// Number of 16-bit code units in one dialogue sample.
pub const SAMPLE_LEN: usize = 90;

/// Every code unit of the sample is zero.
pub open spec fn all_zero(s: Seq<u16>) -> bool {
    forall|i: int| 0 <= i < s.len() ==> s[i] == 0
}

/// The sample that stands in for a failed memory read: all zeroes.
pub open spec fn zero_sample() -> Seq<u16> {
    Seq::new(SAMPLE_LEN as nat, |i: int| 0u16)
}

/// No zero code unit occurs at or before position `i`.
pub open spec fn live_prefix(s: Seq<u16>, i: int) -> bool {
    forall|j: int| 0 <= j <= i ==> s[j] != 0
}

/// The raw buffer truncated at its first zero code unit: code units before
/// the first zero are kept, everything from the first zero on is zero.
pub open spec fn truncated(s: Seq<u16>) -> Seq<u16> {
    Seq::new(s.len(), |i: int| if live_prefix(s, i) { s[i] } else { 0u16 })
}

/// Builds the sample for one raw read: copy code units until the first zero,
/// then leave the remainder zero-padded.
pub fn truncate_sample(raw: &[u16; SAMPLE_LEN]) -> (out: [u16; SAMPLE_LEN])
    ensures
        out@ == truncated(raw@),
{
    let mut out: [u16; SAMPLE_LEN] = [0u16; SAMPLE_LEN];
    let mut i: usize = 0;
    while i < SAMPLE_LEN && raw[i] != 0
        invariant
            i <= SAMPLE_LEN,
            raw@.len() == SAMPLE_LEN,
            out@.len() == SAMPLE_LEN,
            forall|j: int| 0 <= j < i ==> raw@[j] != 0,
            forall|j: int| 0 <= j < i ==> out@[j] == raw@[j],
            forall|j: int| i <= j < SAMPLE_LEN ==> out@[j] == 0,
        decreases SAMPLE_LEN - i,
    {
        out[i] = raw[i];
        i = i + 1;
    }
    proof {
        assert forall|j: int| 0 <= j < SAMPLE_LEN implies out@[j] == truncated(raw@)[j] by {
            if j < i {
                assert(live_prefix(raw@, j));
            } else {
                if i < SAMPLE_LEN {
                    assert(raw@[i as int] == 0);
                    assert(!live_prefix(raw@, j));
                }
            }
        }
        assert(out@ =~= truncated(raw@));
    }
    out
}

/// `prefix` extended with zeroes to the fixed sample length.
pub open spec fn padded(prefix: Seq<u16>) -> Seq<u16> {
    Seq::new(SAMPLE_LEN as nat, |i: int| if i < prefix.len() {
        prefix[i]
    } else {
        0u16
    })
}

/// Builds a full zero-padded sample from the leading code units of a line.
pub fn pad_sample<const N: usize>(prefix: &[u16; N]) -> (out: [u16; SAMPLE_LEN])
    requires
        N <= SAMPLE_LEN,
    ensures
        out@ == padded(prefix@),
{
    let mut out: [u16; SAMPLE_LEN] = [0u16; SAMPLE_LEN];
    let mut i: usize = 0;
    while i < N
        invariant
            N <= SAMPLE_LEN,
            i <= N,
            prefix@.len() == N,
            out@.len() == SAMPLE_LEN,
            forall|j: int| 0 <= j < i ==> out@[j] == prefix@[j],
            forall|j: int| i <= j < SAMPLE_LEN ==> out@[j] == 0,
        decreases N - i,
    {
        out[i] = prefix[i];
        i = i + 1;
    }
    proof {
        assert(out@ =~= padded(prefix@));
    }
    out
}

/// Structural equality of two samples: every code unit matches.
pub fn sample_eq(a: &[u16; SAMPLE_LEN], b: &[u16; SAMPLE_LEN]) -> (r: bool)
    ensures
        r == (a@ == b@),
{
    let mut i: usize = 0;
    while i < SAMPLE_LEN
        invariant
            i <= SAMPLE_LEN,
            a@.len() == SAMPLE_LEN,
            b@.len() == SAMPLE_LEN,
            forall|j: int| 0 <= j < i ==> a@[j] == b@[j],
        decreases SAMPLE_LEN - i,
    {
        if a[i] != b[i] {
            assert(a@[i as int] != b@[i as int]);
            return false;
        }
        i = i + 1;
    }
    proof {
        assert(a@ =~= b@);
    }
    true
}

} // verus!
