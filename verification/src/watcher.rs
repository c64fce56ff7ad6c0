//! The watcher pair: the current and previous dialogue sample, refreshed
//! exactly once per poll tick, with change detection by full-sample equality.
use vstd::prelude::*;
use crate::sample::{SAMPLE_LEN, sample_eq};

verus! {

/// The two most recent dialogue samples.
pub struct SamplePair {
    /// Sample taken on the previous tick.
    pub previous: [u16; SAMPLE_LEN],
    /// Sample taken on the current tick.
    pub current: [u16; SAMPLE_LEN],
}

/// The sample changed between the two most recent ticks.
pub open spec fn spec_changed(prev: Seq<u16>, cur: Seq<u16>) -> bool {
    cur != prev
}

/// The sample changed and its new value is exactly `x`.
pub open spec fn spec_changed_to(prev: Seq<u16>, cur: Seq<u16>, x: Seq<u16>) -> bool {
    spec_changed(prev, cur) && cur == x
}

impl SamplePair {
    /// The current sample differs from the previous one.
    pub fn changed(&self) -> (r: bool)
        ensures
            r == spec_changed(self.previous@, self.current@),
    {
        !sample_eq(&self.current, &self.previous)
    }

    /// The sample just changed and now equals `x`.
    pub fn changed_to(&self, x: &[u16; SAMPLE_LEN]) -> (r: bool)
        ensures
            r == spec_changed_to(self.previous@, self.current@, x@),
    {
        self.changed() && sample_eq(&self.current, x)
    }
}

/// Holds the sample pair for the current attach session. Fresh (no pair) at
/// the start of a session; after the first refresh both halves of the pair
/// hold the first sample, so no change can be reported before two reads.
pub struct DialogueWatcher {
    /// The pair, absent until the first refresh of the session.
    pub pair: Option<SamplePair>,
}

impl DialogueWatcher {
    /// A fresh watcher with no sample yet.
    pub fn new() -> (w: DialogueWatcher)
        ensures
            w.pair is None,
    {
        DialogueWatcher { pair: None }
    }

    /// Takes this tick's sample: the old current sample becomes the previous
    /// one; on the very first refresh the new sample stands in for both.
    pub fn update(&mut self, sample: [u16; SAMPLE_LEN])
        ensures
            final(self).pair is Some,
            final(self).pair->Some_0.current@ == sample@,
            final(self).pair->Some_0.previous@ == (match old(self).pair {
                Some(p) => p.current@,
                None => sample@,
            }),
    {
        let previous: [u16; SAMPLE_LEN] = match &self.pair {
            Some(p) => p.current,
            None => sample,
        };
        self.pair = Some(SamplePair { previous, current: sample });
    }
}

/// A change can only be reported toward `x` when the sample both changed and
/// now equals `x`; in particular a pair whose halves are equal reports no
/// change toward any value.
pub proof fn lemma_changed_to_exact(prev: Seq<u16>, cur: Seq<u16>, x: Seq<u16>)
    ensures
        spec_changed_to(prev, cur, x) == (spec_changed(prev, cur) && cur == x),
        cur == prev ==> !spec_changed_to(prev, cur, x),
{
}

} // verus!
