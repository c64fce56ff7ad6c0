//! The rule engine: a pure decision from the watcher pair and the current
//! toggle values to the start / split / reset decisions for one tick. No
//! internal state; evaluated fresh every tick.
use vstd::prelude::*;
use crate::sample::{SAMPLE_LEN, all_zero, sample_eq};
use crate::settings::Settings;
use crate::text::{
    start_scribble, start_line, reset_line, reset_text, station_end, station_end_text, end_amy,
    end_amy_text, end_knuckles, end_knuckles_text, end_espio_vector, end_espio_vector_text,
    end_blaze_rouge, end_blaze_rouge_text, end_shadow, end_shadow_text, end_sonic, end_sonic_text,
    sonic_chase, sonic_chase_text, ending, ending_text, lemma_no_constant_all_zero,
};
use crate::watcher::{DialogueWatcher, spec_changed, spec_changed_to};

verus! {

/// `prev` exactly equals one of the nine checkpoint constants.
pub open spec fn is_checkpoint(prev: Seq<u16>) -> bool {
    ||| prev == station_end_text()
    ||| prev == end_amy_text()
    ||| prev == end_knuckles_text()
    ||| prev == end_espio_vector_text()
    ||| prev == end_blaze_rouge_text()
    ||| prev == end_shadow_text()
    ||| prev == end_sonic_text()
    ||| prev == sonic_chase_text()
    ||| prev == ending_text()
}

/// `prev` equals a checkpoint constant whose gating toggle is enabled. Each
/// checkpoint has exactly one toggle; text that matches no checkpoint yields
/// false rather than an error.
pub open spec fn checkpoint_enabled(prev: Seq<u16>, s: Settings) -> bool {
    if prev == station_end_text() {
        s.station
    } else if prev == end_amy_text() {
        s.closet
    } else if prev == end_knuckles_text() {
        s.saloon
    } else if prev == end_espio_vector_text() {
        s.library
    } else if prev == end_blaze_rouge_text() {
        s.casino
    } else if prev == end_shadow_text() {
        s.lounge
    } else if prev == end_sonic_text() {
        s.conductor
    } else if prev == sonic_chase_text() {
        s.sonic_chase
    } else if prev == ending_text() {
        s.ending
    } else {
        false
    }
}

/// The start decision: the master start toggle is enabled and the sample just
/// changed to the start line.
pub open spec fn spec_start(prev: Seq<u16>, cur: Seq<u16>, s: Settings) -> bool {
    s.start && spec_changed_to(prev, cur, start_line())
}

/// The split decision: the sample changed and the previous sample equals a
/// checkpoint constant whose toggle is enabled.
pub open spec fn spec_split(prev: Seq<u16>, cur: Seq<u16>, s: Settings) -> bool {
    spec_changed(prev, cur) && checkpoint_enabled(prev, s)
}

/// The reset decision: the master reset toggle is enabled and the sample just
/// changed to the reset line.
pub open spec fn spec_reset(prev: Seq<u16>, cur: Seq<u16>, s: Settings) -> bool {
    s.reset && spec_changed_to(prev, cur, reset_text())
}

/// A watcher that holds no pair yet fires nothing; otherwise the decision of
/// its pair.
pub open spec fn watcher_start(w: DialogueWatcher, s: Settings) -> bool {
    match w.pair {
        Some(p) => spec_start(p.previous@, p.current@, s),
        None => false,
    }
}

/// Split decision of a watcher; false while it holds no pair.
pub open spec fn watcher_split(w: DialogueWatcher, s: Settings) -> bool {
    match w.pair {
        Some(p) => spec_split(p.previous@, p.current@, s),
        None => false,
    }
}

/// Reset decision of a watcher; false while it holds no pair.
pub open spec fn watcher_reset(w: DialogueWatcher, s: Settings) -> bool {
    match w.pair {
        Some(p) => spec_reset(p.previous@, p.current@, s),
        None => false,
    }
}

/// Should the timer start this tick?
pub fn start(w: &DialogueWatcher, s: &Settings) -> (r: bool)
    ensures
        r == watcher_start(*w, *s),
{
    s.start && match &w.pair {
        Some(p) => p.changed_to(&start_scribble()),
        None => false,
    }
}

/// Should the timer split this tick?
pub fn split(w: &DialogueWatcher, s: &Settings) -> (r: bool)
    ensures
        r == watcher_split(*w, *s),
{
    match &w.pair {
        Some(p) => {
            p.changed() && {
                if sample_eq(&p.previous, &station_end()) {
                    s.station
                } else if sample_eq(&p.previous, &end_amy()) {
                    s.closet
                } else if sample_eq(&p.previous, &end_knuckles()) {
                    s.saloon
                } else if sample_eq(&p.previous, &end_espio_vector()) {
                    s.library
                } else if sample_eq(&p.previous, &end_blaze_rouge()) {
                    s.casino
                } else if sample_eq(&p.previous, &end_shadow()) {
                    s.lounge
                } else if sample_eq(&p.previous, &end_sonic()) {
                    s.conductor
                } else if sample_eq(&p.previous, &sonic_chase()) {
                    s.sonic_chase
                } else if sample_eq(&p.previous, &ending()) {
                    s.ending
                } else {
                    false
                }
            }
        }
        None => false,
    }
}

/// Should the timer reset this tick?
pub fn reset(w: &DialogueWatcher, s: &Settings) -> (r: bool)
    ensures
        r == watcher_reset(*w, *s),
{
    s.reset && match &w.pair {
        Some(p) => p.changed_to(&reset_line()),
        None => false,
    }
}

/// Loading-screen detection: this title never drives load removal, so the
/// decision is always absent.
pub fn is_loading(w: &DialogueWatcher, s: &Settings) -> (r: Option<bool>)
    ensures
        r is None,
{
    None
}

/// Custom game time: this title never drives it, so the decision is always
/// absent. A present value would be a game-time duration in nanoseconds.
pub fn game_time(w: &DialogueWatcher, s: &Settings) -> (r: Option<i64>)
    ensures
        r is None,
{
    None
}

/// Split fires only on an exact checkpoint match: a previous sample that
/// differs from every checkpoint constant — even by a single code unit —
/// never fires split, whatever the toggles.
pub proof fn lemma_split_needs_exact_checkpoint(prev: Seq<u16>, cur: Seq<u16>, s: Settings)
    ensures
        spec_split(prev, cur, s) ==> is_checkpoint(prev),
        !is_checkpoint(prev) ==> !spec_split(prev, cur, s),
{
}

/// A tick whose current sample is all zeroes (the degraded sample of a failed
/// memory chase) never fires start or reset, because no trigger constant is
/// all-zero; and when the previous sample is also all-zero, split cannot fire
/// either, because no checkpoint constant is all-zero.
pub proof fn lemma_all_zero_fires_nothing(prev: Seq<u16>, cur: Seq<u16>, s: Settings)
    requires
        all_zero(cur),
        cur.len() == SAMPLE_LEN,
    ensures
        !spec_start(prev, cur, s),
        !spec_reset(prev, cur, s),
        all_zero(prev) && prev.len() == SAMPLE_LEN ==> !spec_split(prev, cur, s),
{
    lemma_no_constant_all_zero();
    assert(cur != start_line()) by {
        if cur == start_line() {
            assert(all_zero(start_line()));
        }
    }
    assert(cur != reset_text()) by {
        if cur == reset_text() {
            assert(all_zero(reset_text()));
        }
    }
    if all_zero(prev) && prev.len() == SAMPLE_LEN {
        assert(!is_checkpoint(prev)) by {
            if prev == station_end_text() {
                assert(all_zero(station_end_text()));
            }
            if prev == end_amy_text() {
                assert(all_zero(end_amy_text()));
            }
            if prev == end_knuckles_text() {
                assert(all_zero(end_knuckles_text()));
            }
            if prev == end_espio_vector_text() {
                assert(all_zero(end_espio_vector_text()));
            }
            if prev == end_blaze_rouge_text() {
                assert(all_zero(end_blaze_rouge_text()));
            }
            if prev == end_shadow_text() {
                assert(all_zero(end_shadow_text()));
            }
            if prev == end_sonic_text() {
                assert(all_zero(end_sonic_text()));
            }
            if prev == sonic_chase_text() {
                assert(all_zero(sonic_chase_text()));
            }
            if prev == ending_text() {
                assert(all_zero(ending_text()));
            }
        }
        lemma_split_needs_exact_checkpoint(prev, cur, s);
    }
}

/// When nothing changed between two ticks, no decision fires: start, split and
/// reset all require the sample to have changed.
pub proof fn lemma_unchanged_fires_nothing(prev: Seq<u16>, cur: Seq<u16>, s: Settings)
    requires
        cur == prev,
    ensures
        !spec_start(prev, cur, s),
        !spec_split(prev, cur, s),
        !spec_reset(prev, cur, s),
{
}

} // verus!
