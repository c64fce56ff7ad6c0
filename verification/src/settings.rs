//! The operator-facing toggles: two master toggles (auto start, auto reset)
//! and one toggle per checkpoint. The host re-reads them every tick; this
//! crate only consumes their current values.
use vstd::prelude::*;

verus! {

/// Current values of the eleven boolean toggles. Every toggle defaults to
/// enabled.
#[derive(Clone, Copy)]
pub struct Settings {
    /// Master toggle: automatic timer start.
    pub start: bool,
    /// Master toggle: automatic timer reset.
    pub reset: bool,
    /// Split at the end of the station prologue.
    pub station: bool,
    /// Split at the end of the dining closet chapter.
    pub closet: bool,
    /// Split at the end of the saloon car chapter.
    pub saloon: bool,
    /// Split at the end of the library car chapter.
    pub library: bool,
    /// Split at the end of the casino car chapter.
    pub casino: bool,
    /// Split at the end of the lounge car chapter.
    pub lounge: bool,
    /// Split at the end of the conductor car chapter.
    pub conductor: bool,
    /// Split at the end of the chase sequence.
    pub sonic_chase: bool,
    /// Split at the final boss fight and ending.
    pub ending: bool,
}

/// Every toggle of the settings is enabled.
pub open spec fn all_enabled(s: Settings) -> bool {
    &&& s.start
    &&& s.reset
    &&& s.station
    &&& s.closet
    &&& s.saloon
    &&& s.library
    &&& s.casino
    &&& s.lounge
    &&& s.conductor
    &&& s.sonic_chase
    &&& s.ending
}

impl Default for Settings {
    /// The documented default: every toggle enabled.
    fn default() -> (s: Settings)
        ensures
            all_enabled(s),
    {
        Settings {
            start: true,
            reset: true,
            station: true,
            closet: true,
            saloon: true,
            library: true,
            casino: true,
            lounge: true,
            conductor: true,
            sonic_chase: true,
            ending: true,
        }
    }
}

} // verus!
