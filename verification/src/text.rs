//! The fixed dialogue text data tables: the start and reset trigger lines
//! and the nine checkpoint lines. Each is stored as its nonzero code units
//! and padded to a full sample; matching against them is always exact
//! full-sample equality.
use vstd::prelude::*;
use crate::sample::{SAMPLE_LEN, padded, pad_sample};

verus! {

/// Code units of this line, up to its first terminating zero.
pub const START_SCRIBBLE_UNITS: [u16; 62] = [
    0x3C, 0x73, 0x74, 0x79, 0x6C, 0x65, 0x3D, 0x54, 0x68, 0x6F, 0x75, 0x67, 0x68, 0x74, 0x3E,
    0x28, 0x48, 0x6F, 0x70, 0x65, 0x20, 0x70, 0x61, 0x73, 0x73, 0x65, 0x6E, 0x67, 0x65, 0x72,
    0x73, 0x20, 0x63, 0x61, 0x6E, 0x20, 0x72, 0x65, 0x61, 0x64, 0x20, 0x6D, 0x79, 0x20, 0x73,
    0x63, 0x72, 0x69, 0x62, 0x62, 0x6C, 0x65, 0x2026, 0x29, 0x3C, 0x2F, 0x73, 0x74, 0x79, 0x6C,
    0x65, 0x3E,
];

/// Dialogue line whose appearance starts the timer.
pub open spec fn start_line() -> Seq<u16> {
    padded(START_SCRIBBLE_UNITS@)
}

/// The start line as a full zero-padded sample.
pub fn start_scribble() -> (s: [u16; SAMPLE_LEN])
    ensures
        s@ == start_line(),
{
    pad_sample(&START_SCRIBBLE_UNITS)
}

/// Code units of this line, up to its first terminating zero.
pub const RESET_LINE_UNITS: [u16; 86] = [
    0x3C, 0x73, 0x74, 0x79, 0x6C, 0x65, 0x3D, 0x54, 0x68, 0x6F, 0x75, 0x67, 0x68, 0x74, 0x3E,
    0x28, 0x50, 0x68, 0x65, 0x77, 0x2C, 0x20, 0x6D, 0x61, 0x64, 0x65, 0x20, 0x69, 0x74, 0x20,
    0x6F, 0x6E, 0x20, 0x74, 0x68, 0x65, 0x20, 0x74, 0x72, 0x61, 0x69, 0x6E, 0x20, 0x66, 0x69,
    0x66, 0x74, 0x65, 0x65, 0x6E, 0x20, 0x6D, 0x69, 0x6E, 0x75, 0x74, 0x65, 0x73, 0x20, 0x61,
    0x68, 0x65, 0x61, 0x64, 0x20, 0x6F, 0x66, 0x20, 0x73, 0x63, 0x68, 0x65, 0x64, 0x75, 0x6C,
    0x65, 0x2E, 0x29, 0x3C, 0x2F, 0x73, 0x74, 0x79, 0x6C, 0x65, 0x3E,
];

/// Dialogue line whose appearance resets the timer.
pub open spec fn reset_text() -> Seq<u16> {
    padded(RESET_LINE_UNITS@)
}

/// The reset line as a full zero-padded sample.
pub fn reset_line() -> (s: [u16; SAMPLE_LEN])
    ensures
        s@ == reset_text(),
{
    pad_sample(&RESET_LINE_UNITS)
}

/// Code units of this line, up to its first terminating zero.
pub const STATION_END_UNITS: [u16; 27] = [
    0x45, 0x76, 0x65, 0x72, 0x79, 0x6F, 0x6E, 0x65, 0x2C, 0x20, 0x74, 0x6F, 0x20, 0x79, 0x6F,
    0x75, 0x72, 0x20, 0x73, 0x74, 0x61, 0x74, 0x69, 0x6F, 0x6E, 0x73, 0x21,
];

/// Checkpoint: end of the station prologue.
pub open spec fn station_end_text() -> Seq<u16> {
    padded(STATION_END_UNITS@)
}

/// Checkpoint line as a full zero-padded sample.
pub fn station_end() -> (s: [u16; SAMPLE_LEN])
    ensures
        s@ == station_end_text(),
{
    pad_sample(&STATION_END_UNITS)
}

/// Code units of this line, up to its first terminating zero.
pub const END_AMY_UNITS: [u16; 71] = [
    0x3C, 0x73, 0x74, 0x79, 0x6C, 0x65, 0x3D, 0x54, 0x68, 0x6F, 0x75, 0x67, 0x68, 0x74, 0x3E,
    0x28, 0x49, 0x2019, 0x6C, 0x6C, 0x20, 0x6B, 0x65, 0x65, 0x70, 0x20, 0x65, 0x76, 0x65, 0x72,
    0x79, 0x6F, 0x6E, 0x65, 0x20, 0x73, 0x61, 0x66, 0x65, 0x20, 0x43, 0x6F, 0x6E, 0x64, 0x75,
    0x63, 0x74, 0x6F, 0x72, 0x2C, 0x20, 0x79, 0x6F, 0x75, 0x2019, 0x6C, 0x6C, 0x20, 0x73, 0x65,
    0x65, 0x2E, 0x29, 0x3C, 0x2F, 0x73, 0x74, 0x79, 0x6C, 0x65, 0x3E,
];

/// Checkpoint: end of the dining closet chapter.
pub open spec fn end_amy_text() -> Seq<u16> {
    padded(END_AMY_UNITS@)
}

/// Checkpoint line as a full zero-padded sample.
pub fn end_amy() -> (s: [u16; SAMPLE_LEN])
    ensures
        s@ == end_amy_text(),
{
    pad_sample(&END_AMY_UNITS)
}

/// Code units of this line, up to its first terminating zero.
pub const END_KNUCKLES_UNITS: [u16; 8] = [
    0x4F, 0x6E, 0x77, 0x61, 0x72, 0x64, 0x73, 0x21,
];

/// Checkpoint: end of the saloon car chapter.
pub open spec fn end_knuckles_text() -> Seq<u16> {
    padded(END_KNUCKLES_UNITS@)
}

/// Checkpoint line as a full zero-padded sample.
pub fn end_knuckles() -> (s: [u16; SAMPLE_LEN])
    ensures
        s@ == end_knuckles_text(),
{
    pad_sample(&END_KNUCKLES_UNITS)
}

/// Code units of this line, up to its first terminating zero.
pub const END_ESPIO_VECTOR_UNITS: [u16; 34] = [
    0x4F, 0x6B, 0x61, 0x79, 0x21, 0x20, 0x54, 0x68, 0x65, 0x20, 0x69, 0x6E, 0x76, 0x65, 0x73,
    0x74, 0x69, 0x67, 0x61, 0x74, 0x69, 0x6F, 0x6E, 0x20, 0x63, 0x6F, 0x6E, 0x74, 0x69, 0x6E,
    0x75, 0x65, 0x73, 0x21,
];

/// Checkpoint: end of the library car chapter.
pub open spec fn end_espio_vector_text() -> Seq<u16> {
    padded(END_ESPIO_VECTOR_UNITS@)
}

/// Checkpoint line as a full zero-padded sample.
pub fn end_espio_vector() -> (s: [u16; SAMPLE_LEN])
    ensures
        s@ == end_espio_vector_text(),
{
    pad_sample(&END_ESPIO_VECTOR_UNITS)
}

/// Code units of this line, up to its first terminating zero.
pub const END_BLAZE_ROUGE_UNITS: [u16; 12] = [
    0x4C, 0x65, 0x74, 0x27, 0x73, 0x20, 0x64, 0x6F, 0x20, 0x69, 0x74, 0x21,
];

/// Checkpoint: end of the casino car chapter.
pub open spec fn end_blaze_rouge_text() -> Seq<u16> {
    padded(END_BLAZE_ROUGE_UNITS@)
}

/// Checkpoint line as a full zero-padded sample.
pub fn end_blaze_rouge() -> (s: [u16; SAMPLE_LEN])
    ensures
        s@ == end_blaze_rouge_text(),
{
    pad_sample(&END_BLAZE_ROUGE_UNITS)
}

/// Code units of this line, up to its first terminating zero.
pub const END_SHADOW_UNITS: [u16; 18] = [
    0x49, 0x74, 0x27, 0x73, 0x20, 0x6E, 0x6F, 0x77, 0x20, 0x6F, 0x72, 0x20, 0x6E, 0x65, 0x76,
    0x65, 0x72, 0x21,
];

/// Checkpoint: end of the lounge car chapter.
pub open spec fn end_shadow_text() -> Seq<u16> {
    padded(END_SHADOW_UNITS@)
}

/// Checkpoint line as a full zero-padded sample.
pub fn end_shadow() -> (s: [u16; SAMPLE_LEN])
    ensures
        s@ == end_shadow_text(),
{
    pad_sample(&END_SHADOW_UNITS)
}

/// Code units of this line, up to its first terminating zero.
pub const END_SONIC_UNITS: [u16; 17] = [
    0x41, 0x68, 0x68, 0x21, 0x20, 0x41, 0x48, 0x48, 0x48, 0x48, 0x48, 0x48, 0x48, 0x48, 0x48,
    0x21, 0x21,
];

/// Checkpoint: end of the conductor car chapter.
pub open spec fn end_sonic_text() -> Seq<u16> {
    padded(END_SONIC_UNITS@)
}

/// Checkpoint line as a full zero-padded sample.
pub fn end_sonic() -> (s: [u16; SAMPLE_LEN])
    ensures
        s@ == end_sonic_text(),
{
    pad_sample(&END_SONIC_UNITS)
}

/// Code units of this line, up to its first terminating zero.
pub const SONIC_CHASE_UNITS: [u16; 20] = [
    0x54, 0x69, 0x6D, 0x65, 0x20, 0x74, 0x6F, 0x20, 0x66, 0x69, 0x6E, 0x69, 0x73, 0x68, 0x20,
    0x74, 0x68, 0x69, 0x73, 0x21,
];

/// Checkpoint: end of the chase sequence.
pub open spec fn sonic_chase_text() -> Seq<u16> {
    padded(SONIC_CHASE_UNITS@)
}

/// Checkpoint line as a full zero-padded sample.
pub fn sonic_chase() -> (s: [u16; SAMPLE_LEN])
    ensures
        s@ == sonic_chase_text(),
{
    pad_sample(&SONIC_CHASE_UNITS)
}

/// Code units of this line, up to its first terminating zero.
pub const ENDING_UNITS: [u16; 31] = [
    0x59, 0x65, 0x61, 0x68, 0x2026, 0x20, 0x74, 0x68, 0x61, 0x74, 0x2019, 0x73, 0x20, 0x6A,
    0x75, 0x73, 0x74, 0x20, 0x62, 0x65, 0x65, 0x6E, 0x20, 0x6D, 0x79, 0x20, 0x6C, 0x69, 0x66,
    0x65, 0x21,
];

/// Checkpoint: final boss fight and ending.
pub open spec fn ending_text() -> Seq<u16> {
    padded(ENDING_UNITS@)
}

/// Checkpoint line as a full zero-padded sample.
pub fn ending() -> (s: [u16; SAMPLE_LEN])
    ensures
        s@ == ending_text(),
{
    pad_sample(&ENDING_UNITS)
}

/// None of the trigger or checkpoint lines is the all-zero sample, so a
/// failed memory read (which degrades to all zeroes) can never equal one.
pub proof fn lemma_no_constant_all_zero()
    ensures
        !crate::sample::all_zero(start_line()),
        !crate::sample::all_zero(reset_text()),
        !crate::sample::all_zero(station_end_text()),
        !crate::sample::all_zero(end_amy_text()),
        !crate::sample::all_zero(end_knuckles_text()),
        !crate::sample::all_zero(end_espio_vector_text()),
        !crate::sample::all_zero(end_blaze_rouge_text()),
        !crate::sample::all_zero(end_shadow_text()),
        !crate::sample::all_zero(end_sonic_text()),
        !crate::sample::all_zero(sonic_chase_text()),
        !crate::sample::all_zero(ending_text()),
{
    assert(start_line()[0] != 0);
    assert(reset_text()[0] != 0);
    assert(station_end_text()[0] != 0);
    assert(end_amy_text()[0] != 0);
    assert(end_knuckles_text()[0] != 0);
    assert(end_espio_vector_text()[0] != 0);
    assert(end_blaze_rouge_text()[0] != 0);
    assert(end_shadow_text()[0] != 0);
    assert(end_sonic_text()[0] != 0);
    assert(sonic_chase_text()[0] != 0);
    assert(ending_text()[0] != 0);
}

} // verus!
