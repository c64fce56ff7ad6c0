//! The pointer resolver: arithmetic that turns a signature hit into the
//! session's dialogue base address, and the fixed offset steps of the
//! per-tick pointer chase. All remote reads stay with the host; these
//! functions compute the addresses the host must read, with every step
//! checked against address-space wraparound.
use vstd::prelude::*;

verus! {

/// The signature bytes that locate the dialogue pointer load instruction.
pub const SIG_BYTES: [u8; 10] = [0x48, 0x8B, 0x05, 0x00, 0x00, 0x00, 0x00, 0x8B, 0x40, 0x60];

/// Wildcard mask for the signature: the four displacement bytes match
/// anything.
pub const SIG_MASK: [bool; 10] = [
    true, true, true, false, false, false, false, true, true, true,
];

/// Byte offset from the signature hit to the 32-bit displacement field.
pub const SIG_DISPLACEMENT_OFFSET: u64 = 3;

/// Width of the displacement field; relative loads are resolved against the
/// address just past it.
pub const DISPLACEMENT_WIDTH: u64 = 4;

/// Offsets of the four-level pointer chase, applied in order to each pointer
/// read on the way to the dialogue buffer.
pub const CHASE_OFFSETS: [u64; 4] = [0xB0, 0xD70, 0x80, 0x14];

/// The signature as vectors, for the scanner.
pub fn dialogue_signature() -> (r: (Vec<u8>, Vec<bool>))
    ensures
        r.0@ == SIG_BYTES@,
        r.1@ == SIG_MASK@,
{
    let mut bytes: Vec<u8> = Vec::new();
    let mut mask: Vec<bool> = Vec::new();
    let mut i: usize = 0;
    while i < 10
        invariant
            i <= 10,
            bytes@.len() == i,
            mask@.len() == i,
            forall|j: int| 0 <= j < i ==> bytes@[j] == SIG_BYTES@[j],
            forall|j: int| 0 <= j < i ==> mask@[j] == SIG_MASK@[j],
        decreases 10 - i,
    {
        bytes.push(SIG_BYTES[i]);
        mask.push(SIG_MASK[i]);
        i = i + 1;
    }
    proof {
        assert(bytes@ =~= SIG_BYTES@);
        assert(mask@ =~= SIG_MASK@);
    }
    (bytes, mask)
}

/// Address of the 32-bit displacement field of the matched instruction:
/// module base plus hit index plus the fixed field offset, or `None` when
/// that sum leaves the address space.
pub fn displacement_slot(module_base: u64, hit_index: u64) -> (r: Option<u64>)
    ensures
        module_base + hit_index + SIG_DISPLACEMENT_OFFSET <= u64::MAX ==> r == Some(
            (module_base + hit_index + SIG_DISPLACEMENT_OFFSET) as u64,
        ),
        module_base + hit_index + SIG_DISPLACEMENT_OFFSET > u64::MAX ==> r is None,
{
    let with_hit: u64 = match module_base.checked_add(hit_index) {
        Some(v) => v,
        None => {
            return None;
        },
    };
    with_hit.checked_add(SIG_DISPLACEMENT_OFFSET)
}

/// Resolves the relative load: the displacement field's address plus the
/// field width plus the signed displacement read there. `None` when the sum
/// leaves the address space.
pub fn resolve_base(slot: u64, displacement: i32) -> (r: Option<u64>)
    ensures
        ({
            let target = slot + DISPLACEMENT_WIDTH + displacement;
            &&& (0 <= target <= u64::MAX ==> r == Some(target as u64))
            &&& (!(0 <= target <= u64::MAX) ==> r is None)
        }),
{
    let wide: i128 = slot as i128 + DISPLACEMENT_WIDTH as i128 + displacement as i128;
    if 0 <= wide && wide <= u64::MAX as i128 {
        Some(wide as u64)
    } else {
        None
    }
}

/// One step of the pointer chase: the pointer just read plus the step's
/// fixed offset, or `None` when the sum leaves the address space.
pub fn chase_step(pointer: u64, offset: u64) -> (r: Option<u64>)
    ensures
        pointer + offset <= u64::MAX ==> r == Some((pointer + offset) as u64),
        pointer + offset > u64::MAX ==> r is None,
{
    pointer.checked_add(offset)
}

} // verus!
