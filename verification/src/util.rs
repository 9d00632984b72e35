//! Helpers around the emulation core: pixel-buffer fills, the fixed colour
//! palette, and the jump-tracking queue the instruction debugger uses.

use vstd::prelude::*;

verus! {

/// The palette entry for a 4-bit colour index, as 0RGB.
pub open spec fn spec_color_rgba(idx: u8) -> u32 {
    let k = idx & 0x0F;
    if k == 0x00 {
        0x00000000u32
    } else if k == 0x01 {
        0x00FFFFFFu32
    } else if k == 0x02 {
        0x00894036u32
    } else if k == 0x03 {
        0x007ABFC7u32
    } else if k == 0x04 {
        0x008A46AEu32
    } else if k == 0x05 {
        0x0068A941u32
    } else if k == 0x06 {
        0x003E31A2u32
    } else if k == 0x07 {
        0x00D0DC71u32
    } else if k == 0x08 {
        0x00905F25u32
    } else if k == 0x09 {
        0x005C4700u32
    } else if k == 0x0A {
        0x00BB776Du32
    } else if k == 0x0B {
        0x00555555u32
    } else if k == 0x0C {
        0x00808080u32
    } else if k == 0x0D {
        0x00ACEA88u32
    } else if k == 0x0E {
        0x007C70DAu32
    } else {
        0x00ABABABu32
    }
}

/// Set 8 consecutive buffer elements to a single value, for fast update of an
/// 8-pixel screen chunk; every other element is untouched.
pub fn memset8(buffer: &mut Vec<u32>, start: usize, value: u32)
    requires
        start + 8 <= old(buffer).len(),
    ensures
        final(buffer).len() == old(buffer).len(),
        forall|i: int|
            start <= i < start + 8 ==> final(buffer)@[i] == value,
        forall|i: int|
            0 <= i < old(buffer).len() && !(start <= i < start + 8) ==> final(buffer)@[i] == old(
                buffer,
            )@[i],
{
    buffer[start] = value;
    buffer[start + 1] = value;
    buffer[start + 2] = value;
    buffer[start + 3] = value;
    buffer[start + 4] = value;
    buffer[start + 5] = value;
    buffer[start + 6] = value;
    buffer[start + 7] = value;
}

/// Palette lookup (RGB values as the emulator displays them); only the low
/// four bits of the index select the colour.
pub fn fetch_c64_color_rgba(idx: u8) -> (c: u32)
    ensures
        c == spec_color_rgba(idx),
{
    let k = idx & 0x0F;
    if k == 0x00 {
        0x00000000
    } else if k == 0x01 {
        0x00FFFFFF
    } else if k == 0x02 {
        0x00894036
    } else if k == 0x03 {
        0x007ABFC7
    } else if k == 0x04 {
        0x008A46AE
    } else if k == 0x05 {
        0x0068A941
    } else if k == 0x06 {
        0x003E31A2
    } else if k == 0x07 {
        0x00D0DC71
    } else if k == 0x08 {
        0x00905F25
    } else if k == 0x09 {
        0x005C4700
    } else if k == 0x0A {
        0x00BB776D
    } else if k == 0x0B {
        0x00555555
    } else if k == 0x0C {
        0x00808080
    } else if k == 0x0D {
        0x00ACEA88
    } else if k == 0x0E {
        0x007C70DA
    } else {
        0x00ABABAB
    }
}

/// Jump-tracking queue used when logging instructions: subroutine calls are
/// pushed so that logging can be suppressed until the matching return.
pub struct OpDebugger {
    pub jump_queue: Vec<u8>,
}

impl OpDebugger {
    pub fn new() -> (d: OpDebugger)
        ensures
            d.jump_queue@.len() == 0,
    {
        OpDebugger { jump_queue: Vec::new() }
    }
}

} // verus!
