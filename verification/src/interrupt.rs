//! Chip-level interrupt control: a mask of enabled sources and a latch of
//! pending, unacknowledged sources. Bit 7 of `pending` is the summary bit:
//! it records that an enabled source was pending at the moment a source bit
//! was raised, and it gates whether the chip asserts its interrupt line.

use vstd::prelude::*;

verus! {

#[derive(Clone, Copy, PartialEq, Eq, Structural, Debug)]
#[verifier::ext_equal]
pub struct InterruptController {
    /// Enabled interrupt sources (bit 7 is not a mask bit).
    pub mask: u8,
    /// Latched, unacknowledged source bits; bit 7 is the summary bit.
    pub pending: u8,
}

/// State and line-assert decision after ORing `source` into the pending latch.
pub open spec fn spec_raise(ic: InterruptController, source: u8) -> (InterruptController, bool) {
    let hit = ic.mask & source != 0;
    let p = if hit {
        ic.pending | source | 0x80
    } else {
        ic.pending | source
    };
    (InterruptController { mask: ic.mask, pending: p }, hit)
}

/// State and line-assert decision after a write to the mask register:
/// bit 7 of `value` selects whether the low seven bits enable or disable
/// sources; afterwards the summary bit is re-derived from what is pending
/// and now enabled.
pub open spec fn spec_write_mask(ic: InterruptController, value: u8) -> (InterruptController, bool) {
    let m = if value & 0x80 != 0 {
        ic.mask | (value & 0x7F)
    } else {
        ic.mask & !value
    };
    let fire = ic.pending & m & 0x1F != 0;
    let p = if fire {
        ic.pending | 0x80
    } else {
        ic.pending
    };
    (InterruptController { mask: m, pending: p }, fire)
}

/// The summary bit covers every enabled pending source: whenever an enabled
/// source bit is latched, bit 7 is set. (The converse does not hold: the
/// summary bit stays latched when a mask write later disables the source,
/// until the pending latch is read and cleared.)
pub open spec fn summary_bit_ok(ic: InterruptController) -> bool {
    ic.pending & ic.mask & 0x1F != 0 ==> ic.pending & 0x80 != 0
}

impl InterruptController {
    pub fn new() -> (ic: InterruptController)
        ensures
            ic.mask == 0,
            ic.pending == 0,
    {
        InterruptController { mask: 0, pending: 0 }
    }

    pub fn reset(&mut self)
        ensures
            final(self).mask == 0,
            final(self).pending == 0,
    {
        self.mask = 0;
        self.pending = 0;
    }

    /// OR `source` into the pending latch; when the source is enabled, also
    /// set the summary bit and report that the chip's interrupt line must be
    /// asserted.
    pub fn raise(&mut self, source: u8) -> (fired: bool)
        ensures
            (*final(self), fired) == spec_raise(*old(self), source),
    {
        self.pending = self.pending | source;
        if self.mask & source != 0 {
            self.pending = self.pending | 0x80;
            true
        } else {
            false
        }
    }

    /// Apply a write to the mask register and report whether the chip's
    /// interrupt line must now be asserted.
    pub fn write_mask(&mut self, value: u8) -> (fired: bool)
        ensures
            (*final(self), fired) == spec_write_mask(*old(self), value),
    {
        if value & 0x80 != 0 {
            self.mask = self.mask | (value & 0x7F);
        } else {
            self.mask = self.mask & !value;
        }
        if self.pending & self.mask & 0x1F != 0 {
            self.pending = self.pending | 0x80;
            true
        } else {
            false
        }
    }

    /// Return the pending latch (summary bit included) and clear it: the
    /// register is read-to-acknowledge. The caller must also clear the
    /// chip's interrupt line.
    pub fn read_and_clear(&mut self) -> (r: u8)
        ensures
            r == old(self).pending,
            final(self).pending == 0,
            final(self).mask == old(self).mask,
    {
        let curr = self.pending;
        self.pending = 0;
        curr
    }
}

/// Raising a source preserves the summary-bit property, and whenever the
/// raise reports that the line must be asserted, the summary bit is set.
pub proof fn lemma_summary_bit_raise(ic: InterruptController, source: u8)
    requires
        summary_bit_ok(ic),
    ensures
        summary_bit_ok(spec_raise(ic, source).0),
        spec_raise(ic, source).1 ==> spec_raise(ic, source).0.pending & 0x80 != 0,
{
    let p = ic.pending;
    let m = ic.mask;
    if m & source != 0 {
        assert((p | source | 0x80) & 0x80 != 0) by (bit_vector);
    } else {
        assert((p | source) & m & 0x1F != 0 ==> (p | source) & 0x80 != 0) by (bit_vector)
            requires
                m & source == 0,
                p & m & 0x1F != 0 ==> p & 0x80 != 0,
        ;
    }
}

/// After a mask write the summary bit covers every enabled pending source,
/// whatever held before: the write re-derives the summary bit itself.
pub proof fn lemma_summary_bit_write_mask(ic: InterruptController, value: u8)
    ensures
        summary_bit_ok(spec_write_mask(ic, value).0),
        spec_write_mask(ic, value).1 ==> spec_write_mask(ic, value).0.pending & 0x80 != 0,
{
    let p = ic.pending;
    let m = spec_write_mask(ic, value).0.mask;
    if p & m & 0x1F != 0 {
        assert((p | 0x80) & 0x80 != 0) by (bit_vector);
    }
}

/// Reading the pending latch clears it, so the summary-bit property holds of
/// the cleared state outright.
pub proof fn lemma_summary_bit_read_and_clear(ic: InterruptController)
    ensures
        summary_bit_ok(InterruptController { pending: 0, ..ic }),
{
    let m = ic.mask;
    assert(0u8 & m & 0x1F == 0) by (bit_vector);
}

} // verus!
