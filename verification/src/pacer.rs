//! Clock pacer: converts wall time elapsed since the emulation started into
//! the number of emulated cycles that should have run by now, decoupling the
//! emulation rate from the host frame rate. The caller supplies the elapsed
//! time; only the arithmetic lives here.

use vstd::prelude::*;

verus! {

/// Cycles owed after `elapsed_nanos` nanoseconds at `freq_hz` cycles per
/// second.
pub open spec fn spec_cycles_due(elapsed_nanos: u64, freq_hz: u32) -> int {
    elapsed_nanos * freq_hz / 1_000_000_000
}

#[derive(Clone, Copy, PartialEq, Eq, Structural, Debug)]
pub struct ClockPacer {
    /// Target emulated frequency in cycles per second.
    pub freq_hz: u32,
    /// Cycles issued so far.
    pub cycles_run: u64,
}

impl ClockPacer {
    pub fn new(freq_hz: u32) -> (p: ClockPacer)
        ensures
            p.freq_hz == freq_hz,
            p.cycles_run == 0,
    {
        ClockPacer { freq_hz: freq_hz, cycles_run: 0 }
    }

    /// Gate for one emulated cycle: run it exactly when fewer cycles have
    /// been issued than wall time owes; an issued cycle is counted.
    pub fn tick(&mut self, elapsed_nanos: u64) -> (run: bool)
        requires
            old(self).cycles_run < 0xFFFF_FFFF_FFFF_FFFF,
        ensures
            run == (old(self).cycles_run < spec_cycles_due(elapsed_nanos, old(self).freq_hz)),
            final(self).freq_hz == old(self).freq_hz,
            final(self).cycles_run == old(self).cycles_run + if run {
                1int
            } else {
                0int
            },
    {
        proof {
            assert((elapsed_nanos as int) * (self.freq_hz as int)
                < 0x1_0000_0000_0000_0000_0000_0000) by (nonlinear_arith)
                requires
                    elapsed_nanos <= 0xFFFF_FFFF_FFFF_FFFF,
                    self.freq_hz <= 0xFFFF_FFFF,
            ;
        }
        let due = (elapsed_nanos as u128) * (self.freq_hz as u128) / 1_000_000_000;
        if (self.cycles_run as u128) < due {
            self.cycles_run = self.cycles_run + 1;
            true
        } else {
            false
        }
    }
}

} // verus!
