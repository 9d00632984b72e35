//! Per-cycle sequencing decisions of the emulation loop: the pacer gate, the
//! boot-stage detection from the CPU's program counter, and which services
//! (frame input and time-of-day, reset) this cycle must run. The loop itself
//! — window, keyboard, the CPU step — lives outside the core and merely
//! executes the plan.

use vstd::prelude::*;

use crate::pacer::ClockPacer;
use crate::pacer::spec_cycles_due;

verus! {

/// Boot-stage flags derived from the CPU's program counter: the power-on
/// reset routine (0xFCE2) marks the machine powered on, the warm-start
/// sequence (0xA480) marks the boot complete. Once set, a flag stays set.
#[derive(Clone, Copy, PartialEq, Eq, Structural, Debug)]
pub struct BootState {
    pub powered_on: bool,
    pub boot_complete: bool,
}

/// What the loop must do this iteration.
#[derive(Clone, Copy, PartialEq, Eq, Structural, Debug)]
pub struct CyclePlan {
    /// Run one emulated cycle: chip update, interrupt delivery, CPU step.
    pub run_cycle: bool,
    /// A frame boundary fell in this cycle: service input and tick the
    /// time-of-day clock.
    pub service_frame: bool,
    /// The reset key was seen during a running cycle: reset the machine.
    pub do_reset: bool,
}

impl BootState {
    pub fn new() -> (b: BootState)
        ensures
            !b.powered_on,
            !b.boot_complete,
    {
        BootState { powered_on: false, boot_complete: false }
    }

    /// Fold one program-counter observation into the boot flags.
    pub fn observe_pc(&mut self, pc: u16)
        ensures
            final(self).powered_on == (old(self).powered_on || pc == 0xFCE2),
            final(self).boot_complete == (old(self).boot_complete || pc == 0xA480),
    {
        if !self.powered_on {
            self.powered_on = pc == 0xFCE2;
        }
        if !self.boot_complete {
            self.boot_complete = pc == 0xA480;
        }
    }
}

/// Sequencer state for the emulation loop.
#[derive(Clone, Copy, PartialEq, Eq, Structural, Debug)]
pub struct Orchestrator {
    pub pacer: ClockPacer,
    pub boot: BootState,
    /// Cycles executed since power-on.
    pub cycle_count: u32,
}

impl Orchestrator {
    pub fn new(freq_hz: u32) -> (o: Orchestrator)
        ensures
            o.pacer.freq_hz == freq_hz,
            o.pacer.cycles_run == 0,
            !o.boot.powered_on,
            !o.boot.boot_complete,
            o.cycle_count == 0,
    {
        Orchestrator { pacer: ClockPacer::new(freq_hz), boot: BootState::new(), cycle_count: 0 }
    }

    /// Decide one loop iteration: observe the program counter for boot-stage
    /// detection, gate the cycle on the pacer, and within a running cycle
    /// plan the frame service and the reset-key check. The cycle counter
    /// advances only for a running cycle.
    pub fn plan_cycle(&mut self, elapsed_nanos: u64, pc: u16, frame_boundary: bool, reset_key: bool) -> (plan:
        CyclePlan)
        requires
            old(self).pacer.cycles_run < 0xFFFF_FFFF_FFFF_FFFF,
            old(self).cycle_count < 0xFFFF_FFFF,
        ensures
            plan.run_cycle == (old(self).pacer.cycles_run < spec_cycles_due(
                elapsed_nanos,
                old(self).pacer.freq_hz,
            )),
            plan.service_frame == (plan.run_cycle && frame_boundary),
            plan.do_reset == (plan.run_cycle && reset_key),
            final(self).pacer.freq_hz == old(self).pacer.freq_hz,
            final(self).pacer.cycles_run == old(self).pacer.cycles_run + if plan.run_cycle {
                1int
            } else {
                0int
            },
            final(self).cycle_count == old(self).cycle_count + if plan.run_cycle {
                1int
            } else {
                0int
            },
            final(self).boot.powered_on == (old(self).boot.powered_on || pc == 0xFCE2),
            final(self).boot.boot_complete == (old(self).boot.boot_complete || pc == 0xA480),
    {
        self.boot.observe_pc(pc);
        let run_cycle = self.pacer.tick(elapsed_nanos);
        if run_cycle {
            self.cycle_count = self.cycle_count + 1;
        }
        CyclePlan {
            run_cycle,
            service_frame: run_cycle && frame_boundary,
            do_reset: run_cycle && reset_key,
        }
    }
}

} // verus!
