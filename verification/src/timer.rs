//! One interval timer of the peripheral chip: a 16-bit countdown register, a
//! reload latch, and a seven-phase state machine that reproduces the
//! hardware's one-cycle-delayed start/stop/reload behaviour. Control-register
//! writes are staged in `new_ctrl` and folded into `state`/`ctrl` only at the
//! end of an update, never in the cycle they were issued.

use vstd::prelude::*;

verus! {

/// Phase of the timer state machine. The `Load*` phases model the one-cycle
/// delay between a reload request and the latch actually being copied; the
/// `Wait*` phase models the idle cycle between a start request and the first
/// countdown step.
#[derive(Clone, Copy, PartialEq, Eq, Structural, Debug)]
pub enum TimerState {
    Stop,
    WaitCount,
    LoadStop,
    LoadCount,
    LoadWaitCount,
    Count,
    CountStop,
}

/// One countdown timer. `is_ta` tells which chip-level interrupt source bit
/// the timer raises (bit 0 for timer A, bit 1 for timer B) and whether the
/// timer may cascade-count the other timer's underflows (only timer B may).
#[derive(Clone, Copy, PartialEq, Eq, Structural, Debug)]
#[verifier::ext_equal]
pub struct CIATimer {
    pub state: TimerState,
    pub is_ta: bool,
    /// Live countdown register.
    pub value: u16,
    /// Reload value written by software.
    pub latch: u16,
    /// Effective control byte (bit 0 run, bit 3 one-shot).
    pub ctrl: u8,
    /// Control byte written this cycle, not yet applied.
    pub new_ctrl: u8,
    pub has_new_ctrl: bool,
    /// The timer counts system-clock (phi2) cycles.
    pub is_cnt_phi2: bool,
    /// An underflow happened; the interrupt is delivered on the next cycle.
    pub irq_next_cycle: bool,
    /// The timer underflowed during the current update.
    pub underflow: bool,
    /// The timer counts underflows of timer A instead of phi2.
    pub cnt_ta_underflow: bool,
}

/// Chip-level interrupt source bit raised by this timer.
pub open spec fn spec_irq_bit(is_ta: bool) -> u8 {
    if is_ta {
        1u8
    } else {
        2u8
    }
}

/// Power-on state of a timer.
pub open spec fn spec_timer_power_on(is_ta: bool) -> CIATimer {
    CIATimer {
        state: TimerState::Stop,
        is_ta: is_ta,
        value: 0xFFFF,
        latch: 1,
        ctrl: 0,
        new_ctrl: 0,
        has_new_ctrl: false,
        is_cnt_phi2: false,
        irq_next_cycle: false,
        underflow: false,
        cnt_ta_underflow: false,
    }
}

/// Underflow action: reload from the latch, raise this timer's source bit in
/// the chip's pending byte, schedule the interrupt for the next cycle, and
/// either free-run (reload and keep counting) or, in one-shot mode, clear the
/// run bit in both the effective and the staged control byte and stop.
pub open spec fn spec_irq(t: CIATimer, icr: u8) -> (CIATimer, u8) {
    let icr2 = icr | spec_irq_bit(t.is_ta);
    if t.ctrl & 8 != 0 {
        (
            CIATimer {
                value: t.latch,
                irq_next_cycle: true,
                ctrl: t.ctrl & 0xFE,
                new_ctrl: t.new_ctrl & 0xFE,
                state: TimerState::LoadStop,
                ..t
            },
            icr2,
        )
    } else {
        (CIATimer { value: t.latch, irq_next_cycle: true, state: TimerState::LoadCount, ..t }, icr2)
    }
}

/// Countdown register after one decrement (wrapping below zero).
pub open spec fn spec_dec(v: u16) -> u16 {
    if v == 0 {
        0xFFFFu16
    } else {
        (v - 1) as u16
    }
}

/// Whether the timer's selected count input is active this cycle.
pub open spec fn spec_input_active(t: CIATimer, ta_underflow: bool) -> bool {
    t.is_cnt_phi2 || (t.cnt_ta_underflow && ta_underflow)
}

/// Countdown step: when the selected input is active, decrement; when the
/// register was zero before the decrement or reaches zero, the timer
/// underflows and (unless already stopping) fires its interrupt action.
pub open spec fn spec_count(t: CIATimer, icr: u8, ta_underflow: bool) -> (CIATimer, u8) {
    if spec_input_active(t, ta_underflow) {
        let curr = t.value;
        let t1 = CIATimer { value: spec_dec(curr), ..t };
        if curr == 0 || t1.value == 0 {
            let (t2, icr2) = if t1.state is Stop {
                (t1, icr)
            } else {
                spec_irq(t1, icr)
            };
            (CIATimer { underflow: true, ..t2 }, icr2)
        } else {
            (t1, icr)
        }
    } else {
        (t, icr)
    }
}

/// The documented mapping from (current state, staged control bits) to the
/// next state: bit 0 is run, bit 3 one-shot, bit 4 force-load. It realises
/// the one-cycle latency of control-register writes; for example writing the
/// run bit while stopped moves to `WaitCount`, so counting starts only two
/// updates later. Returns the next state and the staged byte, whose run bit
/// is consumed in one transition.
pub open spec fn spec_apply_ctrl(state: TimerState, nc: u8) -> (TimerState, u8) {
    match state {
        TimerState::Stop | TimerState::LoadStop => {
            if nc & 1 != 0 {
                if nc & 0x10 != 0 {
                    (TimerState::LoadWaitCount, nc)
                } else {
                    (TimerState::WaitCount, nc)
                }
            } else {
                if nc & 0x10 != 0 {
                    (TimerState::LoadStop, nc)
                } else {
                    (state, nc)
                }
            }
        },
        TimerState::WaitCount | TimerState::LoadCount => {
            if nc & 1 != 0 {
                if nc & 8 != 0 {
                    (TimerState::Stop, nc & 0xFE)
                } else {
                    if nc & 0x10 != 0 {
                        (TimerState::LoadWaitCount, nc)
                    } else {
                        (state, nc)
                    }
                }
            } else {
                (TimerState::Stop, nc)
            }
        },
        TimerState::Count => {
            if nc & 1 != 0 {
                if nc & 0x10 != 0 {
                    (TimerState::LoadWaitCount, nc)
                } else {
                    (TimerState::Count, nc)
                }
            } else {
                if nc & 0x10 != 0 {
                    (TimerState::LoadStop, nc)
                } else {
                    (TimerState::CountStop, nc)
                }
            }
        },
        _ => (state, nc),
    }
}

/// End-of-update step: fold a staged control write into the state machine and
/// make the staged byte (force-load bit stripped) the effective control byte.
pub open spec fn spec_idle(t: CIATimer) -> CIATimer {
    if t.has_new_ctrl {
        let (s2, nc2) = spec_apply_ctrl(t.state, t.new_ctrl);
        CIATimer { state: s2, new_ctrl: nc2, ctrl: nc2 & 0xEF, has_new_ctrl: false, ..t }
    } else {
        t
    }
}

/// State-machine action of one update, before the staged control write is
/// folded in.
pub open spec fn spec_tick(t: CIATimer, icr: u8, ta_underflow: bool) -> (CIATimer, u8) {
    match t.state {
        TimerState::Stop => (t, icr),
        TimerState::WaitCount => (CIATimer { state: TimerState::Count, ..t }, icr),
        TimerState::LoadStop => (CIATimer { state: TimerState::Stop, value: t.latch, ..t }, icr),
        TimerState::LoadCount => (CIATimer { state: TimerState::Count, value: t.latch, ..t }, icr),
        TimerState::LoadWaitCount => {
            let t1 = CIATimer { state: TimerState::WaitCount, ..t };
            if t.value == 1 {
                spec_irq(t1, icr)
            } else {
                (CIATimer { value: t.latch, ..t1 }, icr)
            }
        },
        TimerState::Count => spec_count(t, icr, ta_underflow),
        TimerState::CountStop => spec_count(
            CIATimer { state: TimerState::Stop, ..t },
            icr,
            ta_underflow,
        ),
    }
}

/// One full update of the timer: clear the per-cycle underflow flag, run the
/// state-machine action, then fold in any staged control write.
pub open spec fn spec_timer_update(t: CIATimer, icr: u8, ta_underflow: bool) -> (CIATimer, u8) {
    let t0 = CIATimer { underflow: false, ..t };
    let r = spec_tick(t0, icr, ta_underflow);
    (spec_idle(r.0), r.1)
}

impl CIATimer {
    pub fn new(is_ta: bool) -> (t: CIATimer)
        ensures
            t == spec_timer_power_on(is_ta),
    {
        CIATimer {
            state: TimerState::Stop,
            is_ta: is_ta,
            value: 0xFFFF,
            latch: 1,
            ctrl: 0,
            new_ctrl: 0,
            has_new_ctrl: false,
            is_cnt_phi2: false,
            irq_next_cycle: false,
            underflow: false,
            cnt_ta_underflow: false,
        }
    }

    pub fn reset(&mut self)
        ensures
            *final(self) == spec_timer_power_on(old(self).is_ta),
    {
        self.state = TimerState::Stop;
        self.value = 0xFFFF;
        self.latch = 1;
        self.ctrl = 0;
        self.new_ctrl = 0;
        self.has_new_ctrl = false;
        self.is_cnt_phi2 = false;
        self.irq_next_cycle = false;
        self.underflow = false;
        self.cnt_ta_underflow = false;
    }

    /// Underflow action (see `spec_irq`). `cia_icr` is the chip's pending
    /// interrupt byte.
    pub fn irq(&mut self, cia_icr: &mut u8)
        ensures
            (*final(self), *final(cia_icr)) == spec_irq(*old(self), *old(cia_icr)),
    {
        self.value = self.latch;
        self.irq_next_cycle = true;
        *cia_icr = *cia_icr | (if self.is_ta {
            1u8
        } else {
            2u8
        });
        if self.ctrl & 8 != 0 {
            self.ctrl = self.ctrl & 0xFE;
            self.new_ctrl = self.new_ctrl & 0xFE;
            self.state = TimerState::LoadStop;
        } else {
            self.state = TimerState::LoadCount;
        }
    }

    /// Countdown step (see `spec_count`). `ta_underflow` is timer A's
    /// underflow flag from the same chip update; it is the count input in
    /// cascade mode.
    pub fn count(&mut self, cia_icr: &mut u8, ta_underflow: bool)
        ensures
            (*final(self), *final(cia_icr)) == spec_count(
                *old(self),
                *old(cia_icr),
                ta_underflow,
            ),
    {
        if self.is_cnt_phi2 || (self.cnt_ta_underflow && ta_underflow) {
            let curr_val = self.value;
            self.value = if curr_val == 0 {
                0xFFFFu16
            } else {
                curr_val - 1
            };
            if curr_val == 0 || self.value == 0 {
                match self.state {
                    TimerState::Stop => (),
                    _ => self.irq(cia_icr),
                }
                self.underflow = true;
            }
        }
    }

    /// End-of-update step (see `spec_idle`): apply a staged control write.
    pub fn idle(&mut self)
        ensures
            *final(self) == spec_idle(*old(self)),
    {
        if self.has_new_ctrl {
            match self.state {
                TimerState::Stop | TimerState::LoadStop => {
                    if self.new_ctrl & 1 != 0 {
                        if self.new_ctrl & 0x10 != 0 {
                            self.state = TimerState::LoadWaitCount;
                        } else {
                            self.state = TimerState::WaitCount;
                        }
                    } else {
                        if self.new_ctrl & 0x10 != 0 {
                            self.state = TimerState::LoadStop;
                        }
                    }
                },
                TimerState::WaitCount | TimerState::LoadCount => {
                    if self.new_ctrl & 1 != 0 {
                        if self.new_ctrl & 8 != 0 {
                            self.new_ctrl = self.new_ctrl & 0xFE;
                            self.state = TimerState::Stop;
                        } else {
                            if self.new_ctrl & 0x10 != 0 {
                                self.state = TimerState::LoadWaitCount;
                            }
                        }
                    } else {
                        self.state = TimerState::Stop;
                    }
                },
                TimerState::Count => {
                    if self.new_ctrl & 1 != 0 {
                        if self.new_ctrl & 0x10 != 0 {
                            self.state = TimerState::LoadWaitCount;
                        }
                    } else {
                        if self.new_ctrl & 0x10 != 0 {
                            self.state = TimerState::LoadStop;
                        } else {
                            self.state = TimerState::CountStop;
                        }
                    }
                },
                _ => (),
            }
            self.ctrl = self.new_ctrl & 0xEF;
            self.has_new_ctrl = false;
        }
    }

    /// One chip cycle for this timer: run the state-machine action of the
    /// current state, then fold in any control byte staged by a register
    /// write, so that the write is observable only from the next update on.
    pub fn update(&mut self, cia_icr: &mut u8, ta_underflow: bool)
        ensures
            (*final(self), *final(cia_icr)) == spec_timer_update(
                *old(self),
                *old(cia_icr),
                ta_underflow,
            ),
    {
        self.underflow = false;
        match self.state {
            TimerState::Stop => (),
            TimerState::WaitCount => {
                self.state = TimerState::Count;
            },
            TimerState::LoadStop => {
                self.state = TimerState::Stop;
                self.value = self.latch;
            },
            TimerState::LoadCount => {
                self.state = TimerState::Count;
                self.value = self.latch;
            },
            TimerState::LoadWaitCount => {
                self.state = TimerState::WaitCount;
                if self.value == 1 {
                    self.irq(cia_icr);
                } else {
                    self.value = self.latch;
                }
            },
            TimerState::Count => {
                self.count(cia_icr, ta_underflow);
            },
            TimerState::CountStop => {
                self.state = TimerState::Stop;
                self.count(cia_icr, ta_underflow);
            },
        }
        self.idle();
    }
}

/// A timer as it stands right after a control-register write: the byte is
/// staged, nothing else of the timer has been touched yet.
pub open spec fn spec_stage_ctrl(t: CIATimer, v: u8) -> CIATimer {
    CIATimer { has_new_ctrl: true, new_ctrl: v, ..t }
}

/// One-cycle latency of control-register writes: a control byte staged before
/// an update changes nothing that update can observe — the countdown value,
/// the underflow flag, the scheduled interrupt and the chip's pending byte
/// come out exactly as they would have without the write, whatever the state
/// and whatever bits the byte holds. The staged byte only steers the state
/// the timer is left in for the next update.
pub proof fn lemma_control_write_one_cycle_latency(t: CIATimer, v: u8, icr: u8, ta_underflow: bool)
    ensures
        spec_stage_ctrl(t, v).state == t.state,
        spec_stage_ctrl(t, v).ctrl == t.ctrl,
        spec_stage_ctrl(t, v).value == t.value,
        ({
            let with_write = spec_timer_update(spec_stage_ctrl(t, v), icr, ta_underflow);
            let without = spec_timer_update(t, icr, ta_underflow);
            &&& with_write.0.value == without.0.value
            &&& with_write.0.underflow == without.0.underflow
            &&& with_write.0.irq_next_cycle == without.0.irq_next_cycle
            &&& with_write.1 == without.1
        }),
{
}

/// Cascade mode only counts cycles in which timer A underflowed: with the
/// phi2 input deselected and the cascade input selected, an update without a
/// timer A underflow leaves the countdown register, the underflow flag and
/// the chip's pending byte untouched; an update with one decrements the
/// register (shown here away from the underflow values 0 and 1).
pub proof fn lemma_cascade_gates_countdown(t: CIATimer, icr: u8)
    requires
        t.state is Count,
        !t.is_cnt_phi2,
        t.cnt_ta_underflow,
    ensures
        spec_timer_update(t, icr, false).0.value == t.value,
        !spec_timer_update(t, icr, false).0.underflow,
        spec_timer_update(t, icr, false).1 == icr,
        t.value != 0 && t.value != 1 ==> spec_timer_update(t, icr, true).0.value == t.value - 1,
{
}

} // verus!
