//! The peripheral chip itself: two interval timers, the interrupt controller,
//! the time-of-day clock and the port/register state, composed by value. Two
//! instances exist in a machine; `is_cia1` selects the instance-specific
//! register semantics and which CPU line (interrupt request for instance 1,
//! non-maskable interrupt for instance 2) the chip asserts.
//!
//! Cross-chip effects are returned as values of the types below; the caller
//! owning the CPU, the bus and the video chip performs them.

use vstd::prelude::*;

use crate::interrupt::InterruptController;
use crate::interrupt::spec_raise;
use crate::matrix::MatrixRows;
use crate::matrix::spec_matrix_released;
use crate::timer::CIATimer;
use crate::timer::spec_timer_power_on;
use crate::timer::spec_timer_update;
use crate::tod::TimeOfDayClock;
use crate::tod::spec_tod_power_on;
use crate::tod::spec_tod_tick;
use crate::tod::spec_tod_wf;

verus! {

/// What the chip asks the CPU collaborator to do with its interrupt lines.
#[derive(Clone, Copy, PartialEq, Eq, Structural, Debug)]
pub enum CpuCallback {
    Nothing,
    /// Acknowledge (clear) the chip's interrupt-request line.
    ClearInterruptRequest,
    /// Assert the chip's interrupt-request line.
    TriggerInterruptRequest,
    /// Acknowledge (clear) the non-maskable-interrupt line.
    ClearNonMaskable,
    /// Assert the non-maskable-interrupt line.
    TriggerNonMaskable,
}

/// What the chip asks the video-chip collaborator to do.
#[derive(Clone, Copy, PartialEq, Eq, Structural, Debug)]
pub enum VideoSignal {
    Nothing,
    /// The observed light-pen port bit changed value.
    TriggerLightPen,
    /// Port bits selecting the video chip's 16 KB memory bank changed; the
    /// payload is the new 2-bit bank value.
    BankSelect(u8),
}

/// Effects of one register write: the byte to mirror into the bus's I/O bank
/// (at the folded address), a CPU-line request, and a video-chip request.
#[derive(Clone, Copy, PartialEq, Eq, Debug)]
pub struct WriteEffects {
    pub shadow: Option<(u16, u8)>,
    pub cpu: CpuCallback,
    pub video: VideoSignal,
}

#[derive(Clone, Copy, PartialEq, Eq, Structural, Debug)]
#[verifier::ext_equal]
pub struct CIA {
    /// Instance flag: true for chip 1 (keyboard/joystick ports, interrupt
    /// request line), false for chip 2 (serial-bus port, non-maskable line).
    pub is_cia1: bool,
    pub timer_a: CIATimer,
    pub timer_b: CIATimer,
    pub irq_ctl: InterruptController,
    /// Port output latches and data-direction registers.
    pub pra: u8,
    pub prb: u8,
    pub ddra: u8,
    pub ddrb: u8,
    /// Serial data register.
    pub sdr: u8,
    pub tod: TimeOfDayClock,
    /// Chip-1 only: keyboard scan tables and joystick masks.
    pub key_matrix: MatrixRows,
    pub rev_matrix: MatrixRows,
    pub joystick_1: u8,
    pub joystick_2: u8,
    /// Chip-1 only: last observed light-pen port bit.
    pub prev_lp: u8,
    /// Chip-2 only: externally driven serial-bus line bits.
    pub iec_lines: u8,
}

/// The CPU line this chip instance asserts when an enabled interrupt fires.
pub open spec fn spec_assert_line(is_cia1: bool) -> CpuCallback {
    if is_cia1 {
        CpuCallback::TriggerInterruptRequest
    } else {
        CpuCallback::TriggerNonMaskable
    }
}

/// The CPU line this chip instance acknowledges when its pending register is
/// read.
pub open spec fn spec_clear_line(is_cia1: bool) -> CpuCallback {
    if is_cia1 {
        CpuCallback::ClearInterruptRequest
    } else {
        CpuCallback::ClearNonMaskable
    }
}

/// Power-on state of a chip instance.
pub open spec fn spec_cia_power_on(is_cia1: bool) -> CIA {
    CIA {
        is_cia1: is_cia1,
        timer_a: spec_timer_power_on(true),
        timer_b: spec_timer_power_on(false),
        irq_ctl: InterruptController { mask: 0, pending: 0 },
        pra: 0,
        prb: 0,
        ddra: 0,
        ddrb: 0,
        sdr: 0,
        tod: spec_tod_power_on(),
        key_matrix: spec_matrix_released(),
        rev_matrix: spec_matrix_released(),
        joystick_1: 0xFF,
        joystick_2: 0xFF,
        prev_lp: 0x10,
        iec_lines: 0xD0,
    }
}

/// Field bounds the register write paths maintain.
pub open spec fn spec_cia_wf(c: CIA) -> bool {
    spec_tod_wf(c.tod)
}

/// One chip cycle: timer A steps first (it can never cascade, so its input
/// flag is forced inactive), then timer B steps with timer A's underflow from
/// this same cycle as its cascade input. Both feed the shared pending byte.
pub open spec fn spec_cia_update(c: CIA) -> CIA {
    let (ta, icr1) = spec_timer_update(c.timer_a, c.irq_ctl.pending, false);
    let (tb, icr2) = spec_timer_update(c.timer_b, icr1, ta.underflow);
    CIA {
        timer_a: ta,
        timer_b: tb,
        irq_ctl: InterruptController { mask: c.irq_ctl.mask, pending: icr2 },
        ..c
    }
}

/// Interrupt delivery: each timer that scheduled an interrupt last cycle is
/// raised through the controller (timer A as source bit 0, timer B as bit 1);
/// the chip's line is asserted when either raise reports an enabled source.
/// Both timers are checked on every call.
pub open spec fn spec_process_irq(c: CIA) -> (CIA, CpuCallback) {
    let (ic1, fire_a) = if c.timer_a.irq_next_cycle {
        spec_raise(c.irq_ctl, 1)
    } else {
        (c.irq_ctl, false)
    };
    let (ic2, fire_b) = if c.timer_b.irq_next_cycle {
        spec_raise(ic1, 2)
    } else {
        (ic1, false)
    };
    let c2 = CIA {
        timer_a: CIATimer { irq_next_cycle: false, ..c.timer_a },
        timer_b: CIATimer { irq_next_cycle: false, ..c.timer_b },
        irq_ctl: ic2,
        ..c
    };
    let cb = if fire_a || fire_b {
        spec_assert_line(c.is_cia1)
    } else {
        CpuCallback::Nothing
    };
    (c2, cb)
}

/// One frame-rate service of the time-of-day clock: tick it at the rate the
/// 50/60 Hz bit of timer A's control register selects; on an alarm match,
/// raise source bit 2 and, when enabled, assert the chip's line.
pub open spec fn spec_count_tod(c: CIA) -> (CIA, CpuCallback) {
    let fifty_hz = c.timer_a.ctrl & 0x80 != 0;
    let (tod2, alarm) = spec_tod_tick(c.tod, fifty_hz);
    if alarm {
        let (ic2, fire) = spec_raise(c.irq_ctl, 4);
        (
            CIA { tod: tod2, irq_ctl: ic2, ..c },
            if fire {
                spec_assert_line(c.is_cia1)
            } else {
                CpuCallback::Nothing
            },
        )
    } else {
        (CIA { tod: tod2, ..c }, CpuCallback::Nothing)
    }
}

impl CIA {
    pub fn new(is_cia1: bool) -> (c: CIA)
        ensures
            c == spec_cia_power_on(is_cia1),
            spec_cia_wf(c),
    {
        CIA {
            is_cia1: is_cia1,
            timer_a: CIATimer::new(true),
            timer_b: CIATimer::new(false),
            irq_ctl: InterruptController::new(),
            pra: 0,
            prb: 0,
            ddra: 0,
            ddrb: 0,
            sdr: 0,
            tod: TimeOfDayClock::new(),
            key_matrix: MatrixRows::released(),
            rev_matrix: MatrixRows::released(),
            joystick_1: 0xFF,
            joystick_2: 0xFF,
            prev_lp: 0x10,
            iec_lines: 0xD0,
        }
    }

    /// Reinitialise every field to its power-on value; the instance flag is
    /// kept.
    pub fn reset(&mut self)
        ensures
            *final(self) == spec_cia_power_on(old(self).is_cia1),
            spec_cia_wf(*final(self)),
    {
        self.timer_a.is_ta = true;
        self.timer_b.is_ta = false;
        self.timer_a.reset();
        self.timer_b.reset();
        self.irq_ctl.reset();
        self.pra = 0;
        self.prb = 0;
        self.ddra = 0;
        self.ddrb = 0;
        self.sdr = 0;
        self.tod.reset();
        self.key_matrix = MatrixRows::released();
        self.rev_matrix = MatrixRows::released();
        self.joystick_1 = 0xFF;
        self.joystick_2 = 0xFF;
        self.prev_lp = 0x10;
        self.iec_lines = 0xD0;
        proof {
            assert(*self =~= spec_cia_power_on(old(self).is_cia1));
        }
    }

    /// One chip cycle (see `spec_cia_update`): timer A before timer B, so
    /// that B's cascade mode sees A's underflow of this very cycle.
    pub fn update(&mut self)
        ensures
            *final(self) == spec_cia_update(*old(self)),
    {
        let mut icr = self.irq_ctl.pending;
        self.timer_a.update(&mut icr, false);
        let ta_underflow = self.timer_a.underflow;
        self.timer_b.update(&mut icr, ta_underflow);
        self.irq_ctl.pending = icr;
    }

    /// Raise `mask` as an interrupt source; returns whether the chip's line
    /// must be asserted (the source is enabled).
    pub fn trigger_irq(&mut self, mask: u8) -> (fired: bool)
        ensures
            (final(self).irq_ctl, fired) == spec_raise(old(self).irq_ctl, mask),
            *final(self) == (CIA { irq_ctl: final(self).irq_ctl, ..*old(self) }),
    {
        self.irq_ctl.raise(mask)
    }

    /// Deliver the interrupts the timers scheduled last cycle (see
    /// `spec_process_irq`). Returns the CPU-line request.
    #[verifier::rlimit(50)]
    pub fn process_irq(&mut self) -> (cb: CpuCallback)
        ensures
            (*final(self), cb) == spec_process_irq(*old(self)),
    {
        let mut fired = false;
        if self.timer_a.irq_next_cycle {
            fired = self.irq_ctl.raise(1);
        }
        self.timer_a.irq_next_cycle = false;
        if self.timer_b.irq_next_cycle {
            let fired_b = self.irq_ctl.raise(2);
            fired = fired || fired_b;
        }
        self.timer_b.irq_next_cycle = false;
        if fired {
            if self.is_cia1 {
                CpuCallback::TriggerInterruptRequest
            } else {
                CpuCallback::TriggerNonMaskable
            }
        } else {
            CpuCallback::Nothing
        }
    }

    /// Frame-rate time-of-day service (see `spec_count_tod`). Returns the
    /// CPU-line request raised by an alarm match.
    pub fn count_tod(&mut self) -> (cb: CpuCallback)
        requires
            spec_cia_wf(*old(self)),
        ensures
            (*final(self), cb) == spec_count_tod(*old(self)),
            spec_cia_wf(*final(self)),
    {
        let fifty_hz = self.timer_a.ctrl & 0x80 != 0;
        let alarm = self.tod.tick(fifty_hz);
        if alarm {
            let fired = self.irq_ctl.raise(4);
            if fired {
                if self.is_cia1 {
                    CpuCallback::TriggerInterruptRequest
                } else {
                    CpuCallback::TriggerNonMaskable
                }
            } else {
                CpuCallback::Nothing
            }
        } else {
            CpuCallback::Nothing
        }
    }
}

} // verus!
