//! Memory-mapped register file: address folding and dispatch for the chip's
//! sixteen registers, mirrored every 16 bytes across the instance's 256-byte
//! page (0xDC00 for chip 1, 0xDD00 for chip 2). An address outside the
//! instance's page reaching this layer is a dispatch bug upstream — a fatal,
//! unrecoverable condition — and is therefore excluded by precondition;
//! callers abort with a diagnostic before such an address gets here.

use vstd::prelude::*;

use crate::chip::CIA;
use crate::chip::CpuCallback;
use crate::chip::VideoSignal;
use crate::chip::WriteEffects;
use crate::chip::spec_assert_line;
use crate::chip::spec_cia_wf;
use crate::chip::spec_clear_line;
use crate::chip::spec_count_tod;
use crate::interrupt::InterruptController;
use crate::interrupt::spec_raise;
use crate::interrupt::spec_write_mask;
use crate::matrix::spec_and_selected_rows;
use crate::timer::CIATimer;
use crate::tod::TimeOfDayClock;
use crate::tod::spec_tod_wf;

verus! {

/// Base address of the instance's 256-byte register page.
pub open spec fn spec_page(is_cia1: bool) -> u16 {
    if is_cia1 {
        0xDC00u16
    } else {
        0xDD00u16
    }
}

/// Mirrored-address folding: the low byte is reduced modulo 16 (all mirrors
/// of a register fold to the same offset within the page).
pub open spec fn spec_fold_addr(addr: u16) -> u16 {
    ((addr / 0x100) * 0x100 + addr % 0x10) as u16
}

/// Chip-1 readback of port A (offset 0) or port B (offset 1): combine the
/// port latch and direction register, AND in the scan-table rows selected low
/// by the opposite port, and mask with the joystick inputs.
pub open spec fn spec_read_cia1_port(c: CIA, off: u16) -> u8 {
    if off == 0 {
        let tst = (c.prb | !c.ddrb) & c.joystick_1;
        spec_and_selected_rows(c.rev_matrix, tst, c.pra | !c.ddra) & c.joystick_2
    } else {
        let tst = (c.pra | !c.ddra) & c.joystick_2;
        (spec_and_selected_rows(c.key_matrix, tst, !c.ddrb) | (c.prb & c.ddrb)) & c.joystick_1
    }
}

/// Chip-2 readback of port A (serial-bus lines in the high bits) or port B.
pub open spec fn spec_read_cia2_port(c: CIA, off: u16) -> u8 {
    if off == 0 {
        ((c.pra | !c.ddra) & 0x3F) | c.iec_lines
    } else {
        c.prb | !c.ddrb
    }
}

/// A register read: the chip afterwards, the byte read, and the CPU-line
/// request. Reading deciseconds (0x08) unfreezes the time-of-day clock,
/// reading hours (0x0B) freezes it, and reading the interrupt register
/// (0x0D) clears the pending latch and acknowledges the chip's line.
pub open spec fn spec_read_register(c: CIA, addr: u16) -> (CIA, u8, CpuCallback) {
    let off = addr % 0x10;
    if off == 0x00 || off == 0x01 {
        let v = if c.is_cia1 {
            spec_read_cia1_port(c, off)
        } else {
            spec_read_cia2_port(c, off)
        };
        (c, v, CpuCallback::Nothing)
    } else if off == 0x02 {
        (c, c.ddra, CpuCallback::Nothing)
    } else if off == 0x03 {
        (c, c.ddrb, CpuCallback::Nothing)
    } else if off == 0x04 {
        (c, c.timer_a.value as u8, CpuCallback::Nothing)
    } else if off == 0x05 {
        (c, (c.timer_a.value >> 8) as u8, CpuCallback::Nothing)
    } else if off == 0x06 {
        (c, c.timer_b.value as u8, CpuCallback::Nothing)
    } else if off == 0x07 {
        (c, (c.timer_b.value >> 8) as u8, CpuCallback::Nothing)
    } else if off == 0x08 {
        (CIA { tod: (TimeOfDayClock { halted: false, ..c.tod }), ..c }, c.tod.dsec, CpuCallback::Nothing)
    } else if off == 0x09 {
        (c, c.tod.sec, CpuCallback::Nothing)
    } else if off == 0x0A {
        (c, c.tod.min, CpuCallback::Nothing)
    } else if off == 0x0B {
        (CIA { tod: (TimeOfDayClock { halted: true, ..c.tod }), ..c }, c.tod.hour, CpuCallback::Nothing)
    } else if off == 0x0C {
        (c, c.sdr, CpuCallback::Nothing)
    } else if off == 0x0D {
        (
            CIA { irq_ctl: (InterruptController { mask: c.irq_ctl.mask, pending: 0 }), ..c },
            c.irq_ctl.pending,
            spec_clear_line(c.is_cia1),
        )
    } else if off == 0x0E {
        (c, c.timer_a.ctrl, CpuCallback::Nothing)
    } else {
        (c, c.timer_b.ctrl, CpuCallback::Nothing)
    }
}

/// Light-pen edge check: when the observed port bit (bit 4 of port B's
/// effective output) differs from the last observed value, the video chip is
/// asked to latch a light-pen interrupt; the observed value is remembered.
pub open spec fn spec_check_lp(c: CIA) -> (CIA, VideoSignal) {
    let line = (c.prb | !c.ddrb) & 0x10;
    (
        CIA { prev_lp: line, ..c },
        if line != c.prev_lp {
            VideoSignal::TriggerLightPen
        } else {
            VideoSignal::Nothing
        },
    )
}

/// The 2-bit video bank selection derived from port A's effective output.
pub open spec fn spec_bank_bits(pra: u8, ddra: u8) -> u8 {
    !(pra | !ddra) & 3
}

/// Chip-1 write to offsets 0x00-0x03: port latches and direction registers;
/// writes that can move the light-pen port bit run the edge check.
pub open spec fn spec_write_cia1_port(c: CIA, off: u16, v: u8) -> (CIA, VideoSignal) {
    if off == 0x00 {
        (CIA { pra: v, ..c }, VideoSignal::Nothing)
    } else if off == 0x01 {
        spec_check_lp(CIA { prb: v, ..c })
    } else if off == 0x02 {
        (CIA { ddra: v, ..c }, VideoSignal::Nothing)
    } else {
        spec_check_lp(CIA { ddrb: v, ..c })
    }
}

/// Chip-2 write to offsets 0x00-0x03: port A carries the video chip's bank
/// selection in its low two bits, so writes that can move them notify the
/// video chip.
pub open spec fn spec_write_cia2_port(c: CIA, off: u16, v: u8) -> (CIA, VideoSignal) {
    if off == 0x00 {
        (CIA { pra: v, ..c }, VideoSignal::BankSelect(spec_bank_bits(v, c.ddra)))
    } else if off == 0x01 {
        (CIA { prb: v, ..c }, VideoSignal::Nothing)
    } else if off == 0x02 {
        (CIA { ddra: v, ..c }, VideoSignal::BankSelect(spec_bank_bits(c.pra, v)))
    } else {
        (CIA { ddrb: v, ..c }, VideoSignal::Nothing)
    }
}

/// Writes to the timer latches (offsets 0x04-0x07): the addressed half of the
/// latch is replaced; a high-byte write also reloads the live countdown
/// register immediately when the timer's run bit is clear (while running, the
/// new latch is picked up at the next underflow).
pub open spec fn spec_write_timer_latch(c: CIA, off: u16, v: u8) -> CIA {
    if off == 0x04 {
        CIA { timer_a: (CIATimer { latch: (c.timer_a.latch & 0xFF00) | v as u16, ..c.timer_a }), ..c }
    } else if off == 0x05 {
        let nl = (c.timer_a.latch & 0x00FF) | ((v as u16) << 8);
        let nv = if c.timer_a.ctrl & 1 == 0 {
            nl
        } else {
            c.timer_a.value
        };
        CIA { timer_a: (CIATimer { latch: nl, value: nv, ..c.timer_a }), ..c }
    } else if off == 0x06 {
        CIA { timer_b: (CIATimer { latch: (c.timer_b.latch & 0xFF00) | v as u16, ..c.timer_b }), ..c }
    } else {
        let nl = (c.timer_b.latch & 0x00FF) | ((v as u16) << 8);
        let nv = if c.timer_b.ctrl & 1 == 0 {
            nl
        } else {
            c.timer_b.value
        };
        CIA { timer_b: (CIATimer { latch: nl, value: nv, ..c.timer_b }), ..c }
    }
}

/// Writes to the time-of-day registers (offsets 0x08-0x0B): the byte, masked
/// to the field's documented width, goes to the clock, or to the alarm while
/// timer B's alarm-select bit (bit 7) is set.
pub open spec fn spec_write_tod_field(c: CIA, off: u16, v: u8) -> CIA {
    let to_alarm = c.timer_b.ctrl & 0x80 != 0;
    if off == 0x08 {
        if to_alarm {
            CIA { tod: (TimeOfDayClock { alarm_dsec: v & 0x0F, ..c.tod }), ..c }
        } else {
            CIA { tod: (TimeOfDayClock { dsec: v & 0x0F, ..c.tod }), ..c }
        }
    } else if off == 0x09 {
        if to_alarm {
            CIA { tod: (TimeOfDayClock { alarm_sec: v & 0x7F, ..c.tod }), ..c }
        } else {
            CIA { tod: (TimeOfDayClock { sec: v & 0x7F, ..c.tod }), ..c }
        }
    } else if off == 0x0A {
        if to_alarm {
            CIA { tod: (TimeOfDayClock { alarm_min: v & 0x7F, ..c.tod }), ..c }
        } else {
            CIA { tod: (TimeOfDayClock { min: v & 0x7F, ..c.tod }), ..c }
        }
    } else {
        if to_alarm {
            CIA { tod: (TimeOfDayClock { alarm_hour: v & 0x9F, ..c.tod }), ..c }
        } else {
            CIA { tod: (TimeOfDayClock { hour: v & 0x9F, ..c.tod }), ..c }
        }
    }
}

/// Writes to the control bytes (offsets 0x0E/0x0F): the byte is staged for
/// the timer's end-of-update step — never applied directly — and the
/// count-input selection bits take effect at once (phi2 for timer A when bit
/// 5 is clear; for timer B, bits 5-6 select phi2 or timer A's underflows).
pub open spec fn spec_write_timer_ctrl(c: CIA, off: u16, v: u8) -> CIA {
    if off == 0x0E {
        CIA {
            timer_a: (CIATimer {
                has_new_ctrl: true,
                new_ctrl: v,
                is_cnt_phi2: v & 0x20 == 0,
                ..c.timer_a
            }),
            ..c
        }
    } else {
        CIA {
            timer_b: (CIATimer {
                has_new_ctrl: true,
                new_ctrl: v,
                is_cnt_phi2: v & 0x60 == 0,
                cnt_ta_underflow: v & 0x60 == 0x40,
                ..c.timer_b
            }),
            ..c
        }
    }
}

/// A register write: the chip afterwards and its effects. Every write except
/// to the serial data register is mirrored into the bus's I/O bank at the
/// folded address. A write to the serial data register (0x0C) raises source
/// bit 3; a write to the interrupt mask (0x0D) re-derives the summary bit;
/// either asserts the chip's line when an enabled source is pending.
pub open spec fn spec_write_register(c: CIA, addr: u16, v: u8) -> (CIA, WriteEffects) {
    let off = addr % 0x10;
    let shadow = Option::Some((spec_fold_addr(addr), v));
    let quiet = WriteEffects { shadow, cpu: CpuCallback::Nothing, video: VideoSignal::Nothing };
    if off < 0x04 {
        let (c2, vid) = if c.is_cia1 {
            spec_write_cia1_port(c, off, v)
        } else {
            spec_write_cia2_port(c, off, v)
        };
        (c2, WriteEffects { shadow, cpu: CpuCallback::Nothing, video: vid })
    } else if off < 0x08 {
        (spec_write_timer_latch(c, off, v), quiet)
    } else if off < 0x0C {
        (spec_write_tod_field(c, off, v), quiet)
    } else if off == 0x0C {
        let (ic2, fire) = spec_raise(c.irq_ctl, 8);
        (
            CIA { sdr: v, irq_ctl: ic2, ..c },
            WriteEffects {
                shadow: Option::None,
                cpu: if fire {
                    spec_assert_line(c.is_cia1)
                } else {
                    CpuCallback::Nothing
                },
                video: VideoSignal::Nothing,
            },
        )
    } else if off == 0x0D {
        let (ic2, fire) = spec_write_mask(c.irq_ctl, v);
        (
            CIA { irq_ctl: ic2, ..c },
            WriteEffects {
                shadow,
                cpu: if fire {
                    spec_assert_line(c.is_cia1)
                } else {
                    CpuCallback::Nothing
                },
                video: VideoSignal::Nothing,
            },
        )
    } else {
        (spec_write_timer_ctrl(c, off, v), quiet)
    }
}

impl CIA {
    /// Chip-1 readback of offsets 0x00/0x01 (see `spec_read_cia1_port`).
    fn read_cia1_port(&self, off: u16) -> (v: u8)
        requires
            off == 0 || off == 1,
        ensures
            v == spec_read_cia1_port(*self, off),
    {
        if off == 0 {
            let tst = (self.prb | !self.ddrb) & self.joystick_1;
            self.rev_matrix.and_selected(tst, self.pra | !self.ddra) & self.joystick_2
        } else {
            let tst = (self.pra | !self.ddra) & self.joystick_2;
            (self.key_matrix.and_selected(tst, !self.ddrb) | (self.prb & self.ddrb))
                & self.joystick_1
        }
    }

    /// Chip-2 readback of offsets 0x00/0x01 (see `spec_read_cia2_port`).
    fn read_cia2_port(&self, off: u16) -> (v: u8)
        requires
            off == 0 || off == 1,
        ensures
            v == spec_read_cia2_port(*self, off),
    {
        if off == 0 {
            ((self.pra | !self.ddra) & 0x3F) | self.iec_lines
        } else {
            self.prb | !self.ddrb
        }
    }

    /// Read a register of this chip instance (see `spec_read_register`).
    /// `addr` must lie in the instance's page; its low byte is folded modulo
    /// 16, so every mirror behaves as the register itself, side effects
    /// included. Returns the byte and the CPU-line request.
    #[verifier::rlimit(50)]
    pub fn read_register(&mut self, addr: u16) -> (r: (u8, CpuCallback))
        requires
            spec_page(old(self).is_cia1) <= addr < spec_page(old(self).is_cia1) + 0x100,
        ensures
            ({
                let (c2, v, cb) = spec_read_register(*old(self), addr);
                *final(self) == c2 && r.0 == v && r.1 == cb
            }),
    {
        proof {
            assert(addr & 0x000F == addr % 0x10) by (bit_vector);
        }
        let off = addr & 0x000F;
        if off == 0x00 || off == 0x01 {
            let v = if self.is_cia1 {
                self.read_cia1_port(off)
            } else {
                self.read_cia2_port(off)
            };
            (v, CpuCallback::Nothing)
        } else if off == 0x02 {
            (self.ddra, CpuCallback::Nothing)
        } else if off == 0x03 {
            (self.ddrb, CpuCallback::Nothing)
        } else if off == 0x04 {
            (#[verifier::truncate] (self.timer_a.value as u8), CpuCallback::Nothing)
        } else if off == 0x05 {
            (#[verifier::truncate] ((self.timer_a.value >> 8) as u8), CpuCallback::Nothing)
        } else if off == 0x06 {
            (#[verifier::truncate] (self.timer_b.value as u8), CpuCallback::Nothing)
        } else if off == 0x07 {
            (#[verifier::truncate] ((self.timer_b.value >> 8) as u8), CpuCallback::Nothing)
        } else if off == 0x08 {
            self.tod.halted = false;
            (self.tod.dsec, CpuCallback::Nothing)
        } else if off == 0x09 {
            (self.tod.sec, CpuCallback::Nothing)
        } else if off == 0x0A {
            (self.tod.min, CpuCallback::Nothing)
        } else if off == 0x0B {
            self.tod.halted = true;
            (self.tod.hour, CpuCallback::Nothing)
        } else if off == 0x0C {
            (self.sdr, CpuCallback::Nothing)
        } else if off == 0x0D {
            let curr = self.irq_ctl.read_and_clear();
            let cb = if self.is_cia1 {
                CpuCallback::ClearInterruptRequest
            } else {
                CpuCallback::ClearNonMaskable
            };
            (curr, cb)
        } else if off == 0x0E {
            (self.timer_a.ctrl, CpuCallback::Nothing)
        } else {
            (self.timer_b.ctrl, CpuCallback::Nothing)
        }
    }

    /// Light-pen edge check (see `spec_check_lp`).
    fn check_lp(&mut self) -> (vid: VideoSignal)
        ensures
            (*final(self), vid) == spec_check_lp(*old(self)),
    {
        let line = (self.prb | !self.ddrb) & 0x10;
        let vid = if line != self.prev_lp {
            VideoSignal::TriggerLightPen
        } else {
            VideoSignal::Nothing
        };
        self.prev_lp = line;
        vid
    }

    /// Chip-1 write to offsets 0x00-0x03 (see `spec_write_cia1_port`).
    fn write_cia1_port(&mut self, off: u16, value: u8) -> (vid: VideoSignal)
        requires
            off < 4,
        ensures
            (*final(self), vid) == spec_write_cia1_port(*old(self), off, value),
    {
        if off == 0x00 {
            self.pra = value;
            VideoSignal::Nothing
        } else if off == 0x01 {
            self.prb = value;
            self.check_lp()
        } else if off == 0x02 {
            self.ddra = value;
            VideoSignal::Nothing
        } else {
            self.ddrb = value;
            self.check_lp()
        }
    }

    /// Chip-2 write to offsets 0x00-0x03 (see `spec_write_cia2_port`).
    fn write_cia2_port(&mut self, off: u16, value: u8) -> (vid: VideoSignal)
        requires
            off < 4,
        ensures
            (*final(self), vid) == spec_write_cia2_port(*old(self), off, value),
    {
        if off == 0x00 {
            self.pra = value;
            VideoSignal::BankSelect(!(self.pra | !self.ddra) & 3)
        } else if off == 0x01 {
            self.prb = value;
            VideoSignal::Nothing
        } else if off == 0x02 {
            self.ddra = value;
            VideoSignal::BankSelect(!(self.pra | !self.ddra) & 3)
        } else {
            self.ddrb = value;
            VideoSignal::Nothing
        }
    }

    /// Writes to the timer latches (see `spec_write_timer_latch`).
    #[verifier::rlimit(50)]
    fn write_timer_latch(&mut self, off: u16, value: u8)
        requires
            0x04 <= off < 0x08,
        ensures
            *final(self) == spec_write_timer_latch(*old(self), off, value),
    {
        if off == 0x04 {
            self.timer_a.latch = (self.timer_a.latch & 0xFF00) | value as u16;
        } else if off == 0x05 {
            self.timer_a.latch = (self.timer_a.latch & 0x00FF) | ((value as u16) << 8);
            if self.timer_a.ctrl & 1 == 0 {
                self.timer_a.value = self.timer_a.latch;
            }
        } else if off == 0x06 {
            self.timer_b.latch = (self.timer_b.latch & 0xFF00) | value as u16;
        } else {
            self.timer_b.latch = (self.timer_b.latch & 0x00FF) | ((value as u16) << 8);
            if self.timer_b.ctrl & 1 == 0 {
                self.timer_b.value = self.timer_b.latch;
            }
        }
    }

    /// Writes to the time-of-day registers (see `spec_write_tod_field`).
    #[verifier::rlimit(50)]
    fn write_tod_field(&mut self, off: u16, value: u8)
        requires
            0x08 <= off < 0x0C,
            spec_cia_wf(*old(self)),
        ensures
            *final(self) == spec_write_tod_field(*old(self), off, value),
            spec_cia_wf(*final(self)),
    {
        proof {
            assert(value & 0x0F <= 0x0F && value & 0x7F <= 0x7F && value & 0x9F <= 0xB1)
                by (bit_vector);
        }
        let to_alarm = self.timer_b.ctrl & 0x80 != 0;
        if off == 0x08 {
            if to_alarm {
                self.tod.alarm_dsec = value & 0x0F;
            } else {
                self.tod.dsec = value & 0x0F;
            }
        } else if off == 0x09 {
            if to_alarm {
                self.tod.alarm_sec = value & 0x7F;
            } else {
                self.tod.sec = value & 0x7F;
            }
        } else if off == 0x0A {
            if to_alarm {
                self.tod.alarm_min = value & 0x7F;
            } else {
                self.tod.min = value & 0x7F;
            }
        } else {
            if to_alarm {
                self.tod.alarm_hour = value & 0x9F;
            } else {
                self.tod.hour = value & 0x9F;
            }
        }
    }

    /// Writes to the control bytes (see `spec_write_timer_ctrl`).
    #[verifier::rlimit(50)]
    fn write_timer_ctrl(&mut self, off: u16, value: u8)
        requires
            off == 0x0E || off == 0x0F,
        ensures
            *final(self) == spec_write_timer_ctrl(*old(self), off, value),
    {
        if off == 0x0E {
            self.timer_a.has_new_ctrl = true;
            self.timer_a.new_ctrl = value;
            self.timer_a.is_cnt_phi2 = value & 0x20 == 0;
        } else {
            self.timer_b.has_new_ctrl = true;
            self.timer_b.new_ctrl = value;
            self.timer_b.is_cnt_phi2 = value & 0x60 == 0;
            self.timer_b.cnt_ta_underflow = value & 0x60 == 0x40;
        }
    }

    /// Write a register of this chip instance (see `spec_write_register`).
    /// `addr` must lie in the instance's page; its low byte is folded modulo
    /// 16, so every mirror behaves as the register itself. Returns the
    /// effects the caller must perform.
    #[verifier::rlimit(50)]
    pub fn write_register(&mut self, addr: u16, value: u8) -> (eff: WriteEffects)
        requires
            spec_page(old(self).is_cia1) <= addr < spec_page(old(self).is_cia1) + 0x100,
            spec_cia_wf(*old(self)),
        ensures
            (*final(self), eff) == spec_write_register(*old(self), addr, value),
            spec_cia_wf(*final(self)),
    {
        proof {
            assert(addr & 0x000F == addr % 0x10 && ((addr & 0xFF00) | (addr & 0x000F))
                == spec_fold_addr(addr)) by (bit_vector);
        }
        let off = addr & 0x000F;
        let fold = (addr & 0xFF00) | (addr & 0x000F);
        let shadow = Option::Some((fold, value));
        if off < 0x04 {
            let vid = if self.is_cia1 {
                self.write_cia1_port(off, value)
            } else {
                self.write_cia2_port(off, value)
            };
            WriteEffects { shadow, cpu: CpuCallback::Nothing, video: vid }
        } else if off < 0x08 {
            self.write_timer_latch(off, value);
            WriteEffects { shadow, cpu: CpuCallback::Nothing, video: VideoSignal::Nothing }
        } else if off < 0x0C {
            self.write_tod_field(off, value);
            WriteEffects { shadow, cpu: CpuCallback::Nothing, video: VideoSignal::Nothing }
        } else if off == 0x0C {
            self.sdr = value;
            let fired = self.irq_ctl.raise(8);
            let cb = if fired {
                if self.is_cia1 {
                    CpuCallback::TriggerInterruptRequest
                } else {
                    CpuCallback::TriggerNonMaskable
                }
            } else {
                CpuCallback::Nothing
            };
            WriteEffects { shadow: Option::None, cpu: cb, video: VideoSignal::Nothing }
        } else if off == 0x0D {
            let fired = self.irq_ctl.write_mask(value);
            let cb = if fired {
                if self.is_cia1 {
                    CpuCallback::TriggerInterruptRequest
                } else {
                    CpuCallback::TriggerNonMaskable
                }
            } else {
                CpuCallback::Nothing
            };
            WriteEffects { shadow, cpu: cb, video: VideoSignal::Nothing }
        } else {
            proof {
                assert(addr & 0x000F == 0x0E || addr & 0x000F == 0x0F) by (bit_vector)
                    requires
                        addr & 0x000F > 0x0D,
                ;
            }
            self.write_timer_ctrl(off, value);
            WriteEffects { shadow, cpu: CpuCallback::Nothing, video: VideoSignal::Nothing }
        }
    }
}

/// Mirrored addresses behave as the register itself: for any address in the
/// page, a read has exactly the outcome — value, new chip state and CPU-line
/// request, side effects included — of a read of the same address with its
/// low byte folded modulo 16, and likewise a write.
pub proof fn lemma_mirrored_address_folding(c: CIA, addr: u16, v: u8)
    ensures
        spec_read_register(c, addr) == spec_read_register(c, spec_fold_addr(addr)),
        spec_write_register(c, addr, v) == spec_write_register(c, spec_fold_addr(addr), v),
{
    assert(spec_fold_addr(addr) % 0x10 == addr % 0x10) by (bit_vector);
    assert(spec_fold_addr(spec_fold_addr(addr)) == spec_fold_addr(addr)) by (bit_vector);
}

/// Writing a timer's high latch byte reloads the live countdown register
/// immediately if and only if the timer's run bit is clear; the reload value
/// is the full new latch. With the run bit set, the live value is untouched
/// (the latch is picked up at the next underflow).
pub proof fn lemma_high_latch_write_reload(c: CIA, addr: u16, v: u8)
    requires
        addr % 0x10 == 0x05 || addr % 0x10 == 0x07,
    ensures
        addr % 0x10 == 0x05 ==> ({
            let t2 = spec_write_register(c, addr, v).0.timer_a;
            &&& t2.latch == (c.timer_a.latch & 0x00FF) | ((v as u16) << 8)
            &&& c.timer_a.ctrl & 1 == 0 ==> t2.value == t2.latch
            &&& c.timer_a.ctrl & 1 != 0 ==> t2.value == c.timer_a.value
        }),
        addr % 0x10 == 0x07 ==> ({
            let t2 = spec_write_register(c, addr, v).0.timer_b;
            &&& t2.latch == (c.timer_b.latch & 0x00FF) | ((v as u16) << 8)
            &&& c.timer_b.ctrl & 1 == 0 ==> t2.value == t2.latch
            &&& c.timer_b.ctrl & 1 != 0 ==> t2.value == c.timer_b.value
        }),
{
}

/// Reading the hours register freezes the clock: afterwards any number of
/// time-of-day service calls leave the whole chip untouched and raise no
/// alarm, until deciseconds is read, which releases the halt.
pub proof fn lemma_hours_read_freezes_clock(c: CIA, addr: u16)
    requires
        addr % 0x10 == 0x0B,
    ensures
        ({
            let frozen = spec_read_register(c, addr).0;
            &&& frozen.tod.halted
            &&& spec_count_tod(frozen).0 == frozen
            &&& spec_count_tod(frozen).1 == CpuCallback::Nothing
            &&& !spec_read_register(frozen, (addr - 3) as u16).0.tod.halted
        }),
{
    let frozen = spec_read_register(c, addr).0;
    assert(spec_count_tod(frozen).0 =~= frozen);
}

} // verus!
