//! Time-of-day clock: a BCD-packed deciseconds/seconds/minutes/hours counter
//! with an alarm comparator. It is driven at a fixed sub-division of the chip
//! update rate (one advance every 5th or 6th call, selected by the 50/60 Hz
//! bit borrowed from timer A's control register). Reading the hours register
//! halts advancement until deciseconds is read, so software can read a
//! consistent multi-byte time; the halt itself is handled by the register
//! file and only the flag lives here.

use vstd::prelude::*;

verus! {

#[derive(Clone, Copy, PartialEq, Eq, Structural, Debug)]
#[verifier::ext_equal]
pub struct TimeOfDayClock {
    /// Advancement is frozen (set by reading hours, cleared by reading
    /// deciseconds).
    pub halted: bool,
    /// Remaining chip updates until the next decisecond advance.
    pub freq_div: u16,
    /// BCD-packed fields: one decimal digit per nibble.
    pub hour: u8,
    pub min: u8,
    pub sec: u8,
    pub dsec: u8,
    pub alarm_hour: u8,
    pub alarm_min: u8,
    pub alarm_sec: u8,
    pub alarm_dsec: u8,
}

/// Bounds every reachable field value satisfies: write paths mask the fields
/// to their documented widths and the carry logic only produces valid BCD
/// digit pairs, with hours capped by the 12-hour wraparound.
pub open spec fn spec_tod_wf(t: TimeOfDayClock) -> bool {
    &&& t.dsec <= 0x0F
    &&& t.sec <= 0x7F
    &&& t.min <= 0x7F
    &&& t.hour <= 0xB1
}

/// BCD increment of a seconds/minutes field: add one to the low digit,
/// carrying into the high digit, and roll the whole field over at 60.
/// Returns the new field and whether it rolled over.
pub open spec fn spec_bcd_carry_60(v: u8) -> (u8, bool) {
    let lo = (v & 0x0F) + 1;
    let hi = v >> 4;
    let lo2 = if lo > 9 {
        0
    } else {
        lo
    };
    let hi2 = if lo > 9 {
        hi + 1
    } else {
        hi as int
    };
    if hi2 > 5 {
        (0u8, true)
    } else {
        ((hi2 * 16 + lo2) as u8, false)
    }
}

/// BCD increment of the hours field with the 12-hour wraparound: when the
/// hour digits pass 11 the digits reset and the AM/PM bit (bit 7) flips.
pub open spec fn spec_hour_advance(v: u8) -> u8 {
    let lo = (v & 0x0F) + 1;
    let hi = v >> 4;
    let lo2 = if lo > 9 {
        0
    } else {
        lo
    };
    let hi2 = if lo > 9 {
        hi + 1
    } else {
        hi as int
    };
    let h = (hi2 * 16 + lo2) as u8;
    if h & 0x1F > 0x11 {
        (h & 0x80) ^ 0x80
    } else {
        h
    }
}

/// One decisecond advance with BCD carry through seconds, minutes and hours.
pub open spec fn spec_tod_roll(t: TimeOfDayClock) -> TimeOfDayClock {
    if t.dsec + 1 <= 9 {
        TimeOfDayClock { dsec: (t.dsec + 1) as u8, ..t }
    } else {
        let (sec2, carry_sec) = spec_bcd_carry_60(t.sec);
        if !carry_sec {
            TimeOfDayClock { dsec: 0, sec: sec2, ..t }
        } else {
            let (min2, carry_min) = spec_bcd_carry_60(t.min);
            if !carry_min {
                TimeOfDayClock { dsec: 0, sec: 0, min: min2, ..t }
            } else {
                TimeOfDayClock {
                    dsec: 0,
                    sec: 0,
                    min: 0,
                    hour: spec_hour_advance(t.hour),
                    ..t
                }
            }
        }
    }
}

/// The four time fields match the four alarm fields exactly.
pub open spec fn spec_alarm_match(t: TimeOfDayClock) -> bool {
    &&& t.dsec == t.alarm_dsec
    &&& t.sec == t.alarm_sec
    &&& t.min == t.alarm_min
    &&& t.hour == t.alarm_hour
}

/// One chip-rate tick of the clock: frozen while halted; otherwise count the
/// frequency divisor down and, when it expires, reload it (4 at 50 Hz, 5 at
/// 60 Hz), advance the time one decisecond, and compare against the alarm.
/// Returns the new clock and whether the alarm matched.
pub open spec fn spec_tod_tick(t: TimeOfDayClock, fifty_hz: bool) -> (TimeOfDayClock, bool) {
    if t.halted {
        (t, false)
    } else if t.freq_div != 0 {
        (TimeOfDayClock { freq_div: (t.freq_div - 1) as u16, ..t }, false)
    } else {
        let rolled = spec_tod_roll(t);
        let t2 = TimeOfDayClock {
            freq_div: if fifty_hz {
                4u16
            } else {
                5u16
            },
            ..rolled
        };
        (t2, spec_alarm_match(t2))
    }
}

/// Power-on state of the clock.
pub open spec fn spec_tod_power_on() -> TimeOfDayClock {
    TimeOfDayClock {
        halted: false,
        freq_div: 0,
        hour: 0,
        min: 0,
        sec: 0,
        dsec: 0,
        alarm_hour: 0,
        alarm_min: 0,
        alarm_sec: 0,
        alarm_dsec: 0,
    }
}

/// A BCD carry keeps a seconds/minutes field within its bounds.
proof fn lemma_bcd_carry_60_wf(v: u8)
    requires
        v <= 0x7F,
    ensures
        spec_bcd_carry_60(v).0 <= 0x59,
{
    assert(v & 0x0F <= 0x0F) by (bit_vector);
    assert(v >> 4 <= 0x07) by (bit_vector)
        requires
            v <= 0x7F,
    ;
}

/// An hour advance keeps the hours field within its reachable bounds.
proof fn lemma_hour_advance_wf(v: u8)
    requires
        v <= 0xB1,
    ensures
        spec_hour_advance(v) <= 0xB1,
{
    assert(spec_hour_advance(v) <= 0xB1) by (bit_vector)
        requires
            v <= 0xB1,
    ;
}

impl TimeOfDayClock {
    pub fn new() -> (t: TimeOfDayClock)
        ensures
            t == spec_tod_power_on(),
            spec_tod_wf(t),
    {
        TimeOfDayClock {
            halted: false,
            freq_div: 0,
            hour: 0,
            min: 0,
            sec: 0,
            dsec: 0,
            alarm_hour: 0,
            alarm_min: 0,
            alarm_sec: 0,
            alarm_dsec: 0,
        }
    }

    pub fn reset(&mut self)
        ensures
            *final(self) == spec_tod_power_on(),
            spec_tod_wf(*final(self)),
    {
        self.halted = false;
        self.freq_div = 0;
        self.hour = 0;
        self.min = 0;
        self.sec = 0;
        self.dsec = 0;
        self.alarm_hour = 0;
        self.alarm_min = 0;
        self.alarm_sec = 0;
        self.alarm_dsec = 0;
    }

    /// One chip-rate tick (see `spec_tod_tick`); returns whether the time now
    /// matches the alarm, in which case the chip raises the alarm interrupt
    /// source.
    pub fn tick(&mut self, fifty_hz: bool) -> (alarm: bool)
        requires
            spec_tod_wf(*old(self)),
        ensures
            (*final(self), alarm) == spec_tod_tick(*old(self), fifty_hz),
            spec_tod_wf(*final(self)),
    {
        if self.halted {
            return false;
        }
        if self.freq_div != 0 {
            self.freq_div = self.freq_div - 1;
            return false;
        }
        if fifty_hz {
            self.freq_div = 4;
        } else {
            self.freq_div = 5;
        }
        proof {
            let s = self.sec;
            let m = self.min;
            assert(s & 0x0F <= 0x0F && s >> 4 <= 0x0F) by (bit_vector);
            assert(m & 0x0F <= 0x0F && m >> 4 <= 0x0F) by (bit_vector);
            lemma_bcd_carry_60_wf(self.sec);
            lemma_bcd_carry_60_wf(self.min);
            lemma_hour_advance_wf(self.hour);
        }
        if self.dsec + 1 <= 9 {
            self.dsec = self.dsec + 1;
        } else {
            self.dsec = 0;
            let mut lo: u8 = (self.sec & 0x0F) + 1;
            let mut hi: u8 = self.sec >> 4;
            if lo > 9 {
                lo = 0;
                hi = hi + 1;
            }
            if hi > 5 {
                self.sec = 0;
                lo = (self.min & 0x0F) + 1;
                hi = self.min >> 4;
                if lo > 9 {
                    lo = 0;
                    hi = hi + 1;
                }
                if hi > 5 {
                    self.min = 0;
                    proof {
                        let h = self.hour;
                        assert(h & 0x0F <= 0x0F) by (bit_vector);
                        assert(h >> 4 <= 0x0B) by (bit_vector)
                            requires
                                h <= 0xB1,
                        ;
                    }
                    lo = (self.hour & 0x0F) + 1;
                    hi = self.hour >> 4;
                    if lo > 9 {
                        lo = 0;
                        hi = hi + 1;
                    }
                    self.hour = hi * 16 + lo;
                    if self.hour & 0x1F > 0x11 {
                        self.hour = (self.hour & 0x80) ^ 0x80;
                    }
                } else {
                    self.min = hi * 16 + lo;
                }
            } else {
                self.sec = hi * 16 + lo;
            }
        }
        self.dsec == self.alarm_dsec && self.sec == self.alarm_sec && self.min == self.alarm_min
            && self.hour == self.alarm_hour
    }
}

/// A halted clock is frozen: further ticks change nothing and never report an
/// alarm match, whatever rate is selected.
pub proof fn lemma_halted_clock_is_frozen(t: TimeOfDayClock, fifty_hz: bool)
    requires
        t.halted,
    ensures
        spec_tod_tick(t, fifty_hz).0 == t,
        !spec_tod_tick(t, fifty_hz).1,
{
}

} // verus!
