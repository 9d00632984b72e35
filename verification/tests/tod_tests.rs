use zpc::CIA;
use zpc::CpuCallback;
use zpc::TimeOfDayClock;

#[test]
fn bcd_carry_seconds_into_minutes() {
    // Seconds at 0x59: one decisecond-rollover cycle carries into minutes and
    // resets seconds to 0x00.
    let mut cia = CIA::new(true);
    cia.write_register(0xDC09, 0x59);
    cia.write_register(0xDC08, 0x09);
    assert_eq!(cia.tod.freq_div, 0);
    let cb = cia.count_tod();
    assert_eq!(cb, CpuCallback::Nothing);
    assert_eq!(cia.read_register(0xDC08).0, 0x00); // deciseconds rolled over
    assert_eq!(cia.read_register(0xDC09).0, 0x00); // seconds reset
    assert_eq!(cia.read_register(0xDC0A).0, 0x01); // minutes carried
}

#[test]
fn bcd_carry_within_seconds_digit_pair() {
    let mut cia = CIA::new(true);
    cia.write_register(0xDC09, 0x29);
    cia.write_register(0xDC08, 0x09);
    cia.count_tod();
    assert_eq!(cia.tod.sec, 0x30);
    assert_eq!(cia.tod.min, 0x00);
}

#[test]
fn hours_wrap_at_twelve_flipping_am_pm() {
    let mut cia = CIA::new(true);
    cia.tod.hour = 0x11;
    cia.tod.min = 0x59;
    cia.tod.sec = 0x59;
    cia.tod.dsec = 9;
    cia.count_tod();
    assert_eq!(cia.tod.min, 0x00);
    assert_eq!(cia.tod.sec, 0x00);
    // 11 + 1 = 12, which wraps to 0 with the AM/PM bit (bit 7) flipped.
    assert_eq!(cia.tod.hour, 0x80);
}

#[test]
fn divisor_reload_follows_fifty_sixty_hz_bit() {
    let mut cia = CIA::new(true);
    cia.count_tod(); // 60 Hz default: divisor reloads to 5
    assert_eq!(cia.tod.freq_div, 5);
    for expected in [4u16, 3, 2, 1, 0].iter() {
        cia.count_tod();
        assert_eq!(cia.tod.freq_div, *expected);
    }
    cia.timer_a.ctrl = 0x80; // 50 Hz bit set
    cia.count_tod();
    assert_eq!(cia.tod.freq_div, 4);
}

#[test]
fn reading_hours_freezes_until_deciseconds_read() {
    // Reading the hours field halts updates; further update cycles leave the
    // time unchanged until deciseconds is read.
    let mut cia = CIA::new(true);
    cia.tod.hour = 0x03;
    cia.tod.sec = 0x15;
    let (h, _) = cia.read_register(0xDC0B);
    assert_eq!(h, 0x03);
    assert!(cia.tod.halted);
    let frozen = cia.tod;
    for _ in 0..30 {
        let cb = cia.count_tod();
        assert_eq!(cb, CpuCallback::Nothing);
    }
    assert_eq!(cia.tod, frozen);
    // Reading deciseconds releases the halt; updates advance again.
    let (d, _) = cia.read_register(0xDC08);
    assert_eq!(d, 0x00);
    assert!(!cia.tod.halted);
    cia.count_tod();
    assert_eq!(cia.tod.dsec, 1);
}

#[test]
fn alarm_match_raises_source_and_line() {
    let mut cia = CIA::new(true);
    // Select the alarm registers through timer B's control bit 7 and set the
    // alarm to 00:00:01.0.
    cia.write_register(0xDC0F, 0x80);
    cia.update(); // fold the staged control byte in
    assert_eq!(cia.timer_b.ctrl & 0x80, 0x80);
    cia.write_register(0xDC08, 0x00);
    cia.write_register(0xDC09, 0x01);
    cia.write_register(0xDC0A, 0x00);
    cia.write_register(0xDC0B, 0x00);
    assert_eq!(cia.tod.alarm_sec, 0x01);
    // Deselect the alarm and set the clock to 00:00:00.9.
    cia.write_register(0xDC0F, 0x00);
    cia.update();
    cia.write_register(0xDC09, 0x00);
    cia.write_register(0xDC08, 0x09);
    // Enable the alarm interrupt source (bit 2).
    cia.write_register(0xDC0D, 0x84);
    // dsec 9 rolls to 0 and seconds carry to 0x01: exact alarm match.
    let cb = cia.count_tod();
    assert_eq!(cia.tod.sec, 0x01);
    assert_eq!(cia.tod.dsec, 0x00);
    assert_eq!(cb, CpuCallback::TriggerInterruptRequest);
    assert_eq!(cia.irq_ctl.pending, 0x84);
}

#[test]
fn alarm_on_chip_two_requests_non_maskable() {
    let mut cia = CIA::new(false);
    cia.write_register(0xDD0D, 0x84);
    // Alarm equals the power-on time except deciseconds, set to the value the
    // first advance reaches.
    cia.tod.alarm_dsec = 1;
    let cb = cia.count_tod();
    assert_eq!(cia.tod.dsec, 1);
    assert_eq!(cb, CpuCallback::TriggerNonMaskable);
}

#[test]
fn halted_clock_reports_no_alarm() {
    let mut t = TimeOfDayClock::new();
    t.halted = true;
    t.alarm_dsec = 0;
    // Time already equals the alarm, but a halted clock neither advances nor
    // compares.
    let alarm = t.tick(false);
    assert!(!alarm);
    assert_eq!(t, {
        let mut u = TimeOfDayClock::new();
        u.halted = true;
        u.alarm_dsec = 0;
        u
    });
}
