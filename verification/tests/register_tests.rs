use zpc::CIA;
use zpc::CpuCallback;
use zpc::TimerState;
use zpc::VideoSignal;

#[test]
fn high_latch_write_reloads_stopped_timer() {
    // Latch 0x0000, write low 0x34 then high 0x12 while stopped: the live
    // value becomes 0x1234 immediately.
    let mut cia = CIA::new(true);
    cia.timer_a.latch = 0;
    cia.write_register(0xDC04, 0x34);
    assert_eq!(cia.timer_a.latch, 0x0034);
    assert_eq!(cia.timer_a.value, 0xFFFF); // low-byte write alone reloads nothing
    cia.write_register(0xDC05, 0x12);
    assert_eq!(cia.timer_a.latch, 0x1234);
    assert_eq!(cia.timer_a.value, 0x1234);
}

#[test]
fn high_latch_write_defers_while_running() {
    // With the run bit set, the live value is unaffected until the next
    // underflow, which reloads the new latch.
    let mut cia = CIA::new(true);
    cia.write_register(0xDC0E, 0x01); // run, phi2
    cia.update(); // ctrl takes effect: Stop -> WaitCount
    assert_eq!(cia.timer_a.ctrl & 1, 1);
    cia.timer_a.value = 5;
    cia.write_register(0xDC06, 0x00); // timer B untouched below
    cia.write_register(0xDC05, 0x12);
    cia.write_register(0xDC04, 0x34);
    assert_eq!(cia.timer_a.latch, 0x1234);
    assert_eq!(cia.timer_a.value, 5);
    // Count down to the underflow: the reload picks up the new latch.
    cia.update(); // WaitCount -> Count
    for _ in 0..5 {
        cia.update();
    }
    assert!(cia.timer_a.underflow);
    assert_eq!(cia.timer_a.value, 0x1234);
}

#[test]
fn mirrored_interrupt_register_read() {
    // A read of offset 0x1D behaves exactly as offset 0x0D: same value, same
    // clear-on-read side effect, same line acknowledgement.
    let mut chip_via_mirror = CIA::new(true);
    let mut chip_direct = CIA::new(true);
    for c in [&mut chip_via_mirror, &mut chip_direct] {
        c.write_register(0xDC0D, 0x81);
        c.timer_a.irq_next_cycle = true;
        c.process_irq();
    }
    let (v_mirror, cb_mirror) = chip_via_mirror.read_register(0xDC1D);
    let (v_direct, cb_direct) = chip_direct.read_register(0xDC0D);
    assert_eq!(v_mirror, 0x81);
    assert_eq!(v_mirror, v_direct);
    assert_eq!(cb_mirror, CpuCallback::ClearInterruptRequest);
    assert_eq!(cb_mirror, cb_direct);
    assert_eq!(chip_via_mirror.irq_ctl.pending, 0);
    assert_eq!(chip_via_mirror, chip_direct);
    // A second read of either offset now returns 0.
    assert_eq!(chip_via_mirror.read_register(0xDC0D).0, 0);
    assert_eq!(chip_direct.read_register(0xDC1D).0, 0);
}

#[test]
fn mirrored_write_folds_into_page() {
    let mut cia = CIA::new(true);
    let eff = cia.write_register(0xDCF4, 0xAB); // mirror of 0xDC04
    assert_eq!(cia.timer_a.latch & 0x00FF, 0x00AB);
    assert_eq!(eff.shadow, Some((0xDC04, 0xAB)));
}

#[test]
fn mirrored_port_read_at_page_end() {
    // The ports are mirrored too: 0xDCF1 reads as 0xDC01.
    let mut cia = CIA::new(true);
    cia.write_register(0xDC03, 0xFF);
    cia.write_register(0xDC01, 0xA5);
    let (direct, _) = cia.read_register(0xDC01);
    let (mirror, _) = cia.read_register(0xDCF1);
    assert_eq!(direct, 0xA5);
    assert_eq!(mirror, direct);
}

#[test]
fn keyboard_matrix_readback() {
    // Select scan column 0 (bit 0 low on port A) with one key held in row 0:
    // the key bit reads back low on port B.
    let mut cia = CIA::new(true);
    cia.write_register(0xDC02, 0xFF); // port A all outputs
    cia.write_register(0xDC00, 0xFE); // drive bit 0 low
    cia.key_matrix.r0 = 0xEF; // one key down in that column
    let (v, _) = cia.read_register(0xDC01);
    assert_eq!(v, 0xEF);
    // With no column selected, nothing reads low.
    cia.write_register(0xDC00, 0xFF);
    let (v2, _) = cia.read_register(0xDC01);
    assert_eq!(v2, 0xFF);
}

#[test]
fn port_a_readback_uses_reverse_matrix_and_joysticks() {
    let mut cia = CIA::new(true);
    cia.write_register(0xDC03, 0xFF); // port B all outputs
    cia.write_register(0xDC01, 0xFD); // drive bit 1 low
    cia.rev_matrix.r1 = 0x7F;
    let (v, _) = cia.read_register(0xDC00);
    assert_eq!(v, 0x7F);
    // The joystick mask forces its bits low regardless of the matrix.
    cia.joystick_2 = 0xEF;
    let (v2, _) = cia.read_register(0xDC00);
    assert_eq!(v2, 0x6F);
}

#[test]
fn serial_bus_lines_readback_on_chip_two() {
    let mut cia = CIA::new(false);
    cia.write_register(0xDD02, 0xFF);
    cia.write_register(0xDD00, 0x15);
    let (v, _) = cia.read_register(0xDD00);
    assert_eq!(v, (0x15 & 0x3F) | 0xD0);
}

#[test]
fn bank_select_notification_on_chip_two_port_writes() {
    let mut cia = CIA::new(false);
    let eff = cia.write_register(0xDD02, 0x03); // direction: low two bits output
    assert_eq!(eff.video, VideoSignal::BankSelect(3)); // pra still 0: bank 3
    let eff2 = cia.write_register(0xDD00, 0x02);
    assert_eq!(eff2.video, VideoSignal::BankSelect(1));
    let eff3 = cia.write_register(0xDD01, 0x55); // port B: no bank bits
    assert_eq!(eff3.video, VideoSignal::Nothing);
}

#[test]
fn light_pen_edge_on_port_b_writes() {
    let mut cia = CIA::new(true);
    // Power-on: prev_lp = 0x10 and (prb | !ddrb) & 0x10 = 0x10: no edge yet.
    let eff = cia.write_register(0xDC01, 0x00);
    assert_eq!(eff.video, VideoSignal::Nothing);
    // Direction write turns bit 4 into a low output: falling edge.
    let eff2 = cia.write_register(0xDC03, 0xFF);
    assert_eq!(eff2.video, VideoSignal::TriggerLightPen);
    assert_eq!(cia.prev_lp, 0x00);
    // Driving the bit high again: rising edge.
    let eff3 = cia.write_register(0xDC01, 0x10);
    assert_eq!(eff3.video, VideoSignal::TriggerLightPen);
    assert_eq!(cia.prev_lp, 0x10);
}

#[test]
fn serial_data_write_raises_source_bit_three() {
    let mut cia = CIA::new(true);
    cia.write_register(0xDC0D, 0x88); // enable source bit 3
    let eff = cia.write_register(0xDC0C, 0x42);
    assert_eq!(cia.sdr, 0x42);
    assert_eq!(eff.cpu, CpuCallback::TriggerInterruptRequest);
    assert_eq!(eff.shadow, None); // the serial register has no memory shadow
    assert_eq!(cia.irq_ctl.pending, 0x88);
}

#[test]
fn control_write_stages_but_selects_input_at_once() {
    let mut cia = CIA::new(true);
    let eff = cia.write_register(0xDC0F, 0x41); // run + cascade select for timer B
    assert_eq!(eff.shadow, Some((0xDC0F, 0x41)));
    assert_eq!(cia.timer_b.ctrl, 0); // nothing applied yet
    assert!(cia.timer_b.has_new_ctrl);
    assert_eq!(cia.timer_b.new_ctrl, 0x41);
    assert!(cia.timer_b.cnt_ta_underflow); // input selection is immediate
    assert!(!cia.timer_b.is_cnt_phi2);
    cia.update();
    assert_eq!(cia.timer_b.ctrl, 0x41);
    assert_eq!(cia.timer_b.state, TimerState::WaitCount);
}

#[test]
fn timer_value_reads_back_by_halves() {
    let mut cia = CIA::new(true);
    cia.timer_a.value = 0xBEEF;
    cia.timer_b.value = 0x1234;
    assert_eq!(cia.read_register(0xDC04).0, 0xEF);
    assert_eq!(cia.read_register(0xDC05).0, 0xBE);
    assert_eq!(cia.read_register(0xDC06).0, 0x34);
    assert_eq!(cia.read_register(0xDC07).0, 0x12);
}

#[test]
fn direction_and_control_reads() {
    let mut cia = CIA::new(true);
    cia.write_register(0xDC02, 0xAA);
    cia.write_register(0xDC03, 0x55);
    assert_eq!(cia.read_register(0xDC02).0, 0xAA);
    assert_eq!(cia.read_register(0xDC03).0, 0x55);
    cia.timer_a.ctrl = 0x19;
    cia.timer_b.ctrl = 0x51;
    assert_eq!(cia.read_register(0xDC0E).0, 0x19);
    assert_eq!(cia.read_register(0xDC0F).0, 0x51);
    cia.sdr = 0x77;
    assert_eq!(cia.read_register(0xDC0C).0, 0x77);
}

#[test]
fn tod_writes_route_to_alarm_when_selected() {
    let mut cia = CIA::new(true);
    cia.timer_b.ctrl = 0x80;
    cia.write_register(0xDC0B, 0xFF);
    assert_eq!(cia.tod.alarm_hour, 0x9F); // masked to the documented width
    assert_eq!(cia.tod.hour, 0);
    cia.timer_b.ctrl = 0x00;
    cia.write_register(0xDC0B, 0xFF);
    assert_eq!(cia.tod.hour, 0x9F);
    cia.write_register(0xDC08, 0xFF);
    assert_eq!(cia.tod.dsec, 0x0F);
    cia.write_register(0xDC09, 0xFF);
    assert_eq!(cia.tod.sec, 0x7F);
    cia.write_register(0xDC0A, 0xFF);
    assert_eq!(cia.tod.min, 0x7F);
}

#[test]
fn key_rows_feed_the_matrix_readback() {
    // Scanning through the row accessors: press a key (clear a bit) in row 5,
    // select column 5, and see it on port B.
    let mut cia = CIA::new(true);
    assert_eq!(cia.key_matrix.row(5), 0xFF);
    cia.key_matrix.set_row(5, 0xFB);
    assert_eq!(cia.key_matrix.row(5), 0xFB);
    assert_eq!(cia.key_matrix.row(4), 0xFF);
    cia.write_register(0xDC02, 0xFF);
    cia.write_register(0xDC00, !0x20); // drive bit 5 low
    let (v, _) = cia.read_register(0xDC01);
    assert_eq!(v, 0xFB);
}

#[test]
fn chip_reset_restores_power_on_state() {
    let mut cia = CIA::new(true);
    cia.write_register(0xDC00, 0x12);
    cia.write_register(0xDC04, 0x77);
    cia.write_register(0xDC0D, 0x9F);
    cia.timer_a.state = TimerState::Count;
    cia.tod.sec = 0x33;
    cia.reset();
    assert_eq!(cia, CIA::new(true));
}
