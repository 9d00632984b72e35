use zpc::InterruptController;

fn summary_matches_enabled_pending(ic: &InterruptController) -> bool {
    (ic.pending & ic.mask & 0x1F == 0) || (ic.pending & 0x80 != 0)
}

#[test]
fn raise_enabled_source_sets_summary_and_fires() {
    let mut ic = InterruptController::new();
    ic.write_mask(0x81); // enable source bit 0
    let fired = ic.raise(0x01);
    assert!(fired);
    assert_eq!(ic.pending, 0x81);
    assert!(summary_matches_enabled_pending(&ic));
}

#[test]
fn raise_disabled_source_latches_without_summary() {
    let mut ic = InterruptController::new();
    let fired = ic.raise(0x02);
    assert!(!fired);
    assert_eq!(ic.pending, 0x02);
    assert_eq!(ic.pending & 0x80, 0);
    assert!(summary_matches_enabled_pending(&ic));
}

#[test]
fn write_mask_enable_fires_on_pending_source() {
    // A source latched while disabled fires as soon as a mask write enables
    // it: the summary bit is re-derived after every mask write.
    let mut ic = InterruptController::new();
    ic.raise(0x04);
    assert_eq!(ic.pending, 0x04);
    let fired = ic.write_mask(0x84);
    assert!(fired);
    assert_eq!(ic.mask, 0x04);
    assert_eq!(ic.pending, 0x84);
    assert!(summary_matches_enabled_pending(&ic));
}

#[test]
fn write_mask_clear_bits() {
    let mut ic = InterruptController::new();
    ic.write_mask(0x83); // enable bits 0 and 1
    assert_eq!(ic.mask, 0x03);
    ic.write_mask(0x01); // bit 7 clear: disable bit 0
    assert_eq!(ic.mask, 0x02);
}

#[test]
fn read_and_clear_acknowledges() {
    let mut ic = InterruptController::new();
    ic.write_mask(0x81);
    ic.raise(0x01);
    let got = ic.read_and_clear();
    assert_eq!(got, 0x81);
    assert_eq!(ic.pending, 0);
    assert_eq!(ic.mask, 0x01);
    assert!(summary_matches_enabled_pending(&ic));
}

#[test]
fn summary_bit_tracks_enabled_pending_across_operations() {
    // The summary bit covers every enabled pending source after each raise,
    // mask write and read; it stays latched when the source is later masked
    // off, until the pending byte is read.
    let mut ic = InterruptController::new();
    ic.raise(0x01);
    assert!(summary_matches_enabled_pending(&ic));
    ic.write_mask(0x81);
    assert!(summary_matches_enabled_pending(&ic));
    ic.raise(0x02);
    assert!(summary_matches_enabled_pending(&ic));
    ic.write_mask(0x01); // disable the only enabled source
    assert_eq!(ic.pending & 0x80, 0x80); // the summary bit stays latched
    ic.read_and_clear();
    assert!(summary_matches_enabled_pending(&ic));
    assert_eq!(ic.pending, 0);
}
