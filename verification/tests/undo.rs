use m68k_harness::bus::Harness;

#[test]
fn undo_restores_sentinel_at_every_written_byte() {
    let mut h = Harness::new();
    h.cpu_write_byte(0x300, 0x11);
    h.cpu_write_word(0x500, 0x2233);
    h.cpu_write_long(0x700, 0x4455_6677);
    h.undo_writes();
    assert_eq!(0xaa, h.cpu_read_byte(0x300));
    assert_eq!(0xaaaa, h.cpu_read_word(0x500));
    assert_eq!(0xaaaa_aaaa, h.cpu_read_long(0x700));
}

#[test]
fn undo_handles_overlapping_writes() {
    let mut h = Harness::new();
    h.cpu_write_long(0x100, 0x0102_0304);
    h.cpu_write_word(0x102, 0x0506);
    h.cpu_write_byte(0x103, 0x07);
    h.undo_writes();
    assert_eq!(0xaaaa_aaaa, h.cpu_read_long(0x100));
}

#[test]
fn undo_ignores_reads_and_leaves_primed_memory() {
    let mut h = Harness::new();
    let mut first = vec![0u8; 1024];
    first[0x40] = 0xc1;
    first[0x41] = 0x01;
    let last = vec![0u8; 1024];
    h.prime_windows(&first, &last);
    h.cpu_read_word(0x40);
    h.undo_writes();
    // the read was not a write, so the primed bytes stay in place
    assert_eq!(0xc101, h.cpu_read_word(0x40));
}

#[test]
fn undo_is_idempotent() {
    let mut h = Harness::new();
    h.cpu_write_long(0xff_fff0, 0x1234_5678);
    h.undo_writes();
    h.undo_writes();
    assert_eq!(0xaaaa_aaaa, h.cpu_read_long(0xff_fff0));
}

#[test]
fn round_boundary_restores_a_clean_store() {
    // one round's writes, then the start of the next round: undo and clear
    let mut h = Harness::new();
    h.cpu_write_word(0x128, 0xbeef);
    h.cpu_write_byte(0x12a, 0x01);
    h.undo_writes();
    h.clear_log();
    assert_eq!(0, h.op_count());
    assert_eq!(0xaaaa, h.cpu_read_word(0x128));
    assert_eq!(0xaa, h.cpu_read_byte(0x12a));
}
