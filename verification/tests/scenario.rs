use m68k_harness::bus::Harness;
use m68k_harness::op::Operation;
use m68k_harness::space::AddressSpace;

// The bus-side half of an add-decimal round: program counter at 0x40 and
// the instruction bytes [0xC1, 0x01, 0x00, 0x00] primed there. The opaque
// engine's only bus operation is the one long fetch at the program counter,
// observed through the shim exactly once, with the fetched value assembled
// big-endian and tagged supervisor-program.
#[test]
fn abcd_rr_round_trace() {
    let pc = 0x40;
    let mut h = Harness::new();

    // start of a round: undo, clear, prime the windows, write the reset
    // vectors, then discard the reset artifacts
    let mut first = vec![0xaau8; 1024];
    first[pc as usize] = 0xc1;
    first[pc as usize + 1] = 0x01;
    first[pc as usize + 2] = 0x00;
    first[pc as usize + 3] = 0x00;
    let last = vec![0xaau8; 1024];
    h.begin_round(&first, &last, 0x128, pc);
    h.clear_log();

    // the engine fetches the instruction
    let fetched = h.cpu_read_long(pc);
    assert_eq!(0xc101_0000, fetched);

    let ops = h.get_ops();
    assert_eq!(1, ops.len());
    assert_eq!(
        Operation::ReadLong(AddressSpace::SupervisorProgram, pc, 0xc101_0000),
        ops[0]
    );
}

// The round preparation leaves the store fully accounted for: writes of the
// previous round undone to sentinel, the windows primed, the vectors in
// place, and the log holding exactly the two vector writes.
#[test]
fn begin_round_accounts_for_every_byte() {
    let mut h = Harness::new();
    // a previous round leaves a write in the middle of memory
    h.cpu_write_long(0x8000, 0x0102_0304);

    let first = vec![0x11u8; 1024];
    let last = vec![0x22u8; 1024];
    h.begin_round(&first, &last, 0x0000_0128, 0x0000_0040);

    let ops = h.get_ops();
    assert_eq!(2, ops.len());
    assert_eq!(
        Operation::WriteLong(AddressSpace::SupervisorProgram, 0, 0x128),
        ops[0]
    );
    assert_eq!(
        Operation::WriteLong(AddressSpace::SupervisorProgram, 4, 0x40),
        ops[1]
    );
    h.clear_log();

    assert_eq!(0x0000_0128, h.cpu_read_long(0)); // vector: initial stack pointer
    assert_eq!(0x0000_0040, h.cpu_read_long(4)); // vector: initial program counter
    assert_eq!(0x11, h.cpu_read_byte(8)); // primed first window
    assert_eq!(0x11, h.cpu_read_byte(1023));
    assert_eq!(0x22, h.cpu_read_byte(0xff_fc00)); // primed last window
    assert_eq!(0x22, h.cpu_read_byte(0xff_ffff));
    assert_eq!(0xaaaa_aaaa, h.cpu_read_long(0x8000)); // undone to sentinel
    assert_eq!(0xaa, h.cpu_read_byte(0x4000)); // untouched middle memory
}

// Two consecutive rounds through the harness: the second round starts from
// a store with every trace of the first round undone, so its log and its
// memory are indistinguishable from a first run.
#[test]
fn second_round_starts_clean() {
    let mut h = Harness::new();

    h.cpu_write_long(0x128, 0xdead_beef);
    h.cpu_write_word(0x12c, 0x1234);
    let first_ops = h.get_ops().len();
    assert_eq!(2, first_ops);

    // next round
    h.undo_writes();
    h.clear_log();
    assert_eq!(0, h.op_count());
    assert_eq!(0xaaaa_aaaa, h.cpu_read_long(0x128));
    assert_eq!(0xaaaa, h.cpu_read_word(0x12c));
}
