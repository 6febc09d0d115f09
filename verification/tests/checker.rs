use m68k_harness::check::{compare_cores, Divergence};
use m68k_harness::op::Operation;
use m68k_harness::space::AddressSpace;
use m68k_harness::state::ArchitecturalState;

fn state(dar: Vec<u32>, pc: u32, sr: u32) -> ArchitecturalState {
    ArchitecturalState { dar, pc, sr, inactive_ssp: 0x600, inactive_usp: 0x500 }
}

#[test]
fn equal_outcomes_pass() {
    let a = state(vec![3u32; 16], 0x42, 0x2700);
    let b = state(vec![3u32; 16], 0x42, 0x2700);
    let trace = vec![Operation::ReadLong(AddressSpace::SupervisorProgram, 0x40, 0xc101_0000)];
    let verdict = compare_cores(&a, &b, 14, 14, &trace, &trace.clone());
    assert!(verdict.is_empty());
}

#[test]
fn mirrored_assignment_same_result_passes() {
    // the same resulting state reached with the register assignments given
    // in either order must produce a clean verdict
    let mut dar = vec![0u32; 16];
    dar[0] = 0x16;
    dar[1] = 0x42;
    let a = state(dar.clone(), 0x42, 0x2700);
    let b = state(dar, 0x42, 0x2700);
    let verdict = compare_cores(&a, &b, 6, 6, &Vec::new(), &Vec::new());
    assert!(verdict.is_empty());
}

#[test]
fn cycle_mismatch_reported() {
    let a = state(vec![0u32; 16], 0, 0);
    let b = state(vec![0u32; 16], 0, 0);
    let verdict = compare_cores(&a, &b, 4, 8, &Vec::new(), &Vec::new());
    assert_eq!(vec![Divergence::Cycles(4, 8)], verdict);
}

#[test]
fn register_mismatches_surface_together() {
    let mut da = vec![0u32; 16];
    let mut db = vec![0u32; 16];
    da[1] = 0x27;
    db[1] = 0x44;
    da[9] = 0x100;
    db[9] = 0x200;
    let a = state(da, 0, 0x2700);
    let b = state(db, 0, 0x2700);
    let verdict = compare_cores(&a, &b, 0, 0, &Vec::new(), &Vec::new());
    assert_eq!(
        vec![
            Divergence::GeneralRegister(1, 0x27, 0x44),
            Divergence::GeneralRegister(9, 0x100, 0x200),
        ],
        verdict
    );
}

#[test]
fn stack_pointer_resolution_feeds_comparison() {
    // same register 15, but a different privilege bit resolves different
    // stack-pointer variants
    let mut da = vec![0u32; 16];
    da[15] = 0x128;
    let db = da.clone();
    let a = state(da, 0, 0x2700);
    let b = state(db, 0, 0x0700);
    let verdict = compare_cores(&a, &b, 0, 0, &Vec::new(), &Vec::new());
    assert!(verdict.contains(&Divergence::StatusRegister(0x2700, 0x0700)));
    assert!(verdict.contains(&Divergence::SupervisorStack(0x128, 0x600)));
    assert!(verdict.contains(&Divergence::UserStack(0x500, 0x128)));
}

#[test]
fn trace_length_mismatch_reported() {
    let a = state(vec![0u32; 16], 0, 0);
    let b = state(vec![0u32; 16], 0, 0);
    let ta = vec![Operation::ReadByte(AddressSpace::UserData, 1, 2)];
    let tb = Vec::new();
    let verdict = compare_cores(&a, &b, 0, 0, &ta, &tb);
    assert_eq!(vec![Divergence::TraceLength(1, 0)], verdict);
}

#[test]
fn first_differing_trace_entry_reported() {
    let a = state(vec![0u32; 16], 0, 0);
    let b = state(vec![0u32; 16], 0, 0);
    let shared = Operation::ReadWord(AddressSpace::SupervisorProgram, 0x40, 0xd278);
    let ta = vec![
        shared,
        Operation::WriteWord(AddressSpace::SupervisorData, 0xfc, 0x0040),
        Operation::WriteWord(AddressSpace::SupervisorData, 0xfe, 0x0107),
    ];
    let tb = vec![
        shared,
        Operation::WriteWord(AddressSpace::SupervisorData, 0xfc, 0x0040),
        Operation::WriteWord(AddressSpace::SupervisorData, 0xfe, 0x0109),
    ];
    let verdict = compare_cores(&a, &b, 0, 0, &ta, &tb);
    assert_eq!(vec![Divergence::TraceEntry(2, ta[2], tb[2])], verdict);
}

#[test]
fn matching_exception_frames_pass() {
    // both engines take the same bus-error path: matching vector fetches
    // and stack-frame writes yield a clean verdict
    let mut dar = vec![0u32; 16];
    dar[15] = 0xf2;
    let a = state(dar.clone(), 0x200, 0x2700);
    let b = state(dar, 0x200, 0x2700);
    let frame = vec![
        Operation::ReadWord(AddressSpace::SupervisorProgram, 0x40, 0xd278),
        Operation::WriteWord(AddressSpace::SupervisorData, 0xfc, 0x0044),
        Operation::WriteLong(AddressSpace::SupervisorData, 0xf8, 0x0107),
        Operation::ReadLong(AddressSpace::SupervisorData, 0x0c, 0x200),
    ];
    let verdict = compare_cores(&a, &b, 50, 50, &frame, &frame.clone());
    assert!(verdict.is_empty());
}

#[test]
fn verdict_is_deterministic() {
    // comparing the same outcomes twice yields the identical verdict
    let mut da = vec![0u32; 16];
    da[3] = 9;
    let a = state(da, 0x40, 0x2700);
    let b = state(vec![0u32; 16], 0x44, 0x2700);
    let ta = vec![Operation::ReadByte(AddressSpace::UserProgram, 5, 6)];
    let tb = vec![Operation::ReadByte(AddressSpace::UserProgram, 5, 7)];
    let first = compare_cores(&a, &b, 1, 2, &ta, &tb);
    let second = compare_cores(&a, &b, 1, 2, &ta, &tb);
    assert_eq!(first, second);
    assert!(!first.is_empty());
}
