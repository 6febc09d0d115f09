use m68k_harness::fault::Fault;
use m68k_harness::fuzz::{apply_assignment, build_fuzz_state, default_fuzz_state, opcodes};
use m68k_harness::register::Register;

// 0xf1f8 masks out the two register fields of a register-to-register
// opcode; 0xc100 is the add-decimal register-to-register pattern.
const MASK_OUT_X_Y: u32 = 0xf1f8;
const OP_ABCD_8_RR: u32 = 0xc100;

#[test]
fn opcodes_from_mask_and_matching() {
    let mut opseq = Vec::new();
    opseq.extend(opcodes(MASK_OUT_X_Y, OP_ABCD_8_RR));
    assert_eq!(64, opseq.len());
    let mut unique = opseq.clone();
    unique.sort();
    unique.dedup();
    assert_eq!(64, unique.len());
    if let Some(&min) = opseq.iter().min() {
        assert_eq!(0b1100000100000000, min);
    }
    if let Some(&max) = opseq.iter().max() {
        assert_eq!(0b1100111100000111, max);
    }
    for code in opseq.iter() {
        assert_eq!(OP_ABCD_8_RR, (*code as u32) & OP_ABCD_8_RR);
    }
}

#[test]
fn opcodes_ascending_and_matching_exactly() {
    let v = opcodes(0xffff, 0x4e71);
    assert_eq!(vec![0x4e71u16], v);
    let all = opcodes(0, 0);
    assert_eq!(0x10000, all.len());
    assert!(all.windows(2).all(|w| w[0] < w[1]));
    let none = opcodes(0xffff, 0x1_0000 - 1);
    assert_eq!(vec![0xffffu16], none);
}

#[test]
fn default_state_layout() {
    let s = default_fuzz_state(0x40);
    assert_eq!(0x40, s.pc);
    assert_eq!(0x2700, s.sr);
    for i in 0..8 {
        assert_eq!(0, s.dar[i]);
        assert_eq!(0x128, s.dar[8 + i]);
    }
    assert_eq!(0x128, s.inactive_ssp);
    assert_eq!(0x128, s.inactive_usp);
}

#[test]
fn assignments_are_constrained_to_windows() {
    let mem_mask = (2u32 << 24) - 2; // keep addresses even
    let mut s = default_fuzz_state(0x40);
    assert_eq!(Ok(()), apply_assignment(&mut s, Register::D3, 0xffff_ffff, mem_mask));
    assert_eq!(0xffff_ffff, s.dar[3]);
    assert_eq!(Ok(()), apply_assignment(&mut s, Register::A2, 0xffff_ffff, mem_mask));
    assert_eq!(0x01ff_fffe, s.dar[10]);
    assert_eq!(Ok(()), apply_assignment(&mut s, Register::A7, 0xffff_ffff, mem_mask));
    assert_eq!(0x3f8, s.dar[15]);
    assert_eq!(Ok(()), apply_assignment(&mut s, Register::USP, 0xffff_ffff, mem_mask));
    assert_eq!(0x3f8, s.inactive_usp);
    assert_eq!(Ok(()), apply_assignment(&mut s, Register::SR, 0x001f, mem_mask));
    assert_eq!(0x001f, s.sr);
}

#[test]
fn unsupported_register_is_rejected() {
    let mut s = default_fuzz_state(0x40);
    assert_eq!(
        Err(Fault::UnsupportedRegister(Register::PC)),
        apply_assignment(&mut s, Register::PC, 1, 0xffff_ffff)
    );
    // the state is left untouched
    assert_eq!(0x40, s.pc);
}

#[test]
fn build_state_folds_assignments_in_order() {
    let mem_mask = (2u32 << 24) - 1;
    let assignments = vec![
        (Register::D0, 0x16u32),
        (Register::D1, 0x26),
        (Register::D0, 0x99),
        (Register::A0, 0xffff_ffff),
    ];
    let s = build_fuzz_state(0x40, &assignments, mem_mask).unwrap();
    assert_eq!(0x99, s.dar[0]); // the later assignment wins
    assert_eq!(0x26, s.dar[1]);
    assert_eq!(0x01ff_ffff, s.dar[8]);

    let bad = vec![(Register::D0, 1u32), (Register::VBR, 2)];
    assert_eq!(
        Err(Fault::UnsupportedRegister(Register::VBR)),
        build_fuzz_state(0x40, &bad, mem_mask)
    );
}
