use crate::fault::Fault;
use crate::register::Register;
use crate::state::ArchitecturalState;
use vstd::prelude::*;

verus! {

/// Mask carving out the reserved stack area at the bottom of memory: fuzzed
/// stack pointers are confined to it, kept even, so that stack traffic
/// cannot stray outside the primed window.
pub const STACK_MASK: u32 = 1024 - 16;

/// The 16-bit opcode values below `n` whose bits selected by the mask equal
/// the match pattern, ascending.
pub open spec fn opcode_seq(mask: u32, matching: u32, n: int) -> Seq<u16>
    decreases n,
{
    if n <= 0 {
        Seq::empty()
    } else {
        opcode_seq(mask, matching, n - 1) + (if (((n - 1) as u32) & mask) == matching {
            seq![((n - 1) as u16)]
        } else {
            Seq::empty()
        })
    }
}

/// The enumeration is exactly the matching values: every listed opcode is
/// below `n` and matches the mask/match pair, the listing is strictly
/// ascending, and every matching value below `n` is listed.
pub proof fn lemma_opcode_seq_exactly_matching(mask: u32, matching: u32, n: int)
    requires
        0 <= n <= 0x10000,
    ensures
        forall|j: int|
            0 <= j < opcode_seq(mask, matching, n).len() ==> (#[trigger] opcode_seq(
                mask,
                matching,
                n,
            )[j] as int) < n && ((opcode_seq(mask, matching, n)[j] as u32) & mask) == matching,
        forall|j: int, k: int|
            0 <= j < k < opcode_seq(mask, matching, n).len() ==> opcode_seq(mask, matching, n)[j]
                < opcode_seq(mask, matching, n)[k],
        forall|v: u32|
            v < n && (v & mask) == matching ==> opcode_seq(mask, matching, n).contains(
                (v as u16),
            ),
    decreases n,
{
    if n > 0 {
        lemma_opcode_seq_exactly_matching(mask, matching, n - 1);
        let s0 = opcode_seq(mask, matching, n - 1);
        let s1 = opcode_seq(mask, matching, n);
        assert forall|v: u32| v < n && (v & mask) == matching implies s1.contains(
            (v as u16),
        ) by {
            if v < n - 1 {
                let j = choose|j: int| 0 <= j < s0.len() && s0[j] == (v as u16);
                assert(s1[j] == (v as u16));
            } else {
                assert(((n - 1) as u32) == v);
                assert(s1[s1.len() - 1] == (v as u16));
            }
        }
    }
}

/// Enumerates every candidate opcode for one mask/match pair: all 16-bit
/// values whose masked bits equal the match pattern, in ascending order.
pub fn opcodes(mask: u32, matching: u32) -> (r: Vec<u16>)
    ensures
        r@ == opcode_seq(mask, matching, 0x10000),
{
    let mut r: Vec<u16> = Vec::new();
    let mut v: u32 = 0;
    while v < 0x10000
        invariant
            v <= 0x10000,
            r@ == opcode_seq(mask, matching, v as int),
        decreases 0x10000 - v,
    {
        if (v & mask) == matching {
            r.push(v as u16);
        }
        proof {
            assert(r@ =~= opcode_seq(mask, matching, v as int + 1));
        }
        v = v + 1;
    }
    r
}

/// The compared fields of a snapshot as one mathematical value: general
/// registers, program counter, status register, inactive supervisor stack
/// pointer, inactive user stack pointer.
pub open spec fn state_model(s: ArchitecturalState) -> (Seq<u32>, u32, u32, u32, u32) {
    (s.dar@, s.pc, s.sr, s.inactive_ssp, s.inactive_usp)
}

/// The state every fuzz round starts from: data registers zero, address
/// registers and both stack pointers inside the reserved stack area, and
/// the status register in supervisor mode with interrupts masked.
pub open spec fn default_model(pc: u32) -> (Seq<u32>, u32, u32, u32, u32) {
    (
        Seq::new(16, |i: int| if i < 8 { 0u32 } else { 0x128u32 }),
        pc,
        0x2700u32,
        0x128u32,
        0x128u32,
    )
}

/// What one fuzz assignment does to a state: data registers take the raw
/// pattern; address registers take it masked into the addressable memory
/// window; the stack-pointer registers take it masked into the reserved
/// stack area; the status register takes the raw pattern. Any other
/// register is not pushed by the synchronizer and is rejected.
pub open spec fn assign_model(
    m: (Seq<u32>, u32, u32, u32, u32),
    reg: Register,
    pattern: u32,
    mem_mask: u32,
) -> Result<(Seq<u32>, u32, u32, u32, u32), Register> {
    match reg {
        Register::D0 => Ok((m.0.update(0, pattern), m.1, m.2, m.3, m.4)),
        Register::D1 => Ok((m.0.update(1, pattern), m.1, m.2, m.3, m.4)),
        Register::D2 => Ok((m.0.update(2, pattern), m.1, m.2, m.3, m.4)),
        Register::D3 => Ok((m.0.update(3, pattern), m.1, m.2, m.3, m.4)),
        Register::D4 => Ok((m.0.update(4, pattern), m.1, m.2, m.3, m.4)),
        Register::D5 => Ok((m.0.update(5, pattern), m.1, m.2, m.3, m.4)),
        Register::D6 => Ok((m.0.update(6, pattern), m.1, m.2, m.3, m.4)),
        Register::D7 => Ok((m.0.update(7, pattern), m.1, m.2, m.3, m.4)),
        Register::A0 => Ok((m.0.update(8, pattern & mem_mask), m.1, m.2, m.3, m.4)),
        Register::A1 => Ok((m.0.update(9, pattern & mem_mask), m.1, m.2, m.3, m.4)),
        Register::A2 => Ok((m.0.update(10, pattern & mem_mask), m.1, m.2, m.3, m.4)),
        Register::A3 => Ok((m.0.update(11, pattern & mem_mask), m.1, m.2, m.3, m.4)),
        Register::A4 => Ok((m.0.update(12, pattern & mem_mask), m.1, m.2, m.3, m.4)),
        Register::A5 => Ok((m.0.update(13, pattern & mem_mask), m.1, m.2, m.3, m.4)),
        Register::A6 => Ok((m.0.update(14, pattern & mem_mask), m.1, m.2, m.3, m.4)),
        Register::A7 => Ok((m.0.update(15, pattern & ((STACK_MASK + 8) as u32)), m.1, m.2, m.3, m.4)),
        Register::USP => Ok((m.0, m.1, m.2, m.3, pattern & ((STACK_MASK + 8) as u32))),
        Register::SR => Ok((m.0, m.1, pattern, m.3, m.4)),
        _ => Err(reg),
    }
}

/// Folds a whole run of fuzz assignments over a state, stopping at the
/// first unsupported register.
pub open spec fn fold_assignments(
    m: (Seq<u32>, u32, u32, u32, u32),
    assignments: Seq<(Register, u32)>,
    mem_mask: u32,
) -> Result<(Seq<u32>, u32, u32, u32, u32), Register>
    decreases assignments.len(),
{
    if assignments.len() == 0 {
        Ok(m)
    } else {
        match assign_model(m, assignments[0].0, assignments[0].1, mem_mask) {
            Ok(m2) => fold_assignments(m2, assignments.drop_first(), mem_mask),
            Err(r) => Err(r),
        }
    }
}

/// Builds the starting state of a fuzz round at the given probe address,
/// exactly as `default_model` states it.
pub fn default_fuzz_state(pc: u32) -> (r: ArchitecturalState)
    ensures
        r.wf(),
        state_model(r) == default_model(pc),
{
    let mut dar: Vec<u32> = Vec::new();
    let mut i: usize = 0;
    while i < 16
        invariant
            i <= 16,
            dar@ == default_model(0).0.take(i as int),
        decreases 16 - i,
    {
        if i < 8 {
            dar.push(0);
        } else {
            dar.push(0x128);
        }
        proof {
            assert(dar@ =~= default_model(0).0.take(i as int + 1));
        }
        i = i + 1;
    }
    proof {
        assert(dar@ =~= default_model(pc).0);
    }
    ArchitecturalState { dar, pc, sr: 0x2700, inactive_ssp: 0x128, inactive_usp: 0x128 }
}

/// Applies one fuzz assignment to a state, exactly as `assign_model` states
/// it: the register's new value is the pattern constrained to the window
/// the register may point into, and an unsupported register is a fatal
/// fuzz-input fault that leaves the state untouched.
pub fn apply_assignment(
    state: &mut ArchitecturalState,
    reg: Register,
    pattern: u32,
    mem_mask: u32,
) -> (r: Result<(), Fault>)
    requires
        old(state).wf(),
    ensures
        final(state).wf(),
        match assign_model(state_model(*old(state)), reg, pattern, mem_mask) {
            Ok(m) => r == Ok::<(), Fault>(()) && state_model(*final(state)) == m,
            Err(bad) => r == Err::<(), Fault>(Fault::UnsupportedRegister(bad)) && *final(state)
                == *old(state),
        },
    {
        match reg {
            Register::D0 => state.dar.set(0, pattern),
            Register::D1 => state.dar.set(1, pattern),
            Register::D2 => state.dar.set(2, pattern),
            Register::D3 => state.dar.set(3, pattern),
            Register::D4 => state.dar.set(4, pattern),
            Register::D5 => state.dar.set(5, pattern),
            Register::D6 => state.dar.set(6, pattern),
            Register::D7 => state.dar.set(7, pattern),
            Register::A0 => state.dar.set(8, pattern & mem_mask),
            Register::A1 => state.dar.set(9, pattern & mem_mask),
            Register::A2 => state.dar.set(10, pattern & mem_mask),
            Register::A3 => state.dar.set(11, pattern & mem_mask),
            Register::A4 => state.dar.set(12, pattern & mem_mask),
            Register::A5 => state.dar.set(13, pattern & mem_mask),
            Register::A6 => state.dar.set(14, pattern & mem_mask),
            Register::A7 => state.dar.set(15, pattern & (STACK_MASK + 8)),
            Register::USP => state.inactive_usp = pattern & (STACK_MASK + 8),
            Register::SR => state.sr = pattern,
            _ => {
                return Err(Fault::UnsupportedRegister(reg));
            },
        }
        Ok(())
    }

/// Builds the state one fuzz round starts from: the default state at the
/// probe address with the generated assignments folded over it in order, or
/// the fault naming the first register the harness cannot push.
pub fn build_fuzz_state(pc: u32, assignments: &Vec<(Register, u32)>, mem_mask: u32) -> (r: Result<
    ArchitecturalState,
    Fault,
>)
    ensures
        ({
            let folded = fold_assignments(default_model(pc), assignments@, mem_mask);
            match folded {
                Ok(m) => r matches Ok(s) && s.wf() && state_model(s) == m,
                Err(bad) => r == Err::<ArchitecturalState, Fault>(Fault::UnsupportedRegister(bad)),
            }
        }),
{
    let mut state = default_fuzz_state(pc);
    let mut i: usize = 0;
    proof {
        assert(assignments@.skip(0) =~= assignments@);
    }
    while i < assignments.len()
        invariant
            i <= assignments@.len(),
            state.wf(),
            fold_assignments(default_model(pc), assignments@, mem_mask) == fold_assignments(
                state_model(state),
                assignments@.skip(i as int),
                mem_mask,
            ),
        decreases assignments@.len() - i,
    {
        let (reg, pattern) = assignments[i];
        let ghost pre = state_model(state);
        proof {
            assert(assignments@.skip(i as int)[0] == assignments@[i as int]);
            assert(assignments@.skip(i as int).drop_first() =~= assignments@.skip(i as int + 1));
        }
        match apply_assignment(&mut state, reg, pattern, mem_mask) {
            Ok(_) => (),
            Err(f) => {
                return Err(f);
            },
        }
        i = i + 1;
    }
    proof {
        assert(assignments@.skip(assignments@.len() as int) =~= Seq::<(Register, u32)>::empty());
    }
    Ok(state)
}

} // verus!
