use crate::register::Register;
use crate::state::ArchitecturalState;
use vstd::prelude::*;

verus! {

/// The general register pushed or pulled at position `i` of the register
/// file: D0..D7 then A0..A7.
pub open spec fn general_register(i: int) -> Register {
    if i == 0 {
        Register::D0
    } else if i == 1 {
        Register::D1
    } else if i == 2 {
        Register::D2
    } else if i == 3 {
        Register::D3
    } else if i == 4 {
        Register::D4
    } else if i == 5 {
        Register::D5
    } else if i == 6 {
        Register::D6
    } else if i == 7 {
        Register::D7
    } else if i == 8 {
        Register::A0
    } else if i == 9 {
        Register::A1
    } else if i == 10 {
        Register::A2
    } else if i == 11 {
        Register::A3
    } else if i == 12 {
        Register::A4
    } else if i == 13 {
        Register::A5
    } else if i == 14 {
        Register::A6
    } else {
        Register::A7
    }
}

/// The exact sequence of register writes that brings the reference engine
/// into the model state: the user stack pointer first, then the status
/// register (whose privilege bit decides which stack pointer becomes
/// active), then the first fifteen general registers. Register 15, the
/// active stack pointer, is never set directly — it is governed by the
/// privilege bit and the two pointers already pushed.
pub open spec fn push_plan_spec(s: ArchitecturalState) -> Seq<(Register, u32)> {
    Seq::new(
        17,
        |i: int|
            if i == 0 {
                (Register::USP, s.usp_spec())
            } else if i == 1 {
                (Register::SR, s.sr)
            } else {
                (general_register(i - 2), s.dar@[i - 2])
            },
    )
}

/// The general register at one position of the register file.
pub fn general_register_at(i: usize) -> (r: Register)
    requires
        i < 16,
    ensures
        r == general_register(i as int),
{
    match i {
        0 => Register::D0,
        1 => Register::D1,
        2 => Register::D2,
        3 => Register::D3,
        4 => Register::D4,
        5 => Register::D5,
        6 => Register::D6,
        7 => Register::D7,
        8 => Register::A0,
        9 => Register::A1,
        10 => Register::A2,
        11 => Register::A3,
        12 => Register::A4,
        13 => Register::A5,
        14 => Register::A6,
        _ => Register::A7,
    }
}

/// Computes the ordered register writes that push a model snapshot into the
/// reference engine, as `push_plan_spec` states them. The caller performs
/// each write through the engine's register-set entry in this order.
pub fn register_push_plan(state: &ArchitecturalState) -> (plan: Vec<(Register, u32)>)
    requires
        state.wf(),
    ensures
        plan@ == push_plan_spec(*state),
{
    let mut plan: Vec<(Register, u32)> = Vec::new();
    plan.push((Register::USP, state.usp()));
    plan.push((Register::SR, state.sr));
    let mut i: usize = 0;
    while i < 15
        invariant
            i <= 15,
            state.wf(),
            plan@ == push_plan_spec(*state).take(2 + i as int),
        decreases 15 - i,
    {
        plan.push((general_register_at(i), state.dar[i]));
        proof {
            assert(plan@ =~= push_plan_spec(*state).take(2 + i as int + 1));
        }
        i = i + 1;
    }
    proof {
        assert(plan@ =~= push_plan_spec(*state));
    }
    plan
}

/// Assembles the transient snapshot of the reference engine's state after
/// execution, from the values pulled out of it: all sixteen general
/// registers, the program counter, the status register, and the user stack
/// pointer. The inactive supervisor stack pointer is not exposed by the
/// read-back and is carried over from the state the round started from.
pub fn state_from_readback(
    prev: &ArchitecturalState,
    dar: Vec<u32>,
    pc: u32,
    sr: u32,
    usp: u32,
) -> (r: ArchitecturalState)
    requires
        prev.wf(),
        dar@.len() == 16,
    ensures
        r.wf(),
        r.dar@ == dar@,
        r.pc == pc,
        r.sr == sr,
        r.inactive_usp == usp,
        r.inactive_ssp == prev.inactive_ssp,
{
    ArchitecturalState {
        dar,
        pc,
        sr,
        inactive_ssp: prev.inactive_ssp,
        inactive_usp: usp,
    }
}

/// Round-trip law: push a snapshot into the engine with `register_push_plan`
/// and read it straight back with `state_from_readback`. If the engine hands
/// back exactly the values that were pushed — the sixteen general registers,
/// the program counter, the status register, and the user stack pointer from
/// the head of the plan, which is what the premises of this lemma say — then
/// the snapshot agrees with the source state on every field the equivalence
/// checker compares: all general registers, the program counter, the status
/// register, and both resolved stack-pointer variants.
pub proof fn lemma_sync_roundtrip(s: ArchitecturalState, t: ArchitecturalState)
    requires
        s.wf(),
        t.wf(),
        t.dar@ == s.dar@,
        t.pc == s.pc,
        t.sr == s.sr,
        t.inactive_usp == push_plan_spec(s)[0].1,
        t.inactive_ssp == s.inactive_ssp,
    ensures
        t.ssp_spec() == s.ssp_spec(),
        t.usp_spec() == s.usp_spec(),
        forall|i: int| 0 <= i < 16 ==> t.dar@[i] == s.dar@[i],
{
}

} // verus!
