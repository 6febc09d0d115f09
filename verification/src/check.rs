use crate::op::Operation;
use crate::state::ArchitecturalState;
use vstd::prelude::*;

verus! {

/// One observed point of divergence between the two engines, naming the
/// field or trace position and both observed values, first engine first.
#[derive(Clone, Copy, Debug, PartialEq, Eq, Structural)]
pub enum Divergence {
    Cycles(i32, i32),
    ProgramCounter(u32, u32),
    StatusRegister(u32, u32),
    SupervisorStack(u32, u32),
    UserStack(u32, u32),
    GeneralRegister(usize, u32, u32),
    TraceLength(usize, usize),
    TraceEntry(usize, Operation, Operation),
}

/// The divergences among the first `n` general registers, in register
/// order; every register position is visited so that multiple divergences
/// surface together.
pub open spec fn reg_divergences(a: ArchitecturalState, b: ArchitecturalState, n: int) -> Seq<
    Divergence,
>
    decreases n,
{
    if n <= 0 {
        Seq::empty()
    } else {
        reg_divergences(a, b, n - 1) + (if a.dar@[n - 1] != b.dar@[n - 1] {
            seq![
                Divergence::GeneralRegister((n - 1) as usize, a.dar@[n - 1], b.dar@[n - 1]),
            ]
        } else {
            Seq::empty()
        })
    }
}

/// The first position at or after `i` where two equally long traces differ,
/// as a divergence; empty when the rest of the traces agree.
pub open spec fn trace_entry_divergence(
    ta: Seq<Operation>,
    tb: Seq<Operation>,
    i: int,
) -> Seq<Divergence>
    decreases ta.len() - i,
{
    if i < 0 || i >= ta.len() || i >= tb.len() {
        Seq::empty()
    } else if ta[i] != tb[i] {
        seq![Divergence::TraceEntry(i as usize, ta[i], tb[i])]
    } else {
        trace_entry_divergence(ta, tb, i + 1)
    }
}

/// How two bus-operation traces diverge: by length, or else at the first
/// position whose entries differ.
pub open spec fn trace_divergences(ta: Seq<Operation>, tb: Seq<Operation>) -> Seq<Divergence> {
    if ta.len() != tb.len() {
        seq![Divergence::TraceLength(ta.len() as usize, tb.len() as usize)]
    } else {
        trace_entry_divergence(ta, tb, 0)
    }
}

/// The full divergence report for one round, in a fixed deterministic
/// order: cycle counts, program counter, status register, the two resolved
/// stack pointers, every general register in turn, then the traces.
pub open spec fn divergences(
    a: ArchitecturalState,
    b: ArchitecturalState,
    cycles_a: i32,
    cycles_b: i32,
    ta: Seq<Operation>,
    tb: Seq<Operation>,
) -> Seq<Divergence> {
    (if cycles_a != cycles_b {
        seq![Divergence::Cycles(cycles_a, cycles_b)]
    } else {
        Seq::<Divergence>::empty()
    }) + (if a.pc != b.pc {
        seq![Divergence::ProgramCounter(a.pc, b.pc)]
    } else {
        Seq::<Divergence>::empty()
    }) + (if a.sr != b.sr {
        seq![Divergence::StatusRegister(a.sr, b.sr)]
    } else {
        Seq::<Divergence>::empty()
    }) + (if a.ssp_spec() != b.ssp_spec() {
        seq![Divergence::SupervisorStack(a.ssp_spec(), b.ssp_spec())]
    } else {
        Seq::<Divergence>::empty()
    }) + (if a.usp_spec() != b.usp_spec() {
        seq![Divergence::UserStack(a.usp_spec(), b.usp_spec())]
    } else {
        Seq::<Divergence>::empty()
    }) + reg_divergences(a, b, 16) + trace_divergences(ta, tb)
}

/// Full equivalence of one round's outcomes: equal cycle counts, equal
/// architectural state on every compared field, and element-wise equal
/// traces.
pub open spec fn equivalent(
    a: ArchitecturalState,
    b: ArchitecturalState,
    cycles_a: i32,
    cycles_b: i32,
    ta: Seq<Operation>,
    tb: Seq<Operation>,
) -> bool {
    &&& cycles_a == cycles_b
    &&& a.pc == b.pc
    &&& a.sr == b.sr
    &&& a.ssp_spec() == b.ssp_spec()
    &&& a.usp_spec() == b.usp_spec()
    &&& forall|i: int| 0 <= i < 16 ==> a.dar@[i] == b.dar@[i]
    &&& ta == tb
}

proof fn lemma_reg_divergences_empty(a: ArchitecturalState, b: ArchitecturalState, n: int)
    requires
        0 <= n <= 16,
    ensures
        reg_divergences(a, b, n).len() == 0 <==> (forall|i: int|
            0 <= i < n ==> a.dar@[i] == b.dar@[i]),
    decreases n,
{
    if n > 0 {
        lemma_reg_divergences_empty(a, b, n - 1);
    }
}

proof fn lemma_trace_entry_divergence_empty(ta: Seq<Operation>, tb: Seq<Operation>, i: int)
    requires
        ta.len() == tb.len(),
        0 <= i <= ta.len(),
    ensures
        trace_entry_divergence(ta, tb, i).len() == 0 <==> (forall|j: int|
            i <= j < ta.len() ==> ta[j] == tb[j]),
    decreases ta.len() - i,
{
    if i < ta.len() {
        lemma_trace_entry_divergence_empty(ta, tb, i + 1);
    }
}

/// The checker's verdict is sound and complete: the divergence report for a
/// round is empty exactly when the two outcomes are fully equivalent.
pub proof fn lemma_empty_verdict_iff_equivalent(
    a: ArchitecturalState,
    b: ArchitecturalState,
    cycles_a: i32,
    cycles_b: i32,
    ta: Seq<Operation>,
    tb: Seq<Operation>,
)
    ensures
        divergences(a, b, cycles_a, cycles_b, ta, tb).len() == 0 <==> equivalent(
            a,
            b,
            cycles_a,
            cycles_b,
            ta,
            tb,
        ),
{
    lemma_reg_divergences_empty(a, b, 16);
    if ta.len() == tb.len() {
        lemma_trace_entry_divergence_empty(ta, tb, 0);
        if trace_entry_divergence(ta, tb, 0).len() == 0 {
            assert(ta =~= tb);
        }
    }
}

/// Compares the two engines' final architectural states, cycle counts and
/// bus-operation traces, and reports every observed divergence in the fixed
/// order `divergences` states — so the verdict, and in particular whether
/// the round passes, is a function of the compared outcomes alone.
pub fn compare_cores(
    a: &ArchitecturalState,
    b: &ArchitecturalState,
    cycles_a: i32,
    cycles_b: i32,
    ta: &Vec<Operation>,
    tb: &Vec<Operation>,
) -> (r: Vec<Divergence>)
    requires
        a.wf(),
        b.wf(),
    ensures
        r@ == divergences(*a, *b, cycles_a, cycles_b, ta@, tb@),
        r@.len() == 0 <==> equivalent(*a, *b, cycles_a, cycles_b, ta@, tb@),
{
    let ghost p_cycles: Seq<Divergence> = if cycles_a != cycles_b {
        seq![Divergence::Cycles(cycles_a, cycles_b)]
    } else {
        Seq::empty()
    };
    let ghost p_pc: Seq<Divergence> = if a.pc != b.pc {
        seq![Divergence::ProgramCounter(a.pc, b.pc)]
    } else {
        Seq::empty()
    };
    let ghost p_sr: Seq<Divergence> = if a.sr != b.sr {
        seq![Divergence::StatusRegister(a.sr, b.sr)]
    } else {
        Seq::empty()
    };
    let ghost p_ssp: Seq<Divergence> = if a.ssp_spec() != b.ssp_spec() {
        seq![Divergence::SupervisorStack(a.ssp_spec(), b.ssp_spec())]
    } else {
        Seq::empty()
    };
    let ghost p_usp: Seq<Divergence> = if a.usp_spec() != b.usp_spec() {
        seq![Divergence::UserStack(a.usp_spec(), b.usp_spec())]
    } else {
        Seq::empty()
    };

    let mut r: Vec<Divergence> = Vec::new();
    if cycles_a != cycles_b {
        r.push(Divergence::Cycles(cycles_a, cycles_b));
    }
    proof {
        assert(r@ =~= p_cycles);
    }
    if a.pc != b.pc {
        r.push(Divergence::ProgramCounter(a.pc, b.pc));
    }
    proof {
        assert(r@ =~= p_cycles + p_pc);
    }
    if a.sr != b.sr {
        r.push(Divergence::StatusRegister(a.sr, b.sr));
    }
    proof {
        assert(r@ =~= p_cycles + p_pc + p_sr);
    }
    let ssp_a = a.ssp();
    let ssp_b = b.ssp();
    if ssp_a != ssp_b {
        r.push(Divergence::SupervisorStack(ssp_a, ssp_b));
    }
    proof {
        assert(r@ =~= p_cycles + p_pc + p_sr + p_ssp);
    }
    let usp_a = a.usp();
    let usp_b = b.usp();
    if usp_a != usp_b {
        r.push(Divergence::UserStack(usp_a, usp_b));
    }
    proof {
        assert(r@ =~= p_cycles + p_pc + p_sr + p_ssp + p_usp);
    }
    let ghost head = r@;

    let mut i: usize = 0;
    while i < 16
        invariant
            i <= 16,
            a.wf(),
            b.wf(),
            r@ == head + reg_divergences(*a, *b, i as int),
        decreases 16 - i,
    {
        let va = a.dar[i];
        let vb = b.dar[i];
        if va != vb {
            r.push(Divergence::GeneralRegister(i, va, vb));
        }
        proof {
            assert(r@ =~= head + reg_divergences(*a, *b, i as int + 1));
        }
        i = i + 1;
    }
    let ghost head2 = r@;

    if ta.len() != tb.len() {
        r.push(Divergence::TraceLength(ta.len(), tb.len()));
        proof {
            assert(r@ =~= head2 + trace_divergences(ta@, tb@));
        }
    } else {
        let mut j: usize = 0;
        let mut done: bool = false;
        while !done && j < ta.len()
            invariant
                ta@.len() == tb@.len(),
                j <= ta@.len(),
                !done ==> r@ == head2 && trace_entry_divergence(ta@, tb@, 0)
                    == trace_entry_divergence(ta@, tb@, j as int),
                done ==> r@ == head2 + trace_entry_divergence(ta@, tb@, 0),
            decreases ta@.len() - j + (if done {
                0int
            } else {
                1int
            }),
        {
            let oa = ta[j];
            let ob = tb[j];
            if oa != ob {
                r.push(Divergence::TraceEntry(j, oa, ob));
                done = true;
                proof {
                    assert(trace_entry_divergence(ta@, tb@, j as int) == seq![
                        Divergence::TraceEntry(j as usize, ta@[j as int], tb@[j as int]),
                    ]);
                    assert(r@ =~= head2 + trace_entry_divergence(ta@, tb@, 0));
                }
            } else {
                proof {
                    assert(trace_entry_divergence(ta@, tb@, j as int) == trace_entry_divergence(
                        ta@,
                        tb@,
                        j as int + 1,
                    ));
                }
                j = j + 1;
            }
        }
        proof {
            if !done {
                assert(trace_entry_divergence(ta@, tb@, j as int) =~= Seq::<Divergence>::empty());
                assert(r@ =~= head2 + trace_divergences(ta@, tb@));
            }
        }
    }
    proof {
        assert(r@ =~= divergences(*a, *b, cycles_a, cycles_b, ta@, tb@));
        lemma_empty_verdict_iff_equivalent(*a, *b, cycles_a, cycles_b, ta@, tb@);
    }
    r
}

} // verus!
