use crate::fault::Fault;
use crate::op::Operation;
use crate::oplog::{log_append, OperationLog};
use crate::space::{classify_fc, space_for_fc, AddressSpace};
use vstd::prelude::*;

verus! {

/// Size of the addressable bus window: addresses wrap modulo this span
/// rather than faulting on range.
pub const BUS_SPAN: u32 = 16 * 1024 * 1024;

/// Size of the backing store: the full bus window plus slack so that a word
/// or long access starting at the very top of the window stays in bounds.
pub const MEM_SIZE: usize = 16 * 1024 * 1024 + 16;

/// The byte pattern unused memory is filled with, distinguishable from any
/// deliberately primed program or data value, so stray accesses show up as
/// divergence.
pub const SENTINEL: u8 = 0xaa;

/// Size of the window at each end of the backing store that is primed from
/// the model engine's memory before a round; priming the whole store would
/// cost far more than the handful of bytes a single instruction can reach.
pub const WINDOW: usize = 1024;

/// First address of the primed window at the top of the bus range.
pub const LAST_WINDOW_BASE: usize = 16 * 1024 * 1024 - 1024;

/// A bus address masked to the addressable window.
pub open spec fn masked(a: u32) -> u32 {
    a % BUS_SPAN
}

/// The big-endian word stored at address `a`.
pub open spec fn be_word(mem: Seq<u8>, a: int) -> u16 {
    ((mem[a] as int) * 0x100 + (mem[a + 1] as int)) as u16
}

/// The big-endian long stored at address `a`.
pub open spec fn be_long(mem: Seq<u8>, a: int) -> u32 {
    ((mem[a] as int) * 0x1000000 + (mem[a + 1] as int) * 0x10000 + (mem[a + 2] as int) * 0x100
        + (mem[a + 3] as int)) as u32
}

/// Byte `k` (big-endian, `k` in 0..2) of a word value.
pub open spec fn word_byte(v: u32, k: int) -> u8 {
    if k == 0 {
        (((v / 0x100) % 0x100) as u8)
    } else {
        ((v % 0x100) as u8)
    }
}

/// Byte `k` (big-endian, `k` in 0..4) of a long value.
pub open spec fn long_byte(v: u32, k: int) -> u8 {
    if k == 0 {
        (((v / 0x1000000) % 0x100) as u8)
    } else if k == 1 {
        (((v / 0x10000) % 0x100) as u8)
    } else if k == 2 {
        (((v / 0x100) % 0x100) as u8)
    } else {
        ((v % 0x100) as u8)
    }
}

/// Whether a write operation covers byte address `b` of the backing store.
pub open spec fn write_covers(op: Operation, b: int) -> bool {
    match op {
        Operation::WriteByte(_, a, _) => masked(a) as int == b,
        Operation::WriteWord(_, a, _) => masked(a) <= b < masked(a) as int + 2,
        Operation::WriteLong(_, a, _) => masked(a) <= b < masked(a) as int + 4,
        _ => false,
    }
}

/// Whether any write operation in the log covers byte address `b`.
pub open spec fn covered(ops: Seq<Operation>, b: int) -> bool {
    exists|j: int| 0 <= j < ops.len() && #[trigger] write_covers(ops[j], b)
}

/// The single shared resource the reference engine talks to: the sentinel
/// backing store, the operation log, and the address space most recently
/// signalled out-of-band. The reference engine's callback surface maps one
/// to one onto the `cpu_*` methods.
pub struct Harness {
    memory: Vec<u8>,
    log: OperationLog,
    current_space: AddressSpace,
}

impl Harness {
    /// The backing store's contents.
    pub closed spec fn mem(self) -> Seq<u8> {
        self.memory@
    }

    /// The recorded bus operations, oldest first.
    pub closed spec fn ops(self) -> Seq<Operation> {
        self.log.ops()
    }

    /// The address space bus operations are currently tagged with.
    pub closed spec fn space(self) -> AddressSpace {
        self.current_space
    }

    /// The backing store spans the whole bus window and the log is within
    /// its capacity.
    pub closed spec fn wf(self) -> bool {
        self.memory@.len() == MEM_SIZE && self.log.wf()
    }

    /// A fresh harness: all memory at the sentinel value, an empty log, and
    /// supervisor program space selected.
    pub fn new() -> (r: Harness)
        ensures
            r.wf(),
            r.mem().len() == MEM_SIZE,
            forall|b: int| 0 <= b < MEM_SIZE ==> r.mem()[b] == SENTINEL,
            r.ops() == Seq::<Operation>::empty(),
            r.space() == AddressSpace::SupervisorProgram,
    {
        let mut memory: Vec<u8> = Vec::new();
        while memory.len() < MEM_SIZE
            invariant
                memory@.len() <= MEM_SIZE,
                forall|b: int| 0 <= b < memory@.len() ==> memory@[b] == SENTINEL,
            decreases MEM_SIZE - memory@.len(),
        {
            memory.push(SENTINEL);
        }
        Harness { memory, log: OperationLog::new(), current_space: AddressSpace::SupervisorProgram }
    }

    /// Selects the address space for subsequent bus operations from the
    /// engine's out-of-band function-code signal. An unrecognized code is a
    /// fatal contract violation: no space is assigned and the fault is
    /// returned for the caller to abort on.
    pub fn cpu_set_fc(&mut self, fc: u32) -> (r: Result<(), Fault>)
        requires
            old(self).wf(),
        ensures
            final(self).wf(),
            final(self).mem() == old(self).mem(),
            final(self).ops() == old(self).ops(),
            match space_for_fc(fc) {
                Some(s) => r == Ok::<(), Fault>(()) && final(self).space() == s,
                None => r == Err::<(), Fault>(Fault::UnknownFunctionCode(fc)) && final(self).space()
                    == old(self).space(),
            },
    {
        match classify_fc(fc) {
            Some(s) => {
                self.current_space = s;
                Ok(())
            },
            None => Err(Fault::UnknownFunctionCode(fc)),
        }
    }

    /// Reads the byte at the masked address, recording the access with the
    /// current address space before returning the value.
    pub fn cpu_read_byte(&mut self, address: u32) -> (value: u32)
        requires
            old(self).wf(),
        ensures
            final(self).wf(),
            final(self).mem() == old(self).mem(),
            final(self).space() == old(self).space(),
            value == old(self).mem()[masked(address) as int] as u32,
            final(self).ops() == log_append(
                old(self).ops(),
                Operation::ReadByte(
                    old(self).space(),
                    masked(address),
                    old(self).mem()[masked(address) as int],
                ),
            ),
    {
        let a = (address % BUS_SPAN) as usize;
        let b = self.memory[a];
        self.log.record(Operation::ReadByte(self.current_space, address % BUS_SPAN, b));
        b as u32
    }

    /// Reads the big-endian word at the masked address, recording the access
    /// with the current address space before returning the value.
    pub fn cpu_read_word(&mut self, address: u32) -> (value: u32)
        requires
            old(self).wf(),
        ensures
            final(self).wf(),
            final(self).mem() == old(self).mem(),
            final(self).space() == old(self).space(),
            value == be_word(old(self).mem(), masked(address) as int) as u32,
            final(self).ops() == log_append(
                old(self).ops(),
                Operation::ReadWord(
                    old(self).space(),
                    masked(address),
                    be_word(old(self).mem(), masked(address) as int),
                ),
            ),
    {
        let a = (address % BUS_SPAN) as usize;
        let b0 = self.memory[a];
        let b1 = self.memory[a + 1];
        let value: u16 = (b0 as u16) * 0x100 + (b1 as u16);
        self.log.record(Operation::ReadWord(self.current_space, address % BUS_SPAN, value));
        value as u32
    }

    /// Reads the big-endian long at the masked address, recording the access
    /// with the current address space before returning the value.
    pub fn cpu_read_long(&mut self, address: u32) -> (value: u32)
        requires
            old(self).wf(),
        ensures
            final(self).wf(),
            final(self).mem() == old(self).mem(),
            final(self).space() == old(self).space(),
            value == be_long(old(self).mem(), masked(address) as int),
            final(self).ops() == log_append(
                old(self).ops(),
                Operation::ReadLong(
                    old(self).space(),
                    masked(address),
                    be_long(old(self).mem(), masked(address) as int),
                ),
            ),
    {
        let a = (address % BUS_SPAN) as usize;
        let b0 = self.memory[a];
        let b1 = self.memory[a + 1];
        let b2 = self.memory[a + 2];
        let b3 = self.memory[a + 3];
        let value: u32 = (b0 as u32) * 0x1000000 + (b1 as u32) * 0x10000 + (b2 as u32) * 0x100
            + (b3 as u32);
        self.log.record(Operation::ReadLong(self.current_space, address % BUS_SPAN, value));
        value
    }

    /// Stores the low byte of the value at the masked address, recording the
    /// access with the current address space alongside the mutation.
    pub fn cpu_write_byte(&mut self, address: u32, value: u32)
        requires
            old(self).wf(),
        ensures
            final(self).wf(),
            final(self).space() == old(self).space(),
            final(self).mem() == old(self).mem().update(masked(address) as int, (value % 0x100) as u8),
            final(self).ops() == log_append(
                old(self).ops(),
                Operation::WriteByte(old(self).space(), masked(address), value),
            ),
    {
        let a = (address % BUS_SPAN) as usize;
        self.log.record(Operation::WriteByte(self.current_space, address % BUS_SPAN, value));
        self.memory.set(a, (value % 0x100) as u8);
    }

    /// Stores the low word of the value big-endian at the masked address,
    /// recording the access with the current address space alongside the
    /// mutation.
    pub fn cpu_write_word(&mut self, address: u32, value: u32)
        requires
            old(self).wf(),
        ensures
            final(self).wf(),
            final(self).space() == old(self).space(),
            final(self).mem() == old(self).mem().update(
                masked(address) as int,
                word_byte(value, 0),
            ).update(masked(address) as int + 1, word_byte(value, 1)),
            final(self).ops() == log_append(
                old(self).ops(),
                Operation::WriteWord(old(self).space(), masked(address), value),
            ),
    {
        let a = (address % BUS_SPAN) as usize;
        self.log.record(Operation::WriteWord(self.current_space, address % BUS_SPAN, value));
        self.memory.set(a, ((value / 0x100) % 0x100) as u8);
        self.memory.set(a + 1, (value % 0x100) as u8);
    }

    /// Stores the value big-endian at the masked address, recording the
    /// access with the current address space alongside the mutation.
    pub fn cpu_write_long(&mut self, address: u32, value: u32)
        requires
            old(self).wf(),
        ensures
            final(self).wf(),
            final(self).space() == old(self).space(),
            final(self).mem() == old(self).mem().update(
                masked(address) as int,
                long_byte(value, 0),
            ).update(masked(address) as int + 1, long_byte(value, 1)).update(
                masked(address) as int + 2,
                long_byte(value, 2),
            ).update(masked(address) as int + 3, long_byte(value, 3)),
            final(self).ops() == log_append(
                old(self).ops(),
                Operation::WriteLong(old(self).space(), masked(address), value),
            ),
    {
        let a = (address % BUS_SPAN) as usize;
        self.log.record(Operation::WriteLong(self.current_space, address % BUS_SPAN, value));
        self.memory.set(a, ((value / 0x1000000) % 0x100) as u8);
        self.memory.set(a + 1, ((value / 0x10000) % 0x100) as u8);
        self.memory.set(a + 2, ((value / 0x100) % 0x100) as u8);
        self.memory.set(a + 3, (value % 0x100) as u8);
    }
    /// Writes the sentinel pattern over `width` bytes starting at the masked
    /// address, without recording an operation; used only by the undo engine,
    /// whose own pass is immediately followed by a log clear.
    fn restore_sentinel(&mut self, address: u32, width: usize)
        requires
            old(self).wf(),
            1 <= width <= 4,
        ensures
            final(self).wf(),
            final(self).ops() == old(self).ops(),
            final(self).space() == old(self).space(),
            final(self).mem().len() == old(self).mem().len(),
            forall|b: int|
                0 <= b < old(self).mem().len() ==> final(self).mem()[b] == (if masked(address) <= b
                    < masked(address) + width {
                    SENTINEL
                } else {
                    old(self).mem()[b]
                }),
    {
        let a = (address % BUS_SPAN) as usize;
        let mut k: usize = 0;
        while k < width
            invariant
                self.wf(),
                k <= width <= 4,
                a == masked(address),
                self.ops() == old(self).ops(),
                self.space() == old(self).space(),
                self.mem().len() == old(self).mem().len(),
                forall|b: int|
                    0 <= b < old(self).mem().len() ==> self.mem()[b] == (if a <= b < a + k {
                        SENTINEL
                    } else {
                        old(self).mem()[b]
                    }),
            decreases width - k,
        {
            self.memory.set(a + k, SENTINEL);
            k = k + 1;
        }
    }

    /// The undo engine: replays the log in order and writes the sentinel
    /// pattern back over every byte touched by a recorded write, at the
    /// operation's own width. Reads are ignored, the log itself is left
    /// alone, and no byte outside the logged writes is disturbed — which is
    /// exactly why this is far cheaper than resetting the whole store, and
    /// correct only as long as the log captured every write.
    pub fn undo_writes(&mut self)
        requires
            old(self).wf(),
        ensures
            final(self).wf(),
            final(self).ops() == old(self).ops(),
            final(self).space() == old(self).space(),
            final(self).mem().len() == old(self).mem().len(),
            forall|b: int|
                0 <= b < old(self).mem().len() ==> final(self).mem()[b] == (if covered(
                    old(self).ops(),
                    b,
                ) {
                    SENTINEL
                } else {
                    old(self).mem()[b]
                }),
    {
        let n = self.log.len();
        let mut i: usize = 0;
        while i < n
            invariant
                self.wf(),
                i <= n,
                n == self.ops().len(),
                self.ops() == old(self).ops(),
                self.space() == old(self).space(),
                self.mem().len() == old(self).mem().len(),
                forall|b: int|
                    0 <= b < old(self).mem().len() ==> self.mem()[b] == (if covered(
                        old(self).ops().take(i as int),
                        b,
                    ) {
                        SENTINEL
                    } else {
                        old(self).mem()[b]
                    }),
            decreases n - i,
        {
            let op = self.log.entry(i);
            match op {
                Operation::WriteByte(_, addr, _) => self.restore_sentinel(addr, 1),
                Operation::WriteWord(_, addr, _) => self.restore_sentinel(addr, 2),
                Operation::WriteLong(_, addr, _) => self.restore_sentinel(addr, 4),
                _ => (),
            }
            proof {
                assert forall|b: int| 0 <= b < old(self).mem().len() implies self.mem()[b] == (
                if covered(old(self).ops().take(i as int + 1), b) {
                    SENTINEL
                } else {
                    old(self).mem()[b]
                }) by {
                    lemma_covered_take_step(old(self).ops(), i as int, b);
                }
            }
            i = i + 1;
        }
        proof {
            assert(old(self).ops().take(n as int) =~= old(self).ops());
        }
    }

    /// Primes the first and last window of the backing store with the model
    /// engine's view of the same regions, leaving everything between
    /// untouched. This re-establishes the two regions an instruction and the
    /// reset sequence can legitimately reach, without paying for a
    /// full-store copy.
    pub fn prime_windows(&mut self, first: &Vec<u8>, last: &Vec<u8>)
        requires
            old(self).wf(),
            first@.len() == WINDOW,
            last@.len() == WINDOW,
        ensures
            final(self).wf(),
            final(self).ops() == old(self).ops(),
            final(self).space() == old(self).space(),
            final(self).mem().len() == old(self).mem().len(),
            forall|b: int| 0 <= b < WINDOW ==> final(self).mem()[b] == first@[b],
            forall|b: int|
                0 <= b < WINDOW ==> final(self).mem()[LAST_WINDOW_BASE + b] == last@[b],
            forall|b: int|
                WINDOW <= b < LAST_WINDOW_BASE ==> final(self).mem()[b] == old(self).mem()[b],
            forall|b: int|
                LAST_WINDOW_BASE + WINDOW <= b < old(self).mem().len() ==> final(self).mem()[b]
                    == old(self).mem()[b],
    {
        let mut k: usize = 0;
        while k < WINDOW
            invariant
                self.wf(),
                k <= WINDOW,
                first@.len() == WINDOW,
                self.ops() == old(self).ops(),
                self.space() == old(self).space(),
                self.mem().len() == old(self).mem().len(),
                forall|b: int| 0 <= b < k ==> self.mem()[b] == first@[b],
                forall|b: int| k <= b < old(self).mem().len() ==> self.mem()[b] == old(self).mem()[b],
            decreases WINDOW - k,
        {
            self.memory.set(k, first[k]);
            k = k + 1;
        }
        let mut k: usize = 0;
        while k < WINDOW
            invariant
                self.wf(),
                k <= WINDOW,
                last@.len() == WINDOW,
                self.ops() == old(self).ops(),
                self.space() == old(self).space(),
                self.mem().len() == old(self).mem().len(),
                forall|b: int| 0 <= b < WINDOW ==> self.mem()[b] == first@[b],
                forall|b: int| 0 <= b < k ==> self.mem()[LAST_WINDOW_BASE + b] == last@[b],
                forall|b: int| WINDOW <= b < LAST_WINDOW_BASE ==> self.mem()[b] == old(self).mem()[b],
                forall|b: int|
                    LAST_WINDOW_BASE + k <= b < old(self).mem().len() ==> self.mem()[b] == old(
                        self,
                    ).mem()[b],
            decreases WINDOW - k,
        {
            self.memory.set(LAST_WINDOW_BASE + k, last[k]);
            k = k + 1;
        }
    }

    /// Writes the reset vector entries — the initial supervisor stack
    /// pointer at address 0 and the initial program counter at address 4 —
    /// so the reference engine's own reset sequence picks them up. Both
    /// writes go through the bus shim and are therefore recorded; the caller
    /// discards them together with the reset artifacts.
    pub fn write_reset_vectors(&mut self, ssp: u32, pc: u32)
        requires
            old(self).wf(),
        ensures
            final(self).wf(),
            final(self).space() == old(self).space(),
            final(self).mem() == old(self).mem().update(0, long_byte(ssp, 0)).update(
                1,
                long_byte(ssp, 1),
            ).update(2, long_byte(ssp, 2)).update(3, long_byte(ssp, 3)).update(
                4,
                long_byte(pc, 0),
            ).update(5, long_byte(pc, 1)).update(6, long_byte(pc, 2)).update(7, long_byte(pc, 3)),
            final(self).ops() == log_append(
                log_append(old(self).ops(), Operation::WriteLong(old(self).space(), 0, ssp)),
                Operation::WriteLong(old(self).space(), 4, pc),
            ),
    {
        self.cpu_write_long(0, ssp);
        self.cpu_write_long(4, pc);
        proof {
            assert(masked(0) == 0);
            assert(masked(4) == 4);
        }
    }

    /// The memory-side preparation of one verification round, in the
    /// protocol's order: undo the previous round's writes, clear the log,
    /// prime the first and last window from the model engine's memory, and
    /// write the reset vectors — the initial supervisor stack pointer and
    /// program counter — over the start of the primed region. Afterwards the
    /// log holds exactly the two vector writes, and every byte of the store
    /// is accounted for: vectors, primed windows, and in between either the
    /// sentinel (where the previous round wrote) or the untouched old byte.
    ///
    /// Undo and selective priming work as one unit: replaying only the
    /// logged writes is enough exactly because everything outside the
    /// primed windows is otherwise still sentinel.
    pub fn begin_round(&mut self, first: &Vec<u8>, last: &Vec<u8>, ssp: u32, pc: u32)
        requires
            old(self).wf(),
            first@.len() == WINDOW,
            last@.len() == WINDOW,
        ensures
            final(self).wf(),
            final(self).space() == old(self).space(),
            final(self).ops() == seq![
                Operation::WriteLong(old(self).space(), 0, ssp),
                Operation::WriteLong(old(self).space(), 4, pc),
            ],
            final(self).mem().len() == old(self).mem().len(),
            forall|b: int| 0 <= b < 4 ==> final(self).mem()[b] == long_byte(ssp, b),
            forall|b: int| 4 <= b < 8 ==> final(self).mem()[b] == long_byte(pc, b - 4),
            forall|b: int| 8 <= b < WINDOW ==> final(self).mem()[b] == first@[b],
            forall|b: int|
                0 <= b < WINDOW ==> final(self).mem()[LAST_WINDOW_BASE + b] == last@[b],
            forall|b: int|
                between_windows(b, old(self).mem().len() as int) ==> final(self).mem()[b] == (
                if covered(old(self).ops(), b) {
                    SENTINEL
                } else {
                    old(self).mem()[b]
                }),
    {
        self.undo_writes();
        self.clear_log();
        self.prime_windows(first, last);
        self.write_reset_vectors(ssp, pc);
        proof {
            assert(self.ops() =~= seq![
                Operation::WriteLong(old(self).space(), 0, ssp),
                Operation::WriteLong(old(self).space(), 4, pc),
            ]);
        }
    }

    /// Empties the operation log. Used at the start of a round, and again
    /// right after the controlled reset sequence, whose vector reads are
    /// artifacts of the reset rather than behavior of the instruction under
    /// test.
    pub fn clear_log(&mut self)
        requires
            old(self).wf(),
        ensures
            final(self).wf(),
            final(self).mem() == old(self).mem(),
            final(self).space() == old(self).space(),
            final(self).ops() == Seq::<Operation>::empty(),
    {
        self.log.clear();
    }

    /// How many operations the log holds.
    pub fn op_count(&self) -> (r: usize)
        ensures
            r == self.ops().len(),
    {
        self.log.len()
    }

    /// A copy of the recorded operations, oldest first.
    pub fn get_ops(&self) -> (r: Vec<Operation>)
        ensures
            r@ == self.ops(),
    {
        self.log.get_ops()
    }

    /// Long-branch notification from the reference engine: a no-op for this
    /// harness.
    pub fn cpu_long_branch(&mut self)
        ensures
            *final(self) == *old(self),
    {
    }

    /// Instruction-boundary notification from the reference engine: a no-op
    /// for this harness.
    pub fn cpu_instr_callback(&mut self)
        ensures
            *final(self) == *old(self),
    {
    }

    /// An externally triggered reset outside the controlled sequence is a
    /// fatal contract violation; the returned fault names it and the harness
    /// is untouched.
    pub fn cpu_pulse_reset(&mut self) -> (r: Fault)
        ensures
            *final(self) == *old(self),
            r == Fault::UnexpectedReset,
    {
        Fault::UnexpectedReset
    }

    /// An interrupt acknowledgment is a fatal contract violation for a
    /// harness that runs single instructions with interrupts masked; the
    /// returned fault names the level and the harness is untouched.
    pub fn cpu_irq_ack(&mut self, level: i32) -> (r: Fault)
        ensures
            *final(self) == *old(self),
            r == Fault::UnexpectedInterrupt(level),
    {
        Fault::UnexpectedInterrupt(level)
    }
}

/// Whether a byte address lies between the primed windows — the region a
/// round neither primes nor writes vectors into.
pub open spec fn between_windows(b: int, len: int) -> bool {
    WINDOW <= b < LAST_WINDOW_BASE || LAST_WINDOW_BASE + WINDOW <= b < len
}

/// Round isolation: undoing logged writes instead of resetting the whole
/// store is correct only together with the priming of the two windows. This
/// lemma makes the coupling explicit: whenever the store a round leaves
/// behind is off the sentinel only at bytes its log covers — which holds as
/// long as every write went through the shim — the store the next round
/// starts from is fully determined by `begin_round`'s contract: sentinel
/// everywhere between the windows, indistinguishable from a first round.
pub proof fn lemma_round_isolation(pre: Harness, post: Harness)
    requires
        pre.mem().len() == post.mem().len(),
        // begin_round's contract for the region between the windows
        forall|b: int|
            between_windows(b, pre.mem().len() as int) ==> post.mem()[b] == (if covered(
                pre.ops(),
                b,
            ) {
                SENTINEL
            } else {
                pre.mem()[b]
            }),
        // the previous round's log captured every write that strayed off
        // the sentinel
        forall|b: int|
            between_windows(b, pre.mem().len() as int) ==> (pre.mem()[b] == SENTINEL || covered(
                pre.ops(),
                b,
            )),
    ensures
        forall|b: int|
            between_windows(b, pre.mem().len() as int) ==> post.mem()[b] == SENTINEL,
{
}

/// Extending the log by one operation extends the set of write-covered
/// bytes by exactly that operation's own bytes.
proof fn lemma_covered_take_step(ops: Seq<Operation>, i: int, b: int)
    requires
        0 <= i < ops.len(),
    ensures
        covered(ops.take(i + 1), b) <==> (covered(ops.take(i), b) || write_covers(ops[i], b)),
{
    let t1 = ops.take(i + 1);
    let t0 = ops.take(i);
    if covered(t1, b) {
        let j = choose|j: int| 0 <= j < t1.len() && #[trigger] write_covers(t1[j], b);
        if j < i {
            assert(t0[j] == t1[j]);
            assert(covered(t0, b));
        } else {
            assert(t1[j] == ops[i]);
        }
    }
    if covered(t0, b) {
        let j = choose|j: int| 0 <= j < t0.len() && #[trigger] write_covers(t0[j], b);
        assert(t1[j] == t0[j]);
        assert(covered(t1, b));
    }
    if write_covers(ops[i], b) {
        assert(write_covers(t1[i], b));
        assert(covered(t1, b));
    }
}

} // verus!
