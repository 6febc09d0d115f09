use crate::op::Operation;
use vstd::prelude::*;

verus! {

/// Fixed maximum number of operations the log retains for one round. A
/// single instruction performs only a handful of bus operations, so hitting
/// this bound indicates a driver defect rather than normal operation.
pub const LOG_CAPACITY: usize = 128;

/// What appending one operation does to the log's contents: the operation is
/// kept, in order, while the log is below capacity; a full log is left
/// exactly as it was.
pub open spec fn log_append(s: Seq<Operation>, op: Operation) -> Seq<Operation> {
    if s.len() < LOG_CAPACITY {
        s.push(op)
    } else {
        s
    }
}

/// Appending a whole sequence of operations, first to last.
pub open spec fn log_append_all(s: Seq<Operation>, ops: Seq<Operation>) -> Seq<Operation>
    decreases ops.len(),
{
    if ops.len() == 0 {
        s
    } else {
        log_append_all(log_append(s, ops[0]), ops.drop_first())
    }
}

/// Bounded capacity: appending any run of operations keeps the earliest
/// ones, up to capacity, and drops the later ones without disturbing what
/// was already recorded.
pub proof fn lemma_bounded_capacity(s: Seq<Operation>, ops: Seq<Operation>)
    requires
        s.len() <= LOG_CAPACITY,
    ensures
        log_append_all(s, ops) == s + ops.take(if ops.len() <= LOG_CAPACITY - s.len() {
            ops.len() as int
        } else {
            LOG_CAPACITY - s.len()
        }),
    decreases ops.len(),
{
    let kept: int = if ops.len() <= LOG_CAPACITY - s.len() {
        ops.len() as int
    } else {
        LOG_CAPACITY - s.len()
    };
    if ops.len() == 0 {
        assert(log_append_all(s, ops) =~= s + ops.take(kept));
    } else if s.len() == LOG_CAPACITY {
        lemma_bounded_capacity(s, ops.drop_first());
        assert(log_append_all(s, ops) =~= s + ops.take(kept));
    } else {
        lemma_bounded_capacity(s.push(ops[0]), ops.drop_first());
        let kept_rest: int = if ops.drop_first().len() <= LOG_CAPACITY - s.len() - 1 {
            ops.drop_first().len() as int
        } else {
            LOG_CAPACITY - s.len() - 1
        };
        assert(log_append_all(s, ops) == s.push(ops[0]) + ops.drop_first().take(kept_rest));
        assert(s.push(ops[0]) + ops.drop_first().take(kept_rest) =~= s + ops.take(kept));
    }
}

/// Trace fidelity: while the log stays within capacity, appending a run of
/// operations records exactly those operations, in program order, after
/// what was already there — no entry is lost, reordered or altered.
pub proof fn lemma_trace_fidelity(s: Seq<Operation>, ops: Seq<Operation>)
    requires
        s.len() + ops.len() <= LOG_CAPACITY,
    ensures
        log_append_all(s, ops) == s + ops,
{
    lemma_bounded_capacity(s, ops);
    assert(ops.take(ops.len() as int) =~= ops);
}

/// The bounded, ordered, append-only record of every bus operation observed
/// while the reference engine executes one instruction.
pub struct OperationLog {
    entries: Vec<Operation>,
}

impl OperationLog {
    /// The recorded operations, oldest first.
    pub closed spec fn ops(self) -> Seq<Operation> {
        self.entries@
    }

    /// The log never holds more than its capacity.
    pub closed spec fn wf(self) -> bool {
        self.entries@.len() <= LOG_CAPACITY
    }

    /// An empty log.
    pub fn new() -> (r: OperationLog)
        ensures
            r.wf(),
            r.ops() == Seq::<Operation>::empty(),
    {
        let r = OperationLog { entries: Vec::new() };
        proof {
            assert(r.ops() =~= Seq::<Operation>::empty());
        }
        r
    }

    /// Appends one operation. Below capacity the operation is kept in order;
    /// at capacity it is silently dropped and earlier entries are untouched.
    pub fn record(&mut self, op: Operation)
        requires
            old(self).wf(),
        ensures
            final(self).wf(),
            final(self).ops() == log_append(old(self).ops(), op),
    {
        if self.entries.len() < LOG_CAPACITY {
            self.entries.push(op);
        }
    }

    /// Empties the log, as done at the start of each round and after the
    /// controlled reset sequence.
    pub fn clear(&mut self)
        ensures
            final(self).wf(),
            final(self).ops() == Seq::<Operation>::empty(),
    {
        self.entries.clear();
        proof {
            assert(self.ops() =~= Seq::<Operation>::empty());
        }
    }

    /// How many operations are recorded.
    pub fn len(&self) -> (r: usize)
        ensures
            r == self.ops().len(),
    {
        self.entries.len()
    }

    /// The recorded operation at one position.
    pub fn entry(&self, i: usize) -> (r: Operation)
        requires
            i < self.ops().len(),
        ensures
            r == self.ops()[i as int],
    {
        self.entries[i]
    }

    /// A copy of the recorded operations, oldest first.
    pub fn get_ops(&self) -> (r: Vec<Operation>)
        ensures
            r@ == self.ops(),
    {
        let mut r: Vec<Operation> = Vec::new();
        let mut i: usize = 0;
        while i < self.entries.len()
            invariant
                i <= self.entries@.len(),
                r@ == self.entries@.take(i as int),
            decreases self.entries@.len() - i,
        {
            r.push(self.entries[i]);
            proof {
                assert(r@ =~= self.entries@.take(i as int + 1));
            }
            i = i + 1;
        }
        proof {
            assert(r@ =~= self.ops());
        }
        r
    }
}

} // verus!
