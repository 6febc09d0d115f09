use crate::register::Register;
use vstd::prelude::*;

verus! {

/// An unrecoverable contract violation: the reference engine, or a fuzz
/// input, behaved outside what the harness understands. No fault is retried;
/// the caller aborts the comparison in progress.
#[derive(Clone, Copy, Debug, PartialEq, Eq, Structural)]
pub enum Fault {
    /// A function code outside the four recognized ones was signalled, so
    /// later bus operations could not be tagged with an address space.
    UnknownFunctionCode(u32),
    /// The reference engine requested a reset outside the controlled reset
    /// sequence.
    UnexpectedReset,
    /// The reference engine acknowledged an interrupt of the given level,
    /// though the harness runs with interrupts masked.
    UnexpectedInterrupt(i32),
    /// A fuzz input tried to assign a register the synchronizer does not
    /// push directly.
    UnsupportedRegister(Register),
}

} // verus!
