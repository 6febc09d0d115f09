use vstd::prelude::*;

verus! {

/// The register identifiers of the reference engine's get/set interface:
/// eight data registers, eight address registers, the program counter,
/// the status register, the four stack-pointer variants, the function-code
/// and control registers, and the diagnostic prefetch pseudo-registers.
#[derive(Clone, Copy, Debug, PartialEq, Eq, Structural)]
pub enum Register {
    D0,
    D1,
    D2,
    D3,
    D4,
    D5,
    D6,
    D7,
    A0,
    A1,
    A2,
    A3,
    A4,
    A5,
    A6,
    A7,
    /// Program counter.
    PC,
    /// Status register.
    SR,
    /// The current stack pointer (held in A7).
    SP,
    /// User stack pointer.
    USP,
    /// Interrupt stack pointer.
    ISP,
    /// Master stack pointer.
    MSP,
    /// Source function code.
    SFC,
    /// Destination function code.
    DFC,
    /// Vector base register.
    VBR,
    /// Cache control register.
    CACR,
    /// Cache address register.
    CAAR,
    /// Last prefetch address.
    PrefAddr,
    /// Last prefetch data.
    PrefData,
    /// Previous value of the program counter.
    PPC,
    /// Instruction register.
    IR,
    /// Kind of processor being run.
    CpuType,
}

} // verus!
