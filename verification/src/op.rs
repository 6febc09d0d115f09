use crate::space::AddressSpace;
use vstd::prelude::*;

verus! {

/// One observed bus operation: a read or write of a byte, word or long,
/// carrying the address space it was tagged with, the 24-bit bus address,
/// and the value observed or written. Two operations are equal exactly when
/// kind, space, address and value all match.
#[derive(Clone, Copy, Debug, PartialEq, Eq, Structural)]
pub enum Operation {
    ReadByte(AddressSpace, u32, u8),
    ReadWord(AddressSpace, u32, u16),
    ReadLong(AddressSpace, u32, u32),
    WriteByte(AddressSpace, u32, u32),
    WriteWord(AddressSpace, u32, u32),
    WriteLong(AddressSpace, u32, u32),
}

} // verus!
