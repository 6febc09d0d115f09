use vstd::prelude::*;

verus! {

/// Classification of a bus access: privilege level (supervisor or user)
/// crossed with access kind (program or data).
#[derive(Clone, Copy, Debug, PartialEq, Eq, Structural)]
pub enum AddressSpace {
    UserData,
    UserProgram,
    SupervisorData,
    SupervisorProgram,
}

/// The address space selected by a 3-bit function code, when the code is one
/// of the four recognized ones. The remaining codes (among them CPU space)
/// select no address space.
pub open spec fn space_for_fc(fc: u32) -> Option<AddressSpace> {
    if fc == 1 {
        Some(AddressSpace::UserData)
    } else if fc == 2 {
        Some(AddressSpace::UserProgram)
    } else if fc == 5 {
        Some(AddressSpace::SupervisorData)
    } else if fc == 6 {
        Some(AddressSpace::SupervisorProgram)
    } else {
        None
    }
}

/// Maps a function code to the address space it selects; an unrecognized
/// code yields `None` and the caller must treat the round as unrecoverable,
/// since later bus operations could not be tagged correctly.
pub fn classify_fc(fc: u32) -> (r: Option<AddressSpace>)
    ensures
        r == space_for_fc(fc),
{
    match fc {
        1 => Some(AddressSpace::UserData),
        2 => Some(AddressSpace::UserProgram),
        5 => Some(AddressSpace::SupervisorData),
        6 => Some(AddressSpace::SupervisorProgram),
        _ => None,
    }
}

} // verus!
