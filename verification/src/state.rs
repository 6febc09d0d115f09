use vstd::prelude::*;

verus! {

/// Whether a status-register value has the supervisor privilege bit set.
/// The privilege bit governs which stack-pointer variant lives in register
/// 15 (the active stack pointer).
pub open spec fn is_supervisor(sr: u32) -> bool {
    sr & 0x2000 != 0
}

/// The canonical comparable snapshot of one engine's architectural state:
/// the sixteen general-purpose registers (eight data, then eight address),
/// the program counter, the status register, and the two inactive
/// stack-pointer variants. Register 15 holds the active stack pointer;
/// which variant that is follows from the status register's privilege bit.
///
/// Both engines' internal representations are projected into this shape
/// before comparison; a snapshot is computed freshly each round and never
/// persisted.
#[derive(Clone, Debug, PartialEq)]
pub struct ArchitecturalState {
    /// D0..D7 then A0..A7, sixteen entries.
    pub dar: Vec<u32>,
    /// Program counter.
    pub pc: u32,
    /// Status register.
    pub sr: u32,
    /// The supervisor stack pointer while it is not the active one.
    pub inactive_ssp: u32,
    /// The user stack pointer while it is not the active one.
    pub inactive_usp: u32,
}

impl ArchitecturalState {
    /// A snapshot always carries exactly sixteen general registers.
    pub open spec fn wf(self) -> bool {
        self.dar@.len() == 16
    }

    /// The supervisor stack pointer: register 15 in supervisor mode, the
    /// inactive variant otherwise.
    pub open spec fn ssp_spec(self) -> u32 {
        if is_supervisor(self.sr) {
            self.dar@[15]
        } else {
            self.inactive_ssp
        }
    }

    /// The user stack pointer: the inactive variant in supervisor mode,
    /// register 15 otherwise.
    pub open spec fn usp_spec(self) -> u32 {
        if is_supervisor(self.sr) {
            self.inactive_usp
        } else {
            self.dar@[15]
        }
    }

    /// Builds a snapshot from its parts.
    pub fn new(dar: Vec<u32>, pc: u32, sr: u32, inactive_ssp: u32, inactive_usp: u32) -> (r:
        ArchitecturalState)
        requires
            dar@.len() == 16,
        ensures
            r.wf(),
            r.dar@ == dar@,
            r.pc == pc,
            r.sr == sr,
            r.inactive_ssp == inactive_ssp,
            r.inactive_usp == inactive_usp,
    {
        ArchitecturalState { dar, pc, sr, inactive_ssp, inactive_usp }
    }

    /// The supervisor stack pointer, resolved through the privilege bit.
    pub fn ssp(&self) -> (r: u32)
        requires
            self.wf(),
        ensures
            r == self.ssp_spec(),
    {
        if self.sr & 0x2000 != 0 {
            self.dar[15]
        } else {
            self.inactive_ssp
        }
    }

    /// The user stack pointer, resolved through the privilege bit.
    pub fn usp(&self) -> (r: u32)
        requires
            self.wf(),
        ensures
            r == self.usp_spec(),
    {
        if self.sr & 0x2000 != 0 {
            self.inactive_usp
        } else {
            self.dar[15]
        }
    }

    /// An exact copy of the snapshot.
    pub fn duplicate(&self) -> (r: ArchitecturalState)
        requires
            self.wf(),
        ensures
            r.wf(),
            r.dar@ == self.dar@,
            r.pc == self.pc,
            r.sr == self.sr,
            r.inactive_ssp == self.inactive_ssp,
            r.inactive_usp == self.inactive_usp,
    {
        let mut dar: Vec<u32> = Vec::new();
        let mut i: usize = 0;
        while i < 16
            invariant
                i <= 16,
                self.dar@.len() == 16,
                dar@ == self.dar@.take(i as int),
            decreases 16 - i,
        {
            dar.push(self.dar[i]);
            proof {
                assert(dar@ =~= self.dar@.take(i as int + 1));
            }
            i = i + 1;
        }
        proof {
            assert(dar@ =~= self.dar@);
        }
        ArchitecturalState {
            dar,
            pc: self.pc,
            sr: self.sr,
            inactive_ssp: self.inactive_ssp,
            inactive_usp: self.inactive_usp,
        }
    }
}

} // verus!
