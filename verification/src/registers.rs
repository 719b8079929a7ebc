//! The register file and the condition flags.

use vstd::prelude::*;

verus! {

/// Four general-purpose registers and the program counter.
///
/// An instruction names a general-purpose register by an id from 0 to 3:
/// id 0 is `r1`, id 3 is `r4`.
#[derive(Debug, Clone, Copy, PartialEq, Eq, Structural)]
pub struct Registers {
    pub r1: i32,
    pub r2: i32,
    pub r3: i32,
    pub r4: i32,
    /// Byte address of the next instruction to fetch.
    pub rip: i32,
}

impl Registers {
    /// The registers with all slots at zero.
    pub open spec fn zeroed() -> Registers {
        Registers { r1: 0, r2: 0, r3: 0, r4: 0, rip: 0 }
    }

    /// The general-purpose register with the given id; ids above 3 name none
    /// and read as 0.
    pub open spec fn general(self, id: u8) -> i32 {
        if id == 0 {
            self.r1
        } else if id == 1 {
            self.r2
        } else if id == 2 {
            self.r3
        } else if id == 3 {
            self.r4
        } else {
            0
        }
    }

    /// These registers with `value` in the general-purpose register `id`;
    /// unchanged for an id above 3.
    pub open spec fn with_general(self, id: u8, value: i32) -> Registers {
        if id == 0 {
            Registers { r1: value, ..self }
        } else if id == 1 {
            Registers { r2: value, ..self }
        } else if id == 2 {
            Registers { r3: value, ..self }
        } else if id == 3 {
            Registers { r4: value, ..self }
        } else {
            self
        }
    }

    /// These registers with the program counter at `rip`.
    pub open spec fn with_rip(self, rip: i32) -> Registers {
        Registers { rip, ..self }
    }
}

impl Default for Registers {
    fn default() -> (r: Self)
        ensures
            r == Registers::zeroed(),
    {
        Registers { r1: 0, r2: 0, r3: 0, r4: 0, rip: 0 }
    }
}

/// The condition flags. No operation reads or writes them yet.
#[derive(Debug, Clone, Copy, PartialEq, Eq, Structural)]
pub struct Flags {
    /// Zero flag.
    pub zf: bool,
    /// Overflow flag.
    pub of: bool,
    /// Trap flag.
    pub tf: bool,
}

impl Flags {
    /// The flags with none set.
    pub open spec fn cleared() -> Flags {
        Flags { zf: false, of: false, tf: false }
    }
}

impl Default for Flags {
    fn default() -> (r: Self)
        ensures
            r == Flags::cleared(),
    {
        Flags { zf: false, of: false, tf: false }
    }
}

} // verus!
