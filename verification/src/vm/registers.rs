//! The register file: eight general-purpose registers, the program counter and
//! the condition-flag register, addressed by the indices 0 through 9.

use crate::{FL_NEG, FL_POS, FL_ZRO, PC_START};
use vstd::pervasive::unreached;
use vstd::prelude::*;

verus! {

/// The ten registers of the machine. Indices 0 through 7 address the general
/// registers, index 8 the program counter, index 9 the condition flags.
#[derive(Debug, PartialEq)]
pub struct Registers {
    pub r0: u16,
    pub r1: u16,
    pub r2: u16,
    pub r3: u16,
    pub r4: u16,
    pub r5: u16,
    pub r6: u16,
    pub r7: u16,
    pub pc: u16,
    pub cond: u16,
}

/// The register addressed by `index`, for `index` between 0 and 9.
pub open spec fn reg(r: Registers, index: int) -> u16 {
    if index == 0 {
        r.r0
    } else if index == 1 {
        r.r1
    } else if index == 2 {
        r.r2
    } else if index == 3 {
        r.r3
    } else if index == 4 {
        r.r4
    } else if index == 5 {
        r.r5
    } else if index == 6 {
        r.r6
    } else if index == 7 {
        r.r7
    } else if index == 8 {
        r.pc
    } else {
        r.cond
    }
}

/// The register file with the register addressed by `index` replaced by
/// `value`, for `index` between 0 and 9.
pub open spec fn set_reg(r: Registers, index: int, value: u16) -> Registers {
    if index == 0 {
        Registers { r0: value, ..r }
    } else if index == 1 {
        Registers { r1: value, ..r }
    } else if index == 2 {
        Registers { r2: value, ..r }
    } else if index == 3 {
        Registers { r3: value, ..r }
    } else if index == 4 {
        Registers { r4: value, ..r }
    } else if index == 5 {
        Registers { r5: value, ..r }
    } else if index == 6 {
        Registers { r6: value, ..r }
    } else if index == 7 {
        Registers { r7: value, ..r }
    } else if index == 8 {
        Registers { pc: value, ..r }
    } else {
        Registers { cond: value, ..r }
    }
}

/// The condition flag for a freshly written value: zero, negative (bit 15
/// set), or positive.
pub open spec fn condition_flag(value: u16) -> u16 {
    if value == 0 {
        FL_ZRO
    } else if value >> 15 != 0 {
        FL_NEG
    } else {
        FL_POS
    }
}

/// The register file as it stands when the machine is created: every general
/// register and the condition flags zero, the program counter at the
/// conventional load address.
pub open spec fn initial_registers() -> Registers {
    Registers {
        r0: 0,
        r1: 0,
        r2: 0,
        r3: 0,
        r4: 0,
        r5: 0,
        r6: 0,
        r7: 0,
        pc: PC_START,
        cond: 0,
    }
}

impl Registers {
    pub fn new() -> (r: Registers)
        ensures
            r == initial_registers(),
    {
        Registers {
            r0: 0,
            r1: 0,
            r2: 0,
            r3: 0,
            r4: 0,
            r5: 0,
            r6: 0,
            r7: 0,
            pc: PC_START,
            cond: 0,
        }
    }

    /// The value of the register addressed by `index`; an error for an index
    /// outside the ten valid slots, and for no other index.
    pub fn get(&mut self, index: u8) -> (res: Result<u16, String>)
        ensures
            *final(self) == *old(self),
            index <= 9 ==> res == Ok::<u16, String>(reg(*old(self), index as int)),
            index > 9 ==> res is Err,
    {
        if index == 0 {
            Ok(self.r0)
        } else if index == 1 {
            Ok(self.r1)
        } else if index == 2 {
            Ok(self.r2)
        } else if index == 3 {
            Ok(self.r3)
        } else if index == 4 {
            Ok(self.r4)
        } else if index == 5 {
            Ok(self.r5)
        } else if index == 6 {
            Ok(self.r6)
        } else if index == 7 {
            Ok(self.r7)
        } else if index == 8 {
            Ok(self.pc)
        } else if index == 9 {
            Ok(self.cond)
        } else {
            Err("get performed on index out of range".to_string())
        }
    }

    /// Stores `value` in the register addressed by `index`. An index outside
    /// the ten valid slots is a contract violation: no behavior is defined for
    /// it, so every caller must stay in range.
    pub fn update(&mut self, index: u8, value: u16)
        requires
            index <= 9,
        ensures
            *final(self) == set_reg(*old(self), index as int, value),
    {
        if index == 0 {
            self.r0 = value;
        } else if index == 1 {
            self.r1 = value;
        } else if index == 2 {
            self.r2 = value;
        } else if index == 3 {
            self.r3 = value;
        } else if index == 4 {
            self.r4 = value;
        } else if index == 5 {
            self.r5 = value;
        } else if index == 6 {
            self.r6 = value;
        } else if index == 7 {
            self.r7 = value;
        } else if index == 8 {
            self.pc = value;
        } else if index == 9 {
            self.cond = value;
        } else {
            unreached()
        }
    }

    /// Sets the condition flags from the register addressed by `r`: ZRO if its
    /// value is 0, NEG if bit 15 is set, POS otherwise.
    pub fn update_cond_register(&mut self, r: u8)
        requires
            r <= 9,
        ensures
            *final(self) == set_reg(*old(self), 9, condition_flag(reg(*old(self), r as int))),
    {
        let value: u16 = self.get(r).unwrap();
        if value == 0 {
            self.update(9, FL_ZRO);
        } else if value >> 15 != 0 {
            self.update(9, FL_NEG);
        } else {
            self.update(9, FL_POS);
        }
    }
}

} // verus!
