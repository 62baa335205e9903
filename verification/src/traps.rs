//! The sixteen hardware trap-instruction vectors a program can raise
//! deliberately.  Executing the instruction itself is the hardware's
//! business; here the vectors are the data the rest of the runtime
//! dispatches on.

use vstd::prelude::*;

verus! {

/// One of the sixteen trap-instruction vectors.
#[derive(Clone, Copy, PartialEq, Eq, Structural, Debug)]
pub enum Trap {
    Trap0,
    Trap1,
    Trap2,
    Trap3,
    Trap4,
    Trap5,
    Trap6,
    Trap7,
    Trap8,
    Trap9,
    Trap10,
    Trap11,
    Trap12,
    Trap13,
    Trap14,
    Trap15,
}

impl Trap {
    /// The vector number encoded in the trap instruction.
    pub open spec fn spec_number(self) -> u8 {
        match self {
            Trap::Trap0 => 0,
            Trap::Trap1 => 1,
            Trap::Trap2 => 2,
            Trap::Trap3 => 3,
            Trap::Trap4 => 4,
            Trap::Trap5 => 5,
            Trap::Trap6 => 6,
            Trap::Trap7 => 7,
            Trap::Trap8 => 8,
            Trap::Trap9 => 9,
            Trap::Trap10 => 10,
            Trap::Trap11 => 11,
            Trap::Trap12 => 12,
            Trap::Trap13 => 13,
            Trap::Trap14 => 14,
            Trap::Trap15 => 15,
        }
    }

    /// The vector number encoded in the trap instruction.
    pub fn number(self) -> (n: u8)
        ensures
            n == self.spec_number(),
            n < 16,
    {
        match self {
            Trap::Trap0 => 0,
            Trap::Trap1 => 1,
            Trap::Trap2 => 2,
            Trap::Trap3 => 3,
            Trap::Trap4 => 4,
            Trap::Trap5 => 5,
            Trap::Trap6 => 6,
            Trap::Trap7 => 7,
            Trap::Trap8 => 8,
            Trap::Trap9 => 9,
            Trap::Trap10 => 10,
            Trap::Trap11 => 11,
            Trap::Trap12 => 12,
            Trap::Trap13 => 13,
            Trap::Trap14 => 14,
            Trap::Trap15 => 15,
        }
    }
}

} // verus!
