//! Processor core registers: the condition-code register and the status
//! register, as plain values decoded from their raw bit patterns.

use vstd::prelude::*;

verus! {

/// Condition Code Register.
///
/// The low byte of the status register; readable in both privileged and
/// unprivileged mode.
#[derive(Clone, Copy, Debug)]
pub struct Ccr {
    bits: u8,
}

impl Ccr {
    /// The raw register bits this value was built from.
    pub closed spec fn spec_bits(self) -> u8 {
        self.bits
    }

    /// Creates a `Ccr` value from raw bits.
    pub fn from_bits(bits: u8) -> (r: Self)
        ensures
            r.spec_bits() == bits,
    {
        Self { bits }
    }

    /// Returns the contents of the register as raw bits.
    pub fn bits(self) -> (r: u8)
        ensures
            r == self.spec_bits(),
    {
        self.bits
    }

    /// Read the Carry flag (bit 0).
    pub fn c(self) -> (r: bool)
        ensures
            r == (self.spec_bits() & 0x01 != 0),
    {
        self.bits & 0x01 != 0
    }

    /// Read the Overflow flag (bit 1).
    pub fn v(self) -> (r: bool)
        ensures
            r == (self.spec_bits() & 0x02 != 0),
    {
        self.bits & 0x02 != 0
    }

    /// Read the Zero flag (bit 2).
    pub fn z(self) -> (r: bool)
        ensures
            r == (self.spec_bits() & 0x04 != 0),
    {
        self.bits & 0x04 != 0
    }

    /// Read the Negative flag (bit 3).
    pub fn n(self) -> (r: bool)
        ensures
            r == (self.spec_bits() & 0x08 != 0),
    {
        self.bits & 0x08 != 0
    }

    /// Read the Extend flag (bit 4).
    pub fn x(self) -> (r: bool)
        ensures
            r == (self.spec_bits() & 0x10 != 0),
    {
        self.bits & 0x10 != 0
    }
}

/// Status Register.
///
/// The privileged system byte together with the condition-code byte.
#[derive(Clone, Copy, Debug)]
pub struct Sr {
    bits: u8,
    ccr: Ccr,
}

impl Sr {
    /// The system byte (the high byte of the raw register).
    pub closed spec fn spec_sys(self) -> u8 {
        self.bits
    }

    /// The condition-code byte carried along with the system byte.
    pub closed spec fn spec_ccr(self) -> Ccr {
        self.ccr
    }

    /// Creates a `Sr` value from the raw sixteen-bit register contents:
    /// the high byte is the system byte, the low byte the condition codes.
    pub fn from_bits(bits: u16) -> (r: Self)
        ensures
            r.spec_sys() == (bits >> 8) as u8,
            r.spec_ccr().spec_bits() == (bits & 0x00FF) as u8,
    {
        Self { bits: (bits >> 8) as u8, ccr: Ccr::from_bits((bits & 0x00FF) as u8) }
    }

    /// Returns the Interrupt Mask value (the low three bits of the system
    /// byte).
    pub fn i(self) -> (r: u8)
        ensures
            r == self.spec_sys() & 0x07,
            r < 8,
    {
        let r = self.bits & 0x07;
        proof {
            assert(forall|b: u8| #[trigger] (b & 0x07) < 8) by (bit_vector);
        }
        r
    }

    /// Returns the Supervisor State flag (bit 5 of the system byte).
    pub fn s(self) -> (r: bool)
        ensures
            r == (self.spec_sys() & 0x20 != 0),
    {
        self.bits & 0x20 != 0
    }

    /// Returns the Trace Mode flag (bit 7 of the system byte).
    pub fn t(self) -> (r: bool)
        ensures
            r == (self.spec_sys() & 0x80 != 0),
    {
        self.bits & 0x80 != 0
    }
}

} // verus!
