//! The global interrupt-mask primitive.
//!
//! The processor's status register holds a three-bit interrupt-priority
//! threshold in bits 8 to 10; an interrupt is delivered only when its
//! priority exceeds that threshold.  On hardware these operations are a
//! read, a raise and a restore of those bits, each paired with a compiler
//! ordering fence; here the register is an explicit, exclusively owned
//! handle, so every verified caller accounts for exactly the bits the
//! hardware would see.

use vstd::prelude::*;

use crate::MASK_LEVELS;
use crate::valid_mask;
use crate::register::Sr;

verus! {

/// Exclusive handle on the processor's status register.
///
/// Owning a `Cpu` value stands for being the single thread of control on
/// the core; hardware never mutates the masked bits behind the owner's
/// back.
pub struct Cpu {
    sr: u16,
}

impl Cpu {
    /// The raw status-register contents.
    pub closed spec fn spec_sr(self) -> u16 {
        self.sr
    }

    /// The interrupt-priority threshold held in bits 8 to 10.
    pub open spec fn spec_mask(self) -> u8 {
        ((self.spec_sr() >> 8) & 0x07) as u8
    }

    /// Takes ownership of a core whose status register reads `sr`.
    pub fn new(sr: u16) -> (cpu: Cpu)
        ensures
            cpu.spec_sr() == sr,
    {
        Cpu { sr }
    }

    /// Read the raw status register.
    pub fn sr(&self) -> (r: u16)
        ensures
            r == self.spec_sr(),
    {
        self.sr
    }
}

/// Read the Status Register as a decoded value.
pub fn read(cpu: &Cpu) -> (r: Sr)
    ensures
        r.spec_sys() == (cpu.spec_sr() >> 8) as u8,
        r.spec_ccr().spec_bits() == (cpu.spec_sr() & 0x00FF) as u8,
{
    Sr::from_bits(cpu.sr)
}

/// Trait for enums of external interrupt numbers.
///
/// A peripheral access crate implements this on its enum of the device's
/// interrupt sources.  Every variant must stand for a distinct source and
/// always report the same number; `spec_number` is that fixed number, and
/// an implementation is held to it.
pub trait InterruptNumber: Copy {
    /// The fixed number of this interrupt source.
    spec fn spec_number(self) -> u16;

    /// Return the interrupt number associated with this variant.
    fn number(self) -> (n: u16)
        ensures
            n == self.spec_number(),
    ;
}

/// Disables all maskable interrupts by raising the threshold to its
/// highest value.  Only the three mask bits change.
pub fn disable(cpu: &mut Cpu)
    ensures
        final(cpu).spec_sr() == old(cpu).spec_sr() | 0x0700,
        final(cpu).spec_mask() == MASK_LEVELS - 1,
{
    let s: u16 = cpu.sr;
    cpu.sr = s | 0x0700;
    proof {
        assert((((s | 0x0700) >> 8) & 0x07) as u8 == 7) by (bit_vector);
    }
}

/// Set the interrupt mask, restoring a previously observed threshold.
///
/// Bits outside the mask field are left untouched.  Calling this inside an
/// active critical section corrupts the nesting discipline, which is why
/// the critical-section core is the only intended caller during one.
pub fn set(cpu: &mut Cpu, mask: u8)
    requires
        valid_mask(mask),
    ensures
        final(cpu).spec_sr() == (old(cpu).spec_sr() & 0xF8FF) | ((mask as u16) << 8),
        final(cpu).spec_mask() == mask,
        final(cpu).spec_sr() & 0xF8FF == old(cpu).spec_sr() & 0xF8FF,
{
    let s: u16 = cpu.sr;
    let shifted: u16 = (mask as u16) << 8;
    cpu.sr = (s & 0xF8FF) | shifted;
    proof {
        assert(mask < 8 ==> ((((s & 0xF8FF) | ((mask as u16) << 8)) >> 8) & 0x07) as u8 == mask)
            by (bit_vector);
        assert(mask < 8 ==> ((s & 0xF8FF) | ((mask as u16) << 8)) & 0xF8FF == s & 0xF8FF)
            by (bit_vector);
    }
}

/// Get the current interrupt mask without side effects.
pub fn get(cpu: &Cpu) -> (mask: u8)
    ensures
        mask == cpu.spec_mask(),
        valid_mask(mask),
{
    let s: u16 = cpu.sr;
    let m = ((s >> 8) & 0x07) as u8;
    proof {
        assert((((s >> 8) & 0x07) as u8) < 8) by (bit_vector);
    }
    m
}

/// Reading the mask and writing the value back leaves the status register
/// exactly as it was: the capture-and-restore pair is a no-op on
/// observable machine state.
pub fn mask_round_trip(cpu: &mut Cpu)
    ensures
        final(cpu).spec_sr() == old(cpu).spec_sr(),
{
    let ghost s0: u16 = cpu.spec_sr();
    let m = get(cpu);
    set(cpu, m);
    proof {
        assert((s0 & 0xF8FF) | (((((s0 >> 8) & 0x07) as u8) as u16) << 8) == s0) by (bit_vector);
    }
}

} // verus!
