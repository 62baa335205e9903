//! Memory-mapped register access: typed cells with a per-field access
//! policy.
//!
//! A register block lays such cells out in hardware field order at a
//! fixed base address.  On the device every access is volatile — issued
//! exactly once, in program order, never cached — and the policy decides
//! which directions exist at all.  The cells here carry that policy in
//! the type: a write-only cell has no read operation and a read-only
//! cell no write.

use vstd::prelude::*;

verus! {

/// A read-only register field.
pub struct RoReg<T> {
    value: T,
}

impl<T: Copy> RoReg<T> {
    /// The current register contents.
    pub closed spec fn spec_read(self) -> T {
        self.value
    }

    /// A field whose hardware side currently reads `value`.
    pub fn new(value: T) -> (r: Self)
        ensures
            r.spec_read() == value,
    {
        RoReg { value }
    }

    /// Read the field.
    pub fn read(&self) -> (v: T)
        ensures
            v == self.spec_read(),
    {
        self.value
    }
}

/// A write-only register field.
pub struct WoReg<T> {
    value: T,
}

impl<T: Copy> WoReg<T> {
    /// The value the last write left in the field.
    pub closed spec fn spec_written(self) -> T {
        self.value
    }

    /// A field holding `value` until the first write.
    pub fn new(value: T) -> (r: Self)
        ensures
            r.spec_written() == value,
    {
        WoReg { value }
    }

    /// Write the field.
    pub fn write(&mut self, v: T)
        ensures
            final(self).spec_written() == v,
    {
        self.value = v;
    }
}

/// A read-write register field.
pub struct RwReg<T> {
    value: T,
}

impl<T: Copy> RwReg<T> {
    /// The current register contents.
    pub closed spec fn spec_read(self) -> T {
        self.value
    }

    /// A field whose hardware side currently reads `value`.
    pub fn new(value: T) -> (r: Self)
        ensures
            r.spec_read() == value,
    {
        RwReg { value }
    }

    /// Read the field.
    pub fn read(&self) -> (v: T)
        ensures
            v == self.spec_read(),
    {
        self.value
    }

    /// Write the field.
    pub fn write(&mut self, v: T)
        ensures
            final(self).spec_read() == v,
    {
        self.value = v;
    }
}

/// The one-register block of the board's output device.
pub struct RegisterBlock {
    pub reg: RwReg<u8>,
}

/// A handle on the output device's register block.
pub struct Device {
    pub p: RegisterBlock,
}

impl Device {
    /// Takes ownership of a device whose register currently reads `reg`.
    pub fn new(reg: u8) -> (d: Device)
        ensures
            d.p.reg.spec_read() == reg,
    {
        Device { p: RegisterBlock { reg: RwReg::new(reg) } }
    }
}

/// Write the fixed output byte to the device register.
pub fn putc(uart: &mut Device)
    ensures
        final(uart).p.reg.spec_read() == 5,
{
    uart.p.reg.write(5);
}

} // verus!
