//! The core exception sources and the stack frames the processor pushes
//! when one of them is taken.

use vstd::prelude::*;

verus! {

/// The non-reset core exceptions a handler can be installed for.
///
/// These are exactly the sources with a callable slot in the hardware
/// vector table; the reserved slots have no corresponding variant.
#[derive(Clone, Copy, PartialEq, Eq, Structural, Debug)]
pub enum Exception {
    BusError,
    AddressError,
    IllegalInstruction,
    ZeroDivide,
    CHKInstruction,
    TRAPVInstruction,
    PrivilegeViolation,
    Trace,
    Line1010Emulator,
    Line1111Emulator,
    FormatError,
}

impl Exception {
    /// The hardware vector number of this exception source.
    pub open spec fn spec_number(self) -> u8 {
        match self {
            Exception::BusError => 2,
            Exception::AddressError => 3,
            Exception::IllegalInstruction => 4,
            Exception::ZeroDivide => 5,
            Exception::CHKInstruction => 6,
            Exception::TRAPVInstruction => 7,
            Exception::PrivilegeViolation => 8,
            Exception::Trace => 9,
            Exception::Line1010Emulator => 10,
            Exception::Line1111Emulator => 11,
            Exception::FormatError => 14,
        }
    }

    /// The hardware vector number of this exception source.
    pub fn number(self) -> (n: u8)
        ensures
            n == self.spec_number(),
    {
        match self {
            Exception::BusError => 2,
            Exception::AddressError => 3,
            Exception::IllegalInstruction => 4,
            Exception::ZeroDivide => 5,
            Exception::CHKInstruction => 6,
            Exception::TRAPVInstruction => 7,
            Exception::PrivilegeViolation => 8,
            Exception::Trace => 9,
            Exception::Line1010Emulator => 10,
            Exception::Line1111Emulator => 11,
            Exception::FormatError => 14,
        }
    }
}

/// The short frame pushed for most exceptions: status register and
/// program counter at the point the exception was taken.
#[derive(Clone, Copy, Debug)]
pub struct LowerExceptionFrame {
    sr: u16,
    pc: u32,
}

impl LowerExceptionFrame {
    /// The saved status register.
    pub closed spec fn spec_sr(self) -> u16 {
        self.sr
    }

    /// The saved program counter.
    pub closed spec fn spec_pc(self) -> u32 {
        self.pc
    }

    /// Assembles a frame from its saved fields.
    pub fn new(sr: u16, pc: u32) -> (f: Self)
        ensures
            f.spec_sr() == sr,
            f.spec_pc() == pc,
    {
        Self { sr, pc }
    }

    /// The saved status register.
    pub fn sr(self) -> (r: u16)
        ensures
            r == self.spec_sr(),
    {
        self.sr
    }

    /// The saved program counter.
    pub fn pc(self) -> (r: u32)
        ensures
            r == self.spec_pc(),
    {
        self.pc
    }
}

/// The access-information word of a bus or address error frame:
/// read/write direction, instruction/not, and the function code.
#[derive(Clone, Copy, Debug)]
pub struct AccessInformation {
    bits: u16,
}

impl AccessInformation {
    /// The raw access-information bits.
    pub closed spec fn spec_bits(self) -> u16 {
        self.bits
    }

    /// Builds the word from its raw bits.
    pub fn from_bits(bits: u16) -> (r: Self)
        ensures
            r.spec_bits() == bits,
    {
        Self { bits }
    }

    /// The function code of the faulted access (the low three bits).
    pub fn fc(self) -> (r: u8)
        ensures
            r == (self.spec_bits() & 0x07) as u8,
    {
        (self.bits & 0x07) as u8
    }

    /// Whether the faulted access was an instruction fetch (bit 3 clear).
    pub fn is_instruction(self) -> (r: bool)
        ensures
            r == (self.spec_bits() & 0x08 == 0),
    {
        self.bits & 0x08 == 0
    }

    /// Whether the faulted access was a read (bit 4 set).
    pub fn is_read(self) -> (r: bool)
        ensures
            r == (self.spec_bits() & 0x10 != 0),
    {
        self.bits & 0x10 != 0
    }
}

/// The long frame pushed for bus and address errors: access information,
/// the faulted address, the instruction register, and the interrupted
/// status register and program counter.
#[derive(Clone, Copy, Debug)]
pub struct ExceptionFrame {
    ai: AccessInformation,
    aa: u32,
    ir: u16,
    sr: u16,
    pc: u32,
}

impl ExceptionFrame {
    /// The saved access information.
    pub closed spec fn spec_ai(self) -> AccessInformation {
        self.ai
    }

    /// The faulted access address.
    pub closed spec fn spec_aa(self) -> u32 {
        self.aa
    }

    /// The saved instruction register.
    pub closed spec fn spec_ir(self) -> u16 {
        self.ir
    }

    /// The saved status register.
    pub closed spec fn spec_sr(self) -> u16 {
        self.sr
    }

    /// The saved program counter.
    pub closed spec fn spec_pc(self) -> u32 {
        self.pc
    }

    /// Assembles a frame from its saved fields.
    pub fn new(ai: AccessInformation, aa: u32, ir: u16, sr: u16, pc: u32) -> (f: Self)
        ensures
            f.spec_ai() == ai,
            f.spec_aa() == aa,
            f.spec_ir() == ir,
            f.spec_sr() == sr,
            f.spec_pc() == pc,
    {
        Self { ai, aa, ir, sr, pc }
    }

    /// The saved access information.
    pub fn ai(self) -> (r: AccessInformation)
        ensures
            r == self.spec_ai(),
    {
        self.ai
    }

    /// The faulted access address.
    pub fn aa(self) -> (r: u32)
        ensures
            r == self.spec_aa(),
    {
        self.aa
    }

    /// The saved instruction register.
    pub fn ir(self) -> (r: u16)
        ensures
            r == self.spec_ir(),
    {
        self.ir
    }

    /// The saved status register.
    pub fn sr(self) -> (r: u16)
        ensures
            r == self.spec_sr(),
    {
        self.sr
    }

    /// The saved program counter.
    pub fn pc(self) -> (r: u32)
        ensures
            r == self.spec_pc(),
    {
        self.pc
    }
}

} // verus!
