//! Startup-and-dispatch runtime model for m68k processors.
//!
//! The crate models the pieces a bare-metal m68k program is built from:
//! the processor's status and condition-code registers, the global
//! interrupt mask and the critical-section discipline layered on it, the
//! hardware exception vector table, the one-shot initialization of
//! handler-local persistent state, and the definition-time transform that
//! turns a user-written handler function into an exported trampoline.

use vstd::prelude::*;

pub mod critical_section;
pub mod exception;
pub mod handler;
pub mod interrupt;
pub mod mmio;
pub mod register;
pub mod state;
pub mod transform;
pub mod traps;
pub mod vector_table;

verus! {

/// Number of priority levels the three-bit interrupt mask can express.
pub const MASK_LEVELS: u8 = 8;

/// Returns true when `mask` fits in the three mask bits of the status register.
pub open spec fn valid_mask(mask: u8) -> bool {
    mask < MASK_LEVELS
}

} // verus!
