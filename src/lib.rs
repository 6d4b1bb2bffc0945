//! A cycle-counted interpreter for the Z80 instruction set.
//!
//! The processor state, the flag rules, the instruction semantics, the
//! prefix decoder, the opcode tables and the event scheduler are all
//! verified: every public operation states its effect on the machine state
//! in its contract.
use vstd::prelude::*;

pub mod cpu;
pub mod event;
pub mod memory;
pub mod system;
pub mod timing;

verus! {

/// Errors surfaced to the caller of the core.
#[derive(Debug, PartialEq, Eq)]
pub enum EmulatorError {
    /// A bulk load that does not fit in the 64 KiB address space.
    MemoryError(u16),
    /// An opcode sequence that no table defines.
    InvalidOpcode(u8),
    /// An inconsistency inside the core.
    SystemError(String),
    /// A failure on the scheduler side.
    EventError(String),
}

pub type Result<T> = core::result::Result<T, EmulatorError>;

} // verus!
