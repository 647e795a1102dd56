//! A little-endian 32-bit byte-code virtual machine.
//!
//! The machine loads a flat binary image into one addressable byte space,
//! then repeatedly fetches a 4-byte instruction word at the address held in
//! the `IP` register, decodes it, and executes it. The register file itself
//! lives in the low 32 bytes of that same space, so registers and memory
//! alias by design. Every illegal operation is a fatal [`Fault`]; the
//! verified core never panics.

use vstd::prelude::*;

pub mod controller;
pub mod decoder;
pub mod display;
pub mod instruction;
pub mod memory;
pub mod numeral;
pub mod state;
pub mod words;

verus! {

/// Size in bytes of one machine word, and of one instruction.
pub const ARCH_BYTES: u32 = 4;

/// A fatal machine fault. Faults abort the whole run: no opcode handler
/// recovers from one, and the state transition that raised it is reported
/// exactly by the contracts of the functions that return it.
#[derive(Clone, Copy, Debug, PartialEq, Eq, Structural)]
pub enum Fault {
    /// The first byte of a fetched word matches no known opcode.
    InvalidOpcode(u8),
    /// An operand byte names no register address.
    InvalidRegister(u8),
    /// A word-granular access address is not a multiple of 4.
    MisalignedAccess(u32),
    /// An access address falls outside `[0, memory length)`.
    OutOfBounds(u32),
    /// `DIV` with right operand equal to 0.
    DivisionByZero,
    /// The input buffer holds no parsable unsigned decimal.
    MalformedNumber,
    /// An input opcode ran with no further input available.
    InputExhausted,
    /// A register value is not a Unicode scalar value.
    InvalidCodePoint(u32),
    /// An address computation left the 32-bit address space.
    AddressOverflow,
}

} // verus!
