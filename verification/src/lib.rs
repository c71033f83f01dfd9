//! Functional emulator for the Padauk PDK13 8-bit microcontroller family
//! (modelled part: PMS150C), together with the instruction translation layer
//! that turns raw 13-bit ROM words into a decoded internal representation.
//!
//! The crate is organised leaves-first:
//! - [`ops`]: pure byte ALU operations with flag computation;
//! - [`ir`]: the decoded-slot format and the word decoder;
//! - [`translation`]: the fielded decoded form of an instruction word;
//! - [`bus`]: the contract between the CPU core and its memory/IO spaces;
//! - [`pdk_core`]: the fetch/execute state machine;
//! - [`mock_bus`]: a plain bus for driving the core in isolation;
//! - [`host_adapter`]: the contract between the MCU shell and the world;
//! - [`mock_host`]: a plain host for driving the shell in isolation;
//! - [`pms150c`]: the MCU shell owning IO/RAM/ROM and the port-A mirrors.

pub mod bus;
pub mod host_adapter;
pub mod ir;
pub mod limit;
pub mod mock_bus;
pub mod mock_host;
pub mod ops;
pub mod pdk_core;
pub mod pms150c;
pub mod regs;
pub mod translation;

use vstd::prelude::*;

verus! {

/// A raw 13-bit instruction word, carried in a 16-bit cell.
pub type Word = u16;

/// An 8-bit data byte.
pub type Byte = u8;

/// An IO-space address; masked to 5 bits on every access.
pub type IoAddr = u8;

/// A RAM-space address; masked to 6 bits on every access.
pub type RamAddr = u8;

/// A ROM-space address; masked to 10 bits on every access.
pub type RomAddr = u16;

/// Error kinds surfaced to the embedder.
#[derive(Clone, Copy, Debug, PartialEq, Eq, Structural)]
pub enum Pdk13Error {
    /// An instruction word outside `0..=0x1FFF` was supplied to the decoder.
    TooBigWord(Word),
    /// Reserved for word patterns that decode to no known instruction.
    UnknownInstruction(Word),
    /// A ROM write was attempted at an address at or beyond the space size.
    TooBigAddress(usize, usize),
}

pub type Pdk13Result<T> = Result<T, Pdk13Error>;

} // verus!
