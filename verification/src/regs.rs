//! Reserved IO-register addresses of the modelled part, and the layout of the
//! flags byte held in the IO register at address `0x00`.

use vstd::prelude::*;

verus! {

// === Special IO addresses ===
pub const IO_ADDR_FLAGS: u8 = 0x00;
pub const IO_ADDR_SP: u8 = 0x02;
pub const IO_ADDR_CLKMD: u8 = 0x03;
pub const IO_ADDR_INTEN: u8 = 0x04;
pub const IO_ADDR_INTRQ: u8 = 0x05;
pub const IO_ADDR_T16M: u8 = 0x06;
pub const IO_ADDR_TM2B: u8 = 0x09;
pub const IO_ADDR_EOSCR: u8 = 0x0A;
pub const IO_ADDR_INTEGS: u8 = 0x0C;
pub const IO_ADDR_PADIER: u8 = 0x0D;
pub const IO_ADDR_PA: u8 = 0x10;
pub const IO_ADDR_PAC: u8 = 0x11;
pub const IO_ADDR_PAPH: u8 = 0x12;
pub const IO_ADDR_TM2S: u8 = 0x17;
pub const IO_ADDR_GPCC: u8 = 0x1A;
pub const IO_ADDR_MISC: u8 = 0x1B;
pub const IO_ADDR_TM2C: u8 = 0x1C;
pub const IO_ADDR_TM2CT: u8 = 0x1D;
pub const IO_ADDR_GPCS: u8 = 0x1E;

// === Flag bits (byte at IO 0x00) ===
pub const FLAG_ZERO_MASK: u8 = 0x01;
pub const FLAG_ZERO_OFFSET: u8 = 0x00;
pub const FLAG_CARRY_MASK: u8 = 0x02;
pub const FLAG_CARRY_OFFSET: u8 = 0x01;
pub const FLAG_AUX_CARRY_MASK: u8 = 0x04;
pub const FLAG_AUX_CARRY_OFFSET: u8 = 0x02;
pub const FLAG_OVERFLOW_MASK: u8 = 0x08;
pub const FLAG_OVERFLOW_OFFSET: u8 = 0x03;

/// The four ALU flags together; the upper four bits of the flags byte are
/// reserved and preserved across ALU operations.
pub const FLAGS_ARITH_MASK: u8 = 0x0F;

} // verus!
