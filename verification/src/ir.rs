//! The decoded internal representation of one PDK13 instruction.
//!
//! Decoding a 13-bit word once at load time avoids instruction-group matching
//! on every executed step: the core dispatches on the small opcode tag held in
//! a decoded slot. A slot carries the tag, an 8-bit address/immediate operand,
//! a 3-bit operand (used alone as a bit index, and together with the 8-bit
//! operand as an 11-bit ROM address), and the original 13-bit word, preserved
//! so that the ROM-table load instructions can recover the raw data bits.

use vstd::prelude::*;

use crate::limit;
use crate::Pdk13Error;
use crate::Pdk13Result;

verus! {

/// The closed set of opcode tags the core dispatches on.
#[derive(Clone, Copy, Debug, PartialEq, Eq, Structural)]
pub enum IrOpcode {
    Nop,
    Ldsptl,
    Ldspth,
    Addca,
    Subca,
    Izsna,
    Dzsna,
    Pcadda,
    Nota,
    Nega,
    Sra,
    Sla,
    Srca,
    Slca,
    Swapa,
    Wdreset,
    Pushaf,
    Popaf,
    Reset,
    Stopsys,
    Stopexe,
    Engint,
    Disgint,
    Ret,
    Reti,
    Mul,
    Xorioa,
    Movioa,
    Movaio,
    Stt16,
    Ldt16,
    Idxmma,
    Idxmam,
    Retk,
    T0snm,
    T1snm,
    Set0m,
    Set1m,
    Addma,
    Subma,
    Addcma,
    Subcma,
    Andma,
    Orma,
    Xorma,
    Movma,
    Addam,
    Subam,
    Addcam,
    Subcam,
    Andam,
    Oram,
    Xoram,
    Movam,
    Addcm,
    Subcm,
    Izsnm,
    Dzsnm,
    Incm,
    Decm,
    Clearm,
    Xchm,
    Notm,
    Negm,
    Srm,
    Slm,
    Srcm,
    Slcm,
    Ceqsnam,
    T0snio,
    T1snio,
    Set0io,
    Set1io,
    Addak,
    Subak,
    Ceqsnak,
    Andak,
    Orak,
    Xorak,
    Movak,
    Goto,
    Call,
}

// === Group stamps and masks (16-bit views of the 13-bit word) ===

pub const MISC_GROUP_MASK: u16 = 0xFFC0;
pub const MISC_GROUP_STAMP: u16 = 0x0000;

pub const XOR_IO_GROUP_MASK: u16 = 0xFFC0;
pub const XOR_IO_GROUP_STAMP: u16 = 0x0040;
pub const XOR_IO_OPCODE_MASK: u16 = 0xFFE0;

pub const MOV_IO_GROUP_MASK: u16 = 0xFFC0;
pub const MOV_IO_GROUP_STAMP: u16 = 0x0080;
pub const MOV_IO_OPCODE_MASK: u16 = 0xFFE0;

pub const MEM16_GROUP_MASK: u16 = 0xFFC0;
pub const MEM16_GROUP_STAMP: u16 = 0x00C0;
pub const MEM16_OPCODE_MASK: u16 = 0xFFE1;

pub const RET_CONST_GROUP_MASK: u16 = 0xFF00;
pub const RET_CONST_GROUP_STAMP: u16 = 0x0100;
pub const RET_CONST_OPCODE_MASK: u16 = 0xFF00;

pub const MEM_BIT_OPS_GROUP_MASK: u16 = 0xFE00;
pub const MEM_BIT_OPS_GROUP_STAMP: u16 = 0x0200;
pub const MEM_BIT_OPS_OPCODE_MASK: u16 = 0xFF10;

pub const MEM_AND_ACC_GROUP_MASK: u16 = 0xFC00;
pub const MEM_AND_ACC_GROUP_STAMP: u16 = 0x0400;
pub const MEM_AND_ACC_OPCODE_MASK: u16 = 0xFFC0;

pub const MEM_GROUP_MASK: u16 = 0xFC00;
pub const MEM_GROUP_STAMP: u16 = 0x0800;
pub const MEM_OPCODE_MASK: u16 = 0xFFC0;

pub const IO_BIT_OPS_GROUP_MASK: u16 = 0xFC00;
pub const IO_BIT_OPS_GROUP_STAMP: u16 = 0x0C00;
pub const IO_BIT_OPS_OPCODE_MASK: u16 = 0xFF00;

pub const ACC_CONST_GROUP_MASK: u16 = 0xF800;
pub const ACC_CONST_GROUP_STAMP: u16 = 0x1000;
pub const ACC_CONST_OPCODE_MASK: u16 = 0xFF00;

pub const JUMP_GROUP_MASK: u16 = 0xF800;
pub const JUMP_GROUP_STAMP: u16 = 0x1800;
pub const JUMP_OPCODE_MASK: u16 = 0xFC00;

/// The opcode tag denoted by a masked opcode stamp. A stamp that names no
/// known instruction denotes `Nop`: unknown patterns are normalised away at
/// decode time, so execution never meets them.
pub open spec fn spec_opcode_of_stamp(stamp: u16) -> IrOpcode {
    match stamp {
        0x0000u16 => IrOpcode::Nop,
        0x0006u16 => IrOpcode::Ldsptl,
        0x0007u16 => IrOpcode::Ldspth,
        0x0010u16 => IrOpcode::Addca,
        0x0011u16 => IrOpcode::Subca,
        0x0012u16 => IrOpcode::Izsna,
        0x0013u16 => IrOpcode::Dzsna,
        0x0017u16 => IrOpcode::Pcadda,
        0x0018u16 => IrOpcode::Nota,
        0x0019u16 => IrOpcode::Nega,
        0x001Au16 => IrOpcode::Sra,
        0x001Bu16 => IrOpcode::Sla,
        0x001Cu16 => IrOpcode::Srca,
        0x001Du16 => IrOpcode::Slca,
        0x001Eu16 => IrOpcode::Swapa,
        0x0030u16 => IrOpcode::Wdreset,
        0x0032u16 => IrOpcode::Pushaf,
        0x0033u16 => IrOpcode::Popaf,
        0x0035u16 => IrOpcode::Reset,
        0x0036u16 => IrOpcode::Stopsys,
        0x0037u16 => IrOpcode::Stopexe,
        0x0038u16 => IrOpcode::Engint,
        0x0039u16 => IrOpcode::Disgint,
        0x003Au16 => IrOpcode::Ret,
        0x003Bu16 => IrOpcode::Reti,
        0x003Cu16 => IrOpcode::Mul,
        0x0060u16 => IrOpcode::Xorioa,
        0x0080u16 => IrOpcode::Movioa,
        0x00A0u16 => IrOpcode::Movaio,
        0x00C0u16 => IrOpcode::Stt16,
        0x00C1u16 => IrOpcode::Ldt16,
        0x00E0u16 => IrOpcode::Idxmma,
        0x00E1u16 => IrOpcode::Idxmam,
        0x0100u16 => IrOpcode::Retk,
        0x0200u16 => IrOpcode::T0snm,
        0x0210u16 => IrOpcode::T1snm,
        0x0300u16 => IrOpcode::Set0m,
        0x0310u16 => IrOpcode::Set1m,
        0x0400u16 => IrOpcode::Addma,
        0x0440u16 => IrOpcode::Subma,
        0x0480u16 => IrOpcode::Addcma,
        0x04C0u16 => IrOpcode::Subcma,
        0x0500u16 => IrOpcode::Andma,
        0x0540u16 => IrOpcode::Orma,
        0x0580u16 => IrOpcode::Xorma,
        0x05C0u16 => IrOpcode::Movma,
        0x0600u16 => IrOpcode::Addam,
        0x0640u16 => IrOpcode::Subam,
        0x0680u16 => IrOpcode::Addcam,
        0x06C0u16 => IrOpcode::Subcam,
        0x0700u16 => IrOpcode::Andam,
        0x0740u16 => IrOpcode::Oram,
        0x0780u16 => IrOpcode::Xoram,
        0x07C0u16 => IrOpcode::Movam,
        0x0800u16 => IrOpcode::Addcm,
        0x0840u16 => IrOpcode::Subcm,
        0x0880u16 => IrOpcode::Izsnm,
        0x08C0u16 => IrOpcode::Dzsnm,
        0x0900u16 => IrOpcode::Incm,
        0x0940u16 => IrOpcode::Decm,
        0x0980u16 => IrOpcode::Clearm,
        0x09C0u16 => IrOpcode::Xchm,
        0x0A00u16 => IrOpcode::Notm,
        0x0A40u16 => IrOpcode::Negm,
        0x0A80u16 => IrOpcode::Srm,
        0x0AC0u16 => IrOpcode::Slm,
        0x0B00u16 => IrOpcode::Srcm,
        0x0B40u16 => IrOpcode::Slcm,
        0x0B80u16 => IrOpcode::Ceqsnam,
        0x0C00u16 => IrOpcode::T0snio,
        0x0D00u16 => IrOpcode::T1snio,
        0x0E00u16 => IrOpcode::Set0io,
        0x0F00u16 => IrOpcode::Set1io,
        0x1000u16 => IrOpcode::Addak,
        0x1100u16 => IrOpcode::Subak,
        0x1200u16 => IrOpcode::Ceqsnak,
        0x1300u16 => IrOpcode::Andak,
        0x1400u16 => IrOpcode::Orak,
        0x1500u16 => IrOpcode::Xorak,
        0x1700u16 => IrOpcode::Movak,
        0x1800u16 => IrOpcode::Goto,
        0x1C00u16 => IrOpcode::Call,
        _ => IrOpcode::Nop,
    }
}

/// Looks a masked opcode stamp up in the dense stamp table.
pub fn opcode_of_stamp(stamp: u16) -> (r: IrOpcode)
    ensures
        r == spec_opcode_of_stamp(stamp),
{
    match stamp {
        0x0000u16 => IrOpcode::Nop,
        0x0006u16 => IrOpcode::Ldsptl,
        0x0007u16 => IrOpcode::Ldspth,
        0x0010u16 => IrOpcode::Addca,
        0x0011u16 => IrOpcode::Subca,
        0x0012u16 => IrOpcode::Izsna,
        0x0013u16 => IrOpcode::Dzsna,
        0x0017u16 => IrOpcode::Pcadda,
        0x0018u16 => IrOpcode::Nota,
        0x0019u16 => IrOpcode::Nega,
        0x001Au16 => IrOpcode::Sra,
        0x001Bu16 => IrOpcode::Sla,
        0x001Cu16 => IrOpcode::Srca,
        0x001Du16 => IrOpcode::Slca,
        0x001Eu16 => IrOpcode::Swapa,
        0x0030u16 => IrOpcode::Wdreset,
        0x0032u16 => IrOpcode::Pushaf,
        0x0033u16 => IrOpcode::Popaf,
        0x0035u16 => IrOpcode::Reset,
        0x0036u16 => IrOpcode::Stopsys,
        0x0037u16 => IrOpcode::Stopexe,
        0x0038u16 => IrOpcode::Engint,
        0x0039u16 => IrOpcode::Disgint,
        0x003Au16 => IrOpcode::Ret,
        0x003Bu16 => IrOpcode::Reti,
        0x003Cu16 => IrOpcode::Mul,
        0x0060u16 => IrOpcode::Xorioa,
        0x0080u16 => IrOpcode::Movioa,
        0x00A0u16 => IrOpcode::Movaio,
        0x00C0u16 => IrOpcode::Stt16,
        0x00C1u16 => IrOpcode::Ldt16,
        0x00E0u16 => IrOpcode::Idxmma,
        0x00E1u16 => IrOpcode::Idxmam,
        0x0100u16 => IrOpcode::Retk,
        0x0200u16 => IrOpcode::T0snm,
        0x0210u16 => IrOpcode::T1snm,
        0x0300u16 => IrOpcode::Set0m,
        0x0310u16 => IrOpcode::Set1m,
        0x0400u16 => IrOpcode::Addma,
        0x0440u16 => IrOpcode::Subma,
        0x0480u16 => IrOpcode::Addcma,
        0x04C0u16 => IrOpcode::Subcma,
        0x0500u16 => IrOpcode::Andma,
        0x0540u16 => IrOpcode::Orma,
        0x0580u16 => IrOpcode::Xorma,
        0x05C0u16 => IrOpcode::Movma,
        0x0600u16 => IrOpcode::Addam,
        0x0640u16 => IrOpcode::Subam,
        0x0680u16 => IrOpcode::Addcam,
        0x06C0u16 => IrOpcode::Subcam,
        0x0700u16 => IrOpcode::Andam,
        0x0740u16 => IrOpcode::Oram,
        0x0780u16 => IrOpcode::Xoram,
        0x07C0u16 => IrOpcode::Movam,
        0x0800u16 => IrOpcode::Addcm,
        0x0840u16 => IrOpcode::Subcm,
        0x0880u16 => IrOpcode::Izsnm,
        0x08C0u16 => IrOpcode::Dzsnm,
        0x0900u16 => IrOpcode::Incm,
        0x0940u16 => IrOpcode::Decm,
        0x0980u16 => IrOpcode::Clearm,
        0x09C0u16 => IrOpcode::Xchm,
        0x0A00u16 => IrOpcode::Notm,
        0x0A40u16 => IrOpcode::Negm,
        0x0A80u16 => IrOpcode::Srm,
        0x0AC0u16 => IrOpcode::Slm,
        0x0B00u16 => IrOpcode::Srcm,
        0x0B40u16 => IrOpcode::Slcm,
        0x0B80u16 => IrOpcode::Ceqsnam,
        0x0C00u16 => IrOpcode::T0snio,
        0x0D00u16 => IrOpcode::T1snio,
        0x0E00u16 => IrOpcode::Set0io,
        0x0F00u16 => IrOpcode::Set1io,
        0x1000u16 => IrOpcode::Addak,
        0x1100u16 => IrOpcode::Subak,
        0x1200u16 => IrOpcode::Ceqsnak,
        0x1300u16 => IrOpcode::Andak,
        0x1400u16 => IrOpcode::Orak,
        0x1500u16 => IrOpcode::Xorak,
        0x1700u16 => IrOpcode::Movak,
        0x1800u16 => IrOpcode::Goto,
        0x1C00u16 => IrOpcode::Call,
        _ => IrOpcode::Nop,
    }
}

/// One decoded ROM slot: an opcode tag and its operand fields.
///
/// The `operand3` field is always kept below 8 by the decoder and the builder;
/// as a bit index it selects one of the eight bits of a byte.
#[derive(Clone, Copy, Debug)]
pub struct IrSlot {
    pub opcode: IrOpcode,
    pub operand8: u8,
    pub operand3: u8,
    pub word: u16,
}

/// The well-formedness every slot held in ROM satisfies: the 3-bit operand
/// fits in three bits and the preserved word fits in thirteen.
pub open spec fn slot_wf(s: IrSlot) -> bool {
    s.operand3 < 8 && s.word <= 0x1FFF
}

impl IrSlot {
    /// Decodes a raw instruction word, rejecting words beyond 13 bits.
    pub fn from_instruction(instruction: u16) -> (r: Pdk13Result<IrSlot>)
        ensures
            instruction <= 0x1FFF ==> r == Ok::<IrSlot, Pdk13Error>(spec_decode(instruction)),
            instruction > 0x1FFF ==> r == Err::<IrSlot, Pdk13Error>(
                Pdk13Error::TooBigWord(instruction),
            ),
    {
        if !limit::is_valid_opcode(instruction) {
            Err(Pdk13Error::TooBigWord(instruction))
        } else {
            proof {
                assert(instruction & 0x1FFF == instruction) by (bit_vector)
                    requires
                        instruction <= 0x1FFF,
                ;
            }
            Ok(generate_ir(instruction))
        }
    }

    /// The opcode tag the core dispatches on.
    pub fn ir_opcode(&self) -> (r: IrOpcode)
        ensures
            r == self.opcode,
    {
        self.opcode
    }

    /// The original 13-bit instruction word.
    pub fn original_word(&self) -> (r: u16)
        ensures
            r == self.word,
    {
        self.word
    }

    /// The 8-bit operand read as a RAM address.
    pub fn mem_address(&self) -> (r: u8)
        ensures
            r == self.operand8,
    {
        self.operand8()
    }

    /// The 8-bit operand read as an IO address.
    pub fn io_address(&self) -> (r: u8)
        ensures
            r == self.operand8,
    {
        self.operand8()
    }

    /// The 3-bit operand read as a bit index.
    pub fn bit_index(&self) -> (r: u8)
        ensures
            r == self.operand3,
    {
        self.operand3()
    }

    /// The 8-bit operand read as an immediate byte.
    pub fn immediate(&self) -> (r: u8)
        ensures
            r == self.operand8,
    {
        self.operand8()
    }

    /// The 11-bit ROM address: the 8-bit operand gives the low bits, the
    /// 3-bit operand the high bits.
    pub fn rom_address(&self) -> (r: u16)
        ensures
            r == self.spec_rom_address(),
    {
        self.operand11()
    }

    /// What `rom_address` returns, as a number.
    pub open spec fn spec_rom_address(&self) -> u16 {
        (self.operand8 + self.operand3 * 256) as u16
    }

    fn operand3(&self) -> (r: u8)
        ensures
            r == self.operand3,
    {
        self.operand3
    }

    fn operand8(&self) -> (r: u8)
        ensures
            r == self.operand8,
    {
        self.operand8
    }

    fn operand11(&self) -> (r: u16)
        ensures
            r == self.spec_rom_address(),
    {
        self.operand8 as u16 + self.operand3 as u16 * 256
    }
}

/// The slot every ROM cell holds before firmware is loaded over it.
pub open spec fn spec_default_slot() -> IrSlot {
    IrSlot { opcode: IrOpcode::Nop, operand8: 0, operand3: 0, word: 0 }
}

impl Default for IrSlot {
    /// A `Nop` slot with zeroed operand fields.
    fn default() -> (r: Self)
        ensures
            r == spec_default_slot(),
    {
        IrSlot { opcode: IrOpcode::Nop, operand8: 0, operand3: 0, word: 0 }
    }
}

/// A by-value builder for slots, used by tests and by the decoder.
///
/// Every setter masks its argument to the width of the field it fills, so a
/// built slot is always well formed.
pub struct IrSlotBuilder {
    pub opcode: IrOpcode,
    pub operand8: u8,
    pub operand3: u8,
    pub word: u16,
}

impl IrSlotBuilder {
    /// Starts from the default slot.
    pub fn new() -> (r: Self)
        ensures
            r.opcode == IrOpcode::Nop,
            r.operand8 == 0,
            r.operand3 == 0,
            r.word == 0,
    {
        IrSlotBuilder { opcode: IrOpcode::Nop, operand8: 0, operand3: 0, word: 0 }
    }

    /// Sets the preserved original word, masked to 13 bits.
    pub fn original_word(self, value: u16) -> (r: Self)
        ensures
            r == (IrSlotBuilder { word: (value % 0x2000) as u16, ..self }),
    {
        IrSlotBuilder { word: value % 0x2000, ..self }
    }

    /// Sets the opcode tag.
    pub fn ir_opcode(self, value: IrOpcode) -> (r: Self)
        ensures
            r == (IrSlotBuilder { opcode: value, ..self }),
    {
        IrSlotBuilder { opcode: value, ..self }
    }

    /// Sets the 8-bit operand as a RAM address.
    pub fn mem_address(self, value: u8) -> (r: Self)
        ensures
            r == (IrSlotBuilder { operand8: value, ..self }),
    {
        self.operand8(value)
    }

    /// Sets the 8-bit operand as an IO address.
    pub fn io_address(self, value: u8) -> (r: Self)
        ensures
            r == (IrSlotBuilder { operand8: value, ..self }),
    {
        self.operand8(value)
    }

    /// Sets the 3-bit operand as a bit index, masked to 3 bits.
    pub fn bit_index(self, value: u8) -> (r: Self)
        ensures
            r == (IrSlotBuilder { operand3: (value % 8) as u8, ..self }),
    {
        self.operand3(value)
    }

    /// Sets the 8-bit operand as an immediate byte.
    pub fn immediate(self, value: u8) -> (r: Self)
        ensures
            r == (IrSlotBuilder { operand8: value, ..self }),
    {
        self.operand8(value)
    }

    /// Sets the 11-bit ROM address across the two operand fields.
    pub fn rom_address(self, value: u16) -> (r: Self)
        ensures
            r == (IrSlotBuilder {
                operand8: (value % 256) as u8,
                operand3: ((value / 256) % 8) as u8,
                ..self
            }),
    {
        self.operand11(value)
    }

    fn operand3(self, value: u8) -> (r: Self)
        ensures
            r == (IrSlotBuilder { operand3: (value % 8) as u8, ..self }),
    {
        IrSlotBuilder { operand3: value % 8, ..self }
    }

    fn operand8(self, value: u8) -> (r: Self)
        ensures
            r == (IrSlotBuilder { operand8: value, ..self }),
    {
        IrSlotBuilder { operand8: value, ..self }
    }

    fn operand11(self, value: u16) -> (r: Self)
        ensures
            r == (IrSlotBuilder {
                operand8: (value % 256) as u8,
                operand3: ((value / 256) % 8) as u8,
                ..self
            }),
    {
        IrSlotBuilder {
            operand8: (value % 256) as u8,
            operand3: ((value / 256) % 8) as u8,
            ..self
        }
    }

    /// The finished slot.
    pub fn build(self) -> (r: IrSlot)
        ensures
            r == (IrSlot {
                opcode: self.opcode,
                operand8: self.operand8,
                operand3: self.operand3,
                word: self.word,
            }),
    {
        IrSlot { opcode: self.opcode, operand8: self.operand8, operand3: self.operand3, word: self.word }
    }
}

/// What decoding a 13-bit word yields, by the group-mask table: the first
/// group whose stamp matches under its mask decides the opcode stamp and the
/// operand layout. Meaningful for `w <= 0x1FFF`.
pub open spec fn spec_decode(w: u16) -> IrSlot {
    if w & MISC_GROUP_MASK == MISC_GROUP_STAMP {
        IrSlot { opcode: spec_opcode_of_stamp(w), operand8: 0, operand3: 0, word: w }
    } else if w & XOR_IO_GROUP_MASK == XOR_IO_GROUP_STAMP {
        IrSlot {
            opcode: spec_opcode_of_stamp(w & XOR_IO_OPCODE_MASK),
            operand8: (w & 0x1F) as u8,
            operand3: 0,
            word: w,
        }
    } else if w & MOV_IO_GROUP_MASK == MOV_IO_GROUP_STAMP {
        IrSlot {
            opcode: spec_opcode_of_stamp(w & MOV_IO_OPCODE_MASK),
            operand8: (w & 0x1F) as u8,
            operand3: 0,
            word: w,
        }
    } else if w & MEM16_GROUP_MASK == MEM16_GROUP_STAMP {
        IrSlot {
            opcode: spec_opcode_of_stamp(w & MEM16_OPCODE_MASK),
            operand8: (w & 0x1E) as u8,
            operand3: 0,
            word: w,
        }
    } else if w & RET_CONST_GROUP_MASK == RET_CONST_GROUP_STAMP {
        IrSlot {
            opcode: spec_opcode_of_stamp(w & RET_CONST_OPCODE_MASK),
            operand8: (w & 0xFF) as u8,
            operand3: 0,
            word: w,
        }
    } else if w & MEM_BIT_OPS_GROUP_MASK == MEM_BIT_OPS_GROUP_STAMP {
        IrSlot {
            opcode: spec_opcode_of_stamp(w & MEM_BIT_OPS_OPCODE_MASK),
            operand8: (w & 0x0F) as u8,
            operand3: ((w >> 5) & 0x07) as u8,
            word: w,
        }
    } else if w & MEM_AND_ACC_GROUP_MASK == MEM_AND_ACC_GROUP_STAMP {
        IrSlot {
            opcode: spec_opcode_of_stamp(w & MEM_AND_ACC_OPCODE_MASK),
            operand8: (w & 0x3F) as u8,
            operand3: 0,
            word: w,
        }
    } else if w & MEM_GROUP_MASK == MEM_GROUP_STAMP {
        IrSlot {
            opcode: spec_opcode_of_stamp(w & MEM_OPCODE_MASK),
            operand8: (w & 0x3F) as u8,
            operand3: 0,
            word: w,
        }
    } else if w & IO_BIT_OPS_GROUP_MASK == IO_BIT_OPS_GROUP_STAMP {
        IrSlot {
            opcode: spec_opcode_of_stamp(w & IO_BIT_OPS_OPCODE_MASK),
            operand8: (w & 0x1F) as u8,
            operand3: ((w >> 5) & 0x07) as u8,
            word: w,
        }
    } else if w & ACC_CONST_GROUP_MASK == ACC_CONST_GROUP_STAMP {
        IrSlot {
            opcode: spec_opcode_of_stamp(w & ACC_CONST_OPCODE_MASK),
            operand8: (w & 0xFF) as u8,
            operand3: 0,
            word: w,
        }
    } else if w & JUMP_GROUP_MASK == JUMP_GROUP_STAMP {
        IrSlot {
            opcode: spec_opcode_of_stamp(w & JUMP_OPCODE_MASK),
            operand8: (w & 0xFF) as u8,
            operand3: ((w >> 8) & 0x03) as u8,
            word: w,
        }
    } else {
        IrSlot { opcode: IrOpcode::Nop, operand8: 0, operand3: 0, word: w }
    }
}

/// Decodes a word unconditionally: the word is first masked to 13 bits, so an
/// over-wide pattern is reduced instead of rejected.
pub fn generate_ir(instruction: u16) -> (r: IrSlot)
    ensures
        r == spec_decode((instruction & 0x1FFF) as u16),
{
    let w: u16 = instruction & 0x1FFF;
    if w & MISC_GROUP_MASK == MISC_GROUP_STAMP {
        IrSlot { opcode: opcode_of_stamp(w), operand8: 0, operand3: 0, word: w }
    } else if w & XOR_IO_GROUP_MASK == XOR_IO_GROUP_STAMP {
        IrSlot {
            opcode: opcode_of_stamp(w & XOR_IO_OPCODE_MASK),
            operand8: (w & 0x1F) as u8,
            operand3: 0,
            word: w,
        }
    } else if w & MOV_IO_GROUP_MASK == MOV_IO_GROUP_STAMP {
        IrSlot {
            opcode: opcode_of_stamp(w & MOV_IO_OPCODE_MASK),
            operand8: (w & 0x1F) as u8,
            operand3: 0,
            word: w,
        }
    } else if w & MEM16_GROUP_MASK == MEM16_GROUP_STAMP {
        IrSlot {
            opcode: opcode_of_stamp(w & MEM16_OPCODE_MASK),
            operand8: (w & 0x1E) as u8,
            operand3: 0,
            word: w,
        }
    } else if w & RET_CONST_GROUP_MASK == RET_CONST_GROUP_STAMP {
        IrSlot {
            opcode: opcode_of_stamp(w & RET_CONST_OPCODE_MASK),
            operand8: (w & 0xFF) as u8,
            operand3: 0,
            word: w,
        }
    } else if w & MEM_BIT_OPS_GROUP_MASK == MEM_BIT_OPS_GROUP_STAMP {
        IrSlot {
            opcode: opcode_of_stamp(w & MEM_BIT_OPS_OPCODE_MASK),
            operand8: (w & 0x0F) as u8,
            operand3: ((w >> 5) & 0x07) as u8,
            word: w,
        }
    } else if w & MEM_AND_ACC_GROUP_MASK == MEM_AND_ACC_GROUP_STAMP {
        IrSlot {
            opcode: opcode_of_stamp(w & MEM_AND_ACC_OPCODE_MASK),
            operand8: (w & 0x3F) as u8,
            operand3: 0,
            word: w,
        }
    } else if w & MEM_GROUP_MASK == MEM_GROUP_STAMP {
        IrSlot {
            opcode: opcode_of_stamp(w & MEM_OPCODE_MASK),
            operand8: (w & 0x3F) as u8,
            operand3: 0,
            word: w,
        }
    } else if w & IO_BIT_OPS_GROUP_MASK == IO_BIT_OPS_GROUP_STAMP {
        IrSlot {
            opcode: opcode_of_stamp(w & IO_BIT_OPS_OPCODE_MASK),
            operand8: (w & 0x1F) as u8,
            operand3: ((w >> 5) & 0x07) as u8,
            word: w,
        }
    } else if w & ACC_CONST_GROUP_MASK == ACC_CONST_GROUP_STAMP {
        IrSlot {
            opcode: opcode_of_stamp(w & ACC_CONST_OPCODE_MASK),
            operand8: (w & 0xFF) as u8,
            operand3: 0,
            word: w,
        }
    } else if w & JUMP_GROUP_MASK == JUMP_GROUP_STAMP {
        IrSlot {
            opcode: opcode_of_stamp(w & JUMP_OPCODE_MASK),
            operand8: (w & 0xFF) as u8,
            operand3: ((w >> 8) & 0x03) as u8,
            word: w,
        }
    } else {
        IrSlot { opcode: IrOpcode::Nop, operand8: 0, operand3: 0, word: w }
    }
}

/// The decoder extracts operands exactly as the group table dictates, for
/// every 13-bit word: the matched group decides which low bits become the
/// IO address, RAM address, bit index, immediate or ROM address, and the
/// original word is preserved in the slot unchanged.
pub proof fn lemma_decode_operand_extraction(w: u16)
    requires
        w <= 0x1FFF,
    ensures
        spec_decode(w).word == w,
        w & XOR_IO_GROUP_MASK == XOR_IO_GROUP_STAMP ==> spec_decode(w).operand8 == (w & 0x1F) as u8,
        w & MOV_IO_GROUP_MASK == MOV_IO_GROUP_STAMP ==> spec_decode(w).operand8 == (w & 0x1F) as u8,
        w & MEM16_GROUP_MASK == MEM16_GROUP_STAMP ==> spec_decode(w).operand8 == (w & 0x1E) as u8,
        w & RET_CONST_GROUP_MASK == RET_CONST_GROUP_STAMP ==> spec_decode(w).operand8 == (w
            & 0xFF) as u8,
        w & MEM_BIT_OPS_GROUP_MASK == MEM_BIT_OPS_GROUP_STAMP ==> spec_decode(w).operand8 == (w
            & 0x0F) as u8 && spec_decode(w).operand3 == ((w >> 5) & 0x07) as u8,
        w & MEM_AND_ACC_GROUP_MASK == MEM_AND_ACC_GROUP_STAMP ==> spec_decode(w).operand8 == (w
            & 0x3F) as u8,
        w & MEM_GROUP_MASK == MEM_GROUP_STAMP ==> spec_decode(w).operand8 == (w & 0x3F) as u8,
        w & IO_BIT_OPS_GROUP_MASK == IO_BIT_OPS_GROUP_STAMP ==> spec_decode(w).operand8 == (w
            & 0x1F) as u8 && spec_decode(w).operand3 == ((w >> 5) & 0x07) as u8,
        w & ACC_CONST_GROUP_MASK == ACC_CONST_GROUP_STAMP ==> spec_decode(w).operand8 == (w
            & 0xFF) as u8,
        w & JUMP_GROUP_MASK == JUMP_GROUP_STAMP ==> spec_decode(w).spec_rom_address() == (w
            & 0x3FF) as u16,
{
    assert({
        &&& (w & 0xFF00 == 0x0100 ==> w & 0xFFC0 != 0x0000 && w & 0xFFC0 != 0x0040 && w & 0xFFC0
            != 0x0080 && w & 0xFFC0 != 0x00C0)
        &&& (w & 0xFE00 == 0x0200 ==> w & 0xFFC0 != 0x0000 && w & 0xFFC0 != 0x0040 && w & 0xFFC0
            != 0x0080 && w & 0xFFC0 != 0x00C0 && w & 0xFF00 != 0x0100)
        &&& (w & 0xFC00 == 0x0400 ==> w & 0xFFC0 != 0x0000 && w & 0xFFC0 != 0x0040 && w & 0xFFC0
            != 0x0080 && w & 0xFFC0 != 0x00C0 && w & 0xFF00 != 0x0100 && w & 0xFE00 != 0x0200)
        &&& (w & 0xFC00 == 0x0800 ==> w & 0xFFC0 != 0x0000 && w & 0xFFC0 != 0x0040 && w & 0xFFC0
            != 0x0080 && w & 0xFFC0 != 0x00C0 && w & 0xFF00 != 0x0100 && w & 0xFE00 != 0x0200)
        &&& (w & 0xFC00 == 0x0C00 ==> w & 0xFFC0 != 0x0000 && w & 0xFFC0 != 0x0040 && w & 0xFFC0
            != 0x0080 && w & 0xFFC0 != 0x00C0 && w & 0xFF00 != 0x0100 && w & 0xFE00 != 0x0200)
        &&& (w & 0xF800 == 0x1000 ==> w & 0xFFC0 != 0x0000 && w & 0xFFC0 != 0x0040 && w & 0xFFC0
            != 0x0080 && w & 0xFFC0 != 0x00C0 && w & 0xFF00 != 0x0100 && w & 0xFE00 != 0x0200 && w
            & 0xFC00 != 0x0400 && w & 0xFC00 != 0x0800 && w & 0xFC00 != 0x0C00)
        &&& (w & 0xF800 == 0x1800 ==> w & 0xFFC0 != 0x0000 && w & 0xFFC0 != 0x0040 && w & 0xFFC0
            != 0x0080 && w & 0xFFC0 != 0x00C0 && w & 0xFF00 != 0x0100 && w & 0xFE00 != 0x0200 && w
            & 0xFC00 != 0x0400 && w & 0xFC00 != 0x0800 && w & 0xFC00 != 0x0C00)
        &&& (w & 0xFF) + ((w >> 8) & 0x03) * 256 == w & 0x3FF
        &&& w & 0xFF < 256 && (w >> 8) & 0x03 < 4 && w & 0x3FF < 1024
    }) by (bit_vector)
        requires
            w <= 0x1FFF,
    ;
}

/// Every decoded slot is well formed: its 3-bit operand is below 8 and its
/// preserved word fits in 13 bits.
pub proof fn lemma_decode_wf(w: u16)
    requires
        w <= 0x1FFF,
    ensures
        slot_wf(spec_decode(w)),
{
    assert(((w >> 5) & 0x07) < 8 && ((w >> 8) & 0x03) < 8 && (w & 0x1F) < 32) by (bit_vector);
}

} // verus!
