//! The fielded decoded form of an instruction word.
//!
//! Where [`crate::ir`] packs a decoded instruction for the executor's ROM,
//! this layer lays the same decoding out in named fields: the opcode tag, an
//! 8-bit operand for memory and IO addresses, and a 16-bit operand carrying a
//! bit index, an immediate byte or a ROM address. It serves embedders that
//! inspect instructions rather than run them.

use vstd::prelude::*;

use crate::ir::spec_opcode_of_stamp;
use crate::ir::opcode_of_stamp;
use crate::ir::IrOpcode;
use crate::ir::ACC_CONST_GROUP_MASK;
use crate::ir::ACC_CONST_GROUP_STAMP;
use crate::ir::ACC_CONST_OPCODE_MASK;
use crate::ir::IO_BIT_OPS_GROUP_MASK;
use crate::ir::IO_BIT_OPS_GROUP_STAMP;
use crate::ir::IO_BIT_OPS_OPCODE_MASK;
use crate::ir::JUMP_GROUP_MASK;
use crate::ir::JUMP_GROUP_STAMP;
use crate::ir::JUMP_OPCODE_MASK;
use crate::ir::MEM16_GROUP_MASK;
use crate::ir::MEM16_GROUP_STAMP;
use crate::ir::MEM16_OPCODE_MASK;
use crate::ir::MEM_AND_ACC_GROUP_MASK;
use crate::ir::MEM_AND_ACC_GROUP_STAMP;
use crate::ir::MEM_AND_ACC_OPCODE_MASK;
use crate::ir::MEM_BIT_OPS_GROUP_MASK;
use crate::ir::MEM_BIT_OPS_GROUP_STAMP;
use crate::ir::MEM_BIT_OPS_OPCODE_MASK;
use crate::ir::MEM_GROUP_MASK;
use crate::ir::MEM_GROUP_STAMP;
use crate::ir::MEM_OPCODE_MASK;
use crate::ir::MISC_GROUP_MASK;
use crate::ir::MISC_GROUP_STAMP;
use crate::ir::MOV_IO_GROUP_MASK;
use crate::ir::MOV_IO_GROUP_STAMP;
use crate::ir::MOV_IO_OPCODE_MASK;
use crate::ir::RET_CONST_GROUP_MASK;
use crate::ir::RET_CONST_GROUP_STAMP;
use crate::ir::RET_CONST_OPCODE_MASK;
use crate::ir::XOR_IO_GROUP_MASK;
use crate::ir::XOR_IO_GROUP_STAMP;
use crate::ir::XOR_IO_OPCODE_MASK;
use crate::limit;
use crate::Pdk13Error;
use crate::Pdk13Result;

verus! {

/// One decoded instruction with named operand fields.
#[derive(Clone, Copy, Debug)]
pub struct DecodedWord {
    pub opcode: IrOpcode,
    pub operand8: u8,
    pub operand16: u16,
}

impl DecodedWord {
    /// The opcode tag.
    pub fn opcode(&self) -> (r: IrOpcode)
        ensures
            r == self.opcode,
    {
        self.opcode
    }

    /// The 8-bit operand: a memory or IO address.
    pub fn operand8(&self) -> (r: u8)
        ensures
            r == self.operand8,
    {
        self.operand8
    }

    /// The 16-bit operand: a bit index, an immediate byte or a ROM address.
    pub fn operand16(&self) -> (r: u16)
        ensures
            r == self.operand16,
    {
        self.operand16
    }
}

/// What translating a 13-bit word yields, group by group: the same group
/// table as the ROM decoder, with addresses in the 8-bit operand and bit
/// indices, immediates and ROM addresses in the 16-bit operand.
pub open spec fn spec_translate(w: u16) -> DecodedWord {
    if w & MISC_GROUP_MASK == MISC_GROUP_STAMP {
        DecodedWord { opcode: spec_opcode_of_stamp(w), operand8: 0, operand16: 0 }
    } else if w & XOR_IO_GROUP_MASK == XOR_IO_GROUP_STAMP {
        DecodedWord {
            opcode: spec_opcode_of_stamp(w & XOR_IO_OPCODE_MASK),
            operand8: (w & 0x1F) as u8,
            operand16: 0,
        }
    } else if w & MOV_IO_GROUP_MASK == MOV_IO_GROUP_STAMP {
        DecodedWord {
            opcode: spec_opcode_of_stamp(w & MOV_IO_OPCODE_MASK),
            operand8: (w & 0x1F) as u8,
            operand16: 0,
        }
    } else if w & MEM16_GROUP_MASK == MEM16_GROUP_STAMP {
        DecodedWord {
            opcode: spec_opcode_of_stamp(w & MEM16_OPCODE_MASK),
            operand8: (w & 0x1E) as u8,
            operand16: 0,
        }
    } else if w & RET_CONST_GROUP_MASK == RET_CONST_GROUP_STAMP {
        DecodedWord {
            opcode: spec_opcode_of_stamp(w & RET_CONST_OPCODE_MASK),
            operand8: 0,
            operand16: (w & 0xFF) as u16,
        }
    } else if w & MEM_BIT_OPS_GROUP_MASK == MEM_BIT_OPS_GROUP_STAMP {
        DecodedWord {
            opcode: spec_opcode_of_stamp(w & MEM_BIT_OPS_OPCODE_MASK),
            operand8: (w & 0x0F) as u8,
            operand16: ((w >> 5) & 0x07) as u16,
        }
    } else if w & MEM_AND_ACC_GROUP_MASK == MEM_AND_ACC_GROUP_STAMP {
        DecodedWord {
            opcode: spec_opcode_of_stamp(w & MEM_AND_ACC_OPCODE_MASK),
            operand8: (w & 0x3F) as u8,
            operand16: 0,
        }
    } else if w & MEM_GROUP_MASK == MEM_GROUP_STAMP {
        DecodedWord {
            opcode: spec_opcode_of_stamp(w & MEM_OPCODE_MASK),
            operand8: (w & 0x3F) as u8,
            operand16: 0,
        }
    } else if w & IO_BIT_OPS_GROUP_MASK == IO_BIT_OPS_GROUP_STAMP {
        DecodedWord {
            opcode: spec_opcode_of_stamp(w & IO_BIT_OPS_OPCODE_MASK),
            operand8: (w & 0x1F) as u8,
            operand16: ((w >> 5) & 0x07) as u16,
        }
    } else if w & ACC_CONST_GROUP_MASK == ACC_CONST_GROUP_STAMP {
        DecodedWord {
            opcode: spec_opcode_of_stamp(w & ACC_CONST_OPCODE_MASK),
            operand8: 0,
            operand16: (w & 0xFF) as u16,
        }
    } else if w & JUMP_GROUP_MASK == JUMP_GROUP_STAMP {
        DecodedWord {
            opcode: spec_opcode_of_stamp(w & JUMP_OPCODE_MASK),
            operand8: 0,
            operand16: (w & 0x3FF) as u16,
        }
    } else {
        DecodedWord { opcode: IrOpcode::Nop, operand8: 0, operand16: 0 }
    }
}

/// Translates a 13-bit word into its fielded decoded form, rejecting words
/// beyond 13 bits.
pub fn generate_ir(instruction: u16) -> (r: Pdk13Result<DecodedWord>)
    ensures
        instruction <= 0x1FFF ==> r == Ok::<DecodedWord, Pdk13Error>(spec_translate(instruction)),
        instruction > 0x1FFF ==> r == Err::<DecodedWord, Pdk13Error>(
            Pdk13Error::TooBigWord(instruction),
        ),
{
    if !limit::is_valid_opcode(instruction) {
        return Err(Pdk13Error::TooBigWord(instruction));
    }
    let w = instruction;
    if w & MISC_GROUP_MASK == MISC_GROUP_STAMP {
        Ok(DecodedWord { opcode: opcode_of_stamp(w), operand8: 0, operand16: 0 })
    } else if w & XOR_IO_GROUP_MASK == XOR_IO_GROUP_STAMP {
        Ok(DecodedWord {
            opcode: opcode_of_stamp(w & XOR_IO_OPCODE_MASK),
            operand8: (w & 0x1F) as u8,
            operand16: 0,
        })
    } else if w & MOV_IO_GROUP_MASK == MOV_IO_GROUP_STAMP {
        Ok(DecodedWord {
            opcode: opcode_of_stamp(w & MOV_IO_OPCODE_MASK),
            operand8: (w & 0x1F) as u8,
            operand16: 0,
        })
    } else if w & MEM16_GROUP_MASK == MEM16_GROUP_STAMP {
        Ok(DecodedWord {
            opcode: opcode_of_stamp(w & MEM16_OPCODE_MASK),
            operand8: (w & 0x1E) as u8,
            operand16: 0,
        })
    } else if w & RET_CONST_GROUP_MASK == RET_CONST_GROUP_STAMP {
        Ok(DecodedWord {
            opcode: opcode_of_stamp(w & RET_CONST_OPCODE_MASK),
            operand8: 0,
            operand16: w & 0xFF,
        })
    } else if w & MEM_BIT_OPS_GROUP_MASK == MEM_BIT_OPS_GROUP_STAMP {
        Ok(DecodedWord {
            opcode: opcode_of_stamp(w & MEM_BIT_OPS_OPCODE_MASK),
            operand8: (w & 0x0F) as u8,
            operand16: (w >> 5) & 0x07,
        })
    } else if w & MEM_AND_ACC_GROUP_MASK == MEM_AND_ACC_GROUP_STAMP {
        Ok(DecodedWord {
            opcode: opcode_of_stamp(w & MEM_AND_ACC_OPCODE_MASK),
            operand8: (w & 0x3F) as u8,
            operand16: 0,
        })
    } else if w & MEM_GROUP_MASK == MEM_GROUP_STAMP {
        Ok(DecodedWord {
            opcode: opcode_of_stamp(w & MEM_OPCODE_MASK),
            operand8: (w & 0x3F) as u8,
            operand16: 0,
        })
    } else if w & IO_BIT_OPS_GROUP_MASK == IO_BIT_OPS_GROUP_STAMP {
        Ok(DecodedWord {
            opcode: opcode_of_stamp(w & IO_BIT_OPS_OPCODE_MASK),
            operand8: (w & 0x1F) as u8,
            operand16: (w >> 5) & 0x07,
        })
    } else if w & ACC_CONST_GROUP_MASK == ACC_CONST_GROUP_STAMP {
        Ok(DecodedWord {
            opcode: opcode_of_stamp(w & ACC_CONST_OPCODE_MASK),
            operand8: 0,
            operand16: w & 0xFF,
        })
    } else if w & JUMP_GROUP_MASK == JUMP_GROUP_STAMP {
        Ok(DecodedWord {
            opcode: opcode_of_stamp(w & JUMP_OPCODE_MASK),
            operand8: 0,
            operand16: w & 0x3FF,
        })
    } else {
        Ok(DecodedWord { opcode: IrOpcode::Nop, operand8: 0, operand16: 0 })
    }
}

/// The fielded translation names the same instruction as the ROM decoder:
/// both layers agree on the opcode tag of every 13-bit word.
pub proof fn lemma_translation_matches_decoder(w: u16)
    requires
        w <= 0x1FFF,
    ensures
        spec_translate(w).opcode == crate::ir::spec_decode(w).opcode,
{
}

} // verus!
