//! The range limit of a PDK13 instruction word.

use vstd::prelude::*;

verus! {

/// The largest value a 13-bit instruction word can take.
pub const MAX_PDK13_WORD_VALUE: u16 = 0x1FFF;

/// True exactly when `value` fits in 13 bits and so can be decoded.
pub fn is_valid_opcode(value: u16) -> (r: bool)
    ensures
        r == (value <= MAX_PDK13_WORD_VALUE),
{
    value <= MAX_PDK13_WORD_VALUE
}

} // verus!
