//! Pure byte ALU operations with flag computation.
//!
//! Every operation takes the operand bytes together with the previous flags
//! byte and returns the result byte and the new flags byte. The four ALU
//! flags live in the low bits of the flags byte (`Z`, `C`, `AC`, `OV`); the
//! upper four bits are reserved and preserved exactly.
//!
//! The auxiliary-carry and signed-overflow flags are looked up in 8-entry
//! tables indexed by bits 3 and 7 of the two operands and of the result.
//! Shift operations clear `Z` rather than recomputing it.

use vstd::prelude::*;

use crate::regs::FLAG_AUX_CARRY_MASK;
use crate::regs::FLAG_CARRY_MASK;
use crate::regs::FLAG_CARRY_OFFSET;
use crate::regs::FLAG_OVERFLOW_MASK;
use crate::regs::FLAG_ZERO_MASK;
use crate::regs::FLAGS_ARITH_MASK;

verus! {

/// The combined table index: bits 3 and 7 of operand `a` land in bits 0 and
/// 4, of operand `b` in bits 1 and 5, of the result in bits 2 and 6.
pub open spec fn spec_flags_index(a: u8, b: u8, r: u8) -> u8 {
    ((a & 0x88) >> 3) | ((b & 0x88) >> 2) | ((r & 0x88) >> 1)
}

fn flags_index(a: u8, b: u8, r: u8) -> (i: u8)
    ensures
        i == spec_flags_index(a, b, r),
{
    ((a & 0x88) >> 3) | ((b & 0x88) >> 2) | ((r & 0x88) >> 1)
}

/// Auxiliary-carry table for addition: entries 1, 2, 3 and 7 carry the flag.
pub open spec fn spec_aux_carry_add_entry(i: u8) -> u8 {
    if i == 1 || i == 2 || i == 3 || i == 7 {
        FLAG_AUX_CARRY_MASK
    } else {
        0
    }
}

/// Auxiliary-carry table for subtraction: entries 2, 4, 6 and 7 carry the flag.
pub open spec fn spec_aux_carry_sub_entry(i: u8) -> u8 {
    if i == 2 || i == 4 || i == 6 || i == 7 {
        FLAG_AUX_CARRY_MASK
    } else {
        0
    }
}

/// Signed-overflow table for addition: entries 3 and 4 carry the flag.
pub open spec fn spec_overflow_add_entry(i: u8) -> u8 {
    if i == 3 || i == 4 {
        FLAG_OVERFLOW_MASK
    } else {
        0
    }
}

/// Signed-overflow table for subtraction: entries 1 and 6 carry the flag.
pub open spec fn spec_overflow_sub_entry(i: u8) -> u8 {
    if i == 1 || i == 6 {
        FLAG_OVERFLOW_MASK
    } else {
        0
    }
}

fn aux_carry_add_entry(i: u8) -> (r: u8)
    ensures
        r == spec_aux_carry_add_entry(i),
{
    if i == 1 || i == 2 || i == 3 || i == 7 {
        FLAG_AUX_CARRY_MASK
    } else {
        0
    }
}

fn aux_carry_sub_entry(i: u8) -> (r: u8)
    ensures
        r == spec_aux_carry_sub_entry(i),
{
    if i == 2 || i == 4 || i == 6 || i == 7 {
        FLAG_AUX_CARRY_MASK
    } else {
        0
    }
}

fn overflow_add_entry(i: u8) -> (r: u8)
    ensures
        r == spec_overflow_add_entry(i),
{
    if i == 3 || i == 4 {
        FLAG_OVERFLOW_MASK
    } else {
        0
    }
}

fn overflow_sub_entry(i: u8) -> (r: u8)
    ensures
        r == spec_overflow_sub_entry(i),
{
    if i == 1 || i == 6 {
        FLAG_OVERFLOW_MASK
    } else {
        0
    }
}

/// Sets or clears `Z` in a flags byte, leaving every other bit alone.
pub open spec fn spec_with_zero(flags: u8, zero: bool) -> u8 {
    if zero {
        flags | FLAG_ZERO_MASK
    } else {
        flags & !FLAG_ZERO_MASK
    }
}

/// The carry bit of a flags byte, as 0 or 1.
pub open spec fn spec_carry_in(flags: u8) -> u8 {
    (flags & FLAG_CARRY_MASK) >> FLAG_CARRY_OFFSET
}

/// Addition with an explicit carry-in: the result byte is the low byte of the
/// wide sum, `C` says the sum exceeded a byte, `Z` says the result is zero,
/// `AC` and `OV` come from the tables, and the upper flag bits are preserved.
pub open spec fn spec_add_impl(acc: u8, value: u8, old_flags: u8, carry: u8) -> (u8, u8) {
    let sum = acc + value + carry;
    let r8 = (sum % 256) as u8;
    let idx = spec_flags_index(acc, value, r8);
    let base = old_flags & !FLAGS_ARITH_MASK;
    let with_c = if sum > 255 {
        base | FLAG_CARRY_MASK
    } else {
        base
    };
    let with_z = if r8 == 0 {
        with_c | FLAG_ZERO_MASK
    } else {
        with_c
    };
    (r8, with_z | spec_overflow_add_entry(idx >> 4) | spec_aux_carry_add_entry(idx & 7))
}

/// Subtraction with an explicit borrow-in: the result byte is `a - b - c`
/// modulo 256 and `C` reports the borrow (`a < b + c`).
pub open spec fn spec_sub_impl(acc: u8, value: u8, old_flags: u8, carry: u8) -> (u8, u8) {
    let r8 = ((acc - value - carry) % 256) as u8;
    let idx = spec_flags_index(acc, value, r8);
    let base = old_flags & !FLAGS_ARITH_MASK;
    let with_c = if acc < value + carry {
        base | FLAG_CARRY_MASK
    } else {
        base
    };
    let with_z = if r8 == 0 {
        with_c | FLAG_ZERO_MASK
    } else {
        with_c
    };
    (r8, with_z | spec_overflow_sub_entry(idx >> 4) | spec_aux_carry_sub_entry(idx & 7))
}

pub open spec fn spec_add(acc: u8, value: u8, old_flags: u8) -> (u8, u8) {
    spec_add_impl(acc, value, old_flags, 0)
}

pub open spec fn spec_addc(acc: u8, value: u8, old_flags: u8) -> (u8, u8) {
    spec_add_impl(acc, value, old_flags, spec_carry_in(old_flags))
}

pub open spec fn spec_sub(acc: u8, value: u8, old_flags: u8) -> (u8, u8) {
    spec_sub_impl(acc, value, old_flags, 0)
}

pub open spec fn spec_subc(acc: u8, value: u8, old_flags: u8) -> (u8, u8) {
    spec_sub_impl(acc, value, old_flags, spec_carry_in(old_flags))
}

pub open spec fn spec_and(acc: u8, value: u8, flags: u8) -> (u8, u8) {
    ((acc & value) as u8, spec_with_zero(flags, acc & value == 0))
}

pub open spec fn spec_or(acc: u8, value: u8, flags: u8) -> (u8, u8) {
    ((acc | value) as u8, spec_with_zero(flags, acc | value == 0))
}

pub open spec fn spec_xor(acc: u8, value: u8, flags: u8) -> (u8, u8) {
    ((acc ^ value) as u8, spec_with_zero(flags, acc ^ value == 0))
}

/// `MOV` passes the source through; its `Z` reflects the source value.
pub open spec fn spec_mov(acc: u8, value: u8, flags: u8) -> (u8, u8) {
    (value, spec_with_zero(flags, value == 0))
}

pub open spec fn spec_not(acc: u8, flags: u8) -> (u8, u8) {
    (!acc, spec_with_zero(flags, !acc == 0))
}

/// Two's-complement negation: `!a + 1` modulo 256, with `Z` from the result.
pub open spec fn spec_neg(acc: u8, flags: u8) -> (u8, u8) {
    ((((!acc) + 1) % 256) as u8, spec_with_zero(flags, ((!acc) + 1) % 256 == 0))
}

/// Logical shift right: `C` takes bit 0 of the input and `Z` is cleared.
pub open spec fn spec_sr(acc: u8, flags: u8) -> (u8, u8) {
    (
        (acc >> 1) as u8,
        (flags & !(FLAG_ZERO_MASK | FLAG_CARRY_MASK)) | if acc & 0x01 != 0 {
            FLAG_CARRY_MASK
        } else {
            0
        },
    )
}

/// Logical shift left: `C` takes bit 7 of the input and `Z` is cleared.
pub open spec fn spec_sl(acc: u8, flags: u8) -> (u8, u8) {
    (
        (acc << 1) as u8,
        (flags & !(FLAG_ZERO_MASK | FLAG_CARRY_MASK)) | if acc & 0x80 != 0 {
            FLAG_CARRY_MASK
        } else {
            0
        },
    )
}

/// Rotate right through carry: the old carry enters at bit 7, bit 0 of the
/// input becomes the new carry, and `Z` is cleared.
pub open spec fn spec_src(acc: u8, flags: u8) -> (u8, u8) {
    (
        ((acc >> 1) | (spec_carry_in(flags) << 7)) as u8,
        (flags & !(FLAG_ZERO_MASK | FLAG_CARRY_MASK)) | if acc & 0x01 != 0 {
            FLAG_CARRY_MASK
        } else {
            0
        },
    )
}

/// Rotate left through carry: the old carry enters at bit 0, bit 7 of the
/// input becomes the new carry, and `Z` is cleared.
pub open spec fn spec_slc(acc: u8, flags: u8) -> (u8, u8) {
    (
        ((acc << 1) | spec_carry_in(flags)) as u8,
        (flags & !(FLAG_ZERO_MASK | FLAG_CARRY_MASK)) | if acc & 0x80 != 0 {
            FLAG_CARRY_MASK
        } else {
            0
        },
    )
}

fn add_impl(acc: u8, value: u8, old_flags: u8, carry: u8) -> (r: (u8, u8))
    requires
        carry <= 1,
    ensures
        r == spec_add_impl(acc, value, old_flags, carry),
{
    let wide: u16 = acc as u16 + value as u16 + carry as u16;
    let result8: u8 = (wide % 256) as u8;
    let idx: u8 = flags_index(acc, value, result8);
    let mut flags: u8 = old_flags & !FLAGS_ARITH_MASK;
    if wide > 0xFF {
        flags = flags | FLAG_CARRY_MASK;
    }
    if result8 == 0 {
        flags = flags | FLAG_ZERO_MASK;
    }
    flags = flags | overflow_add_entry(idx >> 4) | aux_carry_add_entry(idx & 7);
    (result8, flags)
}

fn sub_impl(acc: u8, value: u8, old_flags: u8, carry: u8) -> (r: (u8, u8))
    requires
        carry <= 1,
    ensures
        r == spec_sub_impl(acc, value, old_flags, carry),
{
    let wide: u16 = (acc as u16 + 256) - value as u16 - carry as u16;
    let result8: u8 = (wide % 256) as u8;
    let idx: u8 = flags_index(acc, value, result8);
    let mut flags: u8 = old_flags & !FLAGS_ARITH_MASK;
    if (acc as u16) < value as u16 + carry as u16 {
        flags = flags | FLAG_CARRY_MASK;
    }
    if result8 == 0 {
        flags = flags | FLAG_ZERO_MASK;
    }
    flags = flags | overflow_sub_entry(idx >> 4) | aux_carry_sub_entry(idx & 7);
    (result8, flags)
}

fn carry_in(flags: u8) -> (c: u8)
    ensures
        c == spec_carry_in(flags),
        c <= 1,
{
    proof {
        assert((flags & 0x02u8) >> 1 <= 1) by (bit_vector);
    }
    (flags & FLAG_CARRY_MASK) >> FLAG_CARRY_OFFSET
}

/// Addition without carry-in.
pub fn add(acc: u8, value: u8, old_flags: u8) -> (r: (u8, u8))
    ensures
        r == spec_add(acc, value, old_flags),
{
    add_impl(acc, value, old_flags, 0)
}

/// Addition with the carry bit of the old flags as carry-in.
pub fn addc(acc: u8, value: u8, old_flags: u8) -> (r: (u8, u8))
    ensures
        r == spec_addc(acc, value, old_flags),
{
    let carry = carry_in(old_flags);
    add_impl(acc, value, old_flags, carry)
}

/// Subtraction without borrow-in.
pub fn sub(acc: u8, value: u8, old_flags: u8) -> (r: (u8, u8))
    ensures
        r == spec_sub(acc, value, old_flags),
{
    sub_impl(acc, value, old_flags, 0)
}

/// Subtraction with the carry bit of the old flags as borrow-in.
pub fn subc(acc: u8, value: u8, old_flags: u8) -> (r: (u8, u8))
    ensures
        r == spec_subc(acc, value, old_flags),
{
    let carry = carry_in(old_flags);
    sub_impl(acc, value, old_flags, carry)
}

/// Bitwise and; only `Z` is updated.
pub fn and(acc: u8, value: u8, flags: u8) -> (r: (u8, u8))
    ensures
        r == spec_and(acc, value, flags),
{
    let result = acc & value;
    if result == 0 {
        (result, flags | FLAG_ZERO_MASK)
    } else {
        (result, flags & !FLAG_ZERO_MASK)
    }
}

/// Bitwise or; only `Z` is updated.
pub fn or(acc: u8, value: u8, flags: u8) -> (r: (u8, u8))
    ensures
        r == spec_or(acc, value, flags),
{
    let result = acc | value;
    if result == 0 {
        (result, flags | FLAG_ZERO_MASK)
    } else {
        (result, flags & !FLAG_ZERO_MASK)
    }
}

/// Bitwise exclusive or; only `Z` is updated.
pub fn xor(acc: u8, value: u8, flags: u8) -> (r: (u8, u8))
    ensures
        r == spec_xor(acc, value, flags),
{
    let result = acc ^ value;
    if result == 0 {
        (result, flags | FLAG_ZERO_MASK)
    } else {
        (result, flags & !FLAG_ZERO_MASK)
    }
}

/// Pass the source value through; `Z` reflects the source.
pub fn mov(acc: u8, value: u8, flags: u8) -> (r: (u8, u8))
    ensures
        r == spec_mov(acc, value, flags),
{
    let _ = acc;
    if value == 0 {
        (value, flags | FLAG_ZERO_MASK)
    } else {
        (value, flags & !FLAG_ZERO_MASK)
    }
}

/// Bitwise complement; only `Z` is updated.
pub fn not(acc: u8, flags: u8) -> (r: (u8, u8))
    ensures
        r == spec_not(acc, flags),
{
    let result = !acc;
    if result == 0 {
        (result, flags | FLAG_ZERO_MASK)
    } else {
        (result, flags & !FLAG_ZERO_MASK)
    }
}

/// Two's-complement negation; only `Z` is updated.
pub fn neg(acc: u8, flags: u8) -> (r: (u8, u8))
    ensures
        r == spec_neg(acc, flags),
{
    let wide: u16 = (!acc) as u16 + 1;
    let result: u8 = (wide % 256) as u8;
    if result == 0 {
        (result, flags | FLAG_ZERO_MASK)
    } else {
        (result, flags & !FLAG_ZERO_MASK)
    }
}

/// Logical shift right.
pub fn sr(acc: u8, flags: u8) -> (r: (u8, u8))
    ensures
        r == spec_sr(acc, flags),
{
    let cleared = flags & !(FLAG_ZERO_MASK | FLAG_CARRY_MASK);
    let carry: u8 = if acc & 0x01 != 0 {
        FLAG_CARRY_MASK
    } else {
        0
    };
    (acc >> 1, cleared | carry)
}

/// Logical shift left.
pub fn sl(acc: u8, flags: u8) -> (r: (u8, u8))
    ensures
        r == spec_sl(acc, flags),
{
    let cleared = flags & !(FLAG_ZERO_MASK | FLAG_CARRY_MASK);
    let carry: u8 = if acc & 0x80 != 0 {
        FLAG_CARRY_MASK
    } else {
        0
    };
    (acc << 1, cleared | carry)
}

/// Rotate right through carry.
pub fn src(acc: u8, flags: u8) -> (r: (u8, u8))
    ensures
        r == spec_src(acc, flags),
{
    let head = carry_in(flags) << 7;
    let cleared = flags & !(FLAG_ZERO_MASK | FLAG_CARRY_MASK);
    let carry: u8 = if acc & 0x01 != 0 {
        FLAG_CARRY_MASK
    } else {
        0
    };
    ((acc >> 1) | head, cleared | carry)
}

/// Rotate left through carry.
pub fn slc(acc: u8, flags: u8) -> (r: (u8, u8))
    ensures
        r == spec_slc(acc, flags),
{
    let tail = carry_in(flags);
    let cleared = flags & !(FLAG_ZERO_MASK | FLAG_CARRY_MASK);
    let carry: u8 = if acc & 0x80 != 0 {
        FLAG_CARRY_MASK
    } else {
        0
    };
    ((acc << 1) | tail, cleared | carry)
}

/// Rotating right through carry and then left through carry restores the
/// byte, and the carry written by the second rotation is the carry that went
/// into the first. On a flags byte whose `Z` bit is clear the whole flags
/// byte is restored; the rotations clear `Z`, so a set `Z` does not survive.
pub proof fn lemma_src_then_slc(acc: u8, flags: u8)
    ensures
        spec_slc(spec_src(acc, flags).0, spec_src(acc, flags).1).0 == acc,
        flags & FLAG_ZERO_MASK == 0 ==> spec_slc(spec_src(acc, flags).0, spec_src(acc, flags).1)
            == (acc, flags),
{
    assert({
        let r1 = (acc >> 1) | (((flags & 2) >> 1) << 7);
        let f1 = (flags & !(1u8 | 2u8)) | (if acc & 0x01 != 0 { 2u8 } else { 0u8 });
        let r2 = (r1 << 1) | ((f1 & 2) >> 1);
        let f2 = (f1 & !(1u8 | 2u8)) | (if r1 & 0x80 != 0 { 2u8 } else { 0u8 });
        r2 == acc && (flags & 1 == 0 ==> f2 == flags)
    }) by (bit_vector);
}

/// Rotating left through carry and then right through carry restores the
/// byte and the ingoing carry, symmetrically to `lemma_src_then_slc`.
pub proof fn lemma_slc_then_src(acc: u8, flags: u8)
    ensures
        spec_src(spec_slc(acc, flags).0, spec_slc(acc, flags).1).0 == acc,
        flags & FLAG_ZERO_MASK == 0 ==> spec_src(spec_slc(acc, flags).0, spec_slc(acc, flags).1)
            == (acc, flags),
{
    assert({
        let r1 = (acc << 1) | ((flags & 2) >> 1);
        let f1 = (flags & !(1u8 | 2u8)) | (if acc & 0x80 != 0 { 2u8 } else { 0u8 });
        let r2 = (r1 >> 1) | (((f1 & 2) >> 1) << 7);
        let f2 = (f1 & !(1u8 | 2u8)) | (if r1 & 0x01 != 0 { 2u8 } else { 0u8 });
        r2 == acc && (flags & 1 == 0 ==> f2 == flags)
    }) by (bit_vector);
}

} // verus!
