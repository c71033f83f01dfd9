use vpadauk::ops;

// Flag bit positions: Z = 0x01, C = 0x02, AC = 0x04, OV = 0x08.

#[test]
fn add_low_byte_is_mod_256() {
    assert_eq!(ops::add(3, 4, 0), (7, 0x00));
    assert_eq!(ops::add(200, 100, 0), (0x2C, 0x02));
    assert_eq!(ops::add(255, 1, 0), (0x00, 0x07));
}

#[test]
fn add_sets_aux_carry_from_table() {
    assert_eq!(ops::add(0x0F, 0x01, 0), (0x10, 0x04));
}

#[test]
fn add_sets_overflow_from_table() {
    assert_eq!(ops::add(0x7F, 0x01, 0), (0x80, 0x0C));
}

#[test]
fn add_preserves_reserved_flag_bits() {
    assert_eq!(ops::add(3, 4, 0xF0), (7, 0xF0));
}

#[test]
fn addc_adds_carry_in() {
    assert_eq!(ops::addc(10, 20, 0x02), (0x1F, 0x00));
    assert_eq!(ops::addc(10, 20, 0x00), (0x1E, 0x00));
    assert_eq!(ops::addc(0xFF, 0, 0x02), (0x00, 0x07));
}

#[test]
fn sub_low_byte_is_mod_256() {
    assert_eq!(ops::sub(5, 3, 0), (2, 0x00));
    assert_eq!(ops::sub(0x10, 0x01, 0), (0x0F, 0x04));
}

#[test]
fn sub_carry_reports_borrow() {
    assert_eq!(ops::sub(3, 5, 0), (0xFE, 0x06));
}

#[test]
fn sub_sets_overflow_from_table() {
    assert_eq!(ops::sub(0x80, 0x01, 0), (0x7F, 0x0C));
}

#[test]
fn subc_subtracts_carry_in() {
    assert_eq!(ops::subc(0x20, 0, 0x02), (0x1F, 0x04));
    assert_eq!(ops::subc(0x20, 0, 0x00), (0x20, 0x00));
}

#[test]
fn not_complements_and_reflects_zero() {
    assert_eq!(ops::not(0xF0, 0), (0x0F, 0x00));
    assert_eq!(ops::not(0xFF, 0), (0x00, 0x01));
}

#[test]
fn neg_is_twos_complement() {
    assert_eq!(ops::neg(1, 0), (0xFF, 0x00));
    assert_eq!(ops::neg(0, 0), (0x00, 0x01));
    assert_eq!(ops::neg(0x80, 0), (0x80, 0x00));
}

#[test]
fn sr_shifts_right_and_captures_bit0() {
    assert_eq!(ops::sr(0x13, 0), (0x09, 0x02));
    assert_eq!(ops::sr(0x12, 0x02), (0x09, 0x00));
}

#[test]
fn sl_shifts_left_and_captures_bit7() {
    assert_eq!(ops::sl(0x81, 0), (0x02, 0x02));
    assert_eq!(ops::sl(0x41, 0x02), (0x82, 0x00));
}

#[test]
fn src_rotates_right_through_carry() {
    assert_eq!(ops::src(0x12, 0x02), (0x89, 0x00));
    assert_eq!(ops::src(0x13, 0x00), (0x09, 0x02));
}

#[test]
fn slc_rotates_left_through_carry() {
    assert_eq!(ops::slc(0x12, 0x02), (0x25, 0x00));
    assert_eq!(ops::slc(0x92, 0x00), (0x24, 0x02));
}

#[test]
fn src_then_slc_restores_byte_and_carry() {
    for acc in [0x00u8, 0x01, 0x13, 0x80, 0xAB, 0xFF] {
        for flags in [0x00u8, 0x02, 0xF2, 0x0C] {
            let (r1, f1) = ops::src(acc, flags);
            let (r2, f2) = ops::slc(r1, f1);
            assert_eq!(r2, acc);
            assert_eq!(f2, flags);
        }
    }
}

#[test]
fn slc_then_src_restores_byte_and_carry() {
    for acc in [0x00u8, 0x01, 0x13, 0x80, 0xAB, 0xFF] {
        for flags in [0x00u8, 0x02, 0xF2, 0x0C] {
            let (r1, f1) = ops::slc(acc, flags);
            let (r2, f2) = ops::src(r1, f1);
            assert_eq!(r2, acc);
            assert_eq!(f2, flags);
        }
    }
}

#[test]
fn mov_zero_flag_reflects_source() {
    assert_eq!(ops::mov(0x55, 0x00, 0x00), (0x00, 0x01));
    assert_eq!(ops::mov(0x00, 0x42, 0x0F), (0x42, 0x0E));
}

#[test]
fn logical_ops_update_only_zero() {
    assert_eq!(ops::and(0x0F, 0xF0, 0x0E), (0x00, 0x0F));
    assert_eq!(ops::or(0x0F, 0xF0, 0x0F), (0xFF, 0x0E));
    assert_eq!(ops::xor(0xAA, 0xAA, 0x0E), (0x00, 0x0F));
}
