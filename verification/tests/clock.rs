use vpadauk::pms150c::decode_sys_freq;

// A clock-mode byte for a given 4-bit selector: the low three selector bits
// sit at bit 5, the high selector bit at bit 3; `gates` carries the
// oscillator-enable bits (0x10 for the high-rate one, 0x04 for the low-rate
// one).
fn clkmd_for(selector: u8, gates: u8) -> u8 {
    ((selector & 0x07) << 5) | (((selector >> 3) & 0x01) << 3) | gates
}

#[test]
fn clock_table_with_gates_open() {
    let expected: [u32; 16] = [
        4_000_000, 8_000_000, 0, 0, 0, 0, 15_500, 62_000, 1_000_000, 2_000_000, 3_875, 500_000,
        250_000, 0, 0, 0,
    ];
    for selector in 0..16u8 {
        assert_eq!(
            expected[selector as usize],
            decode_sys_freq(clkmd_for(selector, 0x14)),
        );
    }
}

#[test]
fn clock_halts_when_source_gate_is_closed() {
    // High-rate selectors with the high-rate gate closed.
    for selector in [0u8, 1, 8, 9, 11, 12] {
        assert_eq!(0, decode_sys_freq(clkmd_for(selector, 0x04)));
    }
    // Low-rate selectors with the low-rate gate closed.
    for selector in [6u8, 7, 10] {
        assert_eq!(0, decode_sys_freq(clkmd_for(selector, 0x10)));
    }
}

#[test]
fn clock_gate_bits_do_not_leak_into_selector() {
    assert_eq!(62_000, decode_sys_freq(0b1110_0111));
    assert_eq!(4_000_000, decode_sys_freq(0b0001_0000));
}
