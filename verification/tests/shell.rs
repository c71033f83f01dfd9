use vpadauk::mock_host::MockHost;
use vpadauk::pms150c::Pms150c;
use vpadauk::pms150c::ILRC_FREQUENCY;

// Encoded words used to drive the shell through real instructions:
// 0x1700 | k  ->  MOV A,k
// 0x0080 | n  ->  MOV IO,A with IO address n
// 0x00A0 | n  ->  MOV A,IO with IO address n
// 0x0035      ->  RESET

fn load(mcu: &mut Pms150c<MockHost>, words: &[u16]) {
    for (i, w) in words.iter().enumerate() {
        mcu.write_rom(i, *w).unwrap();
    }
}

#[test]
fn fresh_part_runs_from_low_rate_clock() {
    let mcu = Pms150c::new(MockHost::new());
    assert_eq!(ILRC_FREQUENCY, mcu.get_frequency());
}

#[test]
fn clock_mode_write_selects_frequency() {
    let mut mcu = Pms150c::new(MockHost::new());
    load(&mut mcu, &[0x1700 | 0x10, 0x0080 | 0x03]);
    mcu.step();
    mcu.step();
    assert_eq!(4_000_000, mcu.get_frequency());
}

#[test]
fn clock_mode_write_selects_low_rate() {
    let mut mcu = Pms150c::new(MockHost::new());
    load(&mut mcu, &[0x1700 | 0xE7, 0x0080 | 0x03]);
    mcu.step();
    mcu.step();
    assert_eq!(62_000, mcu.get_frequency());
}

#[test]
fn clock_mode_write_with_gate_off_halts() {
    let mut mcu = Pms150c::new(MockHost::new());
    load(&mut mcu, &[0x1700, 0x0080 | 0x03]);
    mcu.step();
    mcu.step();
    assert_eq!(0, mcu.get_frequency());
}

#[test]
fn port_a_writes_mirror_to_host() {
    let mut mcu = Pms150c::new(MockHost::new());
    load(
        &mut mcu,
        &[0x1700 | 0x91, 0x0080 | 0x11, 0x1700 | 0x81, 0x0080 | 0x10],
    );
    mcu.step();
    mcu.step();
    assert_eq!(0x91, mcu.bridge.host.output_enabled);
    mcu.step();
    mcu.step();
    assert_eq!(0x81, mcu.bridge.host.digital_out);
    assert_eq!(0x00, mcu.bridge.host.pull_up);
}

#[test]
fn pull_up_writes_mirror_to_host() {
    let mut mcu = Pms150c::new(MockHost::new());
    load(&mut mcu, &[0x1700 | 0xF9, 0x0080 | 0x12]);
    mcu.step();
    mcu.step();
    assert_eq!(0xF9, mcu.bridge.host.pull_up);
}

#[test]
fn port_a_read_samples_input_pins() {
    let mut host = MockHost::new();
    host.digital_in = 0x90;
    let mut mcu = Pms150c::new(host);
    load(&mut mcu, &[0x00A0 | 0x10]);
    mcu.step();
    assert_eq!(0x90, mcu.core.acc());
}

#[test]
fn port_a_read_keeps_output_bits() {
    let mut host = MockHost::new();
    host.digital_in = 0x10;
    let mut mcu = Pms150c::new(host);
    // Configure bit 7 as output, drive it high, then read the port back.
    load(
        &mut mcu,
        &[0x1700 | 0x80, 0x0080 | 0x11, 0x1700 | 0x80, 0x0080 | 0x10, 0x00A0 | 0x10],
    );
    for _ in 0..5 {
        mcu.step();
    }
    assert_eq!(0x90, mcu.core.acc());
}

#[test]
fn init_clears_host_and_takes_reset_defaults() {
    let mut host = MockHost::new();
    host.digital_out = 0xFF;
    host.output_enabled = 0xFF;
    host.pull_up = 0xFF;
    let mut mcu = Pms150c::new(host);
    mcu.init();
    // Bits 1 and 2 are not exposed, so they keep whatever the host held.
    assert_eq!(0x06, mcu.bridge.host.digital_out);
    assert_eq!(0x06, mcu.bridge.host.output_enabled);
    assert_eq!(0x06, mcu.bridge.host.pull_up);
    assert_eq!(ILRC_FREQUENCY, mcu.get_frequency());
    assert_eq!(0xF6, mcu.bridge.state.io[0x03]);
    assert_eq!(0xF9, mcu.bridge.state.io[0x0D]);
}

#[test]
fn software_reset_restores_defaults() {
    let mut mcu = Pms150c::new(MockHost::new());
    load(
        &mut mcu,
        &[0x1700 | 0x10, 0x0080 | 0x03, 0x0035],
    );
    mcu.step();
    mcu.step();
    assert_eq!(4_000_000, mcu.get_frequency());
    mcu.step();
    assert_eq!(0, mcu.core.acc());
    assert_eq!(0, mcu.core.pc());
    assert_eq!(false, mcu.core.global_interrupts_enabled());
    assert_eq!(ILRC_FREQUENCY, mcu.get_frequency());
    assert_eq!(0xF6, mcu.bridge.state.io[0x03]);
}

#[test]
fn write_rom_rejects_big_address() {
    let mut mcu = Pms150c::new(MockHost::new());
    assert_eq!(
        Err(vpadauk::Pdk13Error::TooBigAddress(1024, 1024)),
        mcu.write_rom(1024, 0)
    );
}

#[test]
fn write_rom_rejects_big_word() {
    let mut mcu = Pms150c::new(MockHost::new());
    assert_eq!(
        Err(vpadauk::Pdk13Error::TooBigWord(0x2000)),
        mcu.write_rom(0, 0x2000)
    );
}
