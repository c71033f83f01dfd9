use vpadauk::ir::IrOpcode;
use vpadauk::mock_host::MockHost;
use vpadauk::pms150c::Pms150c;
use vpadauk::Pdk13Error;

#[test]
fn firmware_words_are_little_endian() {
    let mut mcu = Pms150c::new(MockHost::new());
    // One word 0x175A: MOV A,k with immediate 0x5A.
    let image = vec![0x5A, 0x17];
    assert_eq!(Ok(()), mcu.load_firmware(&image));
    assert_eq!(IrOpcode::Movak, mcu.bridge.state.rom[0].ir_opcode());
    assert_eq!(0x5A, mcu.bridge.state.rom[0].immediate());
    mcu.step();
    assert_eq!(0x5A, mcu.core.acc());
}

#[test]
fn firmware_leaves_trailing_slots_alone() {
    let mut mcu = Pms150c::new(MockHost::new());
    let image = vec![0x5A, 0x17];
    assert_eq!(Ok(()), mcu.load_firmware(&image));
    assert_eq!(IrOpcode::Nop, mcu.bridge.state.rom[1].ir_opcode());
    assert_eq!(IrOpcode::Nop, mcu.bridge.state.rom[1023].ir_opcode());
}

#[test]
fn firmware_rejects_wide_word() {
    let mut mcu = Pms150c::new(MockHost::new());
    let image = vec![0x5A, 0x17, 0xFF, 0xFF];
    assert_eq!(
        Err(Pdk13Error::TooBigWord(0xFFFF)),
        mcu.load_firmware(&image)
    );
    // A rejected image mutates nothing: the first word was not written.
    assert_eq!(IrOpcode::Nop, mcu.bridge.state.rom[0].ir_opcode());
}

#[test]
fn firmware_rejects_overlong_image() {
    let mut mcu = Pms150c::new(MockHost::new());
    let image = vec![0u8; 2050];
    assert_eq!(
        Err(Pdk13Error::TooBigAddress(1024, 1024)),
        mcu.load_firmware(&image)
    );
}

#[test]
fn firmware_fills_whole_rom() {
    let mut mcu = Pms150c::new(MockHost::new());
    let mut image = vec![0u8; 2048];
    image[0] = 0x5A;
    image[1] = 0x17;
    image[2046] = 0x3A;
    image[2047] = 0x00;
    assert_eq!(Ok(()), mcu.load_firmware(&image));
    assert_eq!(IrOpcode::Movak, mcu.bridge.state.rom[0].ir_opcode());
    assert_eq!(IrOpcode::Ret, mcu.bridge.state.rom[1023].ir_opcode());
}

#[test]
fn decoder_rejects_wide_word() {
    assert_eq!(
        Err(Pdk13Error::TooBigWord(0xFFFF)),
        vpadauk::ir::IrSlot::from_instruction(0xFFFF).map(|s| s.ir_opcode())
    );
}
