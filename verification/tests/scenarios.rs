use vpadauk::bus::Bus;
use vpadauk::bus::BusExt;
use vpadauk::ir::IrOpcode;
use vpadauk::ir::IrSlotBuilder;
use vpadauk::mock_bus::MockBus;
use vpadauk::pdk_core::PdkCore;

#[test]
fn mov_then_add_immediate() {
    let mut bus = MockBus::new();
    let mut core = PdkCore::new();
    bus.rom[0] = IrSlotBuilder::new().ir_opcode(IrOpcode::Movak).immediate(3).build();
    bus.rom[1] = IrSlotBuilder::new().ir_opcode(IrOpcode::Addak).immediate(4).build();
    core.step(&mut bus);
    core.step(&mut bus);
    assert_eq!(7, core.acc());
    assert_eq!(2, core.pc());
    assert_eq!(false, bus.is_zero_flag());
    assert_eq!(false, bus.is_carry_flag());
    assert_eq!(false, bus.is_aux_carry_flag());
    assert_eq!(false, bus.is_overflow_flag());
}

#[test]
fn add_immediate_overflow_to_zero() {
    let mut bus = MockBus::new();
    let mut core = PdkCore::new();
    bus.rom[0] = IrSlotBuilder::new().ir_opcode(IrOpcode::Movak).immediate(255).build();
    bus.rom[1] = IrSlotBuilder::new().ir_opcode(IrOpcode::Addak).immediate(1).build();
    core.step(&mut bus);
    core.step(&mut bus);
    assert_eq!(0, core.acc());
    assert_eq!(true, bus.is_zero_flag());
    assert_eq!(true, bus.is_carry_flag());
    assert_eq!(true, bus.is_aux_carry_flag());
    assert_eq!(false, bus.is_overflow_flag());
}

#[test]
fn call_then_ret_round_trip() {
    let mut bus = MockBus::new();
    let mut core = PdkCore::new();
    bus.write_sp(0x10);
    bus.rom[0] = IrSlotBuilder::new().ir_opcode(IrOpcode::Goto).rom_address(0x1FF).build();
    core.step(&mut bus);
    core.step(&mut bus);
    assert_eq!(0x1FF, core.pc());
    bus.rom[0x1FF] = IrSlotBuilder::new().ir_opcode(IrOpcode::Call).rom_address(0x6FF).build();
    core.step(&mut bus);
    assert_eq!(0x6FF, core.pc());
    assert_eq!(0x12, bus.read_sp());
    assert_eq!(0x200, bus.read_ram_word(0x10));
    core.step(&mut bus);
    // The call target 0x6FF fetches through the 10-bit ROM mask.
    bus.rom[0x2FF] = IrSlotBuilder::new().ir_opcode(IrOpcode::Ret).build();
    core.step(&mut bus);
    assert_eq!(0x200, core.pc());
    assert_eq!(0x10, bus.read_sp());
}

#[test]
fn t0sn_skips_on_cleared_bit() {
    let mut bus = MockBus::new();
    let mut core = PdkCore::new();
    bus.write_ram(0x0E, 0xEF);
    bus.rom[0] = IrSlotBuilder::new()
        .ir_opcode(IrOpcode::T0snm)
        .mem_address(0x0E)
        .bit_index(4)
        .build();
    core.step(&mut bus);
    assert_eq!(2, core.pc());
    core.step(&mut bus);
    assert_eq!(2, core.pc());
}

#[test]
fn pushaf_popaf_round_trip() {
    let mut bus = MockBus::new();
    let mut core = PdkCore::new();
    bus.write_sp(0x10);
    bus.write_flags(0x34);
    bus.rom[0] = IrSlotBuilder::new().ir_opcode(IrOpcode::Movak).immediate(0x12).build();
    bus.rom[1] = IrSlotBuilder::new().ir_opcode(IrOpcode::Pushaf).build();
    bus.rom[2] = IrSlotBuilder::new().ir_opcode(IrOpcode::Movak).immediate(0x55).build();
    bus.rom[3] = IrSlotBuilder::new().ir_opcode(IrOpcode::Popaf).build();
    core.step(&mut bus);
    core.step(&mut bus);
    core.step(&mut bus);
    bus.write_flags(0x0F);
    core.step(&mut bus);
    assert_eq!(0x12, core.acc());
    assert_eq!(0x34, bus.read_flags());
    assert_eq!(0x10, bus.read_sp());
}

#[test]
fn pc_wraps_at_rom_top() {
    let mut bus = MockBus::new();
    let mut core = PdkCore::new();
    bus.rom[0] = IrSlotBuilder::new().ir_opcode(IrOpcode::Goto).rom_address(0x3FF).build();
    core.step(&mut bus);
    core.step(&mut bus);
    assert_eq!(0x3FF, core.pc());
    core.step(&mut bus);
    assert_eq!(0x000, core.pc());
}

#[test]
fn skip_latch_never_chains() {
    let mut bus = MockBus::new();
    let mut core = PdkCore::new();
    bus.rom[0] = IrSlotBuilder::new().ir_opcode(IrOpcode::Ceqsnak).immediate(0).build();
    bus.rom[2] = IrSlotBuilder::new().ir_opcode(IrOpcode::Ceqsnak).immediate(0).build();
    core.step(&mut bus);
    assert_eq!(2, core.pc());
    core.step(&mut bus);
    assert_eq!(2, core.pc());
    core.step(&mut bus);
    assert_eq!(4, core.pc());
    core.step(&mut bus);
    assert_eq!(4, core.pc());
}

#[test]
fn rom_slot_unchanged_by_step() {
    let mut bus = MockBus::new();
    let mut core = PdkCore::new();
    bus.rom[0] = IrSlotBuilder::new().ir_opcode(IrOpcode::Movak).immediate(0x42).build();
    bus.rom[5] = IrSlotBuilder::new()
        .ir_opcode(IrOpcode::Goto)
        .rom_address(0x123)
        .original_word(0x1923)
        .build();
    core.step(&mut bus);
    assert_eq!(IrOpcode::Movak, bus.rom[0].ir_opcode());
    assert_eq!(0x42, bus.rom[0].immediate());
    assert_eq!(IrOpcode::Goto, bus.rom[5].ir_opcode());
    assert_eq!(0x123, bus.rom[5].rom_address());
    assert_eq!(0x1923, bus.rom[5].original_word());
}

#[test]
fn masked_addressing_observes_same_cell() {
    let mut bus = MockBus::new();
    bus.write_io(0x22, 5);
    assert_eq!(5, bus.read_io(0x02));
    bus.write_io(0x02, 9);
    assert_eq!(9, bus.read_io(0x22));
    bus.write_ram(0x41, 7);
    assert_eq!(7, bus.read_ram(0x01));
    bus.write_ram(0x01, 8);
    assert_eq!(8, bus.read_ram(0x41));
    bus.rom[3] = IrSlotBuilder::new().ir_opcode(IrOpcode::Ret).build();
    assert_eq!(IrOpcode::Ret, bus.read_rom(0x403).ir_opcode());
    assert_eq!(IrOpcode::Ret, bus.read_rom(0x003).ir_opcode());
}

#[test]
fn idxm_round_trip_uses_pointer() {
    let mut bus = MockBus::new();
    let mut core = PdkCore::new();
    bus.write_ram_word(0x04, 0x002A);
    bus.rom[0] = IrSlotBuilder::new().ir_opcode(IrOpcode::Movak).immediate(0x77).build();
    bus.rom[1] = IrSlotBuilder::new().ir_opcode(IrOpcode::Idxmma).mem_address(0x04).build();
    core.step(&mut bus);
    core.step(&mut bus);
    core.step(&mut bus);
    assert_eq!(0x77, bus.read_ram(0x2A));
}
