//! A plain bus for driving the CPU core in isolation: flat memory spaces
//! with no IO side effects, plus latches recording the control signals.

use vstd::prelude::*;

use crate::bus::bus_wf;
use crate::bus::Bus;
use crate::ir::spec_default_slot;
use crate::ir::IrSlot;

verus! {

/// A bus whose spaces are plain storage. The fields are open so that a test
/// can lay out memory and ROM directly before stepping the core.
pub struct MockBus {
    pub io: Vec<u8>,
    pub ram: Vec<u8>,
    pub rom: Vec<IrSlot>,
    pub tim16: u16,
    pub reset_active: bool,
    pub wdt_reset_active: bool,
    pub stop_sys_active: bool,
    pub stop_exe_active: bool,
}

impl MockBus {
    /// A bus with zeroed IO and RAM, `Nop` slots in every ROM cell, a zero
    /// timer word and no signal recorded.
    pub fn new() -> (r: Self)
        ensures
            bus_wf(&r),
            r.io@ == Seq::new(32, |i: int| 0u8),
            r.ram@ == Seq::new(64, |i: int| 0u8),
            r.rom@ == Seq::new(1024, |i: int| spec_default_slot()),
            r.tim16 == 0,
            !r.reset_active,
            !r.wdt_reset_active,
            !r.stop_sys_active,
            !r.stop_exe_active,
    {
        let mut io: Vec<u8> = Vec::new();
        let mut i: usize = 0;
        while i < 32
            invariant
                i <= 32,
                io@.len() == i,
                forall|j: int| 0 <= j < i ==> io@[j] == 0u8,
            decreases 32 - i,
        {
            io.push(0);
            i = i + 1;
        }
        let mut ram: Vec<u8> = Vec::new();
        let mut i: usize = 0;
        while i < 64
            invariant
                i <= 64,
                ram@.len() == i,
                forall|j: int| 0 <= j < i ==> ram@[j] == 0u8,
            decreases 64 - i,
        {
            ram.push(0);
            i = i + 1;
        }
        let mut rom: Vec<IrSlot> = Vec::new();
        let mut i: usize = 0;
        while i < 1024
            invariant
                i <= 1024,
                rom@.len() == i,
                forall|j: int| 0 <= j < i ==> rom@[j] == spec_default_slot(),
            decreases 1024 - i,
        {
            rom.push(IrSlot::default());
            i = i + 1;
        }
        let r = MockBus {
            io,
            ram,
            rom,
            tim16: 0,
            reset_active: false,
            wdt_reset_active: false,
            stop_sys_active: false,
            stop_exe_active: false,
        };
        proof {
            assert(r.io@ =~= Seq::new(32, |i: int| 0u8));
            assert(r.ram@ =~= Seq::new(64, |i: int| 0u8));
            assert(r.rom@ =~= Seq::new(1024, |i: int| spec_default_slot()));
        }
        r
    }
}

impl Bus for MockBus {
    open spec fn io_view(&self) -> Seq<u8> {
        self.io@
    }

    open spec fn ram_view(&self) -> Seq<u8> {
        self.ram@
    }

    open spec fn rom_view(&self) -> Seq<IrSlot> {
        self.rom@
    }

    open spec fn tim16_view(&self) -> u16 {
        self.tim16
    }

    fn write_io(&mut self, addr: u8, value: u8) {
        let i = (addr % 32) as usize;
        self.io[i] = value;
    }

    fn read_io(&mut self, addr: u8) -> (r: u8) {
        let i = (addr % 32) as usize;
        let r = self.io[i];
        proof {
            assert(self.io@ =~= self.io@.update((addr % 32) as int, r));
        }
        r
    }

    fn write_ram(&mut self, addr: u8, value: u8) {
        let i = (addr % 64) as usize;
        self.ram[i] = value;
    }

    fn read_ram(&self, addr: u8) -> (r: u8) {
        self.ram[(addr % 64) as usize]
    }

    fn read_rom(&self, addr: u16) -> (r: IrSlot) {
        self.rom[(addr % 1024) as usize]
    }

    fn write_tim16(&mut self, value: u16) {
        self.tim16 = value;
    }

    fn read_tim16(&self) -> (r: u16) {
        self.tim16
    }

    fn reset(&mut self) {
        self.reset_active = true;
    }

    fn stop_exe(&mut self) {
        self.stop_exe_active = true;
    }

    fn stop_sys(&mut self) {
        self.stop_sys_active = true;
    }

    fn wdt_reset(&mut self) {
        self.wdt_reset_active = true;
    }
}

} // verus!
