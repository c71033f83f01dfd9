//! The contract between the CPU core and whatever owns the memory spaces.
//!
//! A bus carries four abstract views: the 32-byte IO space, the 64-byte RAM
//! space, the 1024-slot decoded ROM, and the 16-bit timer word. Every access
//! masks its address to the width of the space, so wrap-around is the defined
//! behaviour. A read of the port-A data register (IO `0x10`) may sample the
//! environment: it is allowed to refresh that one cell and returns the cell's
//! new content. Every other access is exact in terms of the views.

use vstd::prelude::*;

use crate::ir::slot_wf;
use crate::ir::IrSlot;
use crate::regs::FLAG_AUX_CARRY_MASK;
use crate::regs::FLAG_AUX_CARRY_OFFSET;
use crate::regs::FLAG_CARRY_MASK;
use crate::regs::FLAG_CARRY_OFFSET;
use crate::regs::FLAG_OVERFLOW_MASK;
use crate::regs::FLAG_OVERFLOW_OFFSET;
use crate::regs::FLAG_ZERO_MASK;
use crate::regs::FLAG_ZERO_OFFSET;
use crate::regs::IO_ADDR_FLAGS;
use crate::regs::IO_ADDR_PA;
use crate::regs::IO_ADDR_SP;

verus! {

/// Well-formedness of the three memory spaces: each has its modelled size
/// and every ROM slot is well formed.
pub open spec fn spaces_wf(io: Seq<u8>, ram: Seq<u8>, rom: Seq<IrSlot>) -> bool {
    &&& io.len() == 32
    &&& ram.len() == 64
    &&& rom.len() == 1024
    &&& forall|i: int| 0 <= i < 1024 ==> slot_wf(#[trigger] rom[i])
}

/// Well-formedness of a bus: its spaces are well formed.
pub open spec fn bus_wf<B: Bus>(b: &B) -> bool {
    spaces_wf(b.io_view(), b.ram_view(), b.rom_view())
}

/// The little-endian 16-bit RAM word at `addr`: low byte at `addr`, high
/// byte at `addr + 1`, both taken modulo the RAM size.
pub open spec fn spec_ram_word(ram: Seq<u8>, addr: u8) -> u16 {
    (ram[(addr % 64) as int] + ram[((addr + 1) % 64) as int] * 256) as u16
}

/// RAM after storing the little-endian 16-bit word `value` at `addr`.
pub open spec fn spec_ram_word_write(ram: Seq<u8>, addr: u8, value: u16) -> Seq<u8> {
    ram.update((addr % 64) as int, (value % 256) as u8).update(
        ((addr + 1) % 64) as int,
        (value / 256) as u8,
    )
}

/// The operations the CPU core issues while executing one instruction.
pub trait Bus: Sized {
    /// The 32 bytes of IO space.
    spec fn io_view(&self) -> Seq<u8>;

    /// The 64 bytes of RAM space.
    spec fn ram_view(&self) -> Seq<u8>;

    /// The 1024 decoded ROM slots.
    spec fn rom_view(&self) -> Seq<IrSlot>;

    /// The 16-bit timer word.
    spec fn tim16_view(&self) -> u16;

    /// Stores `value` in the IO cell at `addr`, masked to the IO width. A
    /// bus may attach side effects to particular cells; they never touch
    /// RAM, ROM or the timer.
    fn write_io(&mut self, addr: u8, value: u8)
        requires
            spaces_wf(old(self).io_view(), old(self).ram_view(), old(self).rom_view()),
        ensures
            spaces_wf(final(self).io_view(), final(self).ram_view(), final(self).rom_view()),
            final(self).io_view() == old(self).io_view().update((addr % 32) as int, value),
            final(self).ram_view() == old(self).ram_view(),
            final(self).rom_view() == old(self).rom_view(),
            final(self).tim16_view() == old(self).tim16_view(),
    ;

    /// Reads the IO cell at `addr`, masked to the IO width. Reading the
    /// port-A data register may refresh that one cell from the environment;
    /// the returned byte is the cell's content after the read.
    fn read_io(&mut self, addr: u8) -> (r: u8)
        requires
            spaces_wf(old(self).io_view(), old(self).ram_view(), old(self).rom_view()),
        ensures
            spaces_wf(final(self).io_view(), final(self).ram_view(), final(self).rom_view()),
            final(self).ram_view() == old(self).ram_view(),
            final(self).rom_view() == old(self).rom_view(),
            final(self).tim16_view() == old(self).tim16_view(),
            r == final(self).io_view()[(addr % 32) as int],
            final(self).io_view() == old(self).io_view().update((addr % 32) as int, r),
            addr % 32 != IO_ADDR_PA ==> final(self).io_view() == old(self).io_view() && r == old(
                self,
            ).io_view()[(addr % 32) as int],
    ;

    /// Stores `value` in the RAM cell at `addr`, masked to the RAM width.
    fn write_ram(&mut self, addr: u8, value: u8)
        requires
            spaces_wf(old(self).io_view(), old(self).ram_view(), old(self).rom_view()),
        ensures
            spaces_wf(final(self).io_view(), final(self).ram_view(), final(self).rom_view()),
            final(self).ram_view() == old(self).ram_view().update((addr % 64) as int, value),
            final(self).io_view() == old(self).io_view(),
            final(self).rom_view() == old(self).rom_view(),
            final(self).tim16_view() == old(self).tim16_view(),
    ;

    /// Reads the RAM cell at `addr`, masked to the RAM width.
    fn read_ram(&self, addr: u8) -> (r: u8)
        requires
            spaces_wf(self.io_view(), self.ram_view(), self.rom_view()),
        ensures
            r == self.ram_view()[(addr % 64) as int],
    ;

    /// Reads the decoded ROM slot at `addr`, masked to the ROM width.
    fn read_rom(&self, addr: u16) -> (r: IrSlot)
        requires
            spaces_wf(self.io_view(), self.ram_view(), self.rom_view()),
        ensures
            r == self.rom_view()[(addr % 1024) as int],
    ;

    /// Hands a 16-bit word to the timer. What the timer keeps of it is the
    /// bus's business; the three memory spaces are untouched.
    fn write_tim16(&mut self, value: u16)
        requires
            spaces_wf(old(self).io_view(), old(self).ram_view(), old(self).rom_view()),
        ensures
            spaces_wf(final(self).io_view(), final(self).ram_view(), final(self).rom_view()),
            final(self).io_view() == old(self).io_view(),
            final(self).ram_view() == old(self).ram_view(),
            final(self).rom_view() == old(self).rom_view(),
    ;

    /// Reads the 16-bit timer word.
    fn read_tim16(&self) -> (r: u16)
        requires
            spaces_wf(self.io_view(), self.ram_view(), self.rom_view()),
        ensures
            r == self.tim16_view(),
    ;

    /// The reset signal. The bus may rewrite its IO space to reset defaults;
    /// RAM, ROM and the timer are untouched.
    fn reset(&mut self)
        requires
            spaces_wf(old(self).io_view(), old(self).ram_view(), old(self).rom_view()),
        ensures
            spaces_wf(final(self).io_view(), final(self).ram_view(), final(self).rom_view()),
            final(self).ram_view() == old(self).ram_view(),
            final(self).rom_view() == old(self).rom_view(),
            final(self).tim16_view() == old(self).tim16_view(),
    ;

    /// The stop-execution signal; inert with respect to the views.
    fn stop_exe(&mut self)
        requires
            spaces_wf(old(self).io_view(), old(self).ram_view(), old(self).rom_view()),
        ensures
            spaces_wf(final(self).io_view(), final(self).ram_view(), final(self).rom_view()),
            final(self).io_view() == old(self).io_view(),
            final(self).ram_view() == old(self).ram_view(),
            final(self).rom_view() == old(self).rom_view(),
            final(self).tim16_view() == old(self).tim16_view(),
    ;

    /// The stop-system signal; inert with respect to the views.
    fn stop_sys(&mut self)
        requires
            spaces_wf(old(self).io_view(), old(self).ram_view(), old(self).rom_view()),
        ensures
            spaces_wf(final(self).io_view(), final(self).ram_view(), final(self).rom_view()),
            final(self).io_view() == old(self).io_view(),
            final(self).ram_view() == old(self).ram_view(),
            final(self).rom_view() == old(self).rom_view(),
            final(self).tim16_view() == old(self).tim16_view(),
    ;

    /// The watchdog-reset signal; inert with respect to the views.
    fn wdt_reset(&mut self)
        requires
            spaces_wf(old(self).io_view(), old(self).ram_view(), old(self).rom_view()),
        ensures
            spaces_wf(final(self).io_view(), final(self).ram_view(), final(self).rom_view()),
            final(self).io_view() == old(self).io_view(),
            final(self).ram_view() == old(self).ram_view(),
            final(self).rom_view() == old(self).rom_view(),
            final(self).tim16_view() == old(self).tim16_view(),
    ;
}

/// Derived helpers every bus gets for free: word-granular RAM access and the
/// stack-pointer and flags aliases into IO space.
pub trait BusExt: Bus {
    fn read_ram_word(&self, addr: u8) -> (r: u16)
        requires
            spaces_wf(self.io_view(), self.ram_view(), self.rom_view()),
        ensures
            r == spec_ram_word(self.ram_view(), addr),
    ;

    fn write_ram_word(&mut self, addr: u8, value: u16)
        requires
            spaces_wf(old(self).io_view(), old(self).ram_view(), old(self).rom_view()),
        ensures
            spaces_wf(final(self).io_view(), final(self).ram_view(), final(self).rom_view()),
            final(self).ram_view() == spec_ram_word_write(old(self).ram_view(), addr, value),
            final(self).io_view() == old(self).io_view(),
            final(self).rom_view() == old(self).rom_view(),
            final(self).tim16_view() == old(self).tim16_view(),
    ;

    fn read_sp(&mut self) -> (r: u8)
        requires
            spaces_wf(old(self).io_view(), old(self).ram_view(), old(self).rom_view()),
        ensures
            spaces_wf(final(self).io_view(), final(self).ram_view(), final(self).rom_view()),
            final(self).io_view() == old(self).io_view(),
            final(self).ram_view() == old(self).ram_view(),
            final(self).rom_view() == old(self).rom_view(),
            final(self).tim16_view() == old(self).tim16_view(),
            r == old(self).io_view()[IO_ADDR_SP as int],
    ;

    fn write_sp(&mut self, addr: u8)
        requires
            spaces_wf(old(self).io_view(), old(self).ram_view(), old(self).rom_view()),
        ensures
            spaces_wf(final(self).io_view(), final(self).ram_view(), final(self).rom_view()),
            final(self).io_view() == old(self).io_view().update(IO_ADDR_SP as int, addr),
            final(self).ram_view() == old(self).ram_view(),
            final(self).rom_view() == old(self).rom_view(),
            final(self).tim16_view() == old(self).tim16_view(),
    ;

    fn read_flags(&mut self) -> (r: u8)
        requires
            spaces_wf(old(self).io_view(), old(self).ram_view(), old(self).rom_view()),
        ensures
            spaces_wf(final(self).io_view(), final(self).ram_view(), final(self).rom_view()),
            final(self).io_view() == old(self).io_view(),
            final(self).ram_view() == old(self).ram_view(),
            final(self).rom_view() == old(self).rom_view(),
            final(self).tim16_view() == old(self).tim16_view(),
            r == old(self).io_view()[IO_ADDR_FLAGS as int],
    ;

    fn write_flags(&mut self, flags: u8)
        requires
            spaces_wf(old(self).io_view(), old(self).ram_view(), old(self).rom_view()),
        ensures
            spaces_wf(final(self).io_view(), final(self).ram_view(), final(self).rom_view()),
            final(self).io_view() == old(self).io_view().update(IO_ADDR_FLAGS as int, flags),
            final(self).ram_view() == old(self).ram_view(),
            final(self).rom_view() == old(self).rom_view(),
            final(self).tim16_view() == old(self).tim16_view(),
    ;

    fn is_zero_flag(&mut self) -> (r: bool)
        requires
            spaces_wf(old(self).io_view(), old(self).ram_view(), old(self).rom_view()),
        ensures
            spaces_wf(final(self).io_view(), final(self).ram_view(), final(self).rom_view()),
            final(self).io_view() == old(self).io_view(),
            final(self).ram_view() == old(self).ram_view(),
            final(self).rom_view() == old(self).rom_view(),
            final(self).tim16_view() == old(self).tim16_view(),
            r == (old(self).io_view()[IO_ADDR_FLAGS as int] & FLAG_ZERO_MASK != 0),
    ;

    fn is_carry_flag(&mut self) -> (r: bool)
        requires
            spaces_wf(old(self).io_view(), old(self).ram_view(), old(self).rom_view()),
        ensures
            spaces_wf(final(self).io_view(), final(self).ram_view(), final(self).rom_view()),
            final(self).io_view() == old(self).io_view(),
            final(self).ram_view() == old(self).ram_view(),
            final(self).rom_view() == old(self).rom_view(),
            final(self).tim16_view() == old(self).tim16_view(),
            r == (old(self).io_view()[IO_ADDR_FLAGS as int] & FLAG_CARRY_MASK != 0),
    ;

    fn is_aux_carry_flag(&mut self) -> (r: bool)
        requires
            spaces_wf(old(self).io_view(), old(self).ram_view(), old(self).rom_view()),
        ensures
            spaces_wf(final(self).io_view(), final(self).ram_view(), final(self).rom_view()),
            final(self).io_view() == old(self).io_view(),
            final(self).ram_view() == old(self).ram_view(),
            final(self).rom_view() == old(self).rom_view(),
            final(self).tim16_view() == old(self).tim16_view(),
            r == (old(self).io_view()[IO_ADDR_FLAGS as int] & FLAG_AUX_CARRY_MASK != 0),
    ;

    fn is_overflow_flag(&mut self) -> (r: bool)
        requires
            spaces_wf(old(self).io_view(), old(self).ram_view(), old(self).rom_view()),
        ensures
            spaces_wf(final(self).io_view(), final(self).ram_view(), final(self).rom_view()),
            final(self).io_view() == old(self).io_view(),
            final(self).ram_view() == old(self).ram_view(),
            final(self).rom_view() == old(self).rom_view(),
            final(self).tim16_view() == old(self).tim16_view(),
            r == (old(self).io_view()[IO_ADDR_FLAGS as int] & FLAG_OVERFLOW_MASK != 0),
    ;

    fn set_zero_flag(&mut self, value: bool)
        requires
            spaces_wf(old(self).io_view(), old(self).ram_view(), old(self).rom_view()),
        ensures
            spaces_wf(final(self).io_view(), final(self).ram_view(), final(self).rom_view()),
            final(self).io_view() == old(self).io_view().update(
                IO_ADDR_FLAGS as int,
                ((old(self).io_view()[IO_ADDR_FLAGS as int] & !FLAG_ZERO_MASK) | ((if value {
                    1u8
                } else {
                    0u8
                }) << FLAG_ZERO_OFFSET)) as u8,
            ),
            final(self).ram_view() == old(self).ram_view(),
            final(self).rom_view() == old(self).rom_view(),
            final(self).tim16_view() == old(self).tim16_view(),
    ;

    fn set_carry_flag(&mut self, value: bool)
        requires
            spaces_wf(old(self).io_view(), old(self).ram_view(), old(self).rom_view()),
        ensures
            spaces_wf(final(self).io_view(), final(self).ram_view(), final(self).rom_view()),
            final(self).io_view() == old(self).io_view().update(
                IO_ADDR_FLAGS as int,
                ((old(self).io_view()[IO_ADDR_FLAGS as int] & !FLAG_CARRY_MASK) | ((if value {
                    1u8
                } else {
                    0u8
                }) << FLAG_CARRY_OFFSET)) as u8,
            ),
            final(self).ram_view() == old(self).ram_view(),
            final(self).rom_view() == old(self).rom_view(),
            final(self).tim16_view() == old(self).tim16_view(),
    ;

    fn set_aux_carry_flag(&mut self, value: bool)
        requires
            spaces_wf(old(self).io_view(), old(self).ram_view(), old(self).rom_view()),
        ensures
            spaces_wf(final(self).io_view(), final(self).ram_view(), final(self).rom_view()),
            final(self).io_view() == old(self).io_view().update(
                IO_ADDR_FLAGS as int,
                ((old(self).io_view()[IO_ADDR_FLAGS as int] & !FLAG_AUX_CARRY_MASK) | ((if value {
                    1u8
                } else {
                    0u8
                }) << FLAG_AUX_CARRY_OFFSET)) as u8,
            ),
            final(self).ram_view() == old(self).ram_view(),
            final(self).rom_view() == old(self).rom_view(),
            final(self).tim16_view() == old(self).tim16_view(),
    ;

    fn set_overflow_flag(&mut self, value: bool)
        requires
            spaces_wf(old(self).io_view(), old(self).ram_view(), old(self).rom_view()),
        ensures
            spaces_wf(final(self).io_view(), final(self).ram_view(), final(self).rom_view()),
            final(self).io_view() == old(self).io_view().update(
                IO_ADDR_FLAGS as int,
                ((old(self).io_view()[IO_ADDR_FLAGS as int] & !FLAG_OVERFLOW_MASK) | ((if value {
                    1u8
                } else {
                    0u8
                }) << FLAG_OVERFLOW_OFFSET)) as u8,
            ),
            final(self).ram_view() == old(self).ram_view(),
            final(self).rom_view() == old(self).rom_view(),
            final(self).tim16_view() == old(self).tim16_view(),
    ;
}

impl<T: Bus> BusExt for T {
    fn read_ram_word(&self, addr: u8) -> (r: u16) {
        let lo = self.read_ram(addr) as u16;
        let hi = self.read_ram(addr.wrapping_add(1)) as u16;
        proof {
            assert((addr + 1) % 256 % 64 == (addr + 1) % 64);
        }
        lo + hi * 256
    }

    fn write_ram_word(&mut self, addr: u8, value: u16) {
        proof {
            assert((addr + 1) % 256 % 64 == (addr + 1) % 64);
        }
        self.write_ram(addr, (value % 256) as u8);
        self.write_ram(addr.wrapping_add(1), (value / 256) as u8);
    }

    fn read_sp(&mut self) -> (r: u8) {
        self.read_io(IO_ADDR_SP)
    }

    fn write_sp(&mut self, addr: u8) {
        self.write_io(IO_ADDR_SP, addr)
    }

    fn read_flags(&mut self) -> (r: u8) {
        self.read_io(IO_ADDR_FLAGS)
    }

    fn write_flags(&mut self, flags: u8) {
        self.write_io(IO_ADDR_FLAGS, flags)
    }

    fn is_zero_flag(&mut self) -> (r: bool) {
        self.read_flags() & FLAG_ZERO_MASK != 0
    }

    fn is_carry_flag(&mut self) -> (r: bool) {
        self.read_flags() & FLAG_CARRY_MASK != 0
    }

    fn is_aux_carry_flag(&mut self) -> (r: bool) {
        self.read_flags() & FLAG_AUX_CARRY_MASK != 0
    }

    fn is_overflow_flag(&mut self) -> (r: bool) {
        self.read_flags() & FLAG_OVERFLOW_MASK != 0
    }

    fn set_zero_flag(&mut self, value: bool) {
        let bit: u8 = if value {
            1
        } else {
            0
        };
        let old_flags = self.read_flags();
        self.write_flags((old_flags & !FLAG_ZERO_MASK) | (bit << FLAG_ZERO_OFFSET));
    }

    fn set_carry_flag(&mut self, value: bool) {
        let bit: u8 = if value {
            1
        } else {
            0
        };
        let old_flags = self.read_flags();
        self.write_flags((old_flags & !FLAG_CARRY_MASK) | (bit << FLAG_CARRY_OFFSET));
    }

    fn set_aux_carry_flag(&mut self, value: bool) {
        let bit: u8 = if value {
            1
        } else {
            0
        };
        let old_flags = self.read_flags();
        self.write_flags((old_flags & !FLAG_AUX_CARRY_MASK) | (bit << FLAG_AUX_CARRY_OFFSET));
    }

    fn set_overflow_flag(&mut self, value: bool) {
        let bit: u8 = if value {
            1
        } else {
            0
        };
        let old_flags = self.read_flags();
        self.write_flags((old_flags & !FLAG_OVERFLOW_MASK) | (bit << FLAG_OVERFLOW_OFFSET));
    }
}

/// Masked addressing: an access whose address is offset by the IO space
/// size selects the same IO cell, so reading or writing at `addr + 32`
/// observes the cell at `addr`.
pub proof fn lemma_io_masked_addressing(addr: u8)
    ensures
        ((addr + 32) % 256) % 32 == addr % 32,
{
    assert(((addr + 32) % 256) % 32 == (addr + 32) % 32);
}

/// Masked addressing: an access whose address is offset by the RAM space
/// size selects the same RAM cell, so reading or writing at `addr + 64`
/// observes the cell at `addr`.
pub proof fn lemma_ram_masked_addressing(addr: u8)
    ensures
        ((addr + 64) % 256) % 64 == addr % 64,
{
    assert(((addr + 64) % 256) % 64 == (addr + 64) % 64);
}

/// Masked addressing: an access whose address is offset by the ROM space
/// size selects the same ROM slot, so reading at `addr + 1024` observes the
/// slot at `addr`.
pub proof fn lemma_rom_masked_addressing(addr: u16)
    ensures
        ((addr + 1024) % 65536) % 1024 == addr % 1024,
{
    assert(((addr + 1024) % 65536) % 1024 == (addr + 1024) % 1024);
}

} // verus!
