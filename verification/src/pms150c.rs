//! The PMS150C MCU shell: IO, RAM and ROM storage, the clock-mode register,
//! and the port-A mirrors that couple IO writes to the host adapter.
//!
//! The shell owns the CPU core and a [`HostBridge`], which implements the
//! bus contract over the owned spaces and interprets writes to particular IO
//! cells as side effects: a clock-mode write selects the system frequency,
//! and writes to the port-A data, direction and pull-up registers are
//! mirrored to the host adapter pin by pin.

use vstd::prelude::*;

use crate::bus::spaces_wf;
use crate::bus::Bus;
use crate::host_adapter::HostAdapter;
use crate::host_adapter::Pin;
use crate::ir::generate_ir;
use crate::ir::lemma_decode_wf;
use crate::ir::spec_decode;
use crate::ir::IrSlot;
use crate::pdk_core::machine_of;
use crate::pdk_core::spec_step;
use crate::pdk_core::PdkCore;
use crate::regs::IO_ADDR_CLKMD;
use crate::regs::IO_ADDR_PA;
use crate::regs::IO_ADDR_PAC;
use crate::regs::IO_ADDR_PADIER;
use crate::regs::IO_ADDR_PAPH;
use crate::Pdk13Error;
use crate::Pdk13Result;

verus! {

pub const IO_SPACE_SIZE: usize = 0x20;

pub const RAM_SPACE_SIZE: usize = 0x40;

pub const ROM_SPACE_SIZE: usize = 0x400;

/// The internal high-rate oscillator, in hertz.
pub const IHRC_FREQUENCY: u32 = 16_000_000;

/// The internal low-rate oscillator, in hertz.
pub const ILRC_FREQUENCY: u32 = 62_000;

/// The port-A bit positions the part exposes as pins; bits 1 and 2 exist in
/// the register but are not brought out.
pub open spec fn exposed_bit(b: u8) -> bool {
    b == 0 || b == 3 || b == 4 || b == 5 || b == 6 || b == 7
}

/// The system frequency selected by a clock-mode byte: a 4-bit selector
/// picks the source and divider, and the chosen source's gate bit (bit 4 for
/// the high-rate oscillator, bit 2 for the low-rate one) must be set, else
/// the clock is halted.
pub open spec fn spec_sys_freq(clkmd: u8) -> u32 {
    let sel = ((clkmd >> 5) & 0x07) | (((clkmd >> 3) & 0x01) << 3);
    if sel == 0 {
        if clkmd & 0x10 != 0 {
            IHRC_FREQUENCY / 4
        } else {
            0
        }
    } else if sel == 1 {
        if clkmd & 0x10 != 0 {
            IHRC_FREQUENCY / 2
        } else {
            0
        }
    } else if sel == 6 {
        if clkmd & 0x04 != 0 {
            ILRC_FREQUENCY / 4
        } else {
            0
        }
    } else if sel == 7 {
        if clkmd & 0x04 != 0 {
            ILRC_FREQUENCY
        } else {
            0
        }
    } else if sel == 8 {
        if clkmd & 0x10 != 0 {
            IHRC_FREQUENCY / 16
        } else {
            0
        }
    } else if sel == 9 {
        if clkmd & 0x10 != 0 {
            IHRC_FREQUENCY / 8
        } else {
            0
        }
    } else if sel == 10 {
        if clkmd & 0x04 != 0 {
            ILRC_FREQUENCY / 16
        } else {
            0
        }
    } else if sel == 11 {
        if clkmd & 0x10 != 0 {
            IHRC_FREQUENCY / 32
        } else {
            0
        }
    } else if sel == 12 {
        if clkmd & 0x10 != 0 {
            IHRC_FREQUENCY / 64
        } else {
            0
        }
    } else {
        0
    }
}

/// Decodes a clock-mode byte into the system frequency it selects.
pub fn decode_sys_freq(clkmd: u8) -> (r: u32)
    ensures
        r == spec_sys_freq(clkmd),
{
    let sel: u8 = ((clkmd >> 5) & 0x07) | (((clkmd >> 3) & 0x01) << 3);
    if sel == 0 {
        if clkmd & 0x10 != 0 {
            IHRC_FREQUENCY / 4
        } else {
            0
        }
    } else if sel == 1 {
        if clkmd & 0x10 != 0 {
            IHRC_FREQUENCY / 2
        } else {
            0
        }
    } else if sel == 6 {
        if clkmd & 0x04 != 0 {
            ILRC_FREQUENCY / 4
        } else {
            0
        }
    } else if sel == 7 {
        if clkmd & 0x04 != 0 {
            ILRC_FREQUENCY
        } else {
            0
        }
    } else if sel == 8 {
        if clkmd & 0x10 != 0 {
            IHRC_FREQUENCY / 16
        } else {
            0
        }
    } else if sel == 9 {
        if clkmd & 0x10 != 0 {
            IHRC_FREQUENCY / 8
        } else {
            0
        }
    } else if sel == 10 {
        if clkmd & 0x04 != 0 {
            ILRC_FREQUENCY / 16
        } else {
            0
        }
    } else if sel == 11 {
        if clkmd & 0x10 != 0 {
            IHRC_FREQUENCY / 32
        } else {
            0
        }
    } else if sel == 12 {
        if clkmd & 0x10 != 0 {
            IHRC_FREQUENCY / 64
        } else {
            0
        }
    } else {
        0
    }
}

/// The instruction words held in a firmware image: every two bytes form one
/// word in little-endian order.
pub open spec fn fw_words(bytes: Seq<u8>) -> Seq<u16> {
    Seq::new(bytes.len() / 2, |i: int| (bytes[2 * i] + bytes[2 * i + 1] * 256) as u16)
}

/// Whether a firmware image fits the part: at most 1024 words, each within
/// 13 bits.
pub open spec fn fw_ok(words: Seq<u16>) -> bool {
    words.len() <= 1024 && forall|i: int| 0 <= i < words.len() ==> #[trigger] words[i] <= 0x1FFF
}

/// The error reported for the first offending word of an image, walking the
/// words in order: a word at or beyond the ROM size is an address error, a
/// word beyond 13 bits a word error.
pub open spec fn fw_first_err(words: Seq<u16>, i: int) -> Pdk13Error
    decreases words.len() - i,
    when 0 <= i <= words.len()
{
    if i >= words.len() {
        Pdk13Error::TooBigWord(0)
    } else if i >= 1024 {
        Pdk13Error::TooBigAddress(i as usize, 1024)
    } else if words[i] > 0x1FFF {
        Pdk13Error::TooBigWord(words[i])
    } else {
        fw_first_err(words, i + 1)
    }
}

/// Walking `fw_first_err` over a clean prefix lands on the first offence.
proof fn lemma_fw_first_err(words: Seq<u16>, lo: int, k: int)
    requires
        0 <= lo <= k < words.len(),
        k <= 1024,
        forall|j: int| lo <= j < k ==> j < 1024 && #[trigger] words[j] <= 0x1FFF,
        k >= 1024 || words[k] > 0x1FFF,
    ensures
        fw_first_err(words, lo) == (if k >= 1024 {
            Pdk13Error::TooBigAddress(k as usize, 1024)
        } else {
            Pdk13Error::TooBigWord(words[k])
        }),
    decreases k - lo,
{
    if lo < k {
        assert forall|j: int| lo + 1 <= j < k implies j < 1024 && #[trigger] words[j]
            <= 0x1FFF by {
            assert(lo <= j < k);
        }
        lemma_fw_first_err(words, lo + 1, k);
    }
}

/// The storage the shell owns: the three memory spaces, the selected clock
/// frequency, and the three port-A shadow bytes.
pub struct State {
    pub io: Vec<u8>,
    pub ram: Vec<u8>,
    pub rom: Vec<IrSlot>,
    pub clock_frequency: u32,
    pub pa: u8,
    pub pac: u8,
    pub paph: u8,
}

impl State {
    /// Zeroed spaces, a low-rate clock and cleared mirrors.
    pub fn new() -> (r: Self)
        ensures
            spaces_wf(r.io@, r.ram@, r.rom@),
            r.io@ == Seq::new(32, |i: int| 0u8),
            r.ram@ == Seq::new(64, |i: int| 0u8),
            r.rom@ == Seq::new(1024, |i: int| crate::ir::spec_default_slot()),
            r.clock_frequency == ILRC_FREQUENCY,
            r.pa == 0,
            r.pac == 0,
            r.paph == 0,
    {
        let mut io: Vec<u8> = Vec::new();
        let mut i: usize = 0;
        while i < 32
            invariant
                i <= 32,
                io@.len() == i,
                forall|j: int| 0 <= j < i ==> io@[j] == 0u8,
            decreases 32 - i,
        {
            io.push(0);
            i = i + 1;
        }
        let mut ram: Vec<u8> = Vec::new();
        let mut i: usize = 0;
        while i < 64
            invariant
                i <= 64,
                ram@.len() == i,
                forall|j: int| 0 <= j < i ==> ram@[j] == 0u8,
            decreases 64 - i,
        {
            ram.push(0);
            i = i + 1;
        }
        let mut rom: Vec<IrSlot> = Vec::new();
        let mut i: usize = 0;
        while i < 1024
            invariant
                i <= 1024,
                rom@.len() == i,
                forall|j: int| 0 <= j < i ==> rom@[j] == crate::ir::spec_default_slot(),
            decreases 1024 - i,
        {
            rom.push(IrSlot::default());
            i = i + 1;
        }
        let r = State { io, ram, rom, clock_frequency: ILRC_FREQUENCY, pa: 0, pac: 0, paph: 0 };
        proof {
            assert(r.io@ =~= Seq::new(32, |i: int| 0u8));
            assert(r.ram@ =~= Seq::new(64, |i: int| 0u8));
            assert(r.rom@ =~= Seq::new(1024, |i: int| crate::ir::spec_default_slot()));
        }
        r
    }

    /// The reset defaults: clock mode selects the low-rate oscillator at
    /// full rate, the pin-enable register comes up with its reset value, and
    /// the port-A mirrors are cleared. RAM and ROM are untouched.
    pub fn reset(&mut self)
        requires
            spaces_wf(old(self).io@, old(self).ram@, old(self).rom@),
        ensures
            spaces_wf(final(self).io@, final(self).ram@, final(self).rom@),
            final(self).io@ == old(self).io@.update(IO_ADDR_CLKMD as int, 0xF6u8).update(
                IO_ADDR_PADIER as int,
                0xF9u8,
            ),
            final(self).ram@ == old(self).ram@,
            final(self).rom@ == old(self).rom@,
            final(self).clock_frequency == ILRC_FREQUENCY,
            final(self).pa == 0,
            final(self).pac == 0,
            final(self).paph == 0,
    {
        self.io[IO_ADDR_CLKMD as usize] = 0xF6;
        self.io[IO_ADDR_PADIER as usize] = 0xF9;
        self.clock_frequency = ILRC_FREQUENCY;
        self.pa = 0;
        self.pac = 0;
        self.paph = 0;
    }
}

/// The bus the CPU core sees while the shell steps it: the owned storage
/// plus the host adapter behind the pins.
pub struct HostBridge<H: HostAdapter> {
    pub state: State,
    pub host: H,
}

impl<H: HostAdapter> HostBridge<H> {
    /// A bridge over fresh storage and the given host.
    pub fn new(host: H) -> (r: Self)
        ensures
            spaces_wf(r.state.io@, r.state.ram@, r.state.rom@),
            r.state.io@ == Seq::new(32, |i: int| 0u8),
            r.state.ram@ == Seq::new(64, |i: int| 0u8),
            r.state.rom@ == Seq::new(1024, |i: int| crate::ir::spec_default_slot()),
            r.state.clock_frequency == ILRC_FREQUENCY,
            r.state.pa == 0,
            r.state.pac == 0,
            r.state.paph == 0,
            r.host == host,
    {
        HostBridge { state: State::new(), host }
    }

    /// Interprets a clock-mode write: the selected system frequency is
    /// recorded. The low two bits carry the watchdog-enable and
    /// reset-function configuration, which are accepted without observable
    /// effect in this generation of the model.
    fn on_change_clkmd(&mut self, clkmd: u8)
        ensures
            final(self).state.clock_frequency == spec_sys_freq(clkmd),
            final(self).state.io == old(self).state.io,
            final(self).state.ram == old(self).state.ram,
            final(self).state.rom == old(self).state.rom,
            final(self).state.pa == old(self).state.pa,
            final(self).state.pac == old(self).state.pac,
            final(self).state.paph == old(self).state.paph,
            final(self).host == old(self).host,
    {
        self.state.clock_frequency = decode_sys_freq(clkmd);
        let watchdog = clkmd & 0x02 != 0;
        let pa5_reset = clkmd & 0x01 != 0;
        self.set_watchdog_enabled(watchdog);
        self.set_pa5_reset_enabled(pa5_reset);
    }

    /// Reserved: the watchdog configuration has no observable effect here.
    fn set_watchdog_enabled(&mut self, enabled: bool)
        ensures
            *final(self) == *old(self),
    {
        let _ = enabled;
    }

    /// Reserved: the PA5-as-reset configuration has no observable effect here.
    fn set_pa5_reset_enabled(&mut self, enabled: bool)
        ensures
            *final(self) == *old(self),
    {
        let _ = enabled;
    }

    /// Mirrors a port-A data write: each exposed bit is driven out on the
    /// host adapter as a digital level, and the data shadow keeps the byte.
    fn on_change_pa(&mut self, pa: u8)
        ensures
            forall|b: u8|
                #[trigger] final(self).host.digital_at(b) == (if b == 7 {
                    pa & 0x80 != 0
                } else if b == 6 {
                    pa & 0x40 != 0
                } else if b == 5 {
                    pa & 0x20 != 0
                } else if b == 4 {
                    pa & 0x10 != 0
                } else if b == 3 {
                    pa & 0x08 != 0
                } else if b == 0 {
                    pa & 0x01 != 0
                } else {
                    old(self).host.digital_at(b)
                }),
            forall|b: u8| #[trigger] final(self).host.output_enabled_at(b) == old(
                self,
            ).host.output_enabled_at(b),
            forall|b: u8| #[trigger] final(self).host.pull_up_at(b) == old(self).host.pull_up_at(
                b,
            ),
            final(self).state.pa == pa,
            final(self).state.io == old(self).state.io,
            final(self).state.ram == old(self).state.ram,
            final(self).state.rom == old(self).state.rom,
            final(self).state.pac == old(self).state.pac,
            final(self).state.paph == old(self).state.paph,
            final(self).state.clock_frequency == old(self).state.clock_frequency,
    {
        self.host.write_pin_digital(Pin(7), pa & 0x80 != 0);
        self.host.write_pin_digital(Pin(6), pa & 0x40 != 0);
        self.host.write_pin_digital(Pin(5), pa & 0x20 != 0);
        self.host.write_pin_digital(Pin(4), pa & 0x10 != 0);
        self.host.write_pin_digital(Pin(3), pa & 0x08 != 0);
        self.host.write_pin_digital(Pin(0), pa & 0x01 != 0);
        self.state.pa = pa;
    }

    /// Mirrors a port-A direction write: each exposed bit sets the host
    /// adapter's output enable, and the direction shadow keeps the byte.
    fn on_change_pac(&mut self, pac: u8)
        ensures
            forall|b: u8|
                #[trigger] final(self).host.output_enabled_at(b) == (if b == 7 {
                    pac & 0x80 != 0
                } else if b == 6 {
                    pac & 0x40 != 0
                } else if b == 5 {
                    pac & 0x20 != 0
                } else if b == 4 {
                    pac & 0x10 != 0
                } else if b == 3 {
                    pac & 0x08 != 0
                } else if b == 0 {
                    pac & 0x01 != 0
                } else {
                    old(self).host.output_enabled_at(b)
                }),
            forall|b: u8| #[trigger] final(self).host.digital_at(b) == old(self).host.digital_at(
                b,
            ),
            forall|b: u8| #[trigger] final(self).host.pull_up_at(b) == old(self).host.pull_up_at(
                b,
            ),
            final(self).state.pac == pac,
            final(self).state.io == old(self).state.io,
            final(self).state.ram == old(self).state.ram,
            final(self).state.rom == old(self).state.rom,
            final(self).state.pa == old(self).state.pa,
            final(self).state.paph == old(self).state.paph,
            final(self).state.clock_frequency == old(self).state.clock_frequency,
    {
        self.host.set_pin_output_enabled(Pin(7), pac & 0x80 != 0);
        self.host.set_pin_output_enabled(Pin(6), pac & 0x40 != 0);
        self.host.set_pin_output_enabled(Pin(5), pac & 0x20 != 0);
        self.host.set_pin_output_enabled(Pin(4), pac & 0x10 != 0);
        self.host.set_pin_output_enabled(Pin(3), pac & 0x08 != 0);
        self.host.set_pin_output_enabled(Pin(0), pac & 0x01 != 0);
        self.state.pac = pac;
    }

    /// Mirrors a port-A pull-up write: each exposed bit sets the host
    /// adapter's pull-up enable, and the pull-up shadow keeps the byte.
    fn on_change_paph(&mut self, paph: u8)
        ensures
            forall|b: u8|
                #[trigger] final(self).host.pull_up_at(b) == (if b == 7 {
                    paph & 0x80 != 0
                } else if b == 6 {
                    paph & 0x40 != 0
                } else if b == 5 {
                    paph & 0x20 != 0
                } else if b == 4 {
                    paph & 0x10 != 0
                } else if b == 3 {
                    paph & 0x08 != 0
                } else if b == 0 {
                    paph & 0x01 != 0
                } else {
                    old(self).host.pull_up_at(b)
                }),
            forall|b: u8| #[trigger] final(self).host.digital_at(b) == old(self).host.digital_at(
                b,
            ),
            forall|b: u8| #[trigger] final(self).host.output_enabled_at(b) == old(
                self,
            ).host.output_enabled_at(b),
            final(self).state.paph == paph,
            final(self).state.io == old(self).state.io,
            final(self).state.ram == old(self).state.ram,
            final(self).state.rom == old(self).state.rom,
            final(self).state.pa == old(self).state.pa,
            final(self).state.pac == old(self).state.pac,
            final(self).state.clock_frequency == old(self).state.clock_frequency,
    {
        self.host.set_pin_pull_up_enabled(Pin(7), paph & 0x80 != 0);
        self.host.set_pin_pull_up_enabled(Pin(6), paph & 0x40 != 0);
        self.host.set_pin_pull_up_enabled(Pin(5), paph & 0x20 != 0);
        self.host.set_pin_pull_up_enabled(Pin(4), paph & 0x10 != 0);
        self.host.set_pin_pull_up_enabled(Pin(3), paph & 0x08 != 0);
        self.host.set_pin_pull_up_enabled(Pin(0), paph & 0x01 != 0);
        self.state.paph = paph;
    }

    /// Assembles the byte a port-A read returns: bits configured as outputs
    /// return the last written value from the data shadow, exposed bits
    /// configured as inputs sample the host adapter, and the unexposed input
    /// bits read as zero.
    fn sample_pa(&self) -> (r: u8)
        ensures
            forall|b: u8|
                b < 8 && self.state.pac & (1u8 << b) != 0 ==> ((#[trigger] (r & (1u8 << b))!= 0)
                    == (self.state.pa & (1u8 << b) != 0)),
            self.state.pac & 0x02 == 0 ==> r & 0x02 == 0,
            self.state.pac & 0x04 == 0 ==> r & 0x04 == 0,
    {
        let mut sampled: u8 = 0;
        if self.host.read_pin_digital(Pin(7)) {
            sampled = sampled | 0x80;
        }
        if self.host.read_pin_digital(Pin(6)) {
            sampled = sampled | 0x40;
        }
        if self.host.read_pin_digital(Pin(5)) {
            sampled = sampled | 0x20;
        }
        if self.host.read_pin_digital(Pin(4)) {
            sampled = sampled | 0x10;
        }
        if self.host.read_pin_digital(Pin(3)) {
            sampled = sampled | 0x08;
        }
        if self.host.read_pin_digital(Pin(0)) {
            sampled = sampled | 0x01;
        }
        let r = (self.state.pa & self.state.pac) | (sampled & !self.state.pac & 0xF9);
        proof {
            let pa = self.state.pa;
            let pac = self.state.pac;
            assert forall|b: u8|
                b < 8 && pac & (1u8 << b) != 0 implies ((#[trigger] (((pa & pac) | (sampled & !pac
                & 0xF9)) & (1u8 << b))) != 0) == (pa & (1u8 << b) != 0) by {
                assert(pac & (1u8 << b) != 0 ==> ((((pa & pac) | (sampled & !pac & 0xF9)) & (1u8
                    << b)) != 0) == (pa & (1u8 << b) != 0)) by (bit_vector)
                    requires
                        b < 8,
                ;
            }
            assert(pac & 0x02 == 0 ==> ((pa & pac) | (sampled & !pac & 0xF9)) & 0x02 == 0)
                by (bit_vector);
            assert(pac & 0x04 == 0 ==> ((pa & pac) | (sampled & !pac & 0xF9)) & 0x04 == 0)
                by (bit_vector);
        }
        r
    }
}

impl<H: HostAdapter> Bus for HostBridge<H> {
    open spec fn io_view(&self) -> Seq<u8> {
        self.state.io@
    }

    open spec fn ram_view(&self) -> Seq<u8> {
        self.state.ram@
    }

    open spec fn rom_view(&self) -> Seq<IrSlot> {
        self.state.rom@
    }

    open spec fn tim16_view(&self) -> u16 {
        0
    }

    fn write_io(&mut self, addr: u8, value: u8)
        ensures
            addr % 32 == IO_ADDR_CLKMD ==> final(self).state.clock_frequency == spec_sys_freq(
                value,
            ),
            addr % 32 == IO_ADDR_PA ==> final(self).state.pa == value && (forall|b: u8|
                exposed_bit(b) ==> #[trigger] final(self).host.digital_at(b) == (value & (1u8 << b)
                    != 0)),
            addr % 32 == IO_ADDR_PAC ==> final(self).state.pac == value && (forall|b: u8|
                exposed_bit(b) ==> #[trigger] final(self).host.output_enabled_at(b) == (value & (
                1u8 << b) != 0)),
            addr % 32 == IO_ADDR_PAPH ==> final(self).state.paph == value && (forall|b: u8|
                exposed_bit(b) ==> #[trigger] final(self).host.pull_up_at(b) == (value & (1u8 << b)
                    != 0)),
            addr % 32 != IO_ADDR_PA && addr % 32 != IO_ADDR_PAC && addr % 32 != IO_ADDR_PAPH
                ==> final(self).host == old(self).host,
    {
        let a = addr % 32;
        self.state.io[a as usize] = value;
        if a == IO_ADDR_CLKMD {
            self.on_change_clkmd(value);
        } else if a == IO_ADDR_PA {
            self.on_change_pa(value);
        } else if a == IO_ADDR_PAC {
            self.on_change_pac(value);
        } else if a == IO_ADDR_PAPH {
            self.on_change_paph(value);
        }
        proof {
            assert(1u8 << 0 == 0x01 && 1u8 << 3 == 0x08 && 1u8 << 4 == 0x10 && 1u8 << 5 == 0x20
                && 1u8 << 6 == 0x40 && 1u8 << 7 == 0x80) by (bit_vector);
        }
    }

    fn read_io(&mut self, addr: u8) -> (r: u8)
        ensures
            addr % 32 != IO_ADDR_PA ==> *final(self) == *old(self),
            addr % 32 == IO_ADDR_PA ==> ({
                &&& forall|b: u8|
                    b < 8 && old(self).state.pac & (1u8 << b) != 0 ==> ((#[trigger] (r & (1u8
                        << b)) != 0) == (old(self).state.pa & (1u8 << b) != 0))
                &&& (old(self).state.pac & 0x02 == 0 ==> r & 0x02 == 0)
                &&& (old(self).state.pac & 0x04 == 0 ==> r & 0x04 == 0)
                &&& final(self).state.pa == old(self).state.pa
                &&& final(self).state.pac == old(self).state.pac
                &&& final(self).state.paph == old(self).state.paph
                &&& final(self).state.clock_frequency == old(self).state.clock_frequency
                &&& final(self).host == old(self).host
            }),
    {
        let a = addr % 32;
        if a == IO_ADDR_PA {
            let sampled = self.sample_pa();
            self.state.io[a as usize] = sampled;
            sampled
        } else {
            let r = self.state.io[a as usize];
            proof {
                assert(self.state.io@ =~= self.state.io@.update((addr % 32) as int, r));
            }
            r
        }
    }

    fn write_ram(&mut self, addr: u8, value: u8) {
        let a = (addr % 64) as usize;
        self.state.ram[a] = value;
    }

    fn read_ram(&self, addr: u8) -> (r: u8) {
        self.state.ram[(addr % 64) as usize]
    }

    fn read_rom(&self, addr: u16) -> (r: IrSlot) {
        self.state.rom[(addr % 1024) as usize]
    }

    fn write_tim16(&mut self, value: u16) {
        let _ = value;
    }

    fn read_tim16(&self) -> (r: u16) {
        0
    }

    fn reset(&mut self) {
        self.state.reset();
    }

    fn stop_exe(&mut self) {
    }

    fn stop_sys(&mut self) {
    }

    fn wdt_reset(&mut self) {
    }
}

/// The whole part: the CPU core plus the bridge over storage and host.
pub struct Pms150c<H: HostAdapter> {
    pub core: PdkCore,
    pub bridge: HostBridge<H>,
}

impl<H: HostAdapter> Pms150c<H> {
    /// A part with a zeroed core and fresh storage over the given host.
    pub fn new(host: H) -> (r: Self)
        ensures
            spaces_wf(r.bridge.state.io@, r.bridge.state.ram@, r.bridge.state.rom@),
            r.core.acc == 0,
            r.core.pc == 0,
            !r.core.global_interrupts,
            r.core.state is Execute,
            r.bridge.state.io@ == Seq::new(32, |i: int| 0u8),
            r.bridge.state.ram@ == Seq::new(64, |i: int| 0u8),
            r.bridge.state.rom@ == Seq::new(1024, |i: int| crate::ir::spec_default_slot()),
            r.bridge.state.clock_frequency == ILRC_FREQUENCY,
            r.bridge.state.pa == 0,
            r.bridge.state.pac == 0,
            r.bridge.state.paph == 0,
            r.bridge.host == host,
    {
        Pms150c { core: PdkCore::new(), bridge: HostBridge::new(host) }
    }

    /// The system frequency currently selected; an embedder checks it before
    /// each step to pace the emulation.
    pub fn get_frequency(&self) -> (r: u32)
        ensures
            r == self.bridge.state.clock_frequency,
    {
        self.bridge.state.clock_frequency
    }

    /// Performs one emulation step: the owned core steps once against the
    /// owned bridge. The machine made of core and bridge moves exactly to
    /// `spec_step` of the old machine under the returned samples.
    pub fn step(&mut self) -> (samples: Ghost<(u8, u16, Seq<u8>)>)
        requires
            spaces_wf(
                old(self).bridge.state.io@,
                old(self).bridge.state.ram@,
                old(self).bridge.state.rom@,
            ),
        ensures
            spaces_wf(
                final(self).bridge.state.io@,
                final(self).bridge.state.ram@,
                final(self).bridge.state.rom@,
            ),
            final(self).bridge.state.rom@ == old(self).bridge.state.rom@,
            machine_of(
                final(self).core.core_view(),
                final(self).bridge.state.io@,
                final(self).bridge.state.ram@,
                final(self).bridge.state.rom@,
                0,
            ) == spec_step(
                machine_of(
                    old(self).core.core_view(),
                    old(self).bridge.state.io@,
                    old(self).bridge.state.ram@,
                    old(self).bridge.state.rom@,
                    0,
                ),
                samples@.0,
                samples@.1,
                samples@.2,
            ),
    {
        self.core.step(&mut self.bridge)
    }

    /// Initialises the host side: every exposed pin is configured as a
    /// disabled, low, pull-up-free input, and the shell state takes its
    /// reset defaults.
    pub fn init(&mut self)
        requires
            spaces_wf(
                old(self).bridge.state.io@,
                old(self).bridge.state.ram@,
                old(self).bridge.state.rom@,
            ),
        ensures
            spaces_wf(
                final(self).bridge.state.io@,
                final(self).bridge.state.ram@,
                final(self).bridge.state.rom@,
            ),
            forall|b: u8|
                #[trigger] final(self).bridge.host.digital_at(b) == (if exposed_bit(b) {
                    false
                } else {
                    old(self).bridge.host.digital_at(b)
                }),
            forall|b: u8|
                #[trigger] final(self).bridge.host.output_enabled_at(b) == (if exposed_bit(b) {
                    false
                } else {
                    old(self).bridge.host.output_enabled_at(b)
                }),
            forall|b: u8|
                #[trigger] final(self).bridge.host.pull_up_at(b) == (if exposed_bit(b) {
                    false
                } else {
                    old(self).bridge.host.pull_up_at(b)
                }),
            final(self).bridge.state.io@ == old(self).bridge.state.io@.update(
                IO_ADDR_CLKMD as int,
                0xF6u8,
            ).update(IO_ADDR_PADIER as int, 0xF9u8),
            final(self).bridge.state.ram@ == old(self).bridge.state.ram@,
            final(self).bridge.state.rom@ == old(self).bridge.state.rom@,
            final(self).bridge.state.clock_frequency == ILRC_FREQUENCY,
            final(self).bridge.state.pa == 0,
            final(self).bridge.state.pac == 0,
            final(self).bridge.state.paph == 0,
            final(self).core == old(self).core,
    {
        self.bridge.host.set_pin_output_enabled(Pin(0), false);
        self.bridge.host.set_pin_pull_up_enabled(Pin(0), false);
        self.bridge.host.write_pin_digital(Pin(0), false);
        self.bridge.host.set_pin_output_enabled(Pin(3), false);
        self.bridge.host.set_pin_pull_up_enabled(Pin(3), false);
        self.bridge.host.write_pin_digital(Pin(3), false);
        self.bridge.host.set_pin_output_enabled(Pin(4), false);
        self.bridge.host.set_pin_pull_up_enabled(Pin(4), false);
        self.bridge.host.write_pin_digital(Pin(4), false);
        self.bridge.host.set_pin_output_enabled(Pin(5), false);
        self.bridge.host.set_pin_pull_up_enabled(Pin(5), false);
        self.bridge.host.write_pin_digital(Pin(5), false);
        self.bridge.host.set_pin_output_enabled(Pin(6), false);
        self.bridge.host.set_pin_pull_up_enabled(Pin(6), false);
        self.bridge.host.write_pin_digital(Pin(6), false);
        self.bridge.host.set_pin_output_enabled(Pin(7), false);
        self.bridge.host.set_pin_pull_up_enabled(Pin(7), false);
        self.bridge.host.write_pin_digital(Pin(7), false);
        self.bridge.state.reset();
    }

    /// Decodes one instruction word into the ROM slot at `address`. An
    /// address at or beyond the ROM size and a word beyond 13 bits are each
    /// rejected, and nothing is changed.
    pub fn write_rom(&mut self, address: usize, value: u16) -> (r: Pdk13Result<()>)
        requires
            spaces_wf(
                old(self).bridge.state.io@,
                old(self).bridge.state.ram@,
                old(self).bridge.state.rom@,
            ),
        ensures
            spaces_wf(
                final(self).bridge.state.io@,
                final(self).bridge.state.ram@,
                final(self).bridge.state.rom@,
            ),
            address >= 1024 ==> r == Err::<(), Pdk13Error>(
                Pdk13Error::TooBigAddress(address, 1024),
            ) && *final(self) == *old(self),
            address < 1024 && value > 0x1FFF ==> r == Err::<(), Pdk13Error>(
                Pdk13Error::TooBigWord(value),
            ) && *final(self) == *old(self),
            address < 1024 && value <= 0x1FFF ==> ({
                &&& r == Ok::<(), Pdk13Error>(())
                &&& final(self).bridge.state.rom@ == old(self).bridge.state.rom@.update(
                    address as int,
                    spec_decode(value),
                )
                &&& final(self).bridge.state.io@ == old(self).bridge.state.io@
                &&& final(self).bridge.state.ram@ == old(self).bridge.state.ram@
                &&& final(self).core == old(self).core
                &&& final(self).bridge.state.clock_frequency == old(
                    self,
                ).bridge.state.clock_frequency
                &&& final(self).bridge.host == old(self).bridge.host
            }),
    {
        if address >= ROM_SPACE_SIZE {
            return Err(Pdk13Error::TooBigAddress(address, ROM_SPACE_SIZE));
        }
        match IrSlot::from_instruction(value) {
            Ok(slot) => {
                proof {
                    lemma_decode_wf(value);
                }
                self.bridge.state.rom[address] = slot;
                Ok(())
            },
            Err(e) => Err(e),
        }
    }

    /// Loads a whole firmware image: every two bytes form one 13-bit word in
    /// little-endian order, and the N-th pair lands in ROM slot N. The image
    /// is validated in full before anything is written, so a rejected image
    /// leaves the part untouched; a shorter image leaves the trailing ROM
    /// slots as they were.
    pub fn load_firmware(&mut self, image: &Vec<u8>) -> (r: Pdk13Result<()>)
        requires
            spaces_wf(
                old(self).bridge.state.io@,
                old(self).bridge.state.ram@,
                old(self).bridge.state.rom@,
            ),
            image@.len() % 2 == 0,
        ensures
            spaces_wf(
                final(self).bridge.state.io@,
                final(self).bridge.state.ram@,
                final(self).bridge.state.rom@,
            ),
            r is Ok <==> fw_ok(fw_words(image@)),
            !fw_ok(fw_words(image@)) ==> r == Err::<(), Pdk13Error>(
                fw_first_err(fw_words(image@), 0),
            ) && *final(self) == *old(self),
            fw_ok(fw_words(image@)) ==> ({
                let words = fw_words(image@);
                &&& final(self).bridge.state.rom@.len() == 1024
                &&& forall|j: int|
                    0 <= j < words.len() ==> final(self).bridge.state.rom@[j] == spec_decode(
                        words[j],
                    )
                &&& forall|j: int|
                    words.len() <= j < 1024 ==> final(self).bridge.state.rom@[j] == old(
                        self,
                    ).bridge.state.rom@[j]
                &&& final(self).bridge.state.io@ == old(self).bridge.state.io@
                &&& final(self).bridge.state.ram@ == old(self).bridge.state.ram@
                &&& final(self).core == old(self).core
                &&& final(self).bridge.state.clock_frequency == old(
                    self,
                ).bridge.state.clock_frequency
                &&& final(self).bridge.host == old(self).bridge.host
            }),
    {
        let ghost words = fw_words(image@);
        let n = image.len() / 2;
        let mut i: usize = 0;
        while i < n
            invariant
                spaces_wf(self.bridge.state.io@, self.bridge.state.ram@, self.bridge.state.rom@),
                *self == *old(self),
                words == fw_words(image@),
                image@.len() % 2 == 0,
                n == image@.len() / 2,
                i <= n,
                i <= 1024,
                forall|j: int| 0 <= j < i ==> j < 1024 && #[trigger] words[j] <= 0x1FFF,
            decreases n - i,
        {
            if i >= 1024 {
                proof {
                    lemma_fw_first_err(words, 0, i as int);
                }
                return Err(Pdk13Error::TooBigAddress(i, 1024));
            }
            let b0 = image[2 * i];
            let b1 = image[2 * i + 1];
            let w: u16 = b0 as u16 + (b1 as u16) * 256;
            proof {
                assert(w == words[i as int]);
            }
            if w > 0x1FFF {
                proof {
                    lemma_fw_first_err(words, 0, i as int);
                }
                return Err(Pdk13Error::TooBigWord(w));
            }
            i = i + 1;
        }
        let mut i: usize = 0;
        while i < n
            invariant
                spaces_wf(self.bridge.state.io@, self.bridge.state.ram@, self.bridge.state.rom@),
                words == fw_words(image@),
                image@.len() % 2 == 0,
                n == image@.len() / 2,
                n <= 1024,
                i <= n,
                forall|j: int| 0 <= j < n ==> #[trigger] words[j] <= 0x1FFF,
                forall|j: int|
                    0 <= j < i ==> #[trigger] self.bridge.state.rom@[j] == spec_decode(words[j]),
                forall|j: int|
                    i <= j < 1024 ==> #[trigger] self.bridge.state.rom@[j] == old(
                        self,
                    ).bridge.state.rom@[j],
                self.bridge.state.io@ == old(self).bridge.state.io@,
                self.bridge.state.ram@ == old(self).bridge.state.ram@,
                self.core == old(self).core,
                self.bridge.state.clock_frequency == old(self).bridge.state.clock_frequency,
                self.bridge.state.pa == old(self).bridge.state.pa,
                self.bridge.state.pac == old(self).bridge.state.pac,
                self.bridge.state.paph == old(self).bridge.state.paph,
                self.bridge.host == old(self).bridge.host,
            decreases n - i,
        {
            let b0 = image[2 * i];
            let b1 = image[2 * i + 1];
            let w: u16 = b0 as u16 + (b1 as u16) * 256;
            proof {
                assert(w == words[i as int]);
                assert(w & 0x1FFF == w) by (bit_vector)
                    requires
                        w <= 0x1FFF,
                ;
                lemma_decode_wf(w);
            }
            let slot = generate_ir(w);
            self.bridge.state.rom[i] = slot;
            i = i + 1;
        }
        Ok(())
    }
}

} // verus!
