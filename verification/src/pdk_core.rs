//! The fetch/execute state machine of the PDK13 CPU core.
//!
//! The core owns the accumulator, the 10-bit program counter, the
//! global-interrupts latch and the execute/skip latch; flags and the stack
//! pointer live in IO space and are reached through the bus. One `step`
//! either executes the decoded slot the program counter points at, or, when
//! the skip latch is set, consumes the one stall cycle that follows a taken
//! skip or branch and does nothing else.
//!
//! The whole transition is specified by [`spec_step`] over a [`Machine`]
//! view. Three sampled values parameterise the few effects the bus does not
//! determine: the byte a port-A read returns, the timer word after a timer
//! write, and the IO space after a bus reset. `step` returns the samples its
//! bus produced as a ghost witness, so a caller can instantiate the
//! specification exactly.

use vstd::prelude::*;

use crate::bus::spaces_wf;
use crate::bus::spec_ram_word;
use crate::bus::spec_ram_word_write;
use crate::bus::Bus;
use crate::bus::BusExt;
use crate::ir::IrOpcode;
use crate::ir::IrSlot;
use crate::ops;
use crate::regs::FLAG_ZERO_MASK;
use crate::regs::IO_ADDR_FLAGS;
use crate::regs::IO_ADDR_PA;
use crate::regs::IO_ADDR_SP;

verus! {

/// The two states of the execute/skip latch.
#[derive(Clone, Copy, Debug, PartialEq, Eq, Structural)]
pub enum PdkCoreState {
    Execute,
    Skip,
}

/// The CPU register file.
pub struct PdkCore {
    pub acc: u8,
    pub pc: u16,
    pub state: PdkCoreState,
    pub global_interrupts: bool,
}

/// The core's registers as the specification sees them.
#[verifier::ext_equal]
pub ghost struct CpuView {
    pub acc: u8,
    pub pc: u16,
    pub gie: bool,
    pub skip: bool,
}

/// The bus as the specification sees it.
#[verifier::ext_equal]
pub ghost struct BusView {
    pub io: Seq<u8>,
    pub ram: Seq<u8>,
    pub rom: Seq<IrSlot>,
    pub tim16: u16,
}

/// One whole machine: core registers plus bus spaces.
#[verifier::ext_equal]
pub ghost struct Machine {
    pub cpu: CpuView,
    pub bus: BusView,
}

/// Well-formedness of a machine: its spaces are well formed.
pub open spec fn machine_wf(m: Machine) -> bool {
    spaces_wf(m.bus.io, m.bus.ram, m.bus.rom)
}

/// Assembles a machine view from its parts.
pub open spec fn machine_of(cpu: CpuView, io: Seq<u8>, ram: Seq<u8>, rom: Seq<IrSlot>, tim16: u16) -> Machine {
    Machine { cpu, bus: BusView { io, ram, rom, tim16 } }
}

/// The flags byte, held in IO space.
pub open spec fn flags_of(m: Machine) -> u8 {
    m.bus.io[IO_ADDR_FLAGS as int]
}

/// The stack pointer, held in IO space.
pub open spec fn sp_of(m: Machine) -> u8 {
    m.bus.io[IO_ADDR_SP as int]
}

/// The RAM byte at `a`, masked to the RAM width.
pub open spec fn ram_at(m: Machine, a: u8) -> u8 {
    m.bus.ram[(a % 64) as int]
}

/// The IO byte at `a`, masked to the IO width.
pub open spec fn io_at(m: Machine, a: u8) -> u8 {
    m.bus.io[(a % 32) as int]
}

/// What an IO read at `a` returns: the cell itself, except that a port-A
/// read returns the sampled byte `pa`.
pub open spec fn io_read_result(m: Machine, a: u8, pa: u8) -> u8 {
    if a % 32 == IO_ADDR_PA {
        pa
    } else {
        io_at(m, a)
    }
}

/// The machine after an IO read at `a`: a port-A read records the sampled
/// byte in the port-A cell, every other read changes nothing.
pub open spec fn io_read_state(m: Machine, a: u8, pa: u8) -> Machine {
    if a % 32 == IO_ADDR_PA {
        Machine {
            cpu: m.cpu,
            bus: BusView { io: m.bus.io.update((a % 32) as int, pa), ..m.bus },
        }
    } else {
        m
    }
}

/// The binary ALU operations the dispatcher applies.
#[derive(Clone, Copy, Debug, PartialEq, Eq, Structural)]
pub enum AluBinaryOp {
    Add,
    Sub,
    Addc,
    Subc,
    And,
    Or,
    Xor,
    Mov,
}

/// The unary ALU operations the dispatcher applies.
#[derive(Clone, Copy, Debug, PartialEq, Eq, Structural)]
pub enum AluUnaryOp {
    Not,
    Neg,
    Sr,
    Sl,
    Src,
    Slc,
}

/// The result and flags of one binary ALU operation.
pub open spec fn spec_binary_op(op: AluBinaryOp, a: u8, v: u8, f: u8) -> (u8, u8) {
    match op {
        AluBinaryOp::Add => ops::spec_add(a, v, f),
        AluBinaryOp::Sub => ops::spec_sub(a, v, f),
        AluBinaryOp::Addc => ops::spec_addc(a, v, f),
        AluBinaryOp::Subc => ops::spec_subc(a, v, f),
        AluBinaryOp::And => ops::spec_and(a, v, f),
        AluBinaryOp::Or => ops::spec_or(a, v, f),
        AluBinaryOp::Xor => ops::spec_xor(a, v, f),
        AluBinaryOp::Mov => ops::spec_mov(a, v, f),
    }
}

/// The result and flags of one unary ALU operation.
pub open spec fn spec_unary_op(op: AluUnaryOp, a: u8, f: u8) -> (u8, u8) {
    match op {
        AluUnaryOp::Not => ops::spec_not(a, f),
        AluUnaryOp::Neg => ops::spec_neg(a, f),
        AluUnaryOp::Sr => ops::spec_sr(a, f),
        AluUnaryOp::Sl => ops::spec_sl(a, f),
        AluUnaryOp::Src => ops::spec_src(a, f),
        AluUnaryOp::Slc => ops::spec_slc(a, f),
    }
}

/// Sets the skip latch.
pub open spec fn s_skip(m: Machine) -> Machine {
    Machine { cpu: CpuView { skip: true, ..m.cpu }, bus: m.bus }
}

/// Applies a binary ALU operation to the accumulator and writes the flags.
pub open spec fn s_alu_acc_bin(m: Machine, op: AluBinaryOp, operand: u8) -> Machine {
    let rf = spec_binary_op(op, m.cpu.acc, operand, flags_of(m));
    Machine {
        cpu: CpuView { acc: rf.0, ..m.cpu },
        bus: BusView { io: m.bus.io.update(IO_ADDR_FLAGS as int, rf.1), ..m.bus },
    }
}

/// Applies a binary ALU operation to the RAM byte at `a` and writes the flags.
pub open spec fn s_alu_mem_bin(m: Machine, op: AluBinaryOp, a: u8, operand: u8) -> Machine {
    let rf = spec_binary_op(op, ram_at(m, a), operand, flags_of(m));
    Machine {
        cpu: m.cpu,
        bus: BusView {
            ram: m.bus.ram.update((a % 64) as int, rf.0),
            io: m.bus.io.update(IO_ADDR_FLAGS as int, rf.1),
            ..m.bus
        },
    }
}

/// Applies a unary ALU operation to the accumulator and writes the flags.
pub open spec fn s_alu_acc_un(m: Machine, op: AluUnaryOp) -> Machine {
    let rf = spec_unary_op(op, m.cpu.acc, flags_of(m));
    Machine {
        cpu: CpuView { acc: rf.0, ..m.cpu },
        bus: BusView { io: m.bus.io.update(IO_ADDR_FLAGS as int, rf.1), ..m.bus },
    }
}

/// Applies a unary ALU operation to the RAM byte at `a` and writes the flags.
pub open spec fn s_alu_mem_un(m: Machine, op: AluUnaryOp, a: u8) -> Machine {
    let rf = spec_unary_op(op, ram_at(m, a), flags_of(m));
    Machine {
        cpu: m.cpu,
        bus: BusView {
            ram: m.bus.ram.update((a % 64) as int, rf.0),
            io: m.bus.io.update(IO_ADDR_FLAGS as int, rf.1),
            ..m.bus
        },
    }
}

/// Pops the return address: the program counter is loaded little-endian from
/// below the stack pointer, the stack pointer shrinks by two, and the skip
/// latch is set for the branch stall.
pub open spec fn s_ret(m: Machine) -> Machine {
    let sp = sp_of(m);
    let lo = m.bus.ram[((sp + 254) % 64) as int];
    let hi = m.bus.ram[((sp + 255) % 64) as int];
    Machine {
        cpu: CpuView { pc: (lo + hi * 256) as u16, skip: true, ..m.cpu },
        bus: BusView {
            io: m.bus.io.update(IO_ADDR_SP as int, ((sp + 254) % 256) as u8),
            ..m.bus
        },
    }
}

/// One dispatch step: the machine after the opcode's own effect, before the
/// program-counter increment, together with that increment (0 for jumps, 2
/// when the next word is skipped, 1 otherwise).
pub open spec fn spec_dispatch(m: Machine, ir: IrSlot, pa: u8, t16: u16, rio: Seq<u8>) -> (
    Machine,
    u16,
) {
    let a = ir.operand8;
    let n = ir.operand3;
    let k = ir.operand8;
    let flags = flags_of(m);
    let acc = m.cpu.acc;
    match ir.opcode {
        IrOpcode::Nop => (m, 1),
        IrOpcode::Ldsptl => {
            let addr = spec_ram_word(m.bus.ram, sp_of(m));
            let w = m.bus.rom[(addr % 1024) as int].word;
            (Machine { cpu: CpuView { acc: (w % 256) as u8, ..m.cpu }, bus: m.bus }, 1)
        },
        IrOpcode::Ldspth => {
            let addr = spec_ram_word(m.bus.ram, sp_of(m));
            let w = m.bus.rom[(addr % 1024) as int].word;
            (Machine { cpu: CpuView { acc: (w / 256) as u8, ..m.cpu }, bus: m.bus }, 1)
        },
        IrOpcode::Addca => (s_alu_acc_bin(m, AluBinaryOp::Addc, 0), 1),
        IrOpcode::Subca => (s_alu_acc_bin(m, AluBinaryOp::Subc, 0), 1),
        IrOpcode::Izsna => {
            let rf = ops::spec_add(acc, 1, flags);
            let m1 = Machine {
                cpu: CpuView { acc: rf.0, ..m.cpu },
                bus: BusView { io: m.bus.io.update(IO_ADDR_FLAGS as int, rf.1), ..m.bus },
            };
            if rf.1 & FLAG_ZERO_MASK != 0 {
                (s_skip(m1), 2)
            } else {
                (m1, 1)
            }
        },
        IrOpcode::Dzsna => {
            let rf = ops::spec_sub(acc, 1, flags);
            let m1 = Machine {
                cpu: CpuView { acc: rf.0, ..m.cpu },
                bus: BusView { io: m.bus.io.update(IO_ADDR_FLAGS as int, rf.1), ..m.bus },
            };
            if rf.1 & FLAG_ZERO_MASK != 0 {
                (s_skip(m1), 2)
            } else {
                (m1, 1)
            }
        },
        IrOpcode::Pcadda => (
            Machine {
                cpu: CpuView { pc: ((m.cpu.pc + acc) % 65536) as u16, skip: true, ..m.cpu },
                bus: m.bus,
            },
            0,
        ),
        IrOpcode::Nota => (s_alu_acc_un(m, AluUnaryOp::Not), 1),
        IrOpcode::Nega => (s_alu_acc_un(m, AluUnaryOp::Neg), 1),
        IrOpcode::Sra => (s_alu_acc_un(m, AluUnaryOp::Sr), 1),
        IrOpcode::Sla => (s_alu_acc_un(m, AluUnaryOp::Sl), 1),
        IrOpcode::Srca => (s_alu_acc_un(m, AluUnaryOp::Src), 1),
        IrOpcode::Slca => (s_alu_acc_un(m, AluUnaryOp::Slc), 1),
        IrOpcode::Swapa => (
            Machine {
                cpu: CpuView { acc: ((acc & 0xF0) >> 4) | ((acc & 0x0F) << 4), ..m.cpu },
                bus: m.bus,
            },
            1,
        ),
        IrOpcode::Wdreset => (m, 1),
        IrOpcode::Pushaf => {
            let sp = sp_of(m);
            (
                Machine {
                    cpu: m.cpu,
                    bus: BusView {
                        ram: m.bus.ram.update((sp % 64) as int, acc).update(
                            (((sp + 1) % 256) % 64) as int,
                            flags,
                        ),
                        io: m.bus.io.update(IO_ADDR_SP as int, ((sp + 2) % 256) as u8),
                        ..m.bus
                    },
                },
                1,
            )
        },
        IrOpcode::Popaf => {
            let sp = sp_of(m);
            let f = m.bus.ram[((sp + 255) % 64) as int];
            let a2 = m.bus.ram[((sp + 254) % 64) as int];
            (
                Machine {
                    cpu: CpuView { acc: a2, ..m.cpu },
                    bus: BusView {
                        io: m.bus.io.update(IO_ADDR_FLAGS as int, f).update(
                            IO_ADDR_SP as int,
                            ((sp + 254) % 256) as u8,
                        ),
                        ..m.bus
                    },
                },
                1,
            )
        },
        IrOpcode::Reset => (
            Machine {
                cpu: CpuView { acc: 0, pc: 0, gie: false, skip: false },
                bus: BusView { io: rio, ..m.bus },
            },
            0,
        ),
        IrOpcode::Stopsys => (m, 1),
        IrOpcode::Stopexe => (m, 1),
        IrOpcode::Engint => (Machine { cpu: CpuView { gie: true, ..m.cpu }, bus: m.bus }, 1),
        IrOpcode::Disgint => (Machine { cpu: CpuView { gie: false, ..m.cpu }, bus: m.bus }, 1),
        IrOpcode::Ret => (s_ret(m), 0),
        IrOpcode::Reti => {
            let m1 = s_ret(m);
            (Machine { cpu: CpuView { gie: true, ..m1.cpu }, bus: m1.bus }, 0)
        },
        IrOpcode::Mul => (m, 1),
        IrOpcode::Xorioa => {
            let v = io_read_result(m, a, pa);
            let m1 = io_read_state(m, a, pa);
            (
                Machine {
                    cpu: m1.cpu,
                    bus: BusView {
                        io: m1.bus.io.update((a % 32) as int, v ^ acc),
                        ..m1.bus
                    },
                },
                1,
            )
        },
        IrOpcode::Movioa => (
            Machine {
                cpu: m.cpu,
                bus: BusView { io: m.bus.io.update((a % 32) as int, acc), ..m.bus },
            },
            1,
        ),
        IrOpcode::Movaio => {
            let v = io_read_result(m, a, pa);
            let m1 = io_read_state(m, a, pa);
            let rf = ops::spec_mov(acc, v, flags);
            (
                Machine {
                    cpu: CpuView { acc: rf.0, ..m1.cpu },
                    bus: BusView {
                        io: m1.bus.io.update(IO_ADDR_FLAGS as int, rf.1),
                        ..m1.bus
                    },
                },
                1,
            )
        },
        IrOpcode::Stt16 => (
            Machine { cpu: m.cpu, bus: BusView { tim16: t16, ..m.bus } },
            1,
        ),
        IrOpcode::Ldt16 => (
            Machine {
                cpu: m.cpu,
                bus: BusView { ram: spec_ram_word_write(m.bus.ram, a, m.bus.tim16), ..m.bus },
            },
            1,
        ),
        IrOpcode::Idxmma => {
            let ptr = spec_ram_word(m.bus.ram, a);
            (
                Machine {
                    cpu: CpuView { skip: true, ..m.cpu },
                    bus: BusView {
                        ram: m.bus.ram.update((ptr % 64) as int, acc),
                        ..m.bus
                    },
                },
                1,
            )
        },
        IrOpcode::Idxmam => {
            let ptr = spec_ram_word(m.bus.ram, a);
            (
                Machine {
                    cpu: CpuView { acc: m.bus.ram[(ptr % 64) as int], skip: true, ..m.cpu },
                    bus: m.bus,
                },
                1,
            )
        },
        IrOpcode::Retk => (
            s_ret(Machine { cpu: CpuView { acc: k, ..m.cpu }, bus: m.bus }),
            0,
        ),
        IrOpcode::T0snm => {
            if ram_at(m, a) & (1u8 << n) == 0 {
                (s_skip(m), 2)
            } else {
                (m, 1)
            }
        },
        IrOpcode::T1snm => {
            if ram_at(m, a) & (1u8 << n) != 0 {
                (s_skip(m), 2)
            } else {
                (m, 1)
            }
        },
        IrOpcode::Set0m => (
            Machine {
                cpu: m.cpu,
                bus: BusView {
                    ram: m.bus.ram.update((a % 64) as int, ram_at(m, a) & !(1u8 << n)),
                    ..m.bus
                },
            },
            1,
        ),
        IrOpcode::Set1m => (
            Machine {
                cpu: m.cpu,
                bus: BusView {
                    ram: m.bus.ram.update((a % 64) as int, ram_at(m, a) | (1u8 << n)),
                    ..m.bus
                },
            },
            1,
        ),
        IrOpcode::Addma => (s_alu_mem_bin(m, AluBinaryOp::Add, a, acc), 1),
        IrOpcode::Subma => (s_alu_mem_bin(m, AluBinaryOp::Sub, a, acc), 1),
        IrOpcode::Addcma => (s_alu_mem_bin(m, AluBinaryOp::Addc, a, acc), 1),
        IrOpcode::Subcma => (s_alu_mem_bin(m, AluBinaryOp::Subc, a, acc), 1),
        IrOpcode::Andma => (s_alu_mem_bin(m, AluBinaryOp::And, a, acc), 1),
        IrOpcode::Orma => (s_alu_mem_bin(m, AluBinaryOp::Or, a, acc), 1),
        IrOpcode::Xorma => (s_alu_mem_bin(m, AluBinaryOp::Xor, a, acc), 1),
        IrOpcode::Movma => (
            Machine {
                cpu: m.cpu,
                bus: BusView { ram: m.bus.ram.update((a % 64) as int, acc), ..m.bus },
            },
            1,
        ),
        IrOpcode::Addam => (s_alu_acc_bin(m, AluBinaryOp::Add, ram_at(m, a)), 1),
        IrOpcode::Subam => (s_alu_acc_bin(m, AluBinaryOp::Sub, ram_at(m, a)), 1),
        IrOpcode::Addcam => (s_alu_acc_bin(m, AluBinaryOp::Addc, ram_at(m, a)), 1),
        IrOpcode::Subcam => (s_alu_acc_bin(m, AluBinaryOp::Subc, ram_at(m, a)), 1),
        IrOpcode::Andam => (s_alu_acc_bin(m, AluBinaryOp::And, ram_at(m, a)), 1),
        IrOpcode::Oram => (s_alu_acc_bin(m, AluBinaryOp::Or, ram_at(m, a)), 1),
        IrOpcode::Xoram => (s_alu_acc_bin(m, AluBinaryOp::Xor, ram_at(m, a)), 1),
        IrOpcode::Movam => (s_alu_acc_bin(m, AluBinaryOp::Mov, ram_at(m, a)), 1),
        IrOpcode::Addcm => (s_alu_mem_bin(m, AluBinaryOp::Addc, a, 0), 1),
        IrOpcode::Subcm => (s_alu_mem_bin(m, AluBinaryOp::Subc, a, 0), 1),
        IrOpcode::Izsnm => {
            let rf = ops::spec_add(ram_at(m, a), 1, flags);
            let m1 = Machine {
                cpu: m.cpu,
                bus: BusView {
                    ram: m.bus.ram.update((a % 64) as int, rf.0),
                    io: m.bus.io.update(IO_ADDR_FLAGS as int, rf.1),
                    ..m.bus
                },
            };
            if rf.1 & FLAG_ZERO_MASK != 0 {
                (s_skip(m1), 2)
            } else {
                (m1, 1)
            }
        },
        IrOpcode::Dzsnm => {
            let rf = ops::spec_sub(ram_at(m, a), 1, flags);
            let m1 = Machine {
                cpu: m.cpu,
                bus: BusView {
                    ram: m.bus.ram.update((a % 64) as int, rf.0),
                    io: m.bus.io.update(IO_ADDR_FLAGS as int, rf.1),
                    ..m.bus
                },
            };
            if rf.1 & FLAG_ZERO_MASK != 0 {
                (s_skip(m1), 2)
            } else {
                (m1, 1)
            }
        },
        IrOpcode::Incm => (s_alu_mem_bin(m, AluBinaryOp::Add, a, 1), 1),
        IrOpcode::Decm => (s_alu_mem_bin(m, AluBinaryOp::Sub, a, 1), 1),
        IrOpcode::Clearm => (
            Machine {
                cpu: m.cpu,
                bus: BusView { ram: m.bus.ram.update((a % 64) as int, 0), ..m.bus },
            },
            1,
        ),
        IrOpcode::Xchm => (
            Machine {
                cpu: CpuView { acc: ram_at(m, a), ..m.cpu },
                bus: BusView { ram: m.bus.ram.update((a % 64) as int, acc), ..m.bus },
            },
            1,
        ),
        IrOpcode::Notm => (s_alu_mem_un(m, AluUnaryOp::Not, a), 1),
        IrOpcode::Negm => (s_alu_mem_un(m, AluUnaryOp::Neg, a), 1),
        IrOpcode::Srm => (s_alu_mem_un(m, AluUnaryOp::Sr, a), 1),
        IrOpcode::Slm => (s_alu_mem_un(m, AluUnaryOp::Sl, a), 1),
        IrOpcode::Srcm => (s_alu_mem_un(m, AluUnaryOp::Src, a), 1),
        IrOpcode::Slcm => (s_alu_mem_un(m, AluUnaryOp::Slc, a), 1),
        IrOpcode::Ceqsnam => {
            let rf = ops::spec_sub(acc, ram_at(m, a), flags);
            let m1 = Machine {
                cpu: m.cpu,
                bus: BusView { io: m.bus.io.update(IO_ADDR_FLAGS as int, rf.1), ..m.bus },
            };
            if rf.1 & FLAG_ZERO_MASK != 0 {
                (s_skip(m1), 2)
            } else {
                (m1, 1)
            }
        },
        IrOpcode::T0snio => {
            let v = io_read_result(m, a, pa);
            let m1 = io_read_state(m, a, pa);
            if v & (1u8 << n) == 0 {
                (s_skip(m1), 2)
            } else {
                (m1, 1)
            }
        },
        IrOpcode::T1snio => {
            let v = io_read_result(m, a, pa);
            let m1 = io_read_state(m, a, pa);
            if v & (1u8 << n) != 0 {
                (s_skip(m1), 2)
            } else {
                (m1, 1)
            }
        },
        IrOpcode::Set0io => {
            let v = io_read_result(m, a, pa);
            let m1 = io_read_state(m, a, pa);
            (
                Machine {
                    cpu: m1.cpu,
                    bus: BusView {
                        io: m1.bus.io.update((a % 32) as int, v & !(1u8 << n)),
                        ..m1.bus
                    },
                },
                1,
            )
        },
        IrOpcode::Set1io => {
            let v = io_read_result(m, a, pa);
            let m1 = io_read_state(m, a, pa);
            (
                Machine {
                    cpu: m1.cpu,
                    bus: BusView {
                        io: m1.bus.io.update((a % 32) as int, v | (1u8 << n)),
                        ..m1.bus
                    },
                },
                1,
            )
        },
        IrOpcode::Addak => (s_alu_acc_bin(m, AluBinaryOp::Add, k), 1),
        IrOpcode::Subak => (s_alu_acc_bin(m, AluBinaryOp::Sub, k), 1),
        IrOpcode::Ceqsnak => {
            let rf = ops::spec_sub(acc, k, flags);
            let m1 = Machine {
                cpu: m.cpu,
                bus: BusView { io: m.bus.io.update(IO_ADDR_FLAGS as int, rf.1), ..m.bus },
            };
            if rf.1 & FLAG_ZERO_MASK != 0 {
                (s_skip(m1), 2)
            } else {
                (m1, 1)
            }
        },
        IrOpcode::Andak => (s_alu_acc_bin(m, AluBinaryOp::And, k), 1),
        IrOpcode::Orak => (s_alu_acc_bin(m, AluBinaryOp::Or, k), 1),
        IrOpcode::Xorak => (s_alu_acc_bin(m, AluBinaryOp::Xor, k), 1),
        IrOpcode::Movak => (Machine { cpu: CpuView { acc: k, ..m.cpu }, bus: m.bus }, 1),
        IrOpcode::Goto => (
            Machine {
                cpu: CpuView { pc: ir.spec_rom_address(), skip: true, ..m.cpu },
                bus: m.bus,
            },
            0,
        ),
        IrOpcode::Call => {
            let sp = sp_of(m);
            (
                Machine {
                    cpu: CpuView { pc: ir.spec_rom_address(), skip: true, ..m.cpu },
                    bus: BusView {
                        ram: spec_ram_word_write(m.bus.ram, sp, ((m.cpu.pc + 1) % 65536) as u16),
                        io: m.bus.io.update(IO_ADDR_SP as int, ((sp + 2) % 256) as u8),
                        ..m.bus
                    },
                },
                0,
            )
        },
    }
}

/// The program counter after a step: jumps (increment 0) leave it where the
/// dispatch put it, every other step advances it with 10-bit wrap.
pub open spec fn spec_next_pc(pc: u16, inc: u16) -> u16 {
    if inc == 0 {
        pc
    } else {
        (((pc % 1024) + inc) % 1024) as u16
    }
}

/// One execute step: fetch the slot the program counter points at, apply its
/// dispatch effect, then advance the program counter.
pub open spec fn spec_execute(m: Machine, pa: u8, t16: u16, rio: Seq<u8>) -> Machine {
    let ir = m.bus.rom[(m.cpu.pc % 1024) as int];
    let d = spec_dispatch(m, ir, pa, t16, rio);
    Machine { cpu: CpuView { pc: spec_next_pc(d.0.cpu.pc, d.1), ..d.0.cpu }, bus: d.0.bus }
}

/// One step of the core: a machine whose skip latch is set consumes the
/// stall cycle and merely returns to the execute state; otherwise the slot
/// under the program counter is executed.
pub open spec fn spec_step(m: Machine, pa: u8, t16: u16, rio: Seq<u8>) -> Machine {
    if m.cpu.skip {
        Machine { cpu: CpuView { skip: false, ..m.cpu }, bus: m.bus }
    } else {
        spec_execute(m, pa, t16, rio)
    }
}

impl PdkCore {
    /// The registers as a specification view.
    pub open spec fn core_view(&self) -> CpuView {
        CpuView {
            acc: self.acc,
            pc: self.pc,
            gie: self.global_interrupts,
            skip: self.state is Skip,
        }
    }

    /// A core with zeroed registers in the execute state.
    pub fn new() -> (r: Self)
        ensures
            r.acc == 0,
            r.pc == 0,
            !r.global_interrupts,
            r.state is Execute,
    {
        PdkCore { acc: 0, pc: 0, state: PdkCoreState::Execute, global_interrupts: false }
    }

    /// Zeroes the accumulator, the program counter and the interrupt latch;
    /// the skip latch is left alone.
    pub fn reset(&mut self)
        ensures
            final(self).acc == 0,
            final(self).pc == 0,
            !final(self).global_interrupts,
            final(self).state == old(self).state,
    {
        self.pc = 0;
        self.acc = 0;
        self.global_interrupts = false;
    }

    /// The accumulator.
    pub fn acc(&self) -> (r: u8)
        ensures
            r == self.acc,
    {
        self.acc
    }

    /// The program counter.
    pub fn pc(&self) -> (r: u16)
        ensures
            r == self.pc,
    {
        self.pc
    }

    /// The global-interrupts latch.
    pub fn global_interrupts_enabled(&self) -> (r: bool)
        ensures
            r == self.global_interrupts,
    {
        self.global_interrupts
    }

    /// Performs one step against the given bus and reports, as a ghost
    /// witness, the three values the bus sampled: the byte a port-A read
    /// returned, the timer word after a timer write, and the IO space after
    /// a bus reset. The machine made of the core and the bus moves exactly
    /// to `spec_step` of the old machine under those samples; in particular
    /// ROM never changes.
    pub fn step<B: Bus>(&mut self, bus: &mut B) -> (samples: Ghost<(u8, u16, Seq<u8>)>)
        requires
            spaces_wf(old(bus).io_view(), old(bus).ram_view(), old(bus).rom_view()),
        ensures
            spaces_wf(final(bus).io_view(), final(bus).ram_view(), final(bus).rom_view()),
            final(bus).rom_view() == old(bus).rom_view(),
            ({
                let m0 = (Machine {
                    cpu: old(self).core_view(),
                    bus: BusView {
                        io: old(bus).io_view(),
                        ram: old(bus).ram_view(),
                        rom: old(bus).rom_view(),
                        tim16: old(bus).tim16_view(),
                    },
                });
                let m1 = (Machine {
                    cpu: final(self).core_view(),
                    bus: BusView {
                        io: final(bus).io_view(),
                        ram: final(bus).ram_view(),
                        rom: final(bus).rom_view(),
                        tim16: final(bus).tim16_view(),
                    },
                });
                m1 == spec_step(m0, samples@.0, samples@.1, samples@.2)
            }),
    {
        match self.state {
            PdkCoreState::Execute => self.execute(bus),
            PdkCoreState::Skip => {
                self.state = PdkCoreState::Execute;
                Ghost((0u8, 0u16, Seq::empty()))
            },
        }
    }

    /// Applies a binary ALU operation to the accumulator against the
    /// snapshot flags, storing the result and writing the new flags.
    fn alu_acc_binary<B: Bus>(&mut self, op: AluBinaryOp, operand: u8, prev_flags: u8, bus: &mut B)
        requires
            spaces_wf(old(bus).io_view(), old(bus).ram_view(), old(bus).rom_view()),
        ensures
            spaces_wf(final(bus).io_view(), final(bus).ram_view(), final(bus).rom_view()),
            final(self).acc == spec_binary_op(op, old(self).acc, operand, prev_flags).0,
            final(self).pc == old(self).pc,
            final(self).state == old(self).state,
            final(self).global_interrupts == old(self).global_interrupts,
            final(bus).io_view() == old(bus).io_view().update(
                IO_ADDR_FLAGS as int,
                spec_binary_op(op, old(self).acc, operand, prev_flags).1,
            ),
            final(bus).ram_view() == old(bus).ram_view(),
            final(bus).rom_view() == old(bus).rom_view(),
            final(bus).tim16_view() == old(bus).tim16_view(),
    {
        let rf = binary_op(op, self.acc, operand, prev_flags);
        self.acc = rf.0;
        bus.write_io(IO_ADDR_FLAGS, rf.1);
    }

    /// Applies a binary ALU operation to the RAM byte at `addr` against the
    /// snapshot flags, storing the result and writing the new flags.
    fn alu_mem_binary<B: Bus>(&mut self, op: AluBinaryOp, addr: u8, operand: u8, prev_flags: u8, bus: &mut B)
        requires
            spaces_wf(old(bus).io_view(), old(bus).ram_view(), old(bus).rom_view()),
        ensures
            spaces_wf(final(bus).io_view(), final(bus).ram_view(), final(bus).rom_view()),
            *final(self) == *old(self),
            final(bus).ram_view() == old(bus).ram_view().update(
                (addr % 64) as int,
                spec_binary_op(op, old(bus).ram_view()[(addr % 64) as int], operand, prev_flags).0,
            ),
            final(bus).io_view() == old(bus).io_view().update(
                IO_ADDR_FLAGS as int,
                spec_binary_op(op, old(bus).ram_view()[(addr % 64) as int], operand, prev_flags).1,
            ),
            final(bus).rom_view() == old(bus).rom_view(),
            final(bus).tim16_view() == old(bus).tim16_view(),
    {
        let v = bus.read_ram(addr);
        let rf = binary_op(op, v, operand, prev_flags);
        bus.write_ram(addr, rf.0);
        bus.write_io(IO_ADDR_FLAGS, rf.1);
    }

    /// Applies a unary ALU operation to the accumulator against the snapshot
    /// flags, storing the result and writing the new flags.
    fn alu_acc_unary<B: Bus>(&mut self, op: AluUnaryOp, prev_flags: u8, bus: &mut B)
        requires
            spaces_wf(old(bus).io_view(), old(bus).ram_view(), old(bus).rom_view()),
        ensures
            spaces_wf(final(bus).io_view(), final(bus).ram_view(), final(bus).rom_view()),
            final(self).acc == spec_unary_op(op, old(self).acc, prev_flags).0,
            final(self).pc == old(self).pc,
            final(self).state == old(self).state,
            final(self).global_interrupts == old(self).global_interrupts,
            final(bus).io_view() == old(bus).io_view().update(
                IO_ADDR_FLAGS as int,
                spec_unary_op(op, old(self).acc, prev_flags).1,
            ),
            final(bus).ram_view() == old(bus).ram_view(),
            final(bus).rom_view() == old(bus).rom_view(),
            final(bus).tim16_view() == old(bus).tim16_view(),
    {
        let rf = unary_op(op, self.acc, prev_flags);
        self.acc = rf.0;
        bus.write_io(IO_ADDR_FLAGS, rf.1);
    }

    /// Applies a unary ALU operation to the RAM byte at `addr` against the
    /// snapshot flags, storing the result and writing the new flags.
    fn alu_mem_unary<B: Bus>(&mut self, op: AluUnaryOp, addr: u8, prev_flags: u8, bus: &mut B)
        requires
            spaces_wf(old(bus).io_view(), old(bus).ram_view(), old(bus).rom_view()),
        ensures
            spaces_wf(final(bus).io_view(), final(bus).ram_view(), final(bus).rom_view()),
            *final(self) == *old(self),
            final(bus).ram_view() == old(bus).ram_view().update(
                (addr % 64) as int,
                spec_unary_op(op, old(bus).ram_view()[(addr % 64) as int], prev_flags).0,
            ),
            final(bus).io_view() == old(bus).io_view().update(
                IO_ADDR_FLAGS as int,
                spec_unary_op(op, old(bus).ram_view()[(addr % 64) as int], prev_flags).1,
            ),
            final(bus).rom_view() == old(bus).rom_view(),
            final(bus).tim16_view() == old(bus).tim16_view(),
    {
        let v = bus.read_ram(addr);
        let rf = unary_op(op, v, prev_flags);
        bus.write_ram(addr, rf.0);
        bus.write_io(IO_ADDR_FLAGS, rf.1);
    }

    /// Pops the return address off the stack into the program counter.
    fn ret<B: Bus>(&mut self, bus: &mut B)
        requires
            spaces_wf(old(bus).io_view(), old(bus).ram_view(), old(bus).rom_view()),
        ensures
            spaces_wf(final(bus).io_view(), final(bus).ram_view(), final(bus).rom_view()),
            ({
                let sp = old(bus).io_view()[IO_ADDR_SP as int];
                let lo = old(bus).ram_view()[((sp + 254) % 64) as int];
                let hi = old(bus).ram_view()[((sp + 255) % 64) as int];
                &&& final(self).pc == (lo + hi * 256) as u16
                &&& final(bus).io_view() == old(bus).io_view().update(
                    IO_ADDR_SP as int,
                    ((sp + 254) % 256) as u8,
                )
            }),
            final(self).acc == old(self).acc,
            final(self).state == old(self).state,
            final(self).global_interrupts == old(self).global_interrupts,
            final(bus).ram_view() == old(bus).ram_view(),
            final(bus).rom_view() == old(bus).rom_view(),
            final(bus).tim16_view() == old(bus).tim16_view(),
    {
        let sp = bus.read_io(IO_ADDR_SP);
        let sp1: u8 = ((sp as u16 + 255) % 256) as u8;
        let sp2: u8 = ((sp as u16 + 254) % 256) as u8;
        let hi = bus.read_ram(sp1);
        let lo = bus.read_ram(sp2);
        bus.write_io(IO_ADDR_SP, sp2);
        self.pc = lo as u16 + (hi as u16) * 256;
        proof {
            assert((sp + 255) % 256 % 64 == (sp + 255) % 64);
            assert((sp + 254) % 256 % 64 == (sp + 254) % 64);
        }
    }

    /// Fetches the decoded slot under the program counter and executes it.
    fn execute<B: Bus>(&mut self, bus: &mut B) -> (samples: Ghost<(u8, u16, Seq<u8>)>)
        requires
            spaces_wf(old(bus).io_view(), old(bus).ram_view(), old(bus).rom_view()),
            old(self).state is Execute,
        ensures
            spaces_wf(final(bus).io_view(), final(bus).ram_view(), final(bus).rom_view()),
            final(bus).rom_view() == old(bus).rom_view(),
            machine_of(
                final(self).core_view(),
                final(bus).io_view(),
                final(bus).ram_view(),
                final(bus).rom_view(),
                final(bus).tim16_view(),
            ) == spec_execute(
                machine_of(
                    old(self).core_view(),
                    old(bus).io_view(),
                    old(bus).ram_view(),
                    old(bus).rom_view(),
                    old(bus).tim16_view(),
                ),
                samples@.0,
                samples@.1,
                samples@.2,
            ),
    {
        let prev_flags = bus.read_io(IO_ADDR_FLAGS);
        let ir = bus.read_rom(self.pc);
        match ir.ir_opcode() {
            IrOpcode::Nop
            | IrOpcode::Mul
            | IrOpcode::Wdreset
            | IrOpcode::Stopsys
            | IrOpcode::Stopexe
            | IrOpcode::Engint
            | IrOpcode::Disgint
            | IrOpcode::Swapa
            | IrOpcode::Movak
            | IrOpcode::Pcadda
            | IrOpcode::Goto => self.exec_simple(ir, bus),
            IrOpcode::Addca
            | IrOpcode::Subca
            | IrOpcode::Nota
            | IrOpcode::Nega
            | IrOpcode::Sra
            | IrOpcode::Sla
            | IrOpcode::Srca
            | IrOpcode::Slca
            | IrOpcode::Addak
            | IrOpcode::Subak
            | IrOpcode::Andak
            | IrOpcode::Orak
            | IrOpcode::Xorak => self.exec_alu_acc(ir, prev_flags, bus),
            IrOpcode::Addam
            | IrOpcode::Subam
            | IrOpcode::Addcam
            | IrOpcode::Subcam
            | IrOpcode::Andam
            | IrOpcode::Oram
            | IrOpcode::Xoram
            | IrOpcode::Movam => self.exec_alu_acc_mem(ir, prev_flags, bus),
            IrOpcode::Addma
            | IrOpcode::Subma
            | IrOpcode::Addcma
            | IrOpcode::Subcma
            | IrOpcode::Andma
            | IrOpcode::Orma
            | IrOpcode::Xorma
            | IrOpcode::Movma
            | IrOpcode::Addcm
            | IrOpcode::Subcm
            | IrOpcode::Incm
            | IrOpcode::Decm => self.exec_alu_mem(ir, prev_flags, bus),
            IrOpcode::Clearm
            | IrOpcode::Xchm
            | IrOpcode::Notm
            | IrOpcode::Negm
            | IrOpcode::Srm
            | IrOpcode::Slm
            | IrOpcode::Srcm
            | IrOpcode::Slcm => self.exec_mem_misc(ir, prev_flags, bus),
            IrOpcode::Izsna
            | IrOpcode::Dzsna
            | IrOpcode::Izsnm
            | IrOpcode::Dzsnm
            | IrOpcode::Ceqsnam
            | IrOpcode::Ceqsnak
            | IrOpcode::T0snm
            | IrOpcode::T1snm
            | IrOpcode::Set0m
            | IrOpcode::Set1m => self.exec_bit_and_skip(ir, prev_flags, bus),
            IrOpcode::Xorioa
            | IrOpcode::Movioa
            | IrOpcode::Movaio
            | IrOpcode::T0snio
            | IrOpcode::T1snio
            | IrOpcode::Set0io
            | IrOpcode::Set1io => self.exec_io(ir, prev_flags, bus),
            IrOpcode::Pushaf => self.exec_pushaf(ir, bus),
            IrOpcode::Popaf => self.exec_popaf(ir, bus),
            IrOpcode::Ret | IrOpcode::Reti | IrOpcode::Retk => self.exec_ret_flow(ir, bus),
            IrOpcode::Call | IrOpcode::Reset => self.exec_call_reset(ir, bus),
            IrOpcode::Ldsptl | IrOpcode::Ldspth => self.exec_ldspt(ir, bus),
            IrOpcode::Idxmma => self.exec_idxmma(ir, bus),
            IrOpcode::Idxmam => self.exec_idxmam(ir, bus),
            IrOpcode::Stt16 | IrOpcode::Ldt16 => self.exec_tim16(ir, bus),
        }
    }

    /// Opcodes that touch at most one register or emit a bus signal.
    fn exec_simple<B: Bus>(&mut self, ir: IrSlot, bus: &mut B) -> (samples: Ghost<(u8, u16, Seq<u8>)>)
        requires
            spaces_wf(old(bus).io_view(), old(bus).ram_view(), old(bus).rom_view()),
            old(self).state is Execute,
            ir == old(bus).rom_view()[(old(self).pc % 1024) as int],
            ir.opcode is Nop || ir.opcode is Mul || ir.opcode is Wdreset || ir.opcode is Stopsys || ir.opcode is Stopexe || ir.opcode is Engint || ir.opcode is Disgint || ir.opcode is Swapa || ir.opcode is Movak || ir.opcode is Pcadda || ir.opcode is Goto,
        ensures
            spaces_wf(final(bus).io_view(), final(bus).ram_view(), final(bus).rom_view()),
            final(bus).rom_view() == old(bus).rom_view(),
            machine_of(
                final(self).core_view(),
                final(bus).io_view(),
                final(bus).ram_view(),
                final(bus).rom_view(),
                final(bus).tim16_view(),
            ) == spec_execute(
                machine_of(
                    old(self).core_view(),
                    old(bus).io_view(),
                    old(bus).ram_view(),
                    old(bus).rom_view(),
                    old(bus).tim16_view(),
                ),
                samples@.0,
                samples@.1,
                samples@.2,
            ),
    {
        let mut pc_increment: u16 = 1;
        let mut next_state: PdkCoreState = PdkCoreState::Execute;
        let ghost mut pa: u8 = 0;
        let ghost mut t16: u16 = 0;
        let ghost mut rio: Seq<u8> = Seq::empty();
        match ir.ir_opcode() {
            IrOpcode::Nop => {},
            IrOpcode::Mul => {},
            IrOpcode::Wdreset => bus.wdt_reset(),
            IrOpcode::Stopsys => bus.stop_sys(),
            IrOpcode::Stopexe => bus.stop_exe(),
            IrOpcode::Engint => {
                self.global_interrupts = true;
            },
            IrOpcode::Disgint => {
                self.global_interrupts = false;
            },
            IrOpcode::Swapa => {
                self.acc = ((self.acc & 0xF0) >> 4) | ((self.acc & 0x0F) << 4);
            },
            IrOpcode::Movak => {
                self.acc = ir.immediate();
            },
            IrOpcode::Pcadda => {
                self.pc = ((self.pc as u32 + self.acc as u32) % 65536) as u16;
                pc_increment = 0;
                next_state = PdkCoreState::Skip;
            },
            IrOpcode::Goto => {
                self.pc = ir.rom_address();
                pc_increment = 0;
                next_state = PdkCoreState::Skip;
            },
            _ => {
                proof {
                    assert(false);
                }
            },
        }
        if pc_increment != 0 {
            self.pc = ((self.pc % 1024) + pc_increment) % 1024;
        }
        self.state = next_state;
        Ghost((pa, t16, rio))
    }

    /// ALU opcodes whose destination is the accumulator and whose operand is implicit or immediate.
    fn exec_alu_acc<B: Bus>(&mut self, ir: IrSlot, prev_flags: u8, bus: &mut B) -> (samples: Ghost<(u8, u16, Seq<u8>)>)
        requires
            spaces_wf(old(bus).io_view(), old(bus).ram_view(), old(bus).rom_view()),
            old(self).state is Execute,
            ir == old(bus).rom_view()[(old(self).pc % 1024) as int],
            prev_flags == old(bus).io_view()[IO_ADDR_FLAGS as int],
            ir.opcode is Addca || ir.opcode is Subca || ir.opcode is Nota || ir.opcode is Nega || ir.opcode is Sra || ir.opcode is Sla || ir.opcode is Srca || ir.opcode is Slca || ir.opcode is Addak || ir.opcode is Subak || ir.opcode is Andak || ir.opcode is Orak || ir.opcode is Xorak,
        ensures
            spaces_wf(final(bus).io_view(), final(bus).ram_view(), final(bus).rom_view()),
            final(bus).rom_view() == old(bus).rom_view(),
            machine_of(
                final(self).core_view(),
                final(bus).io_view(),
                final(bus).ram_view(),
                final(bus).rom_view(),
                final(bus).tim16_view(),
            ) == spec_execute(
                machine_of(
                    old(self).core_view(),
                    old(bus).io_view(),
                    old(bus).ram_view(),
                    old(bus).rom_view(),
                    old(bus).tim16_view(),
                ),
                samples@.0,
                samples@.1,
                samples@.2,
            ),
    {
        let mut pc_increment: u16 = 1;
        let mut next_state: PdkCoreState = PdkCoreState::Execute;
        let ghost mut pa: u8 = 0;
        let ghost mut t16: u16 = 0;
        let ghost mut rio: Seq<u8> = Seq::empty();
        match ir.ir_opcode() {
            IrOpcode::Addca => self.alu_acc_binary(AluBinaryOp::Addc, 0, prev_flags, bus),
            IrOpcode::Subca => self.alu_acc_binary(AluBinaryOp::Subc, 0, prev_flags, bus),
            IrOpcode::Nota => self.alu_acc_unary(AluUnaryOp::Not, prev_flags, bus),
            IrOpcode::Nega => self.alu_acc_unary(AluUnaryOp::Neg, prev_flags, bus),
            IrOpcode::Sra => self.alu_acc_unary(AluUnaryOp::Sr, prev_flags, bus),
            IrOpcode::Sla => self.alu_acc_unary(AluUnaryOp::Sl, prev_flags, bus),
            IrOpcode::Srca => self.alu_acc_unary(AluUnaryOp::Src, prev_flags, bus),
            IrOpcode::Slca => self.alu_acc_unary(AluUnaryOp::Slc, prev_flags, bus),
            IrOpcode::Addak => self.alu_acc_binary(AluBinaryOp::Add, ir.immediate(), prev_flags, bus),
            IrOpcode::Subak => self.alu_acc_binary(AluBinaryOp::Sub, ir.immediate(), prev_flags, bus),
            IrOpcode::Andak => self.alu_acc_binary(AluBinaryOp::And, ir.immediate(), prev_flags, bus),
            IrOpcode::Orak => self.alu_acc_binary(AluBinaryOp::Or, ir.immediate(), prev_flags, bus),
            IrOpcode::Xorak => self.alu_acc_binary(AluBinaryOp::Xor, ir.immediate(), prev_flags, bus),
            _ => {
                proof {
                    assert(false);
                }
            },
        }
        if pc_increment != 0 {
            self.pc = ((self.pc % 1024) + pc_increment) % 1024;
        }
        self.state = next_state;
        Ghost((pa, t16, rio))
    }

    /// ALU opcodes whose destination is the accumulator and whose operand comes from RAM.
    fn exec_alu_acc_mem<B: Bus>(&mut self, ir: IrSlot, prev_flags: u8, bus: &mut B) -> (samples: Ghost<(u8, u16, Seq<u8>)>)
        requires
            spaces_wf(old(bus).io_view(), old(bus).ram_view(), old(bus).rom_view()),
            old(self).state is Execute,
            ir == old(bus).rom_view()[(old(self).pc % 1024) as int],
            prev_flags == old(bus).io_view()[IO_ADDR_FLAGS as int],
            ir.opcode is Addam || ir.opcode is Subam || ir.opcode is Addcam || ir.opcode is Subcam || ir.opcode is Andam || ir.opcode is Oram || ir.opcode is Xoram || ir.opcode is Movam,
        ensures
            spaces_wf(final(bus).io_view(), final(bus).ram_view(), final(bus).rom_view()),
            final(bus).rom_view() == old(bus).rom_view(),
            machine_of(
                final(self).core_view(),
                final(bus).io_view(),
                final(bus).ram_view(),
                final(bus).rom_view(),
                final(bus).tim16_view(),
            ) == spec_execute(
                machine_of(
                    old(self).core_view(),
                    old(bus).io_view(),
                    old(bus).ram_view(),
                    old(bus).rom_view(),
                    old(bus).tim16_view(),
                ),
                samples@.0,
                samples@.1,
                samples@.2,
            ),
    {
        let mut pc_increment: u16 = 1;
        let mut next_state: PdkCoreState = PdkCoreState::Execute;
        let ghost mut pa: u8 = 0;
        let ghost mut t16: u16 = 0;
        let ghost mut rio: Seq<u8> = Seq::empty();
        match ir.ir_opcode() {
            IrOpcode::Addam => {
                let v = bus.read_ram(ir.mem_address());
                self.alu_acc_binary(AluBinaryOp::Add, v, prev_flags, bus)
            },
            IrOpcode::Subam => {
                let v = bus.read_ram(ir.mem_address());
                self.alu_acc_binary(AluBinaryOp::Sub, v, prev_flags, bus)
            },
            IrOpcode::Addcam => {
                let v = bus.read_ram(ir.mem_address());
                self.alu_acc_binary(AluBinaryOp::Addc, v, prev_flags, bus)
            },
            IrOpcode::Subcam => {
                let v = bus.read_ram(ir.mem_address());
                self.alu_acc_binary(AluBinaryOp::Subc, v, prev_flags, bus)
            },
            IrOpcode::Andam => {
                let v = bus.read_ram(ir.mem_address());
                self.alu_acc_binary(AluBinaryOp::And, v, prev_flags, bus)
            },
            IrOpcode::Oram => {
                let v = bus.read_ram(ir.mem_address());
                self.alu_acc_binary(AluBinaryOp::Or, v, prev_flags, bus)
            },
            IrOpcode::Xoram => {
                let v = bus.read_ram(ir.mem_address());
                self.alu_acc_binary(AluBinaryOp::Xor, v, prev_flags, bus)
            },
            IrOpcode::Movam => {
                let v = bus.read_ram(ir.mem_address());
                self.alu_acc_binary(AluBinaryOp::Mov, v, prev_flags, bus)
            },
            _ => {
                proof {
                    assert(false);
                }
            },
        }
        if pc_increment != 0 {
            self.pc = ((self.pc % 1024) + pc_increment) % 1024;
        }
        self.state = next_state;
        Ghost((pa, t16, rio))
    }

    /// ALU opcodes whose destination is a RAM byte.
    fn exec_alu_mem<B: Bus>(&mut self, ir: IrSlot, prev_flags: u8, bus: &mut B) -> (samples: Ghost<(u8, u16, Seq<u8>)>)
        requires
            spaces_wf(old(bus).io_view(), old(bus).ram_view(), old(bus).rom_view()),
            old(self).state is Execute,
            ir == old(bus).rom_view()[(old(self).pc % 1024) as int],
            prev_flags == old(bus).io_view()[IO_ADDR_FLAGS as int],
            ir.opcode is Addma || ir.opcode is Subma || ir.opcode is Addcma || ir.opcode is Subcma || ir.opcode is Andma || ir.opcode is Orma || ir.opcode is Xorma || ir.opcode is Movma || ir.opcode is Addcm || ir.opcode is Subcm || ir.opcode is Incm || ir.opcode is Decm,
        ensures
            spaces_wf(final(bus).io_view(), final(bus).ram_view(), final(bus).rom_view()),
            final(bus).rom_view() == old(bus).rom_view(),
            machine_of(
                final(self).core_view(),
                final(bus).io_view(),
                final(bus).ram_view(),
                final(bus).rom_view(),
                final(bus).tim16_view(),
            ) == spec_execute(
                machine_of(
                    old(self).core_view(),
                    old(bus).io_view(),
                    old(bus).ram_view(),
                    old(bus).rom_view(),
                    old(bus).tim16_view(),
                ),
                samples@.0,
                samples@.1,
                samples@.2,
            ),
    {
        let mut pc_increment: u16 = 1;
        let mut next_state: PdkCoreState = PdkCoreState::Execute;
        let ghost mut pa: u8 = 0;
        let ghost mut t16: u16 = 0;
        let ghost mut rio: Seq<u8> = Seq::empty();
        match ir.ir_opcode() {
            IrOpcode::Addma => {
                let acc = self.acc;
                self.alu_mem_binary(AluBinaryOp::Add, ir.mem_address(), acc, prev_flags, bus)
            },
            IrOpcode::Subma => {
                let acc = self.acc;
                self.alu_mem_binary(AluBinaryOp::Sub, ir.mem_address(), acc, prev_flags, bus)
            },
            IrOpcode::Addcma => {
                let acc = self.acc;
                self.alu_mem_binary(AluBinaryOp::Addc, ir.mem_address(), acc, prev_flags, bus)
            },
            IrOpcode::Subcma => {
                let acc = self.acc;
                self.alu_mem_binary(AluBinaryOp::Subc, ir.mem_address(), acc, prev_flags, bus)
            },
            IrOpcode::Andma => {
                let acc = self.acc;
                self.alu_mem_binary(AluBinaryOp::And, ir.mem_address(), acc, prev_flags, bus)
            },
            IrOpcode::Orma => {
                let acc = self.acc;
                self.alu_mem_binary(AluBinaryOp::Or, ir.mem_address(), acc, prev_flags, bus)
            },
            IrOpcode::Xorma => {
                let acc = self.acc;
                self.alu_mem_binary(AluBinaryOp::Xor, ir.mem_address(), acc, prev_flags, bus)
            },
            IrOpcode::Movma => {
                bus.write_ram(ir.mem_address(), self.acc);
            },
            IrOpcode::Addcm => self.alu_mem_binary(AluBinaryOp::Addc, ir.mem_address(), 0, prev_flags, bus),
            IrOpcode::Subcm => self.alu_mem_binary(AluBinaryOp::Subc, ir.mem_address(), 0, prev_flags, bus),
            IrOpcode::Incm => self.alu_mem_binary(AluBinaryOp::Add, ir.mem_address(), 1, prev_flags, bus),
            IrOpcode::Decm => self.alu_mem_binary(AluBinaryOp::Sub, ir.mem_address(), 1, prev_flags, bus),
            _ => {
                proof {
                    assert(false);
                }
            },
        }
        if pc_increment != 0 {
            self.pc = ((self.pc % 1024) + pc_increment) % 1024;
        }
        self.state = next_state;
        Ghost((pa, t16, rio))
    }

    /// Clear, exchange and the unary ALU opcodes on a RAM byte.
    fn exec_mem_misc<B: Bus>(&mut self, ir: IrSlot, prev_flags: u8, bus: &mut B) -> (samples: Ghost<(u8, u16, Seq<u8>)>)
        requires
            spaces_wf(old(bus).io_view(), old(bus).ram_view(), old(bus).rom_view()),
            old(self).state is Execute,
            ir == old(bus).rom_view()[(old(self).pc % 1024) as int],
            prev_flags == old(bus).io_view()[IO_ADDR_FLAGS as int],
            ir.opcode is Clearm || ir.opcode is Xchm || ir.opcode is Notm || ir.opcode is Negm || ir.opcode is Srm || ir.opcode is Slm || ir.opcode is Srcm || ir.opcode is Slcm,
        ensures
            spaces_wf(final(bus).io_view(), final(bus).ram_view(), final(bus).rom_view()),
            final(bus).rom_view() == old(bus).rom_view(),
            machine_of(
                final(self).core_view(),
                final(bus).io_view(),
                final(bus).ram_view(),
                final(bus).rom_view(),
                final(bus).tim16_view(),
            ) == spec_execute(
                machine_of(
                    old(self).core_view(),
                    old(bus).io_view(),
                    old(bus).ram_view(),
                    old(bus).rom_view(),
                    old(bus).tim16_view(),
                ),
                samples@.0,
                samples@.1,
                samples@.2,
            ),
    {
        let mut pc_increment: u16 = 1;
        let mut next_state: PdkCoreState = PdkCoreState::Execute;
        let ghost mut pa: u8 = 0;
        let ghost mut t16: u16 = 0;
        let ghost mut rio: Seq<u8> = Seq::empty();
        match ir.ir_opcode() {
            IrOpcode::Clearm => {
                bus.write_ram(ir.mem_address(), 0);
            },
            IrOpcode::Xchm => {
                let a = ir.mem_address();
                let tmp = self.acc;
                self.acc = bus.read_ram(a);
                bus.write_ram(a, tmp);
            },
            IrOpcode::Notm => self.alu_mem_unary(AluUnaryOp::Not, ir.mem_address(), prev_flags, bus),
            IrOpcode::Negm => self.alu_mem_unary(AluUnaryOp::Neg, ir.mem_address(), prev_flags, bus),
            IrOpcode::Srm => self.alu_mem_unary(AluUnaryOp::Sr, ir.mem_address(), prev_flags, bus),
            IrOpcode::Slm => self.alu_mem_unary(AluUnaryOp::Sl, ir.mem_address(), prev_flags, bus),
            IrOpcode::Srcm => self.alu_mem_unary(AluUnaryOp::Src, ir.mem_address(), prev_flags, bus),
            IrOpcode::Slcm => self.alu_mem_unary(AluUnaryOp::Slc, ir.mem_address(), prev_flags, bus),
            _ => {
                proof {
                    assert(false);
                }
            },
        }
        if pc_increment != 0 {
            self.pc = ((self.pc % 1024) + pc_increment) % 1024;
        }
        self.state = next_state;
        Ghost((pa, t16, rio))
    }

    /// The conditional-skip opcodes and the RAM bit operations.
    fn exec_bit_and_skip<B: Bus>(&mut self, ir: IrSlot, prev_flags: u8, bus: &mut B) -> (samples: Ghost<(u8, u16, Seq<u8>)>)
        requires
            spaces_wf(old(bus).io_view(), old(bus).ram_view(), old(bus).rom_view()),
            old(self).state is Execute,
            ir == old(bus).rom_view()[(old(self).pc % 1024) as int],
            prev_flags == old(bus).io_view()[IO_ADDR_FLAGS as int],
            ir.opcode is Izsna || ir.opcode is Dzsna || ir.opcode is Izsnm || ir.opcode is Dzsnm || ir.opcode is Ceqsnam || ir.opcode is Ceqsnak || ir.opcode is T0snm || ir.opcode is T1snm || ir.opcode is Set0m || ir.opcode is Set1m,
        ensures
            spaces_wf(final(bus).io_view(), final(bus).ram_view(), final(bus).rom_view()),
            final(bus).rom_view() == old(bus).rom_view(),
            machine_of(
                final(self).core_view(),
                final(bus).io_view(),
                final(bus).ram_view(),
                final(bus).rom_view(),
                final(bus).tim16_view(),
            ) == spec_execute(
                machine_of(
                    old(self).core_view(),
                    old(bus).io_view(),
                    old(bus).ram_view(),
                    old(bus).rom_view(),
                    old(bus).tim16_view(),
                ),
                samples@.0,
                samples@.1,
                samples@.2,
            ),
    {
        let mut pc_increment: u16 = 1;
        let mut next_state: PdkCoreState = PdkCoreState::Execute;
        let ghost mut pa: u8 = 0;
        let ghost mut t16: u16 = 0;
        let ghost mut rio: Seq<u8> = Seq::empty();
        match ir.ir_opcode() {
            IrOpcode::Izsna => {
                let rf = ops::add(self.acc, 1, prev_flags);
                if rf.1 & FLAG_ZERO_MASK != 0 {
                    pc_increment = 2;
                    next_state = PdkCoreState::Skip;
                }
                self.acc = rf.0;
                bus.write_io(IO_ADDR_FLAGS, rf.1);
            },
            IrOpcode::Dzsna => {
                let rf = ops::sub(self.acc, 1, prev_flags);
                if rf.1 & FLAG_ZERO_MASK != 0 {
                    pc_increment = 2;
                    next_state = PdkCoreState::Skip;
                }
                self.acc = rf.0;
                bus.write_io(IO_ADDR_FLAGS, rf.1);
            },
            IrOpcode::Izsnm => {
                let a = ir.mem_address();
                let v = bus.read_ram(a);
                let rf = ops::add(v, 1, prev_flags);
                if rf.1 & FLAG_ZERO_MASK != 0 {
                    pc_increment = 2;
                    next_state = PdkCoreState::Skip;
                }
                bus.write_ram(a, rf.0);
                bus.write_io(IO_ADDR_FLAGS, rf.1);
            },
            IrOpcode::Dzsnm => {
                let a = ir.mem_address();
                let v = bus.read_ram(a);
                let rf = ops::sub(v, 1, prev_flags);
                if rf.1 & FLAG_ZERO_MASK != 0 {
                    pc_increment = 2;
                    next_state = PdkCoreState::Skip;
                }
                bus.write_ram(a, rf.0);
                bus.write_io(IO_ADDR_FLAGS, rf.1);
            },
            IrOpcode::Ceqsnam => {
                let v = bus.read_ram(ir.mem_address());
                let rf = ops::sub(self.acc, v, prev_flags);
                bus.write_io(IO_ADDR_FLAGS, rf.1);
                if rf.1 & FLAG_ZERO_MASK != 0 {
                    pc_increment = 2;
                    next_state = PdkCoreState::Skip;
                }
            },
            IrOpcode::Ceqsnak => {
                let k = ir.immediate();
                let rf = ops::sub(self.acc, k, prev_flags);
                bus.write_io(IO_ADDR_FLAGS, rf.1);
                if rf.1 & FLAG_ZERO_MASK != 0 {
                    pc_increment = 2;
                    next_state = PdkCoreState::Skip;
                }
            },
            IrOpcode::T0snm => {
                let v = bus.read_ram(ir.mem_address());
                if v & (1u8 << ir.bit_index()) == 0 {
                    pc_increment = 2;
                    next_state = PdkCoreState::Skip;
                }
            },
            IrOpcode::T1snm => {
                let v = bus.read_ram(ir.mem_address());
                if v & (1u8 << ir.bit_index()) != 0 {
                    pc_increment = 2;
                    next_state = PdkCoreState::Skip;
                }
            },
            IrOpcode::Set0m => {
                let a = ir.mem_address();
                let v = bus.read_ram(a);
                bus.write_ram(a, v & !(1u8 << ir.bit_index()));
            },
            IrOpcode::Set1m => {
                let a = ir.mem_address();
                let v = bus.read_ram(a);
                bus.write_ram(a, v | (1u8 << ir.bit_index()));
            },
            _ => {
                proof {
                    assert(false);
                }
            },
        }
        if pc_increment != 0 {
            self.pc = ((self.pc % 1024) + pc_increment) % 1024;
        }
        self.state = next_state;
        Ghost((pa, t16, rio))
    }

    /// The IO-addressed opcodes; a port-A read samples the environment.
    fn exec_io<B: Bus>(&mut self, ir: IrSlot, prev_flags: u8, bus: &mut B) -> (samples: Ghost<(u8, u16, Seq<u8>)>)
        requires
            spaces_wf(old(bus).io_view(), old(bus).ram_view(), old(bus).rom_view()),
            old(self).state is Execute,
            ir == old(bus).rom_view()[(old(self).pc % 1024) as int],
            prev_flags == old(bus).io_view()[IO_ADDR_FLAGS as int],
            ir.opcode is Xorioa || ir.opcode is Movioa || ir.opcode is Movaio || ir.opcode is T0snio || ir.opcode is T1snio || ir.opcode is Set0io || ir.opcode is Set1io,
        ensures
            spaces_wf(final(bus).io_view(), final(bus).ram_view(), final(bus).rom_view()),
            final(bus).rom_view() == old(bus).rom_view(),
            machine_of(
                final(self).core_view(),
                final(bus).io_view(),
                final(bus).ram_view(),
                final(bus).rom_view(),
                final(bus).tim16_view(),
            ) == spec_execute(
                machine_of(
                    old(self).core_view(),
                    old(bus).io_view(),
                    old(bus).ram_view(),
                    old(bus).rom_view(),
                    old(bus).tim16_view(),
                ),
                samples@.0,
                samples@.1,
                samples@.2,
            ),
    {
        let mut pc_increment: u16 = 1;
        let mut next_state: PdkCoreState = PdkCoreState::Execute;
        let ghost mut pa: u8 = 0;
        let ghost mut t16: u16 = 0;
        let ghost mut rio: Seq<u8> = Seq::empty();
        match ir.ir_opcode() {
            IrOpcode::Xorioa => {
                let a = ir.io_address();
                let v = bus.read_io(a);
                proof {
                    pa = v;
                }
                bus.write_io(a, v ^ self.acc);
            },
            IrOpcode::Movioa => {
                bus.write_io(ir.io_address(), self.acc);
            },
            IrOpcode::Movaio => {
                let a = ir.io_address();
                let v = bus.read_io(a);
                proof {
                    pa = v;
                }
                let rf = ops::mov(self.acc, v, prev_flags);
                self.acc = rf.0;
                bus.write_io(IO_ADDR_FLAGS, rf.1);
            },
            IrOpcode::T0snio => {
                let v = bus.read_io(ir.io_address());
                proof {
                    pa = v;
                }
                if v & (1u8 << ir.bit_index()) == 0 {
                    pc_increment = 2;
                    next_state = PdkCoreState::Skip;
                }
            },
            IrOpcode::T1snio => {
                let v = bus.read_io(ir.io_address());
                proof {
                    pa = v;
                }
                if v & (1u8 << ir.bit_index()) != 0 {
                    pc_increment = 2;
                    next_state = PdkCoreState::Skip;
                }
            },
            IrOpcode::Set0io => {
                let a = ir.io_address();
                let v = bus.read_io(a);
                proof {
                    pa = v;
                }
                bus.write_io(a, v & !(1u8 << ir.bit_index()));
            },
            IrOpcode::Set1io => {
                let a = ir.io_address();
                let v = bus.read_io(a);
                proof {
                    pa = v;
                }
                bus.write_io(a, v | (1u8 << ir.bit_index()));
            },
            _ => {
                proof {
                    assert(false);
                }
            },
        }
        if pc_increment != 0 {
            self.pc = ((self.pc % 1024) + pc_increment) % 1024;
        }
        self.state = next_state;
        Ghost((pa, t16, rio))
    }

    /// The byte-granular stack push of accumulator and flags.
    #[verifier::rlimit(100)]
    #[verifier::spinoff_prover]
    fn exec_pushaf<B: Bus>(&mut self, ir: IrSlot, bus: &mut B) -> (samples: Ghost<(u8, u16, Seq<u8>)>)
        requires
            spaces_wf(old(bus).io_view(), old(bus).ram_view(), old(bus).rom_view()),
            old(self).state is Execute,
            ir == old(bus).rom_view()[(old(self).pc % 1024) as int],
            ir.opcode is Pushaf,
        ensures
            spaces_wf(final(bus).io_view(), final(bus).ram_view(), final(bus).rom_view()),
            final(bus).rom_view() == old(bus).rom_view(),
            machine_of(
                final(self).core_view(),
                final(bus).io_view(),
                final(bus).ram_view(),
                final(bus).rom_view(),
                final(bus).tim16_view(),
            ) == spec_execute(
                machine_of(
                    old(self).core_view(),
                    old(bus).io_view(),
                    old(bus).ram_view(),
                    old(bus).rom_view(),
                    old(bus).tim16_view(),
                ),
                samples@.0,
                samples@.1,
                samples@.2,
            ),
    {
        let mut pc_increment: u16 = 1;
        let mut next_state: PdkCoreState = PdkCoreState::Execute;
        let ghost mut pa: u8 = 0;
        let ghost mut t16: u16 = 0;
        let ghost mut rio: Seq<u8> = Seq::empty();
        match ir.ir_opcode() {
            IrOpcode::Pushaf => {
                let sp = bus.read_io(IO_ADDR_SP);
                let sp1: u8 = ((sp as u16 + 1) % 256) as u8;
                let sp2: u8 = ((sp as u16 + 2) % 256) as u8;
                let flags = bus.read_io(IO_ADDR_FLAGS);
                bus.write_ram(sp, self.acc);
                bus.write_ram(sp1, flags);
                bus.write_io(IO_ADDR_SP, sp2);
                proof {
                    assert((sp + 1) % 256 % 64 == (sp + 1) % 64);
                }
            },
            _ => {
                proof {
                    assert(false);
                }
            },
        }
        if pc_increment != 0 {
            self.pc = ((self.pc % 1024) + pc_increment) % 1024;
        }
        self.state = next_state;
        Ghost((pa, t16, rio))
    }

    /// The byte-granular stack pop of accumulator and flags.
    #[verifier::rlimit(100)]
    #[verifier::spinoff_prover]
    fn exec_popaf<B: Bus>(&mut self, ir: IrSlot, bus: &mut B) -> (samples: Ghost<(u8, u16, Seq<u8>)>)
        requires
            spaces_wf(old(bus).io_view(), old(bus).ram_view(), old(bus).rom_view()),
            old(self).state is Execute,
            ir == old(bus).rom_view()[(old(self).pc % 1024) as int],
            ir.opcode is Popaf,
        ensures
            spaces_wf(final(bus).io_view(), final(bus).ram_view(), final(bus).rom_view()),
            final(bus).rom_view() == old(bus).rom_view(),
            machine_of(
                final(self).core_view(),
                final(bus).io_view(),
                final(bus).ram_view(),
                final(bus).rom_view(),
                final(bus).tim16_view(),
            ) == spec_execute(
                machine_of(
                    old(self).core_view(),
                    old(bus).io_view(),
                    old(bus).ram_view(),
                    old(bus).rom_view(),
                    old(bus).tim16_view(),
                ),
                samples@.0,
                samples@.1,
                samples@.2,
            ),
    {
        let mut pc_increment: u16 = 1;
        let mut next_state: PdkCoreState = PdkCoreState::Execute;
        let ghost mut pa: u8 = 0;
        let ghost mut t16: u16 = 0;
        let ghost mut rio: Seq<u8> = Seq::empty();
        match ir.ir_opcode() {
            IrOpcode::Popaf => {
                let sp = bus.read_io(IO_ADDR_SP);
                let sp1: u8 = ((sp as u16 + 255) % 256) as u8;
                let sp2: u8 = ((sp as u16 + 254) % 256) as u8;
                let f = bus.read_ram(sp1);
                bus.write_io(IO_ADDR_FLAGS, f);
                let a2 = bus.read_ram(sp2);
                self.acc = a2;
                bus.write_io(IO_ADDR_SP, sp2);
                proof {
                    assert((sp + 255) % 256 % 64 == (sp + 255) % 64);
                    assert((sp + 254) % 256 % 64 == (sp + 254) % 64);
                }
            },
            _ => {
                proof {
                    assert(false);
                }
            },
        }
        if pc_increment != 0 {
            self.pc = ((self.pc % 1024) + pc_increment) % 1024;
        }
        self.state = next_state;
        Ghost((pa, t16, rio))
    }

    /// The subroutine returns.
    #[verifier::rlimit(100)]
    #[verifier::spinoff_prover]
    fn exec_ret_flow<B: Bus>(&mut self, ir: IrSlot, bus: &mut B) -> (samples: Ghost<(u8, u16, Seq<u8>)>)
        requires
            spaces_wf(old(bus).io_view(), old(bus).ram_view(), old(bus).rom_view()),
            old(self).state is Execute,
            ir == old(bus).rom_view()[(old(self).pc % 1024) as int],
            ir.opcode is Ret || ir.opcode is Reti || ir.opcode is Retk,
        ensures
            spaces_wf(final(bus).io_view(), final(bus).ram_view(), final(bus).rom_view()),
            final(bus).rom_view() == old(bus).rom_view(),
            machine_of(
                final(self).core_view(),
                final(bus).io_view(),
                final(bus).ram_view(),
                final(bus).rom_view(),
                final(bus).tim16_view(),
            ) == spec_execute(
                machine_of(
                    old(self).core_view(),
                    old(bus).io_view(),
                    old(bus).ram_view(),
                    old(bus).rom_view(),
                    old(bus).tim16_view(),
                ),
                samples@.0,
                samples@.1,
                samples@.2,
            ),
    {
        let mut pc_increment: u16 = 1;
        let mut next_state: PdkCoreState = PdkCoreState::Execute;
        let ghost mut pa: u8 = 0;
        let ghost mut t16: u16 = 0;
        let ghost mut rio: Seq<u8> = Seq::empty();
        match ir.ir_opcode() {
            IrOpcode::Ret => {
                self.ret(bus);
                pc_increment = 0;
                next_state = PdkCoreState::Skip;
            },
            IrOpcode::Reti => {
                self.ret(bus);
                self.global_interrupts = true;
                pc_increment = 0;
                next_state = PdkCoreState::Skip;
            },
            IrOpcode::Retk => {
                self.acc = ir.immediate();
                self.ret(bus);
                pc_increment = 0;
                next_state = PdkCoreState::Skip;
            },
            _ => {
                proof {
                    assert(false);
                }
            },
        }
        if pc_increment != 0 {
            self.pc = ((self.pc % 1024) + pc_increment) % 1024;
        }
        self.state = next_state;
        Ghost((pa, t16, rio))
    }

    /// The subroutine call and the software reset.
    #[verifier::rlimit(100)]
    #[verifier::spinoff_prover]
    fn exec_call_reset<B: Bus>(&mut self, ir: IrSlot, bus: &mut B) -> (samples: Ghost<(u8, u16, Seq<u8>)>)
        requires
            spaces_wf(old(bus).io_view(), old(bus).ram_view(), old(bus).rom_view()),
            old(self).state is Execute,
            ir == old(bus).rom_view()[(old(self).pc % 1024) as int],
            ir.opcode is Call || ir.opcode is Reset,
        ensures
            spaces_wf(final(bus).io_view(), final(bus).ram_view(), final(bus).rom_view()),
            final(bus).rom_view() == old(bus).rom_view(),
            machine_of(
                final(self).core_view(),
                final(bus).io_view(),
                final(bus).ram_view(),
                final(bus).rom_view(),
                final(bus).tim16_view(),
            ) == spec_execute(
                machine_of(
                    old(self).core_view(),
                    old(bus).io_view(),
                    old(bus).ram_view(),
                    old(bus).rom_view(),
                    old(bus).tim16_view(),
                ),
                samples@.0,
                samples@.1,
                samples@.2,
            ),
    {
        let mut pc_increment: u16 = 1;
        let mut next_state: PdkCoreState = PdkCoreState::Execute;
        let ghost mut pa: u8 = 0;
        let ghost mut t16: u16 = 0;
        let ghost mut rio: Seq<u8> = Seq::empty();
        match ir.ir_opcode() {
            IrOpcode::Call => {
                let sp = bus.read_io(IO_ADDR_SP);
                let sp2: u8 = ((sp as u16 + 2) % 256) as u8;
                let ret_addr: u16 = ((self.pc as u32 + 1) % 65536) as u16;
                bus.write_ram_word(sp, ret_addr);
                self.pc = ir.rom_address();
                bus.write_io(IO_ADDR_SP, sp2);
                pc_increment = 0;
                next_state = PdkCoreState::Skip;
            },
            IrOpcode::Reset => {
                bus.reset();
                self.reset();
                pc_increment = 0;
                proof {
                    rio = bus.io_view();
                }
            },
            _ => {
                proof {
                    assert(false);
                }
            },
        }
        if pc_increment != 0 {
            self.pc = ((self.pc % 1024) + pc_increment) % 1024;
        }
        self.state = next_state;
        Ghost((pa, t16, rio))
    }

    /// The ROM-table loads through the stack pointer.
    #[verifier::rlimit(100)]
    #[verifier::spinoff_prover]
    fn exec_ldspt<B: Bus>(&mut self, ir: IrSlot, bus: &mut B) -> (samples: Ghost<(u8, u16, Seq<u8>)>)
        requires
            spaces_wf(old(bus).io_view(), old(bus).ram_view(), old(bus).rom_view()),
            old(self).state is Execute,
            ir == old(bus).rom_view()[(old(self).pc % 1024) as int],
            ir.opcode is Ldsptl || ir.opcode is Ldspth,
        ensures
            spaces_wf(final(bus).io_view(), final(bus).ram_view(), final(bus).rom_view()),
            final(bus).rom_view() == old(bus).rom_view(),
            machine_of(
                final(self).core_view(),
                final(bus).io_view(),
                final(bus).ram_view(),
                final(bus).rom_view(),
                final(bus).tim16_view(),
            ) == spec_execute(
                machine_of(
                    old(self).core_view(),
                    old(bus).io_view(),
                    old(bus).ram_view(),
                    old(bus).rom_view(),
                    old(bus).tim16_view(),
                ),
                samples@.0,
                samples@.1,
                samples@.2,
            ),
    {
        let mut pc_increment: u16 = 1;
        let mut next_state: PdkCoreState = PdkCoreState::Execute;
        let ghost mut pa: u8 = 0;
        let ghost mut t16: u16 = 0;
        let ghost mut rio: Seq<u8> = Seq::empty();
        match ir.ir_opcode() {
            IrOpcode::Ldsptl => {
                let sp = bus.read_io(IO_ADDR_SP);
                let addr = bus.read_ram_word(sp);
                let slot = bus.read_rom(addr);
                self.acc = (slot.original_word() % 256) as u8;
            },
            IrOpcode::Ldspth => {
                let sp = bus.read_io(IO_ADDR_SP);
                let addr = bus.read_ram_word(sp);
                let slot = bus.read_rom(addr);
                self.acc = (slot.original_word() / 256) as u8;
            },
            _ => {
                proof {
                    assert(false);
                }
            },
        }
        if pc_increment != 0 {
            self.pc = ((self.pc % 1024) + pc_increment) % 1024;
        }
        self.state = next_state;
        Ghost((pa, t16, rio))
    }

    /// The indirect RAM store.
    #[verifier::rlimit(100)]
    #[verifier::spinoff_prover]
    fn exec_idxmma<B: Bus>(&mut self, ir: IrSlot, bus: &mut B) -> (samples: Ghost<(u8, u16, Seq<u8>)>)
        requires
            spaces_wf(old(bus).io_view(), old(bus).ram_view(), old(bus).rom_view()),
            old(self).state is Execute,
            ir == old(bus).rom_view()[(old(self).pc % 1024) as int],
            ir.opcode is Idxmma,
        ensures
            spaces_wf(final(bus).io_view(), final(bus).ram_view(), final(bus).rom_view()),
            final(bus).rom_view() == old(bus).rom_view(),
            machine_of(
                final(self).core_view(),
                final(bus).io_view(),
                final(bus).ram_view(),
                final(bus).rom_view(),
                final(bus).tim16_view(),
            ) == spec_execute(
                machine_of(
                    old(self).core_view(),
                    old(bus).io_view(),
                    old(bus).ram_view(),
                    old(bus).rom_view(),
                    old(bus).tim16_view(),
                ),
                samples@.0,
                samples@.1,
                samples@.2,
            ),
    {
        let mut pc_increment: u16 = 1;
        let mut next_state: PdkCoreState = PdkCoreState::Execute;
        let ghost mut pa: u8 = 0;
        let ghost mut t16: u16 = 0;
        let ghost mut rio: Seq<u8> = Seq::empty();
        match ir.ir_opcode() {
            IrOpcode::Idxmma => {
                let ptr = bus.read_ram_word(ir.mem_address());
                bus.write_ram((ptr % 256) as u8, self.acc);
                next_state = PdkCoreState::Skip;
                proof {
                    assert(ptr % 256 % 64 == ptr % 64);
                }
            },
            _ => {
                proof {
                    assert(false);
                }
            },
        }
        if pc_increment != 0 {
            self.pc = ((self.pc % 1024) + pc_increment) % 1024;
        }
        self.state = next_state;
        Ghost((pa, t16, rio))
    }

    /// The indirect RAM load.
    #[verifier::rlimit(100)]
    #[verifier::spinoff_prover]
    fn exec_idxmam<B: Bus>(&mut self, ir: IrSlot, bus: &mut B) -> (samples: Ghost<(u8, u16, Seq<u8>)>)
        requires
            spaces_wf(old(bus).io_view(), old(bus).ram_view(), old(bus).rom_view()),
            old(self).state is Execute,
            ir == old(bus).rom_view()[(old(self).pc % 1024) as int],
            ir.opcode is Idxmam,
        ensures
            spaces_wf(final(bus).io_view(), final(bus).ram_view(), final(bus).rom_view()),
            final(bus).rom_view() == old(bus).rom_view(),
            machine_of(
                final(self).core_view(),
                final(bus).io_view(),
                final(bus).ram_view(),
                final(bus).rom_view(),
                final(bus).tim16_view(),
            ) == spec_execute(
                machine_of(
                    old(self).core_view(),
                    old(bus).io_view(),
                    old(bus).ram_view(),
                    old(bus).rom_view(),
                    old(bus).tim16_view(),
                ),
                samples@.0,
                samples@.1,
                samples@.2,
            ),
    {
        let mut pc_increment: u16 = 1;
        let mut next_state: PdkCoreState = PdkCoreState::Execute;
        let ghost mut pa: u8 = 0;
        let ghost mut t16: u16 = 0;
        let ghost mut rio: Seq<u8> = Seq::empty();
        match ir.ir_opcode() {
            IrOpcode::Idxmam => {
                let ptr = bus.read_ram_word(ir.mem_address());
                self.acc = bus.read_ram((ptr % 256) as u8);
                next_state = PdkCoreState::Skip;
                proof {
                    assert(ptr % 256 % 64 == ptr % 64);
                }
            },
            _ => {
                proof {
                    assert(false);
                }
            },
        }
        if pc_increment != 0 {
            self.pc = ((self.pc % 1024) + pc_increment) % 1024;
        }
        self.state = next_state;
        Ghost((pa, t16, rio))
    }

    /// The 16-bit timer transfers.
    #[verifier::rlimit(100)]
    #[verifier::spinoff_prover]
    fn exec_tim16<B: Bus>(&mut self, ir: IrSlot, bus: &mut B) -> (samples: Ghost<(u8, u16, Seq<u8>)>)
        requires
            spaces_wf(old(bus).io_view(), old(bus).ram_view(), old(bus).rom_view()),
            old(self).state is Execute,
            ir == old(bus).rom_view()[(old(self).pc % 1024) as int],
            ir.opcode is Stt16 || ir.opcode is Ldt16,
        ensures
            spaces_wf(final(bus).io_view(), final(bus).ram_view(), final(bus).rom_view()),
            final(bus).rom_view() == old(bus).rom_view(),
            machine_of(
                final(self).core_view(),
                final(bus).io_view(),
                final(bus).ram_view(),
                final(bus).rom_view(),
                final(bus).tim16_view(),
            ) == spec_execute(
                machine_of(
                    old(self).core_view(),
                    old(bus).io_view(),
                    old(bus).ram_view(),
                    old(bus).rom_view(),
                    old(bus).tim16_view(),
                ),
                samples@.0,
                samples@.1,
                samples@.2,
            ),
    {
        let mut pc_increment: u16 = 1;
        let mut next_state: PdkCoreState = PdkCoreState::Execute;
        let ghost mut pa: u8 = 0;
        let ghost mut t16: u16 = 0;
        let ghost mut rio: Seq<u8> = Seq::empty();
        match ir.ir_opcode() {
            IrOpcode::Stt16 => {
                let w = bus.read_ram_word(ir.mem_address());
                bus.write_tim16(w);
                proof {
                    t16 = bus.tim16_view();
                }
            },
            IrOpcode::Ldt16 => {
                let w = bus.read_tim16();
                bus.write_ram_word(ir.mem_address(), w);
            },
            _ => {
                proof {
                    assert(false);
                }
            },
        }
        if pc_increment != 0 {
            self.pc = ((self.pc % 1024) + pc_increment) % 1024;
        }
        self.state = next_state;
        Ghost((pa, t16, rio))
    }

}

/// The stall after a taken skip or branch consumes nothing: a step taken in
/// the skip state leaves the whole bus and every register unchanged and
/// merely returns the latch to the execute state.
pub proof fn lemma_skip_step_is_stall(m: Machine, pa: u8, t16: u16, rio: Seq<u8>)
    requires
        m.cpu.skip,
    ensures
        spec_step(m, pa, t16, rio) == (Machine {
            cpu: CpuView { skip: false, ..m.cpu },
            bus: m.bus,
        }),
{
}

/// The skip latch never chains: whatever instruction set the latch, the step
/// that consumes the stall clears it, so a second stall can only come from a
/// second skip-inducing instruction.
pub proof fn lemma_skip_never_chains(
    m0: Machine,
    pa1: u8,
    t1: u16,
    r1: Seq<u8>,
    pa2: u8,
    t2: u16,
    r2: Seq<u8>,
)
    requires
        !m0.cpu.skip,
        spec_step(m0, pa1, t1, r1).cpu.skip,
    ensures
        ({
            let m1 = spec_step(m0, pa1, t1, r1);
            let m2 = spec_step(m1, pa2, t2, r2);
            &&& !m2.cpu.skip
            &&& m2.bus == m1.bus
            &&& m2.cpu.pc == m1.cpu.pc
            &&& m2.cpu.acc == m1.cpu.acc
        }),
{
}

/// Advancing past the last ROM slot wraps the program counter to zero: a
/// no-operation executed at the top of ROM leaves the counter at the bottom.
pub proof fn lemma_pc_wraps(m: Machine, pa: u8, t16: u16, rio: Seq<u8>)
    requires
        !m.cpu.skip,
        m.cpu.pc == 0x3FF,
        m.bus.rom[(m.cpu.pc % 1024) as int].opcode == IrOpcode::Nop,
    ensures
        spec_step(m, pa, t16, rio).cpu.pc == 0,
{
}

fn binary_op(op: AluBinaryOp, a: u8, v: u8, f: u8) -> (r: (u8, u8))
    ensures
        r == spec_binary_op(op, a, v, f),
{
    match op {
        AluBinaryOp::Add => ops::add(a, v, f),
        AluBinaryOp::Sub => ops::sub(a, v, f),
        AluBinaryOp::Addc => ops::addc(a, v, f),
        AluBinaryOp::Subc => ops::subc(a, v, f),
        AluBinaryOp::And => ops::and(a, v, f),
        AluBinaryOp::Or => ops::or(a, v, f),
        AluBinaryOp::Xor => ops::xor(a, v, f),
        AluBinaryOp::Mov => ops::mov(a, v, f),
    }
}

fn unary_op(op: AluUnaryOp, a: u8, f: u8) -> (r: (u8, u8))
    ensures
        r == spec_unary_op(op, a, f),
{
    match op {
        AluUnaryOp::Not => ops::not(a, f),
        AluUnaryOp::Neg => ops::neg(a, f),
        AluUnaryOp::Sr => ops::sr(a, f),
        AluUnaryOp::Sl => ops::sl(a, f),
        AluUnaryOp::Src => ops::src(a, f),
        AluUnaryOp::Slc => ops::slc(a, f),
    }
}

} // verus!
