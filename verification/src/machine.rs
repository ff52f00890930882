//! The machine model: the state of the CPU as a mathematical value, and the
//! elementary operations on it that the instruction semantics are built
//! from.
use vstd::prelude::*;

use crate::flags::{signed8, Flags};
use crate::memory::{with_word, word_at};
use crate::registers::{Index, Register16, Register8, RegistersView};

verus! {

/// An integer wrapped to 16 bits.
pub open spec fn wrap16(x: int) -> u16 {
    (x % 65536) as u16
}

/// An integer wrapped to 8 bits.
pub open spec fn wrap8(x: int) -> u8 {
    (x % 256) as u8
}

/// The word with the given high and low byte.
pub open spec fn word(high: u8, low: u8) -> u16 {
    (high as int * 256 + low as int) as u16
}

/// The state of the CPU between two instructions.
pub struct Machine {
    /// The register file.
    pub reg: RegistersView,
    /// The 65536 bytes of memory.
    pub mem: Seq<u8>,
    /// The halt latch.
    pub halt: bool,
    /// Interrupt enable flip-flop 1.
    pub iff1: bool,
    /// Interrupt enable flip-flop 2.
    pub iff2: bool,
    /// Set by EI: the next instruction runs before a maskable interrupt is
    /// accepted.
    pub enable_interrupt: bool,
    /// A non-maskable interrupt is requested.
    pub nmi_pending: bool,
    /// A maskable interrupt is requested.
    pub int_pending: bool,
    /// The byte that the interrupting device puts on the data bus.
    pub int_data: u8,
}

/// A write to an I/O port.
#[derive(Copy, Clone, PartialEq, Eq, Structural)]
pub struct PortWrite {
    /// The 16-bit port address.
    pub port: u16,
    /// The byte written.
    pub val: u8,
}

/// What an instruction does: the state it leaves, the T-states it takes and
/// the port write it makes, if any.
pub struct Effect {
    /// The state after the instruction.
    pub next: Machine,
    /// The T-states charged.
    pub cycles: int,
    /// The port write of an output instruction.
    pub out: Option<PortWrite>,
}

/// The effect of an instruction that writes no port.
pub open spec fn done(next: Machine, cycles: int) -> Effect {
    Effect { next, cycles, out: None }
}

impl Machine {
    /// The state has its 26 registers and 65536 bytes of memory, and its
    /// selection tables are in one of the states that the prefixes produce.
    pub open spec fn wf(self) -> bool {
        &&& self.reg.bank.len() == 26
        &&& self.mem.len() == 65536
        &&& self.reg.wf()
    }

    /// Content of an 8-bit register.
    pub open spec fn get8(self, r: Register8) -> u8 {
        self.reg.get8(r)
    }

    /// The state with an 8-bit register replaced.
    pub open spec fn set8(self, r: Register8, v: u8) -> Machine {
        Machine { reg: self.reg.set8(r, v), ..self }
    }

    /// Content of a register pair.
    pub open spec fn get16(self, rp: Register16) -> u16 {
        self.reg.get16(rp)
    }

    /// The state with a register pair replaced.
    pub open spec fn set16(self, rp: Register16, v: u16) -> Machine {
        Machine { reg: self.reg.set16(rp, v), ..self }
    }

    /// The accumulator.
    pub open spec fn a(self) -> u8 {
        self.get8(Register8::A)
    }

    /// The flag register.
    pub open spec fn f(self) -> u8 {
        self.get8(Register8::F)
    }

    /// The flags, unpacked.
    pub open spec fn flags(self) -> Flags {
        Flags::of(self.f())
    }

    /// The state with the flag register replaced.
    pub open spec fn with_f(self, f: u8) -> Machine {
        self.set8(Register8::F, f)
    }

    /// The state with accumulator and flag register replaced.
    pub open spec fn with_af(self, a: u8, f: u8) -> Machine {
        self.set8(Register8::A, a).set8(Register8::F, f)
    }

    /// The program counter.
    pub open spec fn pc(self) -> u16 {
        self.reg.pc
    }

    /// The state with the program counter replaced.
    pub open spec fn jump(self, pc: u16) -> Machine {
        Machine { reg: self.reg.with_pc(pc), ..self }
    }

    /// The state with the program counter moved by `n`, wrapping at 16 bits.
    pub open spec fn skip(self, n: int) -> Machine {
        self.jump(wrap16(self.pc() + n))
    }

    /// The byte at an address.
    pub open spec fn read8(self, addr: u16) -> u8 {
        self.mem[addr as int]
    }

    /// The state with one byte of memory replaced.
    pub open spec fn write8(self, addr: u16, v: u8) -> Machine {
        Machine { mem: self.mem.update(addr as int, v), ..self }
    }

    /// The little-endian word at an address.
    pub open spec fn read16(self, addr: u16) -> u16 {
        word_at(self.mem, addr)
    }

    /// The state with a little-endian word stored at an address.
    pub open spec fn write16(self, addr: u16, v: u16) -> Machine {
        Machine { mem: with_word(self.mem, addr, v), ..self }
    }

    /// The byte that follows in the instruction stream.
    pub open spec fn imm8(self) -> u8 {
        self.read8(self.pc())
    }

    /// The word that follows in the instruction stream.
    pub open spec fn imm16(self) -> u16 {
        self.read16(self.pc())
    }

    /// The state after an opcode fetch: PC advanced by one and the low seven
    /// bits of R incremented, bit 7 of R kept.
    pub open spec fn m1(self) -> Machine {
        let r = ((self.reg.r / 128) * 128 + (self.reg.r % 128 + 1) % 128) as u8;
        Machine { reg: RegistersView { r, ..self.reg }, ..self }.skip(1)
    }

    /// The state with a word pushed: SP lowered by two, the word stored
    /// there.
    pub open spec fn push(self, v: u16) -> Machine {
        let sp = wrap16(self.get16(Register16::SP) - 2);
        self.set16(Register16::SP, sp).write16(sp, v)
    }

    /// The word on top of the stack.
    pub open spec fn top(self) -> u16 {
        self.read16(self.get16(Register16::SP))
    }

    /// The state with the top word dropped: SP raised by two.
    pub open spec fn drop(self) -> Machine {
        self.set16(Register16::SP, wrap16(self.get16(Register16::SP) + 2))
    }

    /// The address `pair + d` for a signed displacement byte `d`.
    pub open spec fn displaced(self, rp: Register16, d: u8) -> u16 {
        wrap16(self.get16(rp) + signed8(d))
    }

    /// The address of the memory operand `(HL)`, `(IX+d)` or `(IY+d)`. With
    /// an index register the displacement byte is read from the instruction
    /// stream and WZ is set to the address.
    pub open spec fn operand_addr(self, idx: Index) -> u16 {
        if idx == Index::HL {
            self.get16(Register16::HL)
        } else {
            self.displaced(idx.pair(), self.imm8())
        }
    }

    /// The state after the address of the memory operand was formed.
    pub open spec fn operand_taken(self, idx: Index) -> Machine {
        if idx == Index::HL {
            self
        } else {
            self.skip(1).set16(Register16::WZ, self.operand_addr(idx))
        }
    }

    /// Whether the condition `cc` of a conditional jump, call or return
    /// holds: 0 NZ, 1 Z, 2 NC, 3 C, 4 PO, 5 PE, 6 P, 7 M.
    pub open spec fn cond(self, cc: u8) -> bool {
        let fl = self.flags();
        let flag = if cc / 2 == 0 {
            fl.z
        } else if cc / 2 == 1 {
            fl.c
        } else if cc / 2 == 2 {
            fl.pv
        } else {
            fl.s
        };
        flag == (cc % 2 == 1)
    }

    /// The state with the tables routed to `idx`.
    pub open spec fn route(self, idx: Index) -> Machine {
        Machine { reg: self.reg.patch(idx), ..self }
    }
}

} // verus!
