//! The CPU: its state and the elementary operations that instructions are
//! executed with.
use vstd::prelude::*;

use crate::flags::Flags;
use crate::machine::Machine;
use crate::memory::Memory;
use crate::registers::{Index, Register16, Register8, Registers};
use crate::RegT;

verus! {

/// The Z80 CPU state: registers, memory, interrupt flip-flops and the
/// interrupt request lines.
pub struct CPU {
    /// The register file.
    pub reg: Registers,
    /// The memory image.
    pub mem: Memory,
    /// The halt latch: set by HALT, cleared when an interrupt is accepted.
    pub halt: bool,
    /// Interrupt enable flip-flop 1.
    pub iff1: bool,
    /// Interrupt enable flip-flop 2.
    pub iff2: bool,
    /// Set by EI; a maskable interrupt is not accepted before the instruction
    /// after EI has run.
    pub enable_interrupt: bool,
    /// A non-maskable interrupt is requested.
    pub nmi_pending: bool,
    /// A maskable interrupt is requested.
    pub int_pending: bool,
    /// The byte that the interrupting device supplies when the interrupt is
    /// acknowledged.
    pub int_data: u8,
}

impl View for CPU {
    type V = Machine;

    open spec fn view(&self) -> Machine {
        Machine {
            reg: self.reg@,
            mem: self.mem@,
            halt: self.halt,
            iff1: self.iff1,
            iff2: self.iff2,
            enable_interrupt: self.enable_interrupt,
            nmi_pending: self.nmi_pending,
            int_pending: self.int_pending,
            int_data: self.int_data,
        }
    }
}

impl CPU {
    /// Content of an 8-bit register.
    pub(crate) fn get(&self, r: Register8) -> (v: u8)
        ensures
            v == self@.get8(r),
    {
        self.reg.get8(r) as u8
    }

    /// Store a byte in an 8-bit register.
    pub(crate) fn put(&mut self, r: Register8, v: u8)
        ensures
            final(self)@ == old(self)@.set8(r, v),
    {
        self.reg.set8(r, v as RegT);
    }

    /// Content of a register pair.
    pub(crate) fn get_pair(&self, rp: Register16) -> (v: u16)
        ensures
            v == self@.get16(rp),
    {
        self.reg.get16(rp) as u16
    }

    /// Store a word in a register pair.
    pub(crate) fn put_pair(&mut self, rp: Register16, v: u16)
        ensures
            final(self)@ == old(self)@.set16(rp, v),
    {
        self.reg.set16(rp, v as RegT);
    }

    /// The register that the 3-bit field `i` selects under the index mode in
    /// effect.
    pub(crate) fn get_r(&self, i: u8) -> (v: u8)
        requires
            i < 8,
        ensures
            v == self@.get8(self@.reg.m_r[i as int]),
    {
        self.reg.r8(i as usize) as u8
    }

    /// Store a byte in the register that the 3-bit field `i` selects under
    /// the index mode in effect.
    pub(crate) fn put_r(&mut self, i: u8, v: u8)
        requires
            i < 8,
        ensures
            final(self)@ == old(self)@.set8(old(self)@.reg.m_r[i as int], v),
    {
        self.reg.set_r8(i as usize, v as RegT);
    }

    /// The register that the 3-bit field `i` selects, never an index half.
    pub(crate) fn get_ri(&self, i: u8) -> (v: u8)
        requires
            i < 8,
        ensures
            v == self@.get8(self@.reg.m_r2[i as int]),
    {
        self.reg.r8i(i as usize) as u8
    }

    /// Store a byte in the register that the 3-bit field `i` selects, never
    /// an index half.
    pub(crate) fn put_ri(&mut self, i: u8, v: u8)
        requires
            i < 8,
        ensures
            final(self)@ == old(self)@.set8(old(self)@.reg.m_r2[i as int], v),
    {
        self.reg.set_r8i(i as usize, v as RegT);
    }

    /// The pair that the 2-bit field `i` selects from {BC, DE, HL, SP}.
    pub(crate) fn get_sp(&self, i: u8) -> (v: u16)
        requires
            i < 4,
        ensures
            v == self@.get16(self@.reg.m_sp[i as int]),
    {
        self.reg.r16sp(i as usize) as u16
    }

    /// Store a word in the pair that the 2-bit field `i` selects from {BC,
    /// DE, HL, SP}.
    pub(crate) fn put_sp(&mut self, i: u8, v: u16)
        requires
            i < 4,
        ensures
            final(self)@ == old(self)@.set16(old(self)@.reg.m_sp[i as int], v),
    {
        self.reg.set_r16sp(i as usize, v as RegT);
    }

    /// The pair that the 2-bit field `i` selects from {BC, DE, HL, AF}.
    pub(crate) fn get_af(&self, i: u8) -> (v: u16)
        requires
            i < 4,
        ensures
            v == self@.get16(self@.reg.m_af[i as int]),
    {
        self.reg.r16af(i as usize) as u16
    }

    /// Store a word in the pair that the 2-bit field `i` selects from {BC,
    /// DE, HL, AF}.
    pub(crate) fn put_af(&mut self, i: u8, v: u16)
        requires
            i < 4,
        ensures
            final(self)@ == old(self)@.set16(old(self)@.reg.m_af[i as int], v),
    {
        self.reg.set_r16af(i as usize, v as RegT);
    }

    /// The flags, unpacked.
    pub(crate) fn flags(&self) -> (fl: Flags)
        ensures
            fl == self@.flags(),
    {
        Flags::unpack(self.get(Register8::F))
    }

    /// The program counter.
    pub(crate) fn pc(&self) -> (v: u16)
        ensures
            v == self@.pc(),
    {
        self.reg.pc() as u16
    }

    /// Set the program counter.
    pub(crate) fn jump(&mut self, pc: u16)
        ensures
            final(self)@ == old(self)@.jump(pc),
    {
        self.reg.set_pc(pc as RegT);
    }

    /// The byte at an address.
    pub(crate) fn peek(&self, addr: u16) -> (v: u8)
        ensures
            v == self@.read8(addr),
    {
        self.mem.r8(addr as RegT) as u8
    }

    /// Store a byte at an address.
    pub(crate) fn poke(&mut self, addr: u16, v: u8)
        ensures
            final(self)@ == old(self)@.write8(addr, v),
    {
        self.mem.w8(addr as RegT, v as RegT);
    }

    /// The word at an address.
    pub(crate) fn peek16(&self, addr: u16) -> (v: u16)
        ensures
            v == self@.read16(addr),
    {
        self.mem.r16(addr as RegT) as u16
    }

    /// Store a word at an address.
    pub(crate) fn poke16(&mut self, addr: u16, v: u16)
        ensures
            final(self)@ == old(self)@.write16(addr, v),
    {
        self.mem.w16(addr as RegT, v as RegT);
    }

    /// Read the byte at PC and step over it.
    pub(crate) fn imm8(&mut self) -> (v: u8)
        ensures
            v == old(self)@.imm8(),
            final(self)@ == old(self)@.skip(1),
    {
        let v = self.peek(self.pc());
        self.reg.inc_pc(1);
        v
    }

    /// Read the word at PC and step over it.
    pub(crate) fn imm16(&mut self) -> (v: u16)
        ensures
            v == old(self)@.imm16(),
            final(self)@ == old(self)@.skip(2),
    {
        let v = self.peek16(self.pc());
        self.reg.inc_pc(2);
        v
    }

    /// Fetch an opcode: read the byte at PC, step over it and advance the
    /// low seven bits of R.
    pub(crate) fn fetch_op(&mut self) -> (op: u8)
        ensures
            op == old(self)@.imm8(),
            final(self)@ == old(self)@.m1(),
    {
        let op = self.peek(self.pc());
        proof {
            self.reg.lemma_fields();
        }
        let r = self.reg.r;
        self.reg.r = (r / 128) * 128 + (r % 128 + 1) % 128;
        self.reg.inc_pc(1);
        op
    }

    /// Push a word on the stack.
    pub(crate) fn push(&mut self, v: u16)
        ensures
            final(self)@ == old(self)@.push(v),
    {
        let sp = self.get_pair(Register16::SP).wrapping_sub(2);
        self.put_pair(Register16::SP, sp);
        self.poke16(sp, v);
    }

    /// Pop a word from the stack.
    pub(crate) fn pop(&mut self) -> (v: u16)
        ensures
            v == old(self)@.top(),
            final(self)@ == old(self)@.drop(),
    {
        let sp = self.get_pair(Register16::SP);
        let v = self.peek16(sp);
        self.put_pair(Register16::SP, sp.wrapping_add(2));
        v
    }

    /// The address `pair + d` for a signed displacement byte.
    pub(crate) fn displaced(&self, rp: Register16, d: u8) -> (a: u16)
        ensures
            a == self@.displaced(rp, d),
    {
        let base = self.get_pair(rp);
        if d >= 128 {
            base.wrapping_sub(256 - d as u16)
        } else {
            base.wrapping_add(d as u16)
        }
    }

    /// Form the address of the memory operand: HL, or an index register
    /// plus the displacement byte at PC, which is consumed.
    pub(crate) fn operand(&mut self, idx: Index) -> (a: u16)
        ensures
            a == old(self)@.operand_addr(idx),
            final(self)@ == old(self)@.operand_taken(idx),
    {
        match idx {
            Index::HL => self.get_pair(Register16::HL),
            Index::IX => {
                let d = self.peek(self.pc());
                let a = self.displaced(Register16::IX, d);
                self.reg.inc_pc(1);
                self.put_pair(Register16::WZ, a);
                a
            },
            Index::IY => {
                let d = self.peek(self.pc());
                let a = self.displaced(Register16::IY, d);
                self.reg.inc_pc(1);
                self.put_pair(Register16::WZ, a);
                a
            },
        }
    }

    /// Test a condition code against the flags.
    pub(crate) fn cond(&self, cc: u8) -> (b: bool)
        ensures
            b == self@.cond(cc),
    {
        let fl = self.flags();
        let flag = if cc / 2 == 0 {
            fl.z
        } else if cc / 2 == 1 {
            fl.c
        } else if cc / 2 == 2 {
            fl.pv
        } else {
            fl.s
        };
        flag == (cc % 2 == 1)
    }
}

} // verus!
