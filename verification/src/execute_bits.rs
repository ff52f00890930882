//! Execution of the `CB` opcode page.
use vstd::prelude::*;

use crate::cpu::CPU;
use crate::flags::{bit, reset_bit, set_bit, shift8};
use crate::isa_bits as cb;
use crate::machine::done;
use crate::registers::{Index, Register16, Register8};

verus! {

impl CPU {
    /// The byte that operation `x` leaves of `v`.
    pub(crate) fn changed(&self, x: u8, y: u8, v: u8) -> (w: u8)
        ensures
            w == cb::changed(self@, x, y, v),
    {
        if x == 0 {
            shift8(y, v, self.get(Register8::F)).res
        } else if x == 2 {
            reset_bit(y, v)
        } else {
            set_bit(y, v)
        }
    }

    /// Set the flags of operation `x` on byte `v`.
    pub(crate) fn flagged(&mut self, x: u8, y: u8, v: u8, xy: u8)
        ensures
            final(self)@ == cb::flagged(old(self)@, x, y, v, xy),
            final(self)@.reg.same_tables(old(self)@.reg),
    {
        let f = self.get(Register8::F);
        if x == 0 {
            self.put(Register8::F, shift8(y, v, f).f);
        } else if x == 1 {
            self.put(Register8::F, bit(y, v, xy, f));
        }
    }

    /// An instruction of the page on a register or on (HL).
    pub(crate) fn bits_plain(&mut self, op: u8) -> (cycles: i64)
        requires
            old(self)@.reg.selects(Index::HL),
        ensures
            done(final(self)@, cycles as int) == cb::bits_plain(old(self)@, op),
            final(self)@.reg.same_tables(old(self)@.reg),
    {
        let x = op / 64;
        let y = (op / 8) % 8;
        let z = op % 8;
        if z == 6 {
            let addr = self.get_pair(Register16::HL);
            let v = self.peek(addr);
            let w = self.changed(x, y, v);
            let xy = (self.get_pair(Register16::WZ) / 256) as u8;
            self.flagged(x, y, v, xy);
            if x == 1 {
                12
            } else {
                self.poke(addr, w);
                15
            }
        } else {
            let v = self.get_ri(z);
            let w = self.changed(x, y, v);
            self.flagged(x, y, v, v);
            if x != 1 {
                self.put_ri(z, w);
            }
            8
        }
    }

    /// An instruction of the page under an index prefix.
    pub(crate) fn bits_indexed(&mut self, idx: Index, d: u8, op: u8) -> (cycles: i64)
        requires
            old(self)@.reg.selects(idx),
        ensures
            done(final(self)@, cycles as int) == cb::bits_indexed(old(self)@, idx, d, op),
            final(self)@.reg.same_tables(old(self)@.reg),
    {
        let x = op / 64;
        let y = (op / 8) % 8;
        let z = op % 8;
        let addr = match idx {
            Index::HL => self.displaced(Register16::HL, d),
            Index::IX => self.displaced(Register16::IX, d),
            Index::IY => self.displaced(Register16::IY, d),
        };
        let v = self.peek(addr);
        let w = self.changed(x, y, v);
        self.put_pair(Register16::WZ, addr);
        self.flagged(x, y, v, (addr / 256) as u8);
        if x == 1 {
            16
        } else {
            self.poke(addr, w);
            if z != 6 {
                self.put_ri(z, w);
            }
            19
        }
    }

    /// Execute opcode `op` of the `CB` page.
    pub(crate) fn bits_page(&mut self, idx: Index, d: u8, op: u8) -> (cycles: i64)
        requires
            old(self)@.reg.selects(idx),
        ensures
            done(final(self)@, cycles as int) == cb::bits_page(old(self)@, idx, d, op),
            final(self)@.reg.same_tables(old(self)@.reg),
    {
        match idx {
            Index::HL => self.bits_plain(op),
            _ => self.bits_indexed(idx, d, op),
        }
    }
}

} // verus!
