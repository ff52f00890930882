//! Execution of the `ED` opcode page.
use vstd::prelude::*;

use crate::cpu::CPU;
use crate::flags::{adc16, block_cp, block_io, block_ld, load, neg8, parity, rld, rrd, sbc16, Flags};
use crate::isa_extended as ed;
use crate::machine::{done, wrap16, wrap8, Effect, PortWrite};
use crate::registers::{Index, Register16, Register8};

verus! {

/// A word moved one up or one down, wrapping at 16 bits.
pub(crate) fn moved(v: u16, y: u8) -> (w: u16)
    ensures
        w == wrap16(v + ed::step_of(y)),
{
    if y % 2 == 0 {
        v.wrapping_add(1)
    } else {
        v.wrapping_sub(1)
    }
}

impl CPU {
    /// IN r,(C).
    pub(crate) fn in_r_c(&mut self, y: u8, input: u8) -> (cycles: i64)
        requires
            old(self)@.reg.selects(Index::HL),
            y < 8,
        ensures
            done(final(self)@, cycles as int) == ed::in_r_c(old(self)@, y, input),
            final(self)@.reg.same_tables(old(self)@.reg),
    {
        let bc = self.get_pair(Register16::BC);
        let f = load(input, parity(input), self.get(Register8::F));
        self.put_pair(Register16::WZ, bc.wrapping_add(1));
        self.put(Register8::F, f);
        if y != 6 {
            self.put_ri(y, input);
        }
        12
    }

    /// OUT (C),r.
    pub(crate) fn out_c_r(&mut self, y: u8) -> (r: (i64, Option<PortWrite>))
        requires
            old(self)@.reg.selects(Index::HL),
            y < 8,
        ensures
            (Effect { next: final(self)@, cycles: r.0 as int, out: r.1 }) == ed::out_c_r(
                old(self)@,
                y,
            ),
            final(self)@.reg.same_tables(old(self)@.reg),
    {
        let port = self.get_pair(Register16::BC);
        let val = if y == 6 {
            0
        } else {
            self.get_ri(y)
        };
        self.put_pair(Register16::WZ, port.wrapping_add(1));
        (12, Some(PortWrite { port, val }))
    }

    /// SBC HL,rp and ADC HL,rp.
    pub(crate) fn adc_sbc_hl(&mut self, p: u8, q: u8) -> (cycles: i64)
        requires
            old(self)@.reg.selects(Index::HL),
            p < 4,
        ensures
            done(final(self)@, cycles as int) == ed::adc_sbc_hl(old(self)@, p, q),
            final(self)@.reg.same_tables(old(self)@.reg),
    {
        let hl = self.get_pair(Register16::HL);
        let v = self.get_sp(p);
        let c = self.flags().c;
        let r = if q == 0 { sbc16(hl, v, c) } else { adc16(hl, v, c) };
        self.put_pair(Register16::WZ, hl.wrapping_add(1));
        self.put_pair(Register16::HL, r.res);
        self.put(Register8::F, r.f);
        15
    }

    /// LD (nn),rp and LD rp,(nn).
    pub(crate) fn ld_rp_direct(&mut self, p: u8, q: u8) -> (cycles: i64)
        requires
            old(self)@.reg.selects(Index::HL),
            p < 4,
        ensures
            done(final(self)@, cycles as int) == ed::ld_rp_direct(old(self)@, p, q),
            final(self)@.reg.same_tables(old(self)@.reg),
    {
        let v = self.get_sp(p);
        let nn = self.imm16();
        if q == 0 {
            self.poke16(nn, v);
        } else {
            let w = self.peek16(nn);
            self.put_sp(p, w);
        }
        self.put_pair(Register16::WZ, nn.wrapping_add(1));
        20
    }

    /// NEG.
    pub(crate) fn neg(&mut self) -> (cycles: i64)
        ensures
            done(final(self)@, cycles as int) == ed::neg(old(self)@),
            final(self)@.reg.same_tables(old(self)@.reg),
    {
        let r = neg8(self.get(Register8::A));
        self.put(Register8::A, r.res);
        self.put(Register8::F, r.f);
        8
    }

    /// RETN and RETI.
    pub(crate) fn retn(&mut self) -> (cycles: i64)
        ensures
            done(final(self)@, cycles as int) == ed::retn(old(self)@),
            final(self)@.reg.same_tables(old(self)@.reg),
    {
        self.ret();
        self.iff1 = self.iff2;
        14
    }

    /// IM 0, IM 1, IM 2.
    pub(crate) fn im(&mut self, y: u8) -> (cycles: i64)
        ensures
            done(final(self)@, cycles as int) == ed::im(old(self)@, y),
            final(self)@.reg.same_tables(old(self)@.reg),
    {
        proof {
            self.reg.lemma_fields();
        }
        self.reg.im = if y % 4 < 2 { 0 } else { y % 4 - 1 };
        8
    }

    /// LD I,A; LD R,A; LD A,I; LD A,R; RRD; RLD.
    pub(crate) fn special(&mut self, y: u8) -> (cycles: i64)
        ensures
            done(final(self)@, cycles as int) == ed::special(old(self)@, y),
            final(self)@.reg.same_tables(old(self)@.reg),
    {
        proof {
            self.reg.lemma_fields();
        }
        let a = self.get(Register8::A);
        let f = self.get(Register8::F);
        if y == 0 {
            self.reg.i = a;
            9
        } else if y == 1 {
            self.reg.r = a;
            9
        } else if y == 2 {
            let v = self.reg.i;
            self.put(Register8::A, v);
            self.put(Register8::F, load(v, self.iff2, f));
            9
        } else if y == 3 {
            let v = self.reg.r;
            self.put(Register8::A, v);
            self.put(Register8::F, load(v, self.iff2, f));
            9
        } else if y == 4 || y == 5 {
            let hl = self.get_pair(Register16::HL);
            let v = self.peek(hl);
            let r = if y == 4 { rrd(a, v, f) } else { rld(a, v, f) };
            self.poke(hl, r.m);
            self.put_pair(Register16::WZ, hl.wrapping_add(1));
            self.put(Register8::A, r.a);
            self.put(Register8::F, r.f);
            18
        } else {
            8
        }
    }

    /// Finish a block instruction: go back to it if it repeats.
    pub(crate) fn repeated(&mut self, again: bool, out: Option<PortWrite>) -> (r: (
        i64,
        Option<PortWrite>,
    ))
        ensures
            (Effect { next: final(self)@, cycles: r.0 as int, out: r.1 }) == ed::repeated(
                old(self)@,
                again,
                out,
            ),
            final(self)@.reg.same_tables(old(self)@.reg),
    {
        if again {
            let pc = self.pc();
            self.reg.dec_pc(2);
            self.put_pair(Register16::WZ, pc.wrapping_sub(1));
            (21, out)
        } else {
            (16, out)
        }
    }

    /// LDI, LDD, LDIR, LDDR.
    pub(crate) fn block_ld(&mut self, y: u8) -> (r: (i64, Option<PortWrite>))
        ensures
            (Effect { next: final(self)@, cycles: r.0 as int, out: r.1 }) == ed::block_ld(
                old(self)@,
                y,
            ),
            final(self)@.reg.same_tables(old(self)@.reg),
    {
        let hl = self.get_pair(Register16::HL);
        let de = self.get_pair(Register16::DE);
        let bc = self.get_pair(Register16::BC).wrapping_sub(1);
        let v = self.peek(hl);
        let f = block_ld(self.get(Register8::A), v, bc != 0, self.get(Register8::F));
        assert(bc == wrap16(old(self)@.get16(Register16::BC) - 1));
        self.poke(de, v);
        self.put_pair(Register16::HL, moved(hl, y));
        self.put_pair(Register16::DE, moved(de, y));
        assert(self@ == old(self)@.write8(de, v).set16(
            Register16::HL,
            wrap16(hl + ed::step_of(y)),
        ).set16(Register16::DE, wrap16(de + ed::step_of(y))));
        self.put_pair(Register16::BC, bc);
        self.put(Register8::F, f);
        self.repeated(y >= 6 && bc != 0, None)
    }

    /// CPI, CPD, CPIR, CPDR.
    pub(crate) fn block_cp(&mut self, y: u8) -> (r: (i64, Option<PortWrite>))
        ensures
            (Effect { next: final(self)@, cycles: r.0 as int, out: r.1 }) == ed::block_cp(
                old(self)@,
                y,
            ),
            final(self)@.reg.same_tables(old(self)@.reg),
    {
        let hl = self.get_pair(Register16::HL);
        let bc = self.get_pair(Register16::BC).wrapping_sub(1);
        let wz = self.get_pair(Register16::WZ);
        let f = block_cp(self.get(Register8::A), self.peek(hl), bc != 0, self.get(Register8::F));
        assert(bc == wrap16(old(self)@.get16(Register16::BC) - 1));
        self.put_pair(Register16::HL, moved(hl, y));
        self.put_pair(Register16::BC, bc);
        assert(self@ == old(self)@.set16(Register16::HL, wrap16(hl + ed::step_of(y))).set16(
            Register16::BC,
            bc,
        ));
        self.put_pair(Register16::WZ, moved(wz, y));
        self.put(Register8::F, f);
        self.repeated(y >= 6 && bc != 0 && !Flags::unpack(f).z, None)
    }

    /// INI, IND, INIR, INDR.
    pub(crate) fn block_in(&mut self, y: u8, input: u8) -> (r: (i64, Option<PortWrite>))
        ensures
            (Effect { next: final(self)@, cycles: r.0 as int, out: r.1 }) == ed::block_in(
                old(self)@,
                y,
                input,
            ),
            final(self)@.reg.same_tables(old(self)@.reg),
    {
        let hl = self.get_pair(Register16::HL);
        let bc = self.get_pair(Register16::BC);
        let b = self.get(Register8::B).wrapping_sub(1);
        let c = self.get(Register8::C);
        let k = if y % 2 == 0 { c.wrapping_add(1) } else { c.wrapping_sub(1) };
        assert(k == wrap8(c + ed::step_of(y)));
        self.poke(hl, input);
        self.put_pair(Register16::WZ, moved(bc, y));
        self.put(Register8::B, b);
        self.put_pair(Register16::HL, moved(hl, y));
        self.put(Register8::F, block_io(b, input, k));
        self.repeated(y >= 6 && b != 0, None)
    }

    /// OUTI, OUTD, OTIR, OTDR.
    pub(crate) fn block_out(&mut self, y: u8) -> (r: (i64, Option<PortWrite>))
        ensures
            (Effect { next: final(self)@, cycles: r.0 as int, out: r.1 }) == ed::block_out(
                old(self)@,
                y,
            ),
            final(self)@.reg.same_tables(old(self)@.reg),
    {
        let old_hl = self.get_pair(Register16::HL);
        let hl = moved(old_hl, y);
        let v = self.peek(old_hl);
        let b = self.get(Register8::B).wrapping_sub(1);
        self.put(Register8::B, b);
        let port = self.get_pair(Register16::BC);
        self.put_pair(Register16::HL, hl);
        self.put_pair(Register16::WZ, moved(port, y));
        self.put(Register8::F, block_io(b, v, (hl % 256) as u8));
        self.repeated(y >= 6 && b != 0, Some(PortWrite { port, val: v }))
    }

    /// Execute opcode `op` of the `ED` page.
    pub(crate) fn extended_page(&mut self, op: u8, input: u8) -> (r: (i64, Option<PortWrite>))
        requires
            old(self)@.reg.selects(Index::HL),
        ensures
            (Effect { next: final(self)@, cycles: r.0 as int, out: r.1 }) == ed::extended_page(
                old(self)@,
                op,
                input,
            ),
            final(self)@.reg.same_tables(old(self)@.reg),
    {
        let x = op / 64;
        let y = (op / 8) % 8;
        let z = op % 8;
        let p = y / 2;
        let q = y % 2;
        if x == 1 {
            if z == 1 {
                self.out_c_r(y)
            } else {
                let cycles = if z == 0 {
                    self.in_r_c(y, input)
                } else if z == 2 {
                    self.adc_sbc_hl(p, q)
                } else if z == 3 {
                    self.ld_rp_direct(p, q)
                } else if z == 4 {
                    self.neg()
                } else if z == 5 {
                    self.retn()
                } else if z == 6 {
                    self.im(y)
                } else {
                    self.special(y)
                };
                (cycles, None)
            }
        } else if x == 2 && y >= 4 && z < 4 {
            if z == 0 {
                self.block_ld(y)
            } else if z == 1 {
                self.block_cp(y)
            } else if z == 2 {
                self.block_in(y, input)
            } else {
                self.block_out(y)
            }
        } else {
            (8, None)
        }
    }
}

} // verus!
