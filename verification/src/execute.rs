//! Execution of the unprefixed opcode page.
use vstd::prelude::*;

use crate::cpu::CPU;
use crate::flags::{
    adc8, add16, and8, ccf, cp8, cpl, daa, dec8, inc8, or8, rotate_a, sbc8, scf, xor8,
};
use crate::isa;
use crate::machine::{done, wrap16, Effect, PortWrite};
use crate::registers::{Index, Register16, Register8};

verus! {

/// T-states of an instruction with a memory operand.
pub(crate) fn timed(idx: Index, plain: i64, indexed: i64) -> (t: i64)
    ensures
        t == isa::timed(idx, plain as int, indexed as int),
{
    match idx {
        Index::HL => plain,
        _ => indexed,
    }
}

impl CPU {
    /// The pair that stands for HL under index mode `idx`.
    pub(crate) fn get_index(&self, idx: Index) -> (v: u16)
        ensures
            v == self@.get16(idx.pair()),
    {
        match idx {
            Index::HL => self.get_pair(Register16::HL),
            Index::IX => self.get_pair(Register16::IX),
            Index::IY => self.get_pair(Register16::IY),
        }
    }

    /// Store a word in the pair that stands for HL under index mode `idx`.
    pub(crate) fn put_index(&mut self, idx: Index, v: u16)
        ensures
            final(self)@ == old(self)@.set16(idx.pair(), v),
            final(self)@.reg.same_tables(old(self)@.reg),
    {
        match idx {
            Index::HL => self.put_pair(Register16::HL, v),
            Index::IX => self.put_pair(Register16::IX, v),
            Index::IY => self.put_pair(Register16::IY, v),
        }
    }

    /// NOP, EX AF,AF', DJNZ, JR and JR cc.
    pub(crate) fn relative(&mut self, y: u8) -> (cycles: i64)
        requires
            y < 8,
        ensures
            done(final(self)@, cycles as int) == isa::relative(old(self)@, y),
            final(self)@.reg.same_tables(old(self)@.reg),
    {
        if y == 0 {
            4
        } else if y == 1 {
            self.reg.swap(Register16::AF, Register16::AF_);
            4
        } else {
            let taken = y == 3 || (y > 3 && self.cond(y - 4));
            let d = self.imm8();
            let target = if d >= 128 {
                self.pc().wrapping_sub(256 - d as u16)
            } else {
                self.pc().wrapping_add(d as u16)
            };
            if y == 2 {
                let b = self.get(Register8::B).wrapping_sub(1);
                self.put(Register8::B, b);
                if b != 0 {
                    self.put_pair(Register16::WZ, target);
                    self.jump(target);
                    13
                } else {
                    8
                }
            } else if taken {
                self.put_pair(Register16::WZ, target);
                self.jump(target);
                12
            } else {
                7
            }
        }
    }

    /// LD rp,nn.
    pub(crate) fn ld_rp_nn(&mut self, idx: Index, p: u8) -> (cycles: i64)
        requires
            old(self)@.reg.selects(idx),
            p < 4,
        ensures
            done(final(self)@, cycles as int) == isa::ld_rp_nn(old(self)@, idx, p),
            final(self)@.reg.same_tables(old(self)@.reg),
    {
        let nn = self.imm16();
        self.put_sp(p, nn);
        10
    }

    /// ADD HL,rp.
    pub(crate) fn add_hl_rp(&mut self, idx: Index, p: u8) -> (cycles: i64)
        requires
            old(self)@.reg.selects(idx),
            p < 4,
        ensures
            done(final(self)@, cycles as int) == isa::add_hl_rp(old(self)@, idx, p),
            final(self)@.reg.same_tables(old(self)@.reg),
    {
        let hl = self.get_index(idx);
        let r = add16(hl, self.get_sp(p), self.get(Register8::F));
        self.put_pair(Register16::WZ, hl.wrapping_add(1));
        self.put_index(idx, r.res);
        self.put(Register8::F, r.f);
        11
    }

    /// The loads through BC, DE and a direct address.
    pub(crate) fn ld_indirect(&mut self, idx: Index, y: u8) -> (cycles: i64)
        requires
            y < 8,
        ensures
            done(final(self)@, cycles as int) == isa::ld_indirect(old(self)@, idx, y),
            final(self)@.reg.same_tables(old(self)@.reg),
    {
        if y < 4 {
            let addr = if y < 2 {
                self.get_pair(Register16::BC)
            } else {
                self.get_pair(Register16::DE)
            };
            if y % 2 == 0 {
                let a = self.get(Register8::A);
                self.poke(addr, a);
            } else {
                let v = self.peek(addr);
                self.put(Register8::A, v);
            }
            self.put_pair(Register16::WZ, addr.wrapping_add(1));
            7
        } else {
            let hl = self.get_index(idx);
            let a = self.get(Register8::A);
            let nn = self.imm16();
            if y == 4 {
                self.poke16(nn, hl);
            } else if y == 5 {
                let v = self.peek16(nn);
                self.put_index(idx, v);
            } else if y == 6 {
                self.poke(nn, a);
            } else {
                let v = self.peek(nn);
                self.put(Register8::A, v);
            }
            self.put_pair(Register16::WZ, nn.wrapping_add(1));
            if y < 6 {
                16
            } else {
                13
            }
        }
    }

    /// INC rp and DEC rp.
    pub(crate) fn inc_dec_rp(&mut self, idx: Index, p: u8, q: u8) -> (cycles: i64)
        requires
            old(self)@.reg.selects(idx),
            p < 4,
        ensures
            done(final(self)@, cycles as int) == isa::inc_dec_rp(old(self)@, idx, p, q),
            final(self)@.reg.same_tables(old(self)@.reg),
    {
        let v = self.get_sp(p);
        let w = if q == 0 {
            v.wrapping_add(1)
        } else {
            v.wrapping_sub(1)
        };
        assert(w == wrap16(if q == 0 { v + 1 } else { v - 1 }));
        self.put_sp(p, w);
        6
    }

    /// INC r and DEC r.
    pub(crate) fn inc_dec_r(&mut self, idx: Index, y: u8, dec: bool) -> (cycles: i64)
        requires
            old(self)@.reg.selects(idx),
            y < 8,
        ensures
            done(final(self)@, cycles as int) == isa::inc_dec_r(old(self)@, idx, y, dec),
            final(self)@.reg.same_tables(old(self)@.reg),
    {
        if y == 6 {
            let addr = self.operand(idx);
            let v = self.peek(addr);
            let f = self.get(Register8::F);
            let r = if dec { dec8(v, f) } else { inc8(v, f) };
            self.poke(addr, r.res);
            self.put(Register8::F, r.f);
            timed(idx, 11, 19)
        } else {
            let v = self.get_r(y);
            let f = self.get(Register8::F);
            let r = if dec { dec8(v, f) } else { inc8(v, f) };
            self.put_r(y, r.res);
            self.put(Register8::F, r.f);
            4
        }
    }

    /// LD r,n.
    pub(crate) fn ld_r_n(&mut self, idx: Index, y: u8) -> (cycles: i64)
        requires
            old(self)@.reg.selects(idx),
            y < 8,
        ensures
            done(final(self)@, cycles as int) == isa::ld_r_n(old(self)@, idx, y),
            final(self)@.reg.same_tables(old(self)@.reg),
    {
        if y == 6 {
            let addr = self.operand(idx);
            let n = self.imm8();
            self.poke(addr, n);
            timed(idx, 10, 15)
        } else {
            let n = self.imm8();
            self.put_r(y, n);
            7
        }
    }

    /// RLCA, RRCA, RLA, RRA, DAA, CPL, SCF, CCF.
    pub(crate) fn accumulator_op(&mut self, y: u8) -> (cycles: i64)
        ensures
            done(final(self)@, cycles as int) == isa::accumulator_op(old(self)@, y),
            final(self)@.reg.same_tables(old(self)@.reg),
    {
        let a = self.get(Register8::A);
        let f = self.get(Register8::F);
        if y < 4 {
            let r = rotate_a(y, a, f);
            self.put(Register8::A, r.res);
            self.put(Register8::F, r.f);
        } else if y == 4 {
            let r = daa(a, f);
            self.put(Register8::A, r.res);
            self.put(Register8::F, r.f);
        } else if y == 5 {
            let r = cpl(a, f);
            self.put(Register8::A, r.res);
            self.put(Register8::F, r.f);
        } else if y == 6 {
            self.put(Register8::F, scf(a, f));
        } else {
            self.put(Register8::F, ccf(a, f));
        }
        4
    }

    /// HALT.
    pub(crate) fn do_halt(&mut self) -> (cycles: i64)
        ensures
            done(final(self)@, cycles as int) == isa::halt(old(self)@),
            final(self)@.reg.same_tables(old(self)@.reg),
    {
        self.halt = true;
        self.reg.dec_pc(1);
        4
    }

    /// LD r,r'.
    pub(crate) fn ld_r_r(&mut self, idx: Index, y: u8, z: u8) -> (cycles: i64)
        requires
            old(self)@.reg.selects(idx),
            y < 8,
            z < 8,
        ensures
            done(final(self)@, cycles as int) == isa::ld_r_r(old(self)@, idx, y, z),
            final(self)@.reg.same_tables(old(self)@.reg),
    {
        if y == 6 {
            let addr = self.operand(idx);
            let v = self.get_ri(z);
            self.poke(addr, v);
            timed(idx, 7, 15)
        } else if z == 6 {
            let addr = self.operand(idx);
            let v = self.peek(addr);
            self.put_ri(y, v);
            timed(idx, 7, 15)
        } else {
            let v = self.get_r(z);
            self.put_r(y, v);
            4
        }
    }

    /// The accumulator operation `y` with operand `v`.
    pub(crate) fn alu(&mut self, y: u8, v: u8)
        ensures
            final(self)@ == isa::alu(old(self)@, y, v),
            final(self)@.reg.same_tables(old(self)@.reg),
    {
        let a = self.get(Register8::A);
        let c = self.flags().c;
        if y < 7 {
            let r = if y == 0 {
                adc8(a, v, false)
            } else if y == 1 {
                adc8(a, v, c)
            } else if y == 2 {
                sbc8(a, v, false)
            } else if y == 3 {
                sbc8(a, v, c)
            } else if y == 4 {
                and8(a, v)
            } else if y == 5 {
                xor8(a, v)
            } else {
                or8(a, v)
            };
            self.put(Register8::A, r.res);
            self.put(Register8::F, r.f);
        } else {
            self.put(Register8::F, cp8(a, v));
        }
    }

    /// ALU A,r.
    pub(crate) fn alu_r(&mut self, idx: Index, y: u8, z: u8) -> (cycles: i64)
        requires
            old(self)@.reg.selects(idx),
            z < 8,
        ensures
            done(final(self)@, cycles as int) == isa::alu_r(old(self)@, idx, y, z),
            final(self)@.reg.same_tables(old(self)@.reg),
    {
        if z == 6 {
            let addr = self.operand(idx);
            let v = self.peek(addr);
            self.alu(y, v);
            timed(idx, 7, 15)
        } else {
            let v = self.get_r(z);
            self.alu(y, v);
            4
        }
    }

    /// ALU A,n.
    pub(crate) fn alu_n(&mut self, y: u8) -> (cycles: i64)
        ensures
            done(final(self)@, cycles as int) == isa::alu_n(old(self)@, y),
            final(self)@.reg.same_tables(old(self)@.reg),
    {
        let n = self.imm8();
        self.alu(y, n);
        7
    }

    /// Return: pop PC.
    pub(crate) fn ret(&mut self)
        ensures
            final(self)@ == isa::returned(old(self)@),
            final(self)@.reg.same_tables(old(self)@.reg),
    {
        let target = self.pop();
        self.put_pair(Register16::WZ, target);
        self.jump(target);
    }

    /// Call: push PC, then jump.
    pub(crate) fn call(&mut self, target: u16)
        ensures
            final(self)@ == isa::called(old(self)@, target),
            final(self)@.reg.same_tables(old(self)@.reg),
    {
        let pc = self.pc();
        self.push(pc);
        self.put_pair(Register16::WZ, target);
        self.jump(target);
    }

    /// RET cc.
    pub(crate) fn ret_cc(&mut self, y: u8) -> (cycles: i64)
        ensures
            done(final(self)@, cycles as int) == isa::ret_cc(old(self)@, y),
            final(self)@.reg.same_tables(old(self)@.reg),
    {
        if self.cond(y) {
            self.ret();
            11
        } else {
            5
        }
    }

    /// POP rp.
    pub(crate) fn pop_rp(&mut self, idx: Index, p: u8) -> (cycles: i64)
        requires
            old(self)@.reg.selects(idx),
            p < 4,
        ensures
            done(final(self)@, cycles as int) == isa::pop_rp(old(self)@, idx, p),
            final(self)@.reg.same_tables(old(self)@.reg),
    {
        let v = self.pop();
        self.put_af(p, v);
        10
    }

    /// EXX.
    pub(crate) fn exx(&mut self)
        ensures
            final(self)@ == isa::exx(old(self)@),
            final(self)@.reg.same_tables(old(self)@.reg),
    {
        self.reg.swap(Register16::BC, Register16::BC_);
        self.reg.swap(Register16::DE, Register16::DE_);
        self.reg.swap(Register16::HL, Register16::HL_);
        self.reg.swap(Register16::WZ, Register16::WZ_);
    }

    /// RET, EXX, JP (HL), LD SP,HL.
    pub(crate) fn misc_q1(&mut self, idx: Index, p: u8) -> (cycles: i64)
        ensures
            done(final(self)@, cycles as int) == isa::misc_q1(old(self)@, idx, p),
            final(self)@.reg.same_tables(old(self)@.reg),
    {
        if p == 0 {
            self.ret();
            10
        } else if p == 1 {
            self.exx();
            4
        } else if p == 2 {
            let target = self.get_index(idx);
            self.jump(target);
            4
        } else {
            let v = self.get_index(idx);
            self.put_pair(Register16::SP, v);
            6
        }
    }

    /// JP cc,nn and JP nn.
    pub(crate) fn jp_cc(&mut self, y: u8, always: bool) -> (cycles: i64)
        ensures
            done(final(self)@, cycles as int) == isa::jp_cc(old(self)@, y, always),
            final(self)@.reg.same_tables(old(self)@.reg),
    {
        let taken = always || self.cond(y);
        let nn = self.imm16();
        self.put_pair(Register16::WZ, nn);
        if taken {
            self.jump(nn);
        }
        10
    }

    /// CALL cc,nn and CALL nn.
    pub(crate) fn call_cc(&mut self, y: u8, always: bool) -> (cycles: i64)
        ensures
            done(final(self)@, cycles as int) == isa::call_cc(old(self)@, y, always),
            final(self)@.reg.same_tables(old(self)@.reg),
    {
        let taken = always || self.cond(y);
        let nn = self.imm16();
        if taken {
            self.call(nn);
            17
        } else {
            self.put_pair(Register16::WZ, nn);
            10
        }
    }

    /// PUSH rp.
    pub(crate) fn push_rp(&mut self, idx: Index, p: u8) -> (cycles: i64)
        requires
            old(self)@.reg.selects(idx),
            p < 4,
        ensures
            done(final(self)@, cycles as int) == isa::push_rp(old(self)@, idx, p),
            final(self)@.reg.same_tables(old(self)@.reg),
    {
        let v = self.get_af(p);
        self.push(v);
        11
    }

    /// RST.
    pub(crate) fn rst(&mut self, y: u8) -> (cycles: i64)
        requires
            y < 8,
        ensures
            done(final(self)@, cycles as int) == isa::rst(old(self)@, y),
            final(self)@.reg.same_tables(old(self)@.reg),
    {
        self.call((y * 8) as u16);
        11
    }

    /// OUT (n),A.
    pub(crate) fn out_n_a(&mut self) -> (r: (i64, Option<PortWrite>))
        ensures
            (Effect { next: final(self)@, cycles: r.0 as int, out: r.1 }) == isa::out_n_a(
                old(self)@,
            ),
            final(self)@.reg.same_tables(old(self)@.reg),
    {
        let a = self.get(Register8::A);
        let n = self.imm8();
        self.put_pair(Register16::WZ, a as u16 * 256 + n.wrapping_add(1) as u16);
        (11, Some(PortWrite { port: a as u16 * 256 + n as u16, val: a }))
    }

    /// The port that IN A,(n) is about to read.
    pub(crate) fn in_a_n_port(&self) -> (port: u16)
        ensures
            port == isa::in_a_n_port(self@),
    {
        self.get(Register8::A) as u16 * 256 + self.peek(self.pc()) as u16
    }

    /// IN A,(n) with the byte that the port gave.
    pub(crate) fn in_a_n(&mut self, input: u8) -> (cycles: i64)
        ensures
            done(final(self)@, cycles as int) == isa::in_a_n(old(self)@, input),
            final(self)@.reg.same_tables(old(self)@.reg),
    {
        let port = self.in_a_n_port();
        self.reg.inc_pc(1);
        self.put(Register8::A, input);
        self.put_pair(Register16::WZ, port.wrapping_add(1));
        11
    }

    /// EX (SP),HL.
    pub(crate) fn ex_sp_hl(&mut self, idx: Index) -> (cycles: i64)
        ensures
            done(final(self)@, cycles as int) == isa::ex_sp_hl(old(self)@, idx),
            final(self)@.reg.same_tables(old(self)@.reg),
    {
        let sp = self.get_pair(Register16::SP);
        let v = self.peek16(sp);
        let hl = self.get_index(idx);
        self.poke16(sp, hl);
        self.put_index(idx, v);
        self.put_pair(Register16::WZ, v);
        19
    }

    /// JP nn, OUT (n),A, IN A,(n), EX (SP),HL, EX DE,HL, DI, EI.
    pub(crate) fn misc_z3(&mut self, idx: Index, y: u8, input: u8) -> (r: (i64, Option<PortWrite>))
        ensures
            (Effect { next: final(self)@, cycles: r.0 as int, out: r.1 }) == isa::misc_z3(
                old(self)@,
                idx,
                y,
                input,
            ),
            final(self)@.reg.same_tables(old(self)@.reg),
    {
        if y == 0 {
            (self.jp_cc(0, true), None)
        } else if y == 2 {
            self.out_n_a()
        } else if y == 3 {
            (self.in_a_n(input), None)
        } else if y == 4 {
            (self.ex_sp_hl(idx), None)
        } else if y == 5 {
            self.reg.swap(Register16::DE, Register16::HL);
            (4, None)
        } else if y == 6 {
            self.iff1 = false;
            self.iff2 = false;
            (4, None)
        } else if y == 7 {
            self.iff1 = true;
            self.iff2 = true;
            self.enable_interrupt = true;
            (4, None)
        } else {
            (4, None)
        }
    }

    /// Execute opcode `op` of the unprefixed page.
    pub(crate) fn main_page(&mut self, idx: Index, op: u8, input: u8) -> (r: (
        i64,
        Option<PortWrite>,
    ))
        requires
            old(self)@.reg.selects(idx),
        ensures
            (Effect { next: final(self)@, cycles: r.0 as int, out: r.1 }) == isa::main_page(
                old(self)@,
                idx,
                op,
                input,
            ),
            final(self)@.reg.same_tables(old(self)@.reg),
    {
        let x = op / 64;
        let y = (op / 8) % 8;
        let z = op % 8;
        let p = y / 2;
        let q = y % 2;
        if x == 0 {
            let cycles = if z == 0 {
                self.relative(y)
            } else if z == 1 {
                if q == 0 {
                    self.ld_rp_nn(idx, p)
                } else {
                    self.add_hl_rp(idx, p)
                }
            } else if z == 2 {
                self.ld_indirect(idx, y)
            } else if z == 3 {
                self.inc_dec_rp(idx, p, q)
            } else if z == 4 {
                self.inc_dec_r(idx, y, false)
            } else if z == 5 {
                self.inc_dec_r(idx, y, true)
            } else if z == 6 {
                self.ld_r_n(idx, y)
            } else {
                self.accumulator_op(y)
            };
            (cycles, None)
        } else if x == 1 {
            if y == 6 && z == 6 {
                (self.do_halt(), None)
            } else {
                (self.ld_r_r(idx, y, z), None)
            }
        } else if x == 2 {
            (self.alu_r(idx, y, z), None)
        } else {
            if z == 3 {
                self.misc_z3(idx, y, input)
            } else {
                let cycles = if z == 0 {
                    self.ret_cc(y)
                } else if z == 1 {
                    if q == 0 {
                        self.pop_rp(idx, p)
                    } else {
                        self.misc_q1(idx, p)
                    }
                } else if z == 2 {
                    self.jp_cc(y, false)
                } else if z == 4 {
                    self.call_cc(y, false)
                } else if z == 5 {
                    if q == 0 {
                        self.push_rp(idx, p)
                    } else if p == 0 {
                        self.call_cc(0, true)
                    } else {
                        4
                    }
                } else if z == 6 {
                    self.alu_n(y)
                } else {
                    self.rst(y)
                };
                (cycles, None)
            }
        }
    }
}

} // verus!
