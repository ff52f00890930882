//! The semantics of the unprefixed opcode page, as functions from a machine
//! state to the effect of the instruction.
//!
//! Every function here takes the state as it is after the opcode byte was
//! fetched (PC points at the first operand byte) and the index mode `idx`
//! that a `DD` / `FD` prefix selected. The T-states of the prefix itself are
//! not included.
use vstd::prelude::*;

use crate::flags::{
    add16_spec, add8_spec, and8_spec, ccf_spec, cp8_spec, cpl_spec, daa_spec, dec8_spec,
    inc8_spec, or8_spec, rotate_a_spec, scf_spec, signed8, sub8_spec, xor8_spec,
};
use crate::machine::{done, word, wrap16, wrap8, Effect, Machine, PortWrite};
use crate::registers::{Index, Register16, Register8};

verus! {

/// The bit fields of an opcode byte, in the usual octal reading
/// `x = bits 7-6`, `y = bits 5-3`, `z = bits 2-0`.
pub open spec fn field_x(op: u8) -> u8 {
    op / 64
}

/// Bits 5-3 of an opcode byte.
pub open spec fn field_y(op: u8) -> u8 {
    (op / 8) % 8
}

/// Bits 2-0 of an opcode byte.
pub open spec fn field_z(op: u8) -> u8 {
    op % 8
}

/// T-states of an instruction with a memory operand: `plain` with `(HL)`,
/// `indexed` with `(IX+d)` or `(IY+d)`.
pub open spec fn timed(idx: Index, plain: int, indexed: int) -> int {
    if idx == Index::HL { plain } else { indexed }
}

/// NOP, EX AF,AF', DJNZ, JR and JR cc (`x = 0, z = 0`).
pub open spec fn relative(m: Machine, y: u8) -> Effect {
    if y == 0 {
        done(m, 4)
    } else if y == 1 {
        done(Machine { reg: m.reg.swap(Register16::AF, Register16::AF_), ..m }, 4)
    } else {
        let d = m.imm8();
        let m1 = m.skip(1);
        let target = wrap16(m1.pc() + signed8(d));
        if y == 2 {
            let b = wrap8(m.get8(Register8::B) - 1);
            let m2 = m1.set8(Register8::B, b);
            if b != 0 {
                done(m2.set16(Register16::WZ, target).jump(target), 13)
            } else {
                done(m2, 8)
            }
        } else if y == 3 || m.cond((y - 4) as u8) {
            done(m1.set16(Register16::WZ, target).jump(target), 12)
        } else {
            done(m1, 7)
        }
    }
}

/// LD rp,nn (`x = 0, z = 1, q = 0`).
pub open spec fn ld_rp_nn(m: Machine, idx: Index, p: u8) -> Effect {
    done(m.skip(2).set16(idx.table_sp()[p as int], m.imm16()), 10)
}

/// ADD HL,rp (`x = 0, z = 1, q = 1`); under a prefix the index register
/// takes the place of HL on both sides.
pub open spec fn add_hl_rp(m: Machine, idx: Index, p: u8) -> Effect {
    let hl = m.get16(idx.pair());
    let r = add16_spec(hl, m.get16(idx.table_sp()[p as int]), m.f());
    done(m.set16(Register16::WZ, wrap16(hl + 1)).set16(idx.pair(), r.res).with_f(r.f), 11)
}

/// The loads through BC, DE and a direct address (`x = 0, z = 2`).
pub open spec fn ld_indirect(m: Machine, idx: Index, y: u8) -> Effect {
    if y < 4 {
        let rp = if y < 2 { Register16::BC } else { Register16::DE };
        let addr = m.get16(rp);
        let m1 = if y % 2 == 0 {
            m.write8(addr, m.a())
        } else {
            m.set8(Register8::A, m.read8(addr))
        };
        done(m1.set16(Register16::WZ, wrap16(addr + 1)), 7)
    } else {
        let nn = m.imm16();
        let m1 = m.skip(2);
        let m2 = if y == 4 {
            m1.write16(nn, m.get16(idx.pair()))
        } else if y == 5 {
            m1.set16(idx.pair(), m.read16(nn))
        } else if y == 6 {
            m1.write8(nn, m.a())
        } else {
            m1.set8(Register8::A, m.read8(nn))
        };
        done(m2.set16(Register16::WZ, wrap16(nn + 1)), if y < 6 { 16 } else { 13 })
    }
}

/// INC rp and DEC rp (`x = 0, z = 3`).
pub open spec fn inc_dec_rp(m: Machine, idx: Index, p: u8, q: u8) -> Effect {
    let rp = idx.table_sp()[p as int];
    let v = m.get16(rp);
    done(m.set16(rp, wrap16(if q == 0 { v + 1 } else { v - 1 })), 6)
}

/// INC r and DEC r (`x = 0, z = 4` and `z = 5`), on a register or on the
/// memory operand.
pub open spec fn inc_dec_r(m: Machine, idx: Index, y: u8, dec: bool) -> Effect {
    if y == 6 {
        let addr = m.operand_addr(idx);
        let m1 = m.operand_taken(idx);
        let v = m1.read8(addr);
        let r = if dec { dec8_spec(v, m1.f()) } else { inc8_spec(v, m1.f()) };
        done(m1.write8(addr, r.res).with_f(r.f), timed(idx, 11, 19))
    } else {
        let reg = idx.table_r()[y as int];
        let v = m.get8(reg);
        let r = if dec { dec8_spec(v, m.f()) } else { inc8_spec(v, m.f()) };
        done(m.set8(reg, r.res).with_f(r.f), 4)
    }
}

/// LD r,n (`x = 0, z = 6`); with a memory operand the displacement comes
/// before the immediate byte.
pub open spec fn ld_r_n(m: Machine, idx: Index, y: u8) -> Effect {
    if y == 6 {
        let addr = m.operand_addr(idx);
        let m1 = m.operand_taken(idx);
        done(m1.skip(1).write8(addr, m1.imm8()), timed(idx, 10, 15))
    } else {
        done(m.skip(1).set8(idx.table_r()[y as int], m.imm8()), 7)
    }
}

/// RLCA, RRCA, RLA, RRA, DAA, CPL, SCF, CCF (`x = 0, z = 7`).
pub open spec fn accumulator_op(m: Machine, y: u8) -> Effect {
    let next = if y < 4 {
        let r = rotate_a_spec(y, m.a(), m.f());
        m.with_af(r.res, r.f)
    } else if y == 4 {
        let r = daa_spec(m.a(), m.f());
        m.with_af(r.res, r.f)
    } else if y == 5 {
        let r = cpl_spec(m.a(), m.f());
        m.with_af(r.res, r.f)
    } else if y == 6 {
        m.with_f(scf_spec(m.a(), m.f()))
    } else {
        m.with_f(ccf_spec(m.a(), m.f()))
    };
    done(next, 4)
}

/// HALT: the latch is set and PC stays on the HALT opcode, so that the
/// instruction runs again until an interrupt is accepted.
pub open spec fn halt(m: Machine) -> Effect {
    done(Machine { halt: true, ..m }.skip(-1), 4)
}

/// LD r,r' (`x = 1`). When one side is the memory operand, the register on
/// the other side is never an index half.
pub open spec fn ld_r_r(m: Machine, idx: Index, y: u8, z: u8) -> Effect {
    if y == 6 {
        let addr = m.operand_addr(idx);
        let m1 = m.operand_taken(idx);
        done(m1.write8(addr, m1.get8(Index::HL.table_r()[z as int])), timed(idx, 7, 15))
    } else if z == 6 {
        let addr = m.operand_addr(idx);
        let m1 = m.operand_taken(idx);
        done(m1.set8(Index::HL.table_r()[y as int], m1.read8(addr)), timed(idx, 7, 15))
    } else {
        done(m.set8(idx.table_r()[y as int], m.get8(idx.table_r()[z as int])), 4)
    }
}

/// The state after the accumulator operation `y` with operand `v`: 0 ADD,
/// 1 ADC, 2 SUB, 3 SBC, 4 AND, 5 XOR, 6 OR, 7 CP.
pub open spec fn alu(m: Machine, y: u8, v: u8) -> Machine {
    let a = m.a();
    let c = m.flags().c;
    if y == 0 {
        let r = add8_spec(a, v, false);
        m.with_af(r.res, r.f)
    } else if y == 1 {
        let r = add8_spec(a, v, c);
        m.with_af(r.res, r.f)
    } else if y == 2 {
        let r = sub8_spec(a, v, false);
        m.with_af(r.res, r.f)
    } else if y == 3 {
        let r = sub8_spec(a, v, c);
        m.with_af(r.res, r.f)
    } else if y == 4 {
        let r = and8_spec(a, v);
        m.with_af(r.res, r.f)
    } else if y == 5 {
        let r = xor8_spec(a, v);
        m.with_af(r.res, r.f)
    } else if y == 6 {
        let r = or8_spec(a, v);
        m.with_af(r.res, r.f)
    } else {
        m.with_f(cp8_spec(a, v))
    }
}

/// ALU A,r (`x = 2`).
pub open spec fn alu_r(m: Machine, idx: Index, y: u8, z: u8) -> Effect {
    if z == 6 {
        let addr = m.operand_addr(idx);
        let m1 = m.operand_taken(idx);
        done(alu(m1, y, m1.read8(addr)), timed(idx, 7, 15))
    } else {
        done(alu(m, y, m.get8(idx.table_r()[z as int])), 4)
    }
}

/// ALU A,n (`x = 3, z = 6`).
pub open spec fn alu_n(m: Machine, y: u8) -> Effect {
    done(alu(m.skip(1), y, m.imm8()), 7)
}

/// The state after a return: the top of the stack becomes PC and WZ.
pub open spec fn returned(m: Machine) -> Machine {
    let target = m.top();
    m.drop().set16(Register16::WZ, target).jump(target)
}

/// The state after a call of `target`: PC is pushed, then set.
pub open spec fn called(m: Machine, target: u16) -> Machine {
    m.push(m.pc()).set16(Register16::WZ, target).jump(target)
}

/// RET cc (`x = 3, z = 0`).
pub open spec fn ret_cc(m: Machine, y: u8) -> Effect {
    if m.cond(y) {
        done(returned(m), 11)
    } else {
        done(m, 5)
    }
}

/// POP rp (`x = 3, z = 1, q = 0`).
pub open spec fn pop_rp(m: Machine, idx: Index, p: u8) -> Effect {
    done(m.drop().set16(idx.table_af()[p as int], m.top()), 10)
}

/// The state after EXX: BC, DE, HL and WZ exchanged with their shadows.
pub open spec fn exx(m: Machine) -> Machine {
    Machine {
        reg: m.reg.swap(Register16::BC, Register16::BC_).swap(
            Register16::DE,
            Register16::DE_,
        ).swap(Register16::HL, Register16::HL_).swap(Register16::WZ, Register16::WZ_),
        ..m
    }
}

/// RET, EXX, JP (HL), LD SP,HL (`x = 3, z = 1, q = 1`).
pub open spec fn misc_q1(m: Machine, idx: Index, p: u8) -> Effect {
    if p == 0 {
        done(returned(m), 10)
    } else if p == 1 {
        done(exx(m), 4)
    } else if p == 2 {
        done(m.jump(m.get16(idx.pair())), 4)
    } else {
        done(m.set16(Register16::SP, m.get16(idx.pair())), 6)
    }
}

/// JP cc,nn (`x = 3, z = 2`) and, with `always`, JP nn.
pub open spec fn jp_cc(m: Machine, y: u8, always: bool) -> Effect {
    let nn = m.imm16();
    let m1 = m.skip(2).set16(Register16::WZ, nn);
    done(if always || m.cond(y) { m1.jump(nn) } else { m1 }, 10)
}

/// CALL cc,nn (`x = 3, z = 4`) and, with `always`, CALL nn.
pub open spec fn call_cc(m: Machine, y: u8, always: bool) -> Effect {
    let nn = m.imm16();
    let m1 = m.skip(2);
    if always || m.cond(y) {
        done(called(m1, nn), 17)
    } else {
        done(m1.set16(Register16::WZ, nn), 10)
    }
}

/// PUSH rp (`x = 3, z = 5, q = 0`).
pub open spec fn push_rp(m: Machine, idx: Index, p: u8) -> Effect {
    done(m.push(m.get16(idx.table_af()[p as int])), 11)
}

/// RST (`x = 3, z = 7`): a call of address `y * 8`.
pub open spec fn rst(m: Machine, y: u8) -> Effect {
    done(called(m, (y * 8) as u16), 11)
}

/// OUT (n),A: the port address is A in the high byte and `n` in the low.
pub open spec fn out_n_a(m: Machine) -> Effect {
    let n = m.imm8();
    Effect {
        next: m.skip(1).set16(Register16::WZ, word(m.a(), wrap8(n + 1))),
        cycles: 11,
        out: Some(PortWrite { port: word(m.a(), n), val: m.a() }),
    }
}

/// The port that IN A,(n) reads: A in the high byte and `n` in the low.
pub open spec fn in_a_n_port(m: Machine) -> u16 {
    word(m.a(), m.imm8())
}

/// IN A,(n) with the byte that the port gave; no flag changes.
pub open spec fn in_a_n(m: Machine, input: u8) -> Effect {
    done(
        m.skip(1).set8(Register8::A, input).set16(Register16::WZ, wrap16(in_a_n_port(m) + 1)),
        11,
    )
}

/// EX (SP),HL: the pair and the word on top of the stack change places.
pub open spec fn ex_sp_hl(m: Machine, idx: Index) -> Effect {
    let sp = m.get16(Register16::SP);
    let v = m.read16(sp);
    done(
        m.write16(sp, m.get16(idx.pair())).set16(idx.pair(), v).set16(Register16::WZ, v),
        19,
    )
}

/// JP nn, OUT (n),A, IN A,(n), EX (SP),HL, EX DE,HL, DI, EI (`x = 3,
/// z = 3`). The `CB` prefix at `y = 1` is decoded before this page.
pub open spec fn misc_z3(m: Machine, idx: Index, y: u8, input: u8) -> Effect {
    if y == 0 {
        jp_cc(m, 0, true)
    } else if y == 2 {
        out_n_a(m)
    } else if y == 3 {
        in_a_n(m, input)
    } else if y == 4 {
        ex_sp_hl(m, idx)
    } else if y == 5 {
        done(Machine { reg: m.reg.swap(Register16::DE, Register16::HL), ..m }, 4)
    } else if y == 6 {
        done(Machine { iff1: false, iff2: false, ..m }, 4)
    } else if y == 7 {
        done(Machine { iff1: true, iff2: true, enable_interrupt: true, ..m }, 4)
    } else {
        done(m, 4)
    }
}

/// The effect of the opcode `op` of the unprefixed page. `input` is the byte
/// that the port gave, for IN A,(n); no other instruction of the page
/// looks at it.
pub open spec fn main_page(m: Machine, idx: Index, op: u8, input: u8) -> Effect {
    let x = field_x(op);
    let y = field_y(op);
    let z = field_z(op);
    let p = y / 2;
    let q = y % 2;
    if x == 0 {
        if z == 0 {
            relative(m, y)
        } else if z == 1 {
            if q == 0 { ld_rp_nn(m, idx, p) } else { add_hl_rp(m, idx, p) }
        } else if z == 2 {
            ld_indirect(m, idx, y)
        } else if z == 3 {
            inc_dec_rp(m, idx, p, q)
        } else if z == 4 {
            inc_dec_r(m, idx, y, false)
        } else if z == 5 {
            inc_dec_r(m, idx, y, true)
        } else if z == 6 {
            ld_r_n(m, idx, y)
        } else {
            accumulator_op(m, y)
        }
    } else if x == 1 {
        if y == 6 && z == 6 { halt(m) } else { ld_r_r(m, idx, y, z) }
    } else if x == 2 {
        alu_r(m, idx, y, z)
    } else {
        if z == 0 {
            ret_cc(m, y)
        } else if z == 1 {
            if q == 0 { pop_rp(m, idx, p) } else { misc_q1(m, idx, p) }
        } else if z == 2 {
            jp_cc(m, y, false)
        } else if z == 3 {
            misc_z3(m, idx, y, input)
        } else if z == 4 {
            call_cc(m, y, false)
        } else if z == 5 {
            if q == 0 {
                push_rp(m, idx, p)
            } else if p == 0 {
                call_cc(m, 0, true)
            } else {
                done(m, 4)
            }
        } else if z == 6 {
            alu_n(m, y)
        } else {
            rst(m, y)
        }
    }
}

} // verus!
