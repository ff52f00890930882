//! The semantics of the `ED` opcode page. An index prefix before `ED` has no
//! effect, so these instructions always work on HL. T-states include those
//! of the `ED` byte.
use vstd::prelude::*;

use crate::flags::{
    adc16_spec, block_cp_flags, block_io_flags, block_ld_flags, even_parity, load_flags,
    neg8_spec, rld_spec, rrd_spec, sbc16_spec, Flags,
};
use crate::isa::{field_x, field_y, field_z, returned};
use crate::machine::{done, wrap16, wrap8, Effect, Machine, PortWrite};
use crate::registers::{Index, Register16, Register8, RegistersView};

verus! {

/// IN r,(C) with the byte that port BC gave: S, Z and parity from the byte,
/// H and N clear. With `y = 6` only the flags are set.
pub open spec fn in_r_c(m: Machine, y: u8, input: u8) -> Effect {
    let m1 = m.set16(Register16::WZ, wrap16(m.get16(Register16::BC) + 1)).with_f(
        load_flags(input, even_parity(input), m.f()),
    );
    done(if y == 6 { m1 } else { m1.set8(Index::HL.table_r()[y as int], input) }, 12)
}

/// OUT (C),r: the register goes to port BC; with `y = 6` a zero goes out.
pub open spec fn out_c_r(m: Machine, y: u8) -> Effect {
    let port = m.get16(Register16::BC);
    Effect {
        next: m.set16(Register16::WZ, wrap16(port + 1)),
        cycles: 12,
        out: Some(
            PortWrite { port, val: if y == 6 { 0 } else { m.get8(Index::HL.table_r()[y as int]) } },
        ),
    }
}

/// SBC HL,rp (`q = 0`) and ADC HL,rp (`q = 1`).
pub open spec fn adc_sbc_hl(m: Machine, p: u8, q: u8) -> Effect {
    let hl = m.get16(Register16::HL);
    let v = m.get16(Index::HL.table_sp()[p as int]);
    let r = if q == 0 { sbc16_spec(hl, v, m.flags().c) } else { adc16_spec(hl, v, m.flags().c) };
    done(
        m.set16(Register16::WZ, wrap16(hl + 1)).set16(Register16::HL, r.res).with_f(r.f),
        15,
    )
}

/// LD (nn),rp (`q = 0`) and LD rp,(nn) (`q = 1`).
pub open spec fn ld_rp_direct(m: Machine, p: u8, q: u8) -> Effect {
    let nn = m.imm16();
    let rp = Index::HL.table_sp()[p as int];
    let m1 = m.skip(2);
    let m2 = if q == 0 { m1.write16(nn, m.get16(rp)) } else { m1.set16(rp, m.read16(nn)) };
    done(m2.set16(Register16::WZ, wrap16(nn + 1)), 20)
}

/// NEG.
pub open spec fn neg(m: Machine) -> Effect {
    let r = neg8_spec(m.a());
    done(m.with_af(r.res, r.f), 8)
}

/// RETN and RETI: return, and copy IFF2 to IFF1.
pub open spec fn retn(m: Machine) -> Effect {
    done(Machine { iff1: m.iff2, ..returned(m) }, 14)
}

/// The interrupt mode that IM selects with field `y`.
pub open spec fn mode_of(y: u8) -> u8 {
    if y % 4 < 2 { 0 } else { (y % 4 - 1) as u8 }
}

/// IM 0, IM 1, IM 2.
pub open spec fn im(m: Machine, y: u8) -> Effect {
    done(Machine { reg: RegistersView { im: mode_of(y), ..m.reg }, ..m }, 8)
}

/// LD I,A; LD R,A; LD A,I; LD A,R; RRD; RLD (`z = 7`). The loads of A from
/// I and R put IFF2 into P/V.
pub open spec fn special(m: Machine, y: u8) -> Effect {
    if y == 0 {
        done(Machine { reg: RegistersView { i: m.a(), ..m.reg }, ..m }, 9)
    } else if y == 1 {
        done(Machine { reg: RegistersView { r: m.a(), ..m.reg }, ..m }, 9)
    } else if y == 2 {
        done(m.with_af(m.reg.i, load_flags(m.reg.i, m.iff2, m.f())), 9)
    } else if y == 3 {
        done(m.with_af(m.reg.r, load_flags(m.reg.r, m.iff2, m.f())), 9)
    } else if y == 4 || y == 5 {
        let hl = m.get16(Register16::HL);
        let v = m.read8(hl);
        let r = if y == 4 { rrd_spec(m.a(), v, m.f()) } else { rld_spec(m.a(), v, m.f()) };
        done(m.write8(hl, r.m).set16(Register16::WZ, wrap16(hl + 1)).with_af(r.a, r.f), 18)
    } else {
        done(m, 8)
    }
}

/// Direction of a block instruction: up for even `y`, down for odd.
pub open spec fn step_of(y: u8) -> int {
    if y % 2 == 0 { 1 } else { -1 }
}

/// The effect of a block instruction once its single step left state `m1`:
/// if it repeats, PC goes back to the instruction and 21 T-states are
/// charged, else 16.
pub open spec fn repeated(m1: Machine, again: bool, out: Option<PortWrite>) -> Effect {
    if again {
        Effect {
            next: m1.skip(-2).set16(Register16::WZ, wrap16(m1.pc() - 1)),
            cycles: 21,
            out,
        }
    } else {
        Effect { next: m1, cycles: 16, out }
    }
}

/// LDI, LDD, LDIR, LDDR: one byte goes from (HL) to (DE), both pointers
/// move, BC counts down; the repeating forms go on while BC is not zero.
pub open spec fn block_ld(m: Machine, y: u8) -> Effect {
    let hl = m.get16(Register16::HL);
    let de = m.get16(Register16::DE);
    let bc = wrap16(m.get16(Register16::BC) - 1);
    let v = m.read8(hl);
    let m1 = m.write8(de, v).set16(Register16::HL, wrap16(hl + step_of(y))).set16(
        Register16::DE,
        wrap16(de + step_of(y)),
    ).set16(Register16::BC, bc).with_f(block_ld_flags(m.a(), v, bc != 0, m.f()));
    repeated(m1, y >= 6 && bc != 0, None)
}

/// CPI, CPD, CPIR, CPDR: A is compared with (HL), the pointer moves, BC
/// counts down; the repeating forms go on while BC is not zero and the
/// byte differs from A.
pub open spec fn block_cp(m: Machine, y: u8) -> Effect {
    let hl = m.get16(Register16::HL);
    let bc = wrap16(m.get16(Register16::BC) - 1);
    let f = block_cp_flags(m.a(), m.read8(hl), bc != 0, m.f());
    let m1 = m.set16(Register16::HL, wrap16(hl + step_of(y))).set16(Register16::BC, bc).set16(
        Register16::WZ,
        wrap16(m.get16(Register16::WZ) + step_of(y)),
    ).with_f(f);
    repeated(m1, y >= 6 && bc != 0 && !Flags::of(f).z, None)
}

/// INI, IND, INIR, INDR with the byte that port BC gave: the byte goes to
/// (HL), the pointer moves, B counts down; the repeating forms go on while
/// B is not zero.
pub open spec fn block_in(m: Machine, y: u8, input: u8) -> Effect {
    let hl = m.get16(Register16::HL);
    let b = wrap8(m.get8(Register8::B) - 1);
    let k = wrap8(m.get8(Register8::C) + step_of(y));
    let m1 = m.write8(hl, input).set16(
        Register16::WZ,
        wrap16(m.get16(Register16::BC) + step_of(y)),
    ).set8(Register8::B, b).set16(Register16::HL, wrap16(hl + step_of(y))).with_f(
        block_io_flags(b, input, k),
    );
    repeated(m1, y >= 6 && b != 0, None)
}

/// OUTI, OUTD, OTIR, OTDR: B counts down, then the byte at (HL) goes to
/// port BC and the pointer moves; the repeating forms go on while B is not
/// zero.
pub open spec fn block_out(m: Machine, y: u8) -> Effect {
    let hl = wrap16(m.get16(Register16::HL) + step_of(y));
    let v = m.read8(m.get16(Register16::HL));
    let b = wrap8(m.get8(Register8::B) - 1);
    let m0 = m.set8(Register8::B, b);
    let port = m0.get16(Register16::BC);
    let m1 = m0.set16(Register16::HL, hl).set16(Register16::WZ, wrap16(port + step_of(y))).with_f(
        block_io_flags(b, v, (hl % 256) as u8),
    );
    repeated(m1, y >= 6 && b != 0, Some(PortWrite { port, val: v }))
}

/// Whether opcode `op` of the `ED` page reads a port.
pub open spec fn extended_reads(op: u8) -> bool {
    ||| field_x(op) == 1 && field_z(op) == 0
    ||| field_x(op) == 2 && field_z(op) == 2 && field_y(op) >= 4
}

/// The effect of opcode `op` of the `ED` page. `input` is the byte that
/// port BC gave, for the instructions that read it. An opcode to which no
/// instruction is assigned does nothing in 8 T-states.
pub open spec fn extended_page(m: Machine, op: u8, input: u8) -> Effect {
    let x = field_x(op);
    let y = field_y(op);
    let z = field_z(op);
    let p = y / 2;
    let q = y % 2;
    if x == 1 {
        if z == 0 {
            in_r_c(m, y, input)
        } else if z == 1 {
            out_c_r(m, y)
        } else if z == 2 {
            adc_sbc_hl(m, p, q)
        } else if z == 3 {
            ld_rp_direct(m, p, q)
        } else if z == 4 {
            neg(m)
        } else if z == 5 {
            retn(m)
        } else if z == 6 {
            im(m, y)
        } else {
            special(m, y)
        }
    } else if x == 2 && y >= 4 && z < 4 {
        if z == 0 {
            block_ld(m, y)
        } else if z == 1 {
            block_cp(m, y)
        } else if z == 2 {
            block_in(m, y, input)
        } else {
            block_out(m, y)
        }
    } else {
        done(m, 8)
    }
}

} // verus!
