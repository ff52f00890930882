//! The semantics of the `CB` opcode page: rotates, shifts and the bit
//! instructions. T-states include those of the `CB` byte, not those of an
//! index prefix.
use vstd::prelude::*;

use crate::flags::{bit_spec, shift8_spec, with_bit, without_bit};
use crate::isa::{field_x, field_y, field_z};
use crate::machine::{done, Effect, Machine};
use crate::registers::{Index, Register16};

verus! {

/// The byte that operation `x` (0 rotate or shift, 2 RES, 3 SET) leaves of
/// `v`.
pub open spec fn changed(m: Machine, x: u8, y: u8, v: u8) -> u8 {
    if x == 0 {
        shift8_spec(y, v, m.f()).res
    } else if x == 2 {
        without_bit(y, v)
    } else {
        with_bit(y, v)
    }
}

/// The state with the flags that operation `x` on byte `v` sets: those of
/// the rotate or shift, or those of BIT with Y and X copied from `xy`. RES
/// and SET change no flag.
pub open spec fn flagged(m: Machine, x: u8, y: u8, v: u8, xy: u8) -> Machine {
    if x == 0 {
        m.with_f(shift8_spec(y, v, m.f()).f)
    } else if x == 1 {
        m.with_f(bit_spec(y, v, xy, m.f()))
    } else {
        m
    }
}

/// An instruction of the page on a register or on (HL).
pub open spec fn bits_plain(m: Machine, op: u8) -> Effect {
    let x = field_x(op);
    let y = field_y(op);
    let z = field_z(op);
    if z == 6 {
        let addr = m.get16(Register16::HL);
        let v = m.read8(addr);
        let m1 = flagged(m, x, y, v, (m.get16(Register16::WZ) / 256) as u8);
        if x == 1 {
            done(m1, 12)
        } else {
            done(m1.write8(addr, changed(m, x, y, v)), 15)
        }
    } else {
        let reg = Index::HL.table_r()[z as int];
        let v = m.get8(reg);
        let m1 = flagged(m, x, y, v, v);
        if x == 1 {
            done(m1, 8)
        } else {
            done(m1.set8(reg, changed(m, x, y, v)), 8)
        }
    }
}

/// An instruction of the page under an index prefix, with displacement
/// byte `d`: it works on `(IX+d)` or `(IY+d)` whatever `z` is, and, but for
/// BIT, also leaves the result in the register that `z` names.
pub open spec fn bits_indexed(m: Machine, idx: Index, d: u8, op: u8) -> Effect {
    let x = field_x(op);
    let y = field_y(op);
    let z = field_z(op);
    let addr = m.displaced(idx.pair(), d);
    let m0 = m.set16(Register16::WZ, addr);
    let v = m.read8(addr);
    let m1 = flagged(m0, x, y, v, (addr / 256) as u8);
    if x == 1 {
        done(m1, 16)
    } else {
        let w = changed(m, x, y, v);
        let m2 = m1.write8(addr, w);
        done(if z == 6 { m2 } else { m2.set8(Index::HL.table_r()[z as int], w) }, 19)
    }
}

/// The effect of opcode `op` of the `CB` page under index mode `idx`.
pub open spec fn bits_page(m: Machine, idx: Index, d: u8, op: u8) -> Effect {
    if idx == Index::HL {
        bits_plain(m, op)
    } else {
        bits_indexed(m, idx, d, op)
    }
}

} // verus!
