//! The instructions that leave the flag register alone.
use vstd::prelude::*;

use crate::isa::{
    call_cc, called, ex_sp_hl, exx, field_x, field_y, field_z, halt, inc_dec_rp, jp_cc, ld_indirect,
    ld_r_n, ld_r_r, ld_rp_nn, main_page, misc_q1, misc_z3, pop_rp, push_rp, relative, ret_cc,
    returned, rst,
};
use crate::isa_bits::{bits_indexed, bits_page, bits_plain};
use crate::isa_extended::{extended_page, im, ld_rp_direct, out_c_r, retn, special};
use crate::laws::lemma_swap_bytes;
use crate::isa_step::{
    accepts_int, begin_spec, finish_spec, prefix_limit, prefixed, step_spec, woken, Decoded, Page,
};
use crate::machine::Machine;
use crate::registers::{Index, Register16, Register8};

verus! {

/// The opcodes of the unprefixed page whose instructions write no flag:
/// the loads, the 16-bit increments and decrements, the jumps, calls and
/// returns, the exchanges but EX AF,AF', the stack instructions but POP
/// AF, the port instructions, NOP, HALT, DI and EI.
pub open spec fn leaves_flags(op: u8) -> bool {
    let x = field_x(op);
    let y = field_y(op);
    let z = field_z(op);
    if x == 0 {
        (z == 0 && y != 1) || (z == 1 && y % 2 == 0) || z == 2 || z == 3 || z == 6
    } else if x == 1 {
        true
    } else if x == 2 {
        false
    } else {
        z == 0 || (z == 1 && y != 6) || z == 2 || z == 3 || z == 4 || z == 5 || z == 7
    }
}

/// A write to a register other than F keeps F.
pub proof fn lemma_set8_keeps_f(m: Machine, r: Register8, v: u8)
    requires
        m.wf(),
        r != Register8::F,
    ensures
        m.set8(r, v).f() == m.f(),
        m.set8(r, v).wf(),
{
}

/// A write to a pair other than AF keeps F.
pub proof fn lemma_set16_keeps_f(m: Machine, rp: Register16, v: u16)
    requires
        m.wf(),
        rp != Register16::AF,
    ensures
        m.set16(rp, v).f() == m.f(),
        m.set16(rp, v).wf(),
{
}

/// The flag register is the same after `called`.
proof fn lemma_called_keeps_f(m: Machine, target: u16)
    requires
        m.wf(),
    ensures
        called(m, target).f() == m.f(),
{
}

/// The flag register is the same after `returned`.
proof fn lemma_returned_keeps_f(m: Machine)
    requires
        m.wf(),
    ensures
        returned(m).f() == m.f(),
{
}

/// The flag register is the same after `exx`.
proof fn lemma_exx_keeps_f(m: Machine)
    requires
        m.wf(),
    ensures
        exx(m).f() == m.f(),
{
    let a1 = m.reg.swap(Register16::BC, Register16::BC_);
    let a2 = a1.swap(Register16::DE, Register16::DE_);
    let a3 = a2.swap(Register16::HL, Register16::HL_);
    lemma_swap_bytes(m.reg, Register16::BC, Register16::BC_);
    lemma_swap_bytes(a1, Register16::DE, Register16::DE_);
    lemma_swap_bytes(a2, Register16::HL, Register16::HL_);
    lemma_swap_bytes(a3, Register16::WZ, Register16::WZ_);
}

/// The flag register is the same after `relative`.
proof fn lemma_relative_keeps_f(m: Machine, y: u8)
    requires
        m.wf(),
        y != 1,
    ensures
        relative(m, y).next.f() == m.f(),
{
}

/// The flag register is the same after `ld_rp_nn`.
proof fn lemma_ld_rp_nn_keeps_f(m: Machine, idx: Index, p: u8)
    requires
        m.wf(),
        p < 4,
    ensures
        ld_rp_nn(m, idx, p).next.f() == m.f(),
{
    lemma_set16_keeps_f(m.skip(2), idx.table_sp()[p as int], m.imm16());
}

/// The flag register is the same after `ld_indirect`.
proof fn lemma_ld_indirect_keeps_f(m: Machine, idx: Index, y: u8)
    requires
        m.wf(),
    ensures
        ld_indirect(m, idx, y).next.f() == m.f(),
{
}

/// The flag register is the same after `inc_dec_rp`.
proof fn lemma_inc_dec_rp_keeps_f(m: Machine, idx: Index, p: u8, q: u8)
    requires
        m.wf(),
        p < 4,
    ensures
        inc_dec_rp(m, idx, p, q).next.f() == m.f(),
{
    let rp = idx.table_sp()[p as int];
    let v = m.get16(rp);
    lemma_set16_keeps_f(m, rp, crate::machine::wrap16(if q == 0 { v + 1 } else { v - 1 }));
}

/// The flag register is the same after `ld_r_n`.
proof fn lemma_ld_r_n_keeps_f(m: Machine, idx: Index, y: u8)
    requires
        m.wf(),
        y < 8,
    ensures
        ld_r_n(m, idx, y).next.f() == m.f(),
{
    if y != 6 {
        lemma_set8_keeps_f(m.skip(1), idx.table_r()[y as int], m.imm8());
    }
}

/// The flag register is the same after `ld_r_r`.
proof fn lemma_ld_r_r_keeps_f(m: Machine, idx: Index, y: u8, z: u8)
    requires
        m.wf(),
        y < 8,
        z < 8,
        !(y == 6 && z == 6),
    ensures
        ld_r_r(m, idx, y, z).next.f() == m.f(),
{
    if y == 6 {
    } else if z == 6 {
        let m1 = m.operand_taken(idx);
        lemma_set8_keeps_f(m1, Index::HL.table_r()[y as int], m1.read8(m.operand_addr(idx)));
    } else {
        lemma_set8_keeps_f(m, idx.table_r()[y as int], m.get8(idx.table_r()[z as int]));
    }
}

/// The flag register is the same after `pop_rp`.
proof fn lemma_pop_rp_keeps_f(m: Machine, idx: Index, p: u8)
    requires
        m.wf(),
        p < 3,
    ensures
        pop_rp(m, idx, p).next.f() == m.f(),
{
    lemma_set16_keeps_f(m.drop(), idx.table_af()[p as int], m.top());
}

/// The flag register is the same after `misc_q1`.
proof fn lemma_misc_q1_keeps_f(m: Machine, idx: Index, p: u8)
    requires
        m.wf(),
    ensures
        misc_q1(m, idx, p).next.f() == m.f(),
{
    lemma_returned_keeps_f(m);
    lemma_exx_keeps_f(m);
}

/// The flag register is the same after `jp_cc`.
proof fn lemma_jp_cc_keeps_f(m: Machine, y: u8, always: bool)
    requires
        m.wf(),
    ensures
        jp_cc(m, y, always).next.f() == m.f(),
{
}

/// The flag register is the same after `call_cc`.
proof fn lemma_call_cc_keeps_f(m: Machine, y: u8, always: bool)
    requires
        m.wf(),
    ensures
        call_cc(m, y, always).next.f() == m.f(),
{
    lemma_called_keeps_f(m.skip(2), m.imm16());
}

/// The flag register is the same after `ex_sp_hl`.
proof fn lemma_ex_sp_hl_keeps_f(m: Machine, idx: Index)
    requires
        m.wf(),
    ensures
        ex_sp_hl(m, idx).next.f() == m.f(),
{
}

/// The flag register is the same after `misc_z3`.
proof fn lemma_misc_z3_keeps_f(m: Machine, idx: Index, y: u8, input: u8)
    requires
        m.wf(),
    ensures
        misc_z3(m, idx, y, input).next.f() == m.f(),
{
    lemma_jp_cc_keeps_f(m, 0, true);
    lemma_ex_sp_hl_keeps_f(m, idx);
    lemma_swap_bytes(m.reg, Register16::DE, Register16::HL);
}

/// The flag register is the same after `push_rp`.
proof fn lemma_push_rp_keeps_f(m: Machine, idx: Index, p: u8)
    requires
        m.wf(),
    ensures
        push_rp(m, idx, p).next.f() == m.f(),
{
}

/// The flag register is the same after an instruction of the group `x = 0`
/// that writes no flag.
proof fn lemma_x0_keeps_f(m: Machine, idx: Index, op: u8, input: u8)
    requires
        m.wf(),
        leaves_flags(op),
        field_x(op) == 0,
    ensures
        main_page(m, idx, op, input).next.f() == m.f(),
{
    let y = field_y(op);
    let z = field_z(op);
    if z == 0 {
        lemma_relative_keeps_f(m, y);
    } else if z == 1 {
        lemma_ld_rp_nn_keeps_f(m, idx, y / 2);
    } else if z == 2 {
        lemma_ld_indirect_keeps_f(m, idx, y);
    } else if z == 3 {
        lemma_inc_dec_rp_keeps_f(m, idx, y / 2, y % 2);
    } else {
        lemma_ld_r_n_keeps_f(m, idx, y);
    }
}

/// The flag register is the same after an instruction of the group `x = 1`
/// that writes no flag.
proof fn lemma_x1_keeps_f(m: Machine, idx: Index, op: u8, input: u8)
    requires
        m.wf(),
        field_x(op) == 1,
    ensures
        main_page(m, idx, op, input).next.f() == m.f(),
{
    let y = field_y(op);
    let z = field_z(op);
    if y == 6 && z == 6 {
        assert(halt(m).next.f() == m.f());
    } else {
        lemma_ld_r_r_keeps_f(m, idx, y, z);
    }
}

/// The flag register is the same after an instruction of the group `x = 3`
/// that writes no flag.
proof fn lemma_x3_keeps_f(m: Machine, idx: Index, op: u8, input: u8)
    requires
        m.wf(),
        leaves_flags(op),
        field_x(op) == 3,
    ensures
        main_page(m, idx, op, input).next.f() == m.f(),
{
    let y = field_y(op);
    let z = field_z(op);
    if z == 0 {
        lemma_returned_keeps_f(m);
        assert(ret_cc(m, y).next.f() == m.f());
    } else if z == 1 {
        if y % 2 == 0 {
            lemma_pop_rp_keeps_f(m, idx, y / 2);
        } else {
            lemma_misc_q1_keeps_f(m, idx, y / 2);
        }
    } else if z == 2 {
        lemma_jp_cc_keeps_f(m, y, false);
    } else if z == 3 {
        lemma_misc_z3_keeps_f(m, idx, y, input);
    } else if z == 4 {
        lemma_call_cc_keeps_f(m, y, false);
    } else if z == 5 {
        lemma_call_cc_keeps_f(m, 0, true);
        lemma_push_rp_keeps_f(m, idx, y / 2);
    } else {
        lemma_called_keeps_f(m, (y * 8) as u16);
        assert(rst(m, y).next.f() == m.f());
    }
}

/// An instruction of the unprefixed page that writes no flag, and so each
/// one that neither reads nor writes F, leaves the F register as it was,
/// bit for bit, under every index mode.
pub proof fn law_flags_kept(m: Machine, idx: Index, op: u8, input: u8)
    requires
        m.wf(),
        leaves_flags(op),
    ensures
        main_page(m, idx, op, input).next.f() == m.f(),
{
    if field_x(op) == 0 {
        lemma_x0_keeps_f(m, idx, op, input);
    } else if field_x(op) == 1 {
        lemma_x1_keeps_f(m, idx, op, input);
    } else {
        lemma_x3_keeps_f(m, idx, op, input);
    }
}

/// The opcodes of the `ED` page whose instructions write no flag: OUT
/// (C),r, the 16-bit loads through an address, RETN and RETI, IM, LD I,A
/// and LD R,A, and the opcodes to which no instruction is assigned.
pub open spec fn extended_leaves_flags(op: u8) -> bool {
    let x = field_x(op);
    let y = field_y(op);
    let z = field_z(op);
    if x == 1 {
        z == 1 || z == 3 || z == 5 || z == 6 || (z == 7 && (y < 2 || y >= 6))
    } else {
        !(x == 2 && y >= 4 && z < 4)
    }
}

/// The opcodes of the `CB` page whose instructions write no flag: RES and
/// SET.
pub open spec fn bits_leaves_flags(op: u8) -> bool {
    field_x(op) >= 2
}

/// The flag register is the same after `ld_rp_direct`.
proof fn lemma_ld_rp_direct_keeps_f(m: Machine, p: u8, q: u8)
    requires
        m.wf(),
        p < 4,
    ensures
        ld_rp_direct(m, p, q).next.f() == m.f(),
{
    lemma_set16_keeps_f(m.skip(2), Index::HL.table_sp()[p as int], m.read16(m.imm16()));
}

/// The flag register is the same after `retn`.
proof fn lemma_retn_keeps_f(m: Machine)
    requires
        m.wf(),
    ensures
        retn(m).next.f() == m.f(),
{
    lemma_returned_keeps_f(m);
}

/// An instruction of the `ED` page that writes no flag leaves the F
/// register as it was, bit for bit.
pub proof fn law_flags_kept_extended(m: Machine, op: u8, input: u8)
    requires
        m.wf(),
        extended_leaves_flags(op),
    ensures
        extended_page(m, op, input).next.f() == m.f(),
{
    let y = field_y(op);
    let z = field_z(op);
    if field_x(op) == 1 {
        if z == 1 {
            assert(out_c_r(m, y).next.f() == m.f());
        } else if z == 3 {
            lemma_ld_rp_direct_keeps_f(m, y / 2, y % 2);
        } else if z == 5 {
            lemma_retn_keeps_f(m);
        } else if z == 6 {
            assert(im(m, y).next.f() == m.f());
        } else {
            assert(special(m, y).next.f() == m.f());
        }
    }
}

/// The flag register is the same after `bits_plain`.
proof fn lemma_bits_plain_keeps_f(m: Machine, op: u8)
    requires
        m.wf(),
        bits_leaves_flags(op),
    ensures
        bits_plain(m, op).next.f() == m.f(),
{
    let z = field_z(op);
    if z != 6 {
        let reg = Index::HL.table_r()[z as int];
        lemma_set8_keeps_f(
            m,
            reg,
            crate::isa_bits::changed(m, field_x(op), field_y(op), m.get8(reg)),
        );
    }
}

/// The flag register is the same after `bits_indexed`.
proof fn lemma_bits_indexed_keeps_f(m: Machine, idx: Index, d: u8, op: u8)
    requires
        m.wf(),
        bits_leaves_flags(op),
    ensures
        bits_indexed(m, idx, d, op).next.f() == m.f(),
{
    let z = field_z(op);
    let addr = m.displaced(idx.pair(), d);
    let m0 = m.set16(Register16::WZ, addr);
    lemma_set16_keeps_f(m, Register16::WZ, addr);
    if z != 6 {
        let w = crate::isa_bits::changed(m, field_x(op), field_y(op), m.read8(addr));
        lemma_set8_keeps_f(m0.write8(addr, w), Index::HL.table_r()[z as int], w);
    }
}

/// RES and SET leave the F register as it was, bit for bit, on a register,
/// on (HL) and on an indexed byte.
pub proof fn law_flags_kept_bits(m: Machine, idx: Index, d: u8, op: u8)
    requires
        m.wf(),
        bits_leaves_flags(op),
    ensures
        bits_page(m, idx, d, op).next.f() == m.f(),
{
    lemma_bits_plain_keeps_f(m, op);
    lemma_bits_indexed_keeps_f(m, idx, d, op);
}

/// Whether the decoded instruction writes no flag.
pub open spec fn decoded_leaves_flags(d: Decoded) -> bool {
    match d.page {
        Page::Main => leaves_flags(d.opcode),
        Page::Extended => extended_leaves_flags(d.opcode),
        Page::Bits => bits_leaves_flags(d.opcode),
        Page::Done => true,
    }
}

/// Following the prefixes changes neither F nor the shape of the state.
proof fn lemma_prefixed_keeps_f(m: Machine, idx: Index, op: u8, cycles: int, left: nat)
    requires
        m.wf(),
    ensures
        prefixed(m, idx, op, cycles, left).0.f() == m.f(),
        prefixed(m, idx, op, cycles, left).0.wf(),
    decreases left,
{
    if (op == 0xDD || op == 0xFD) && left > 0 {
        lemma_prefixed_keeps_f(
            m.m1(),
            if op == 0xDD { Index::IX } else { Index::IY },
            m.imm8(),
            cycles + 4,
            (left - 1) as nat,
        );
    }
}

/// The first half of a step changes neither F nor the shape of the state.
proof fn lemma_begin_keeps_f(m: Machine)
    requires
        m.wf(),
    ensures
        begin_spec(m).0.f() == m.f(),
        begin_spec(m).0.wf(),
{
    reveal(begin_spec);
    let m0 = Machine { enable_interrupt: false, ..m };
    if m.nmi_pending {
        let m1 = woken(Machine { nmi_pending: false, iff1: false, ..m0 });
        lemma_called_keeps_f(m1, 0x0066);
    } else if accepts_int(m) {
        let m1 = woken(Machine { int_pending: false, iff1: false, iff2: false, ..m0 });
        if m.reg.im == 0 {
            lemma_prefixed_keeps_f(m1, Index::HL, m.int_data, 2, prefix_limit());
            let r = prefixed(m1, Index::HL, m.int_data, 2, prefix_limit());
            crate::registers::lemma_patch_selects(r.0.reg, r.1.index);
        } else if m.reg.im == 1 {
            lemma_called_keeps_f(m1, 0x0038);
        } else {
            lemma_called_keeps_f(
                m1,
                m1.read16(crate::machine::word(m.reg.i, ((m.int_data / 2) * 2) as u8)),
            );
        }
    } else {
        lemma_prefixed_keeps_f(m0.m1(), Index::HL, m0.imm8(), 0, prefix_limit());
        let r = prefixed(m0.m1(), Index::HL, m0.imm8(), 0, prefix_limit());
        crate::registers::lemma_patch_selects(r.0.reg, r.1.index);
    }
}

/// A whole step leaves the F register as it was, bit for bit, when the
/// instruction that it runs writes no flag; so does the acceptance of an
/// interrupt.
pub proof fn law_step_keeps_flags(m: Machine, input: u8)
    requires
        m.wf(),
        decoded_leaves_flags(begin_spec(m).1),
    ensures
        step_spec(m, input).next.f() == m.f(),
{
    lemma_begin_keeps_f(m);
    let m1 = begin_spec(m).0;
    let d = begin_spec(m).1;
    reveal(finish_spec);
    match d.page {
        Page::Main => law_flags_kept(m1, d.index, d.opcode, input),
        Page::Extended => law_flags_kept_extended(m1, d.opcode, input),
        Page::Bits => law_flags_kept_bits(m1, d.index, d.disp, d.opcode),
        Page::Done => {},
    }
}

} // verus!
