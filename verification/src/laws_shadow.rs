//! The shadow registers: no instruction touches them but the two
//! exchanges that are made for it.
use vstd::prelude::*;

use crate::isa::{
    accumulator_op, add_hl_rp, alu_n, alu_r, call_cc, field_x, field_y, field_z, halt, inc_dec_r,
    inc_dec_rp, jp_cc, ld_indirect, ld_r_n, ld_r_r, ld_rp_nn, main_page, misc_q1, misc_z3,
    pop_rp, push_rp, relative, ret_cc, rst,
};
use crate::isa_bits::{bits_indexed, bits_page, bits_plain};
use crate::isa_extended::{
    adc_sbc_hl, block_cp, block_in, block_ld, block_out, extended_page, im, in_r_c, ld_rp_direct,
    neg, out_c_r, retn, special,
};
use crate::machine::Machine;
use crate::registers::{Index, Register8};

verus! {

/// The registers of the shadow set: B', C', D', E', H', L', A', F' and the
/// two halves of WZ'.
pub open spec fn is_shadow(r: Register8) -> bool {
    r.slot() >= 16
}

/// The shadow set is the same after `relative`.
proof fn lemma_relative_keeps_shadow(m: Machine, y: u8, r: Register8)
    requires
        m.wf(),
        is_shadow(r),
        y != 1,
    ensures
        relative(m, y).next.get8(r) == m.get8(r),
{
}

/// The shadow set is the same after `ld_rp_nn`.
proof fn lemma_ld_rp_nn_keeps_shadow(m: Machine, idx: Index, p: u8, r: Register8)
    requires
        m.wf(),
        is_shadow(r),
        p < 4,
    ensures
        ld_rp_nn(m, idx, p).next.get8(r) == m.get8(r),
{
}

/// The shadow set is the same after `add_hl_rp`.
proof fn lemma_add_hl_rp_keeps_shadow(m: Machine, idx: Index, p: u8, r: Register8)
    requires
        m.wf(),
        is_shadow(r),
        p < 4,
    ensures
        add_hl_rp(m, idx, p).next.get8(r) == m.get8(r),
{
}

/// The shadow set is the same after `ld_indirect`.
proof fn lemma_ld_indirect_keeps_shadow(m: Machine, idx: Index, y: u8, r: Register8)
    requires
        m.wf(),
        is_shadow(r),
    ensures
        ld_indirect(m, idx, y).next.get8(r) == m.get8(r),
{
}

/// The shadow set is the same after `inc_dec_rp`.
proof fn lemma_inc_dec_rp_keeps_shadow(m: Machine, idx: Index, p: u8, q: u8, r: Register8)
    requires
        m.wf(),
        is_shadow(r),
        p < 4,
    ensures
        inc_dec_rp(m, idx, p, q).next.get8(r) == m.get8(r),
{
}

/// The shadow set is the same after `inc_dec_r`.
proof fn lemma_inc_dec_r_keeps_shadow(m: Machine, idx: Index, y: u8, dec: bool, r: Register8)
    requires
        m.wf(),
        is_shadow(r),
        y < 8,
    ensures
        inc_dec_r(m, idx, y, dec).next.get8(r) == m.get8(r),
{
}

/// The shadow set is the same after `ld_r_n`.
proof fn lemma_ld_r_n_keeps_shadow(m: Machine, idx: Index, y: u8, r: Register8)
    requires
        m.wf(),
        is_shadow(r),
        y < 8,
    ensures
        ld_r_n(m, idx, y).next.get8(r) == m.get8(r),
{
}

/// The shadow set is the same after `accumulator_op`.
proof fn lemma_accumulator_op_keeps_shadow(m: Machine, y: u8, r: Register8)
    requires
        m.wf(),
        is_shadow(r),
    ensures
        accumulator_op(m, y).next.get8(r) == m.get8(r),
{
}

/// The shadow set is the same after `halt`.
proof fn lemma_halt_keeps_shadow(m: Machine, r: Register8)
    requires
        m.wf(),
        is_shadow(r),
    ensures
        halt(m).next.get8(r) == m.get8(r),
{
}

/// The shadow set is the same after `ld_r_r`.
proof fn lemma_ld_r_r_keeps_shadow(m: Machine, idx: Index, y: u8, z: u8, r: Register8)
    requires
        m.wf(),
        is_shadow(r),
        y < 8 && z < 8,
    ensures
        ld_r_r(m, idx, y, z).next.get8(r) == m.get8(r),
{
}

/// The shadow set is the same after `alu_r`.
proof fn lemma_alu_r_keeps_shadow(m: Machine, idx: Index, y: u8, z: u8, r: Register8)
    requires
        m.wf(),
        is_shadow(r),
        z < 8,
    ensures
        alu_r(m, idx, y, z).next.get8(r) == m.get8(r),
{
}

/// The shadow set is the same after `alu_n`.
proof fn lemma_alu_n_keeps_shadow(m: Machine, y: u8, r: Register8)
    requires
        m.wf(),
        is_shadow(r),
    ensures
        alu_n(m, y).next.get8(r) == m.get8(r),
{
}

/// The shadow set is the same after `ret_cc`.
proof fn lemma_ret_cc_keeps_shadow(m: Machine, y: u8, r: Register8)
    requires
        m.wf(),
        is_shadow(r),
    ensures
        ret_cc(m, y).next.get8(r) == m.get8(r),
{
}

/// The shadow set is the same after `pop_rp`.
proof fn lemma_pop_rp_keeps_shadow(m: Machine, idx: Index, p: u8, r: Register8)
    requires
        m.wf(),
        is_shadow(r),
        p < 4,
    ensures
        pop_rp(m, idx, p).next.get8(r) == m.get8(r),
{
}

/// The shadow set is the same after `misc_q1`.
proof fn lemma_misc_q1_keeps_shadow(m: Machine, idx: Index, p: u8, r: Register8)
    requires
        m.wf(),
        is_shadow(r),
        p != 1,
    ensures
        misc_q1(m, idx, p).next.get8(r) == m.get8(r),
{
}

/// The shadow set is the same after `jp_cc`.
proof fn lemma_jp_cc_keeps_shadow(m: Machine, y: u8, always: bool, r: Register8)
    requires
        m.wf(),
        is_shadow(r),
    ensures
        jp_cc(m, y, always).next.get8(r) == m.get8(r),
{
}

/// The shadow set is the same after `misc_z3`.
proof fn lemma_misc_z3_keeps_shadow(m: Machine, idx: Index, y: u8, input: u8, r: Register8)
    requires
        m.wf(),
        is_shadow(r),
    ensures
        misc_z3(m, idx, y, input).next.get8(r) == m.get8(r),
{
}

/// The shadow set is the same after `call_cc`.
proof fn lemma_call_cc_keeps_shadow(m: Machine, y: u8, always: bool, r: Register8)
    requires
        m.wf(),
        is_shadow(r),
    ensures
        call_cc(m, y, always).next.get8(r) == m.get8(r),
{
}

/// The shadow set is the same after `push_rp`.
proof fn lemma_push_rp_keeps_shadow(m: Machine, idx: Index, p: u8, r: Register8)
    requires
        m.wf(),
        is_shadow(r),
        p < 4,
    ensures
        push_rp(m, idx, p).next.get8(r) == m.get8(r),
{
}

/// The shadow set is the same after `rst`.
proof fn lemma_rst_keeps_shadow(m: Machine, y: u8, r: Register8)
    requires
        m.wf(),
        is_shadow(r),
        y < 8,
    ensures
        rst(m, y).next.get8(r) == m.get8(r),
{
}

/// The shadow set is the same after `in_r_c`.
proof fn lemma_in_r_c_keeps_shadow(m: Machine, y: u8, input: u8, r: Register8)
    requires
        m.wf(),
        is_shadow(r),
        y < 8,
    ensures
        in_r_c(m, y, input).next.get8(r) == m.get8(r),
{
}

/// The shadow set is the same after `out_c_r`.
proof fn lemma_out_c_r_keeps_shadow(m: Machine, y: u8, r: Register8)
    requires
        m.wf(),
        is_shadow(r),
        y < 8,
    ensures
        out_c_r(m, y).next.get8(r) == m.get8(r),
{
}

/// The shadow set is the same after `adc_sbc_hl`.
proof fn lemma_adc_sbc_hl_keeps_shadow(m: Machine, p: u8, q: u8, r: Register8)
    requires
        m.wf(),
        is_shadow(r),
        p < 4,
    ensures
        adc_sbc_hl(m, p, q).next.get8(r) == m.get8(r),
{
}

/// The shadow set is the same after `ld_rp_direct`.
proof fn lemma_ld_rp_direct_keeps_shadow(m: Machine, p: u8, q: u8, r: Register8)
    requires
        m.wf(),
        is_shadow(r),
        p < 4,
    ensures
        ld_rp_direct(m, p, q).next.get8(r) == m.get8(r),
{
}

/// The shadow set is the same after `neg`.
proof fn lemma_neg_keeps_shadow(m: Machine, r: Register8)
    requires
        m.wf(),
        is_shadow(r),
    ensures
        neg(m).next.get8(r) == m.get8(r),
{
}

/// The shadow set is the same after `retn`.
proof fn lemma_retn_keeps_shadow(m: Machine, r: Register8)
    requires
        m.wf(),
        is_shadow(r),
    ensures
        retn(m).next.get8(r) == m.get8(r),
{
}

/// The shadow set is the same after `im`.
proof fn lemma_im_keeps_shadow(m: Machine, y: u8, r: Register8)
    requires
        m.wf(),
        is_shadow(r),
    ensures
        im(m, y).next.get8(r) == m.get8(r),
{
}

/// The shadow set is the same after `special`.
proof fn lemma_special_keeps_shadow(m: Machine, y: u8, r: Register8)
    requires
        m.wf(),
        is_shadow(r),
    ensures
        special(m, y).next.get8(r) == m.get8(r),
{
}

/// The shadow set is the same after `block_ld`.
proof fn lemma_block_ld_keeps_shadow(m: Machine, y: u8, r: Register8)
    requires
        m.wf(),
        is_shadow(r),
    ensures
        block_ld(m, y).next.get8(r) == m.get8(r),
{
}

/// The shadow set is the same after `block_cp`.
proof fn lemma_block_cp_keeps_shadow(m: Machine, y: u8, r: Register8)
    requires
        m.wf(),
        is_shadow(r),
    ensures
        block_cp(m, y).next.get8(r) == m.get8(r),
{
}

/// The shadow set is the same after `block_in`.
proof fn lemma_block_in_keeps_shadow(m: Machine, y: u8, input: u8, r: Register8)
    requires
        m.wf(),
        is_shadow(r),
    ensures
        block_in(m, y, input).next.get8(r) == m.get8(r),
{
}

/// The shadow set is the same after `block_out`.
proof fn lemma_block_out_keeps_shadow(m: Machine, y: u8, r: Register8)
    requires
        m.wf(),
        is_shadow(r),
    ensures
        block_out(m, y).next.get8(r) == m.get8(r),
{
}

/// The shadow set is the same after `bits_plain`.
proof fn lemma_bits_plain_keeps_shadow(m: Machine, op: u8, r: Register8)
    requires
        m.wf(),
        is_shadow(r),
    ensures
        bits_plain(m, op).next.get8(r) == m.get8(r),
{
}

/// The shadow set is the same after `bits_indexed`.
proof fn lemma_bits_indexed_keeps_shadow(m: Machine, idx: Index, d: u8, op: u8, r: Register8)
    requires
        m.wf(),
        is_shadow(r),
    ensures
        bits_indexed(m, idx, d, op).next.get8(r) == m.get8(r),
{
}

/// No instruction of the unprefixed page but EX AF,AF' (opcode 0x08) and
/// EXX (opcode 0xD9) changes a register of the shadow set.
pub proof fn law_shadows_kept(m: Machine, idx: Index, op: u8, input: u8, r: Register8)
    requires
        m.wf(),
        is_shadow(r),
        op != 0x08,
        op != 0xD9,
    ensures
        main_page(m, idx, op, input).next.get8(r) == m.get8(r),
{
    let x = field_x(op);
    let y = field_y(op);
    let z = field_z(op);
    let p = (y / 2) as u8;
    let q = (y % 2) as u8;
    if x == 0 {
        if z == 0 {
            lemma_relative_keeps_shadow(m, y, r);
        } else if z == 1 {
            lemma_ld_rp_nn_keeps_shadow(m, idx, p, r);
            lemma_add_hl_rp_keeps_shadow(m, idx, p, r);
        } else if z == 2 {
            lemma_ld_indirect_keeps_shadow(m, idx, y, r);
        } else if z == 3 {
            lemma_inc_dec_rp_keeps_shadow(m, idx, p, q, r);
        } else if z == 4 {
            lemma_inc_dec_r_keeps_shadow(m, idx, y, false, r);
        } else if z == 5 {
            lemma_inc_dec_r_keeps_shadow(m, idx, y, true, r);
        } else if z == 6 {
            lemma_ld_r_n_keeps_shadow(m, idx, y, r);
        } else {
            lemma_accumulator_op_keeps_shadow(m, y, r);
        }
    } else if x == 1 {
        lemma_halt_keeps_shadow(m, r);
        lemma_ld_r_r_keeps_shadow(m, idx, y, z, r);
    } else if x == 2 {
        lemma_alu_r_keeps_shadow(m, idx, y, z, r);
    } else {
        if z == 0 {
            lemma_ret_cc_keeps_shadow(m, y, r);
        } else if z == 1 {
            if q == 0 {
                lemma_pop_rp_keeps_shadow(m, idx, p, r);
            } else {
                lemma_misc_q1_keeps_shadow(m, idx, p, r);
            }
        } else if z == 2 {
            lemma_jp_cc_keeps_shadow(m, y, false, r);
        } else if z == 3 {
            lemma_misc_z3_keeps_shadow(m, idx, y, input, r);
        } else if z == 4 {
            lemma_call_cc_keeps_shadow(m, y, false, r);
        } else if z == 5 {
            lemma_push_rp_keeps_shadow(m, idx, p, r);
            lemma_call_cc_keeps_shadow(m, 0, true, r);
        } else if z == 6 {
            lemma_alu_n_keeps_shadow(m, y, r);
        } else {
            lemma_rst_keeps_shadow(m, y, r);
        }
    }
}

/// No instruction of the `ED` page changes a register of the shadow set.
pub proof fn law_shadows_kept_extended(m: Machine, op: u8, input: u8, r: Register8)
    requires
        m.wf(),
        is_shadow(r),
    ensures
        extended_page(m, op, input).next.get8(r) == m.get8(r),
{
    let x = field_x(op);
    let y = field_y(op);
    let z = field_z(op);
    let p = (y / 2) as u8;
    let q = (y % 2) as u8;
    if x == 1 {
        if z == 0 {
            lemma_in_r_c_keeps_shadow(m, y, input, r);
        } else if z == 1 {
            lemma_out_c_r_keeps_shadow(m, y, r);
        } else if z == 2 {
            lemma_adc_sbc_hl_keeps_shadow(m, p, q, r);
        } else if z == 3 {
            lemma_ld_rp_direct_keeps_shadow(m, p, q, r);
        } else if z == 4 {
            lemma_neg_keeps_shadow(m, r);
        } else if z == 5 {
            lemma_retn_keeps_shadow(m, r);
        } else if z == 6 {
            lemma_im_keeps_shadow(m, y, r);
        } else {
            lemma_special_keeps_shadow(m, y, r);
        }
    } else if x == 2 && y >= 4 && z < 4 {
        if z == 0 {
            lemma_block_ld_keeps_shadow(m, y, r);
        } else if z == 1 {
            lemma_block_cp_keeps_shadow(m, y, r);
        } else if z == 2 {
            lemma_block_in_keeps_shadow(m, y, input, r);
        } else {
            lemma_block_out_keeps_shadow(m, y, r);
        }
    }
}

/// No instruction of the `CB` page changes a register of the shadow set.
pub proof fn law_shadows_kept_bits(m: Machine, idx: Index, d: u8, op: u8, r: Register8)
    requires
        m.wf(),
        is_shadow(r),
    ensures
        bits_page(m, idx, d, op).next.get8(r) == m.get8(r),
{
    lemma_bits_plain_keeps_shadow(m, op, r);
    lemma_bits_indexed_keeps_shadow(m, idx, d, op, r);
}

} // verus!
