//! Laws of the instruction set that hold in every state, proved from the
//! semantics.
use vstd::prelude::*;

use crate::isa::{exx, main_page};
use crate::isa_extended::extended_page;
use crate::isa_bits::bits_page;
use crate::isa_step::{
    accepts_int, begin_spec, finish_spec, port_read, prefix_limit, prefixed, step_reads,
    step_spec, Decoded, Page,
};
use crate::machine::Machine;
use crate::registers::{Index, Register16, RegistersView};

verus! {

/// Exchanging two different pairs twice gives the register file back.
pub proof fn lemma_swap_twice(r: RegistersView, r1: Register16, r2: Register16)
    requires
        r.bank.len() == 26,
        r1 != r2,
    ensures
        r.swap(r1, r2).swap(r1, r2) == r,
{
    reveal(RegistersView::get16);
    let s = r.swap(r1, r2);
    let t = s.swap(r1, r2);
    assert(t.bank =~= r.bank);
}

/// Exchanging two different pairs exchanges their four bytes and nothing
/// else.
pub proof fn lemma_swap_bytes(r: RegistersView, r1: Register16, r2: Register16)
    requires
        r.bank.len() == 26,
        r1 != r2,
    ensures
        r.swap(r1, r2) == (RegistersView {
            bank: r.bank.update(r1.high().slot(), r.get8(r2.high())).update(
                r1.low().slot(),
                r.get8(r2.low()),
            ).update(r2.high().slot(), r.get8(r1.high())).update(
                r2.low().slot(),
                r.get8(r1.low()),
            ),
            ..r
        }),
{
    reveal(RegistersView::get16);
    let s = r.swap(r1, r2);
    let b = r.bank.update(r1.high().slot(), r.get8(r2.high())).update(
        r1.low().slot(),
        r.get8(r2.low()),
    ).update(r2.high().slot(), r.get8(r1.high())).update(r2.low().slot(), r.get8(r1.low()));
    assert(s.bank =~= b);
}

/// After EX AF,AF' twice, AF and AF' hold what they held before, and so
/// does every other part of the state.
pub proof fn law_ex_af_twice(m: Machine, idx: Index, input: u8)
    requires
        m.wf(),
    ensures
        main_page(main_page(m, idx, 0x08, input).next, idx, 0x08, input).next == m,
        main_page(m, idx, 0x08, input).next.get16(Register16::AF) == m.get16(Register16::AF_),
        main_page(m, idx, 0x08, input).next.get16(Register16::AF_) == m.get16(Register16::AF),
{
    lemma_swap_twice(m.reg, Register16::AF, Register16::AF_);
    reveal(RegistersView::get16);
}

/// After EXX twice, BC, DE and HL hold what they held before, and so does
/// every other part of the state.
pub proof fn law_exx_twice(m: Machine, idx: Index, input: u8)
    requires
        m.wf(),
    ensures
        main_page(main_page(m, idx, 0xD9, input).next, idx, 0xD9, input).next == m,
        main_page(m, idx, 0xD9, input).next.get16(Register16::BC) == m.get16(Register16::BC_),
        main_page(m, idx, 0xD9, input).next.get16(Register16::DE) == m.get16(Register16::DE_),
        main_page(m, idx, 0xD9, input).next.get16(Register16::HL) == m.get16(Register16::HL_),
{
    let a1 = m.reg.swap(Register16::BC, Register16::BC_);
    let a2 = a1.swap(Register16::DE, Register16::DE_);
    let a3 = a2.swap(Register16::HL, Register16::HL_);
    let a4 = a3.swap(Register16::WZ, Register16::WZ_);
    lemma_swap_bytes(m.reg, Register16::BC, Register16::BC_);
    lemma_swap_bytes(a1, Register16::DE, Register16::DE_);
    lemma_swap_bytes(a2, Register16::HL, Register16::HL_);
    lemma_swap_bytes(a3, Register16::WZ, Register16::WZ_);
    assert(exx(m).reg == a4);
    let b1 = a4.swap(Register16::BC, Register16::BC_);
    let b2 = b1.swap(Register16::DE, Register16::DE_);
    let b3 = b2.swap(Register16::HL, Register16::HL_);
    let b4 = b3.swap(Register16::WZ, Register16::WZ_);
    lemma_swap_bytes(a4, Register16::BC, Register16::BC_);
    lemma_swap_bytes(b1, Register16::DE, Register16::DE_);
    lemma_swap_bytes(b2, Register16::HL, Register16::HL_);
    lemma_swap_bytes(b3, Register16::WZ, Register16::WZ_);
    assert(b4.bank =~= m.reg.bank);
    assert(exx(exx(m)).reg == b4);
    assert(exx(m).get16(Register16::BC) == m.get16(Register16::BC_) && exx(m).get16(
        Register16::DE,
    ) == m.get16(Register16::DE_) && exx(m).get16(Register16::HL) == m.get16(Register16::HL_))
        by {
        reveal(RegistersView::get16);
    }
}

/// An instruction that reads no port does the same whatever byte is handed
/// to it as input.
pub proof fn law_input_unread(m: Machine, d: Decoded, i1: u8, i2: u8)
    requires
        port_read(m, d) is None,
    ensures
        finish_spec(m, d, i1) == finish_spec(m, d, i2),
{
    reveal(finish_spec);
    reveal(port_read);
    assert(main_page(m, d.index, d.opcode, i1) == main_page(m, d.index, d.opcode, i2)
        || d.opcode == 0xDB);
    assert(extended_page(m, d.opcode, i1) == extended_page(m, d.opcode, i2)
        || crate::isa_extended::extended_reads(d.opcode));
}

/// A step that reads no port does the same whatever byte is taken for its
/// input.
pub proof fn law_step_input_unread(m: Machine, i1: u8, i2: u8)
    requires
        step_reads(m) is None,
    ensures
        step_spec(m, i1) == step_spec(m, i2),
{
    law_input_unread(crate::isa_step::begin_spec(m).0, crate::isa_step::begin_spec(m).1, i1, i2);
}

/// An opcode fetch moves the low seven bits of R on by one, from 127 round
/// to 0, and keeps bit 7 of R; PC moves on by one, from 0xFFFF round to 0.
pub proof fn law_refresh(m: Machine)
    ensures
        m.m1().reg.r / 128 == m.reg.r / 128,
        m.m1().reg.r % 128 == (m.reg.r % 128 + 1) % 128,
        m.m1().pc() == (m.pc() + 1) % 65536,
{
}

/// An instruction of the unprefixed page takes between 4 and 19 T-states.
proof fn lemma_main_page_time(m: Machine, idx: Index, op: u8, input: u8)
    ensures
        4 <= main_page(m, idx, op, input).cycles <= 19,
{
}

/// An instruction of the `ED` page takes between 8 and 21 T-states.
proof fn lemma_extended_page_time(m: Machine, op: u8, input: u8)
    ensures
        8 <= extended_page(m, op, input).cycles <= 21,
{
}

/// An instruction of the `CB` page takes between 8 and 19 T-states.
proof fn lemma_bits_page_time(m: Machine, idx: Index, d: u8, op: u8)
    ensures
        8 <= bits_page(m, idx, d, op).cycles <= 19,
{
}

/// The T-states that the prefixes charge: what was charged before, and 4
/// more for each index prefix that is followed.
proof fn lemma_prefixed_time(m: Machine, idx: Index, op: u8, cycles: int, left: nat)
    requires
        0 <= cycles,
        cycles + 4 * left <= 4 * 65536 + 2,
    ensures
        cycles <= prefixed(m, idx, op, cycles, left).1.cycles <= cycles + 4 * left,
        prefixed(m, idx, op, cycles, left).1.page != Page::Done,
    decreases left,
{
    if (op == 0xDD || op == 0xFD) && left > 0 {
        lemma_prefixed_time(
            m.m1(),
            if op == 0xDD { Index::IX } else { Index::IY },
            m.imm8(),
            cycles + 4,
            (left - 1) as nat,
        );
    }
}

/// Every step takes time: at least 4 T-states, and no more than the
/// longest instruction behind the longest run of index prefixes that a
/// step follows.
pub proof fn law_step_takes_time(m: Machine, input: u8)
    ensures
        4 <= step_spec(m, input).cycles <= 4 * 65536 + 2 + 21,
{
    reveal(begin_spec);
    reveal(finish_spec);
    let m0 = Machine { enable_interrupt: false, ..m };
    let d = begin_spec(m).1;
    let m1 = begin_spec(m).0;
    if m.nmi_pending {
    } else if accepts_int(m) {
        if m.reg.im == 0 {
            let w = crate::isa_step::woken(
                Machine { int_pending: false, iff1: false, iff2: false, ..m0 },
            );
            lemma_prefixed_time(w, Index::HL, m.int_data, 2, prefix_limit());
        }
    } else {
        lemma_prefixed_time(m0.m1(), Index::HL, m0.imm8(), 0, prefix_limit());
    }
    lemma_main_page_time(m1, d.index, d.opcode, input);
    lemma_extended_page_time(m1, d.opcode, input);
    lemma_bits_page_time(m1, d.index, d.disp, d.opcode);
}

} // verus!
