//! One step of the machine: the interrupt check, the decoding of prefixes
//! and the execution of the instruction they lead to.
use vstd::prelude::*;

use crate::isa::{called, in_a_n_port, main_page};
use crate::isa_bits::bits_page;
use crate::isa_extended::{extended_page, extended_reads};
use crate::machine::{word, Effect, Machine};
use crate::registers::{Index, Register16};

verus! {

/// The opcode page that the prefixes lead to.
#[derive(Copy, Clone, PartialEq, Eq, Structural)]
pub enum Page {
    /// The unprefixed page.
    Main,
    /// The page behind `ED`.
    Extended,
    /// The page behind `CB`.
    Bits,
    /// No instruction: an interrupt was accepted and is dealt with.
    Done,
}

/// What the first half of a step found: the instruction to run, already
/// fetched, with the T-states charged so far.
#[derive(Copy, Clone, PartialEq, Eq, Structural)]
pub struct Decoded {
    /// The index mode that the prefixes selected.
    pub index: Index,
    /// The opcode page.
    pub page: Page,
    /// The opcode byte within the page.
    pub opcode: u8,
    /// The displacement byte of an indexed instruction of the `CB` page: it
    /// stands before the opcode byte and is read with it.
    pub disp: u8,
    /// T-states charged so far: 4 for each index prefix, 2 for the response
    /// to an interrupt in mode 0, all of them after another interrupt.
    pub cycles: u32,
}

impl Decoded {
    /// An instruction of the `ED` page is never indexed, nor is the
    /// response to an interrupt.
    pub open spec fn valid(self) -> bool {
        self.page == Page::Extended || self.page == Page::Done ==> self.index == Index::HL
    }
}

/// The most index prefixes that one step follows: enough to go once
/// through the whole memory.
pub open spec fn prefix_limit() -> nat {
    65536
}

/// The state and the decoded instruction after the prefixes that start
/// with byte `op`, which is already fetched. Each `DD` or `FD` costs 4
/// T-states and replaces the index mode, so the last one wins; `ED` sets
/// the mode back to HL. Behind an index prefix `CB` is followed by the
/// displacement and then the opcode. `left` bounds how many index
/// prefixes are followed; one more is run as an instruction of the
/// unprefixed page, where it does nothing.
pub open spec fn prefixed(m: Machine, idx: Index, op: u8, cycles: int, left: nat) -> (
    Machine,
    Decoded,
)
    decreases left,
{
    if (op == 0xDD || op == 0xFD) && left > 0 {
        prefixed(
            m.m1(),
            if op == 0xDD { Index::IX } else { Index::IY },
            m.imm8(),
            cycles + 4,
            (left - 1) as nat,
        )
    } else if op == 0xED {
        (
            m.m1(),
            Decoded {
                index: Index::HL,
                page: Page::Extended,
                opcode: m.imm8(),
                disp: 0,
                cycles: cycles as u32,
            },
        )
    } else if op == 0xCB {
        if idx == Index::HL {
            (
                m.m1(),
                Decoded { index: idx, page: Page::Bits, opcode: m.imm8(), disp: 0, cycles: cycles as u32 },
            )
        } else {
            (
                m.skip(2),
                Decoded {
                    index: idx,
                    page: Page::Bits,
                    opcode: m.skip(1).imm8(),
                    disp: m.imm8(),
                    cycles: cycles as u32,
                },
            )
        }
    } else {
        (m, Decoded { index: idx, page: Page::Main, opcode: op, disp: 0, cycles: cycles as u32 })
    }
}

/// The state with the tables routed for the decoded instruction.
pub open spec fn routed(r: (Machine, Decoded)) -> (Machine, Decoded) {
    (r.0.route(r.1.index), r.1)
}

/// The state after an interrupt was accepted: the halt latch is cleared,
/// and PC, which HALT holds on its own opcode, moves past it.
pub open spec fn woken(m: Machine) -> Machine {
    if m.halt {
        Machine { halt: false, ..m }.skip(1)
    } else {
        m
    }
}

/// An interrupt response that leaves no instruction to run.
pub open spec fn responded(m: Machine, cycles: u32) -> (Machine, Decoded) {
    (m, Decoded { index: Index::HL, page: Page::Done, opcode: 0, disp: 0, cycles })
}

/// Whether the step accepts a maskable interrupt: one is requested, IFF1 is
/// set, and the instruction before was not EI.
pub open spec fn accepts_int(m: Machine) -> bool {
    m.int_pending && m.iff1 && !m.enable_interrupt
}

/// The first half of a step.
///
/// A requested non-maskable interrupt is accepted first: PC is pushed and
/// set to 0x0066, IFF1 is cleared, 11 T-states. Else a maskable interrupt,
/// if it is accepted, clears both flip-flops and goes by the mode: in mode
/// 0 the byte of the device is run as an opcode, with 2 T-states added; in
/// mode 1 address 0x0038 is called, 13 T-states; in mode 2, and with any
/// other value in IM, the address is called that stands at `I * 256 + (byte
/// with bit 0 cleared)`, 19 T-states. Else the opcode at PC is fetched. In
/// every case the guard that EI set is cleared.
#[verifier::opaque]
pub open spec fn begin_spec(m: Machine) -> (Machine, Decoded) {
    let m0 = Machine { enable_interrupt: false, ..m };
    if m.nmi_pending {
        responded(called(woken(Machine { nmi_pending: false, iff1: false, ..m0 }), 0x0066), 11)
    } else if accepts_int(m) {
        let m1 = woken(Machine { int_pending: false, iff1: false, iff2: false, ..m0 });
        if m.reg.im == 0 {
            routed(prefixed(m1, Index::HL, m.int_data, 2, prefix_limit()))
        } else if m.reg.im == 1 {
            responded(called(m1, 0x0038), 13)
        } else {
            responded(called(m1, m1.read16(word(m.reg.i, ((m.int_data / 2) * 2) as u8))), 19)
        }
    } else {
        routed(prefixed(m0.m1(), Index::HL, m0.imm8(), 0, prefix_limit()))
    }
}

/// The port that the decoded instruction reads before it can run, if it
/// reads one: `A * 256 + n` for IN A,(n), BC for the others.
#[verifier::opaque]
pub open spec fn port_read(m: Machine, d: Decoded) -> Option<u16> {
    if d.page == Page::Main && d.opcode == 0xDB {
        Some(in_a_n_port(m))
    } else if d.page == Page::Extended && extended_reads(d.opcode) {
        Some(m.get16(Register16::BC))
    } else {
        None
    }
}

/// The second half of a step: the decoded instruction is run with the byte
/// that the port gave, the tables go back to HL, and the T-states of both
/// halves are added.
#[verifier::opaque]
pub open spec fn finish_spec(m: Machine, d: Decoded, input: u8) -> Effect {
    if d.page == Page::Done {
        Effect { next: m, cycles: d.cycles as int, out: None }
    } else {
        let e = if d.page == Page::Main {
            main_page(m, d.index, d.opcode, input)
        } else if d.page == Page::Extended {
            extended_page(m, d.opcode, input)
        } else {
            bits_page(m, d.index, d.disp, d.opcode)
        };
        Effect { next: e.next.route(Index::HL), cycles: d.cycles + e.cycles, out: e.out }
    }
}

/// The port that a step from state `m` reads, if it reads one.
pub open spec fn step_reads(m: Machine) -> Option<u16> {
    port_read(begin_spec(m).0, begin_spec(m).1)
}

/// One whole step from state `m`, where `input` is the byte that the port
/// `step_reads(m)` gave.
pub open spec fn step_spec(m: Machine, input: u8) -> Effect {
    finish_spec(begin_spec(m).0, begin_spec(m).1, input)
}

} // verus!
