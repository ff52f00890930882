//! The step engine: construction and reset of the CPU, and the execution of
//! one instruction.
use vstd::prelude::*;

use crate::bus::Bus;
use crate::cpu::CPU;
use crate::isa_step::{
    begin_spec, finish_spec, port_read, prefix_limit, prefixed, routed, step_reads, step_spec,
    Decoded, Page,
};
use crate::machine::{Effect, Machine, PortWrite};
use crate::memory::Memory;
use crate::registers::{lemma_patch_selects, Index, Register16, Registers};
use crate::RegT;

verus! {

impl CPU {
    /// The selection tables are at their defaults, as they are between two
    /// instructions.
    pub open spec fn wf(&self) -> bool {
        self@.reg.selects(Index::HL)
    }

    /// The state of a CPU between two instructions is a well-formed state of
    /// the machine model, so the laws of the instruction set hold of it.
    pub proof fn law_model_wf(&self)
        requires
            self.wf(),
        ensures
            self@.wf(),
    {
        self.reg.lemma_len();
        self.mem.lemma_len();
    }

    /// Initialize a new CPU: registers and memory zero, interrupts disabled,
    /// nothing requested.
    pub fn new() -> (cpu: CPU)
        ensures
            cpu.wf(),
            cpu@.reg.bank == Seq::new(26, |k: int| 0u8),
            cpu@.reg.pc == 0 && cpu@.reg.i == 0 && cpu@.reg.r == 0 && cpu@.reg.im == 0,
            cpu@.mem == Seq::new(65536, |k: int| 0u8),
            !cpu.halt && !cpu.iff1 && !cpu.iff2 && !cpu.enable_interrupt,
            !cpu.nmi_pending && !cpu.int_pending && cpu.int_data == 0,
    {
        CPU {
            reg: Registers::new(),
            mem: Memory::new(),
            halt: false,
            iff1: false,
            iff2: false,
            enable_interrupt: false,
            nmi_pending: false,
            int_pending: false,
            int_data: 0,
        }
    }

    /// Initialize a new CPU with its 64 KiB of memory; the same as `new`.
    pub fn new_64k() -> (cpu: CPU)
        ensures
            cpu.wf(),
            cpu@.reg.bank == Seq::new(26, |k: int| 0u8),
            cpu@.reg.pc == 0 && cpu@.reg.i == 0 && cpu@.reg.r == 0 && cpu@.reg.im == 0,
            cpu@.mem == Seq::new(65536, |k: int| 0u8),
            !cpu.halt && !cpu.iff1 && !cpu.iff2 && !cpu.enable_interrupt,
            !cpu.nmi_pending && !cpu.int_pending && cpu.int_data == 0,
    {
        CPU::new()
    }

    /// Reset the CPU: PC, WZ, IM, I and R are cleared, the interrupts
    /// disabled and the halt latch released; the other registers and the
    /// memory are kept.
    pub fn reset(&mut self)
        ensures
            final(self)@ == (Machine {
                reg: old(self)@.reg.reset(),
                halt: false,
                iff1: false,
                iff2: false,
                enable_interrupt: false,
                ..old(self)@
            }),
    {
        self.reg.reset();
        self.halt = false;
        self.iff1 = false;
        self.iff2 = false;
        self.enable_interrupt = false;
    }

    /// Request a non-maskable interrupt; the next step accepts it.
    pub fn nmi(&mut self)
        ensures
            final(self)@ == (Machine { nmi_pending: true, ..old(self)@ }),
    {
        self.nmi_pending = true;
    }

    /// Request a maskable interrupt; `data` is the byte that the device
    /// supplies when the interrupt is acknowledged.
    pub fn irq(&mut self, data: u8)
        ensures
            final(self)@ == (Machine { int_pending: true, int_data: data, ..old(self)@ }),
    {
        self.int_pending = true;
        self.int_data = data;
    }

    /// Route the tables to an index mode.
    pub(crate) fn route(&mut self, idx: Index)
        ensures
            final(self)@ == old(self)@.route(idx),
    {
        match idx {
            Index::HL => self.reg.unpatch(),
            Index::IX => self.reg.patch_ix(),
            Index::IY => self.reg.patch_iy(),
        }
    }

    /// Release the halt latch when an interrupt is accepted.
    pub(crate) fn wake(&mut self)
        ensures
            final(self)@ == crate::isa_step::woken(old(self)@),
    {
        if self.halt {
            self.halt = false;
            self.reg.inc_pc(1);
        }
    }

    /// Follow the prefixes that start with the fetched byte `first`.
    pub(crate) fn decode(&mut self, first: u8, base: u32) -> (d: Decoded)
        requires
            old(self).wf(),
            base <= 2,
        ensures
            (final(self)@, d) == routed(
                prefixed(old(self)@, Index::HL, first, base as int, prefix_limit()),
            ),
            final(self)@.reg.selects(d.index),
            d.valid(),
    {
        let mut idx = Index::HL;
        let mut op = first;
        let mut cycles: u32 = base;
        let mut left: u32 = 65536;
        while (op == 0xDD || op == 0xFD) && left > 0
            invariant
                left <= 65536,
                cycles + 4 * left == base + 4 * 65536,
                base <= 2,
                self.wf(),
                prefixed(old(self)@, Index::HL, first, base as int, prefix_limit()) == prefixed(
                    self@,
                    idx,
                    op,
                    cycles as int,
                    left as nat,
                ),
            decreases left,
        {
            idx = if op == 0xDD { Index::IX } else { Index::IY };
            op = self.fetch_op();
            cycles = cycles + 4;
            left = left - 1;
        }
        let d = if op == 0xED {
            let opcode = self.fetch_op();
            Decoded { index: Index::HL, page: Page::Extended, opcode, disp: 0, cycles }
        } else if op == 0xCB {
            match idx {
                Index::HL => {
                    let opcode = self.fetch_op();
                    Decoded { index: idx, page: Page::Bits, opcode, disp: 0, cycles }
                },
                _ => {
                    let disp = self.imm8();
                    let opcode = self.imm8();
                    Decoded { index: idx, page: Page::Bits, opcode, disp, cycles }
                },
            }
        } else {
            Decoded { index: idx, page: Page::Main, opcode: op, disp: 0, cycles }
        };
        proof {
            lemma_patch_selects(self@.reg, d.index);
        }
        self.route(d.index);
        d
    }

    /// The first half of a step: check the interrupts, else fetch the
    /// opcode and follow its prefixes. What comes back is the instruction
    /// that `finish` will run.
    pub fn begin(&mut self) -> (d: Decoded)
        requires
            old(self).wf(),
        ensures
            (final(self)@, d) == begin_spec(old(self)@),
            final(self)@.reg.selects(d.index),
            d.valid(),
    {
        proof {
            reveal(begin_spec);
            self.reg.lemma_fields();
        }
        let guard = self.enable_interrupt;
        self.enable_interrupt = false;
        if self.nmi_pending {
            self.nmi_pending = false;
            self.iff1 = false;
            self.wake();
            self.call(0x0066);
            Decoded { index: Index::HL, page: Page::Done, opcode: 0, disp: 0, cycles: 11 }
        } else if self.int_pending && self.iff1 && !guard {
            let data = self.int_data;
            self.int_pending = false;
            self.iff1 = false;
            self.iff2 = false;
            self.wake();
            let im = self.reg.im;
            if im == 0 {
                self.decode(data, 2)
            } else if im == 1 {
                self.call(0x0038);
                Decoded { index: Index::HL, page: Page::Done, opcode: 0, disp: 0, cycles: 13 }
            } else {
                let vector = self.reg.i as u16 * 256 + ((data / 2) * 2) as u16;
                let target = self.peek16(vector);
                self.call(target);
                Decoded { index: Index::HL, page: Page::Done, opcode: 0, disp: 0, cycles: 19 }
            }
        } else {
            let op = self.fetch_op();
            self.decode(op, 0)
        }
    }

    /// The port that the decoded instruction reads before it can run.
    pub fn input_port(&self, d: &Decoded) -> (port: Option<u16>)
        ensures
            port == port_read(self@, *d),
    {
        proof {
            reveal(port_read);
        }
        let op = d.opcode;
        match d.page {
            Page::Main => {
                if op == 0xDB {
                    Some(self.in_a_n_port())
                } else {
                    None
                }
            },
            Page::Extended => {
                if (op / 64 == 1 && op % 8 == 0) || (op / 64 == 2 && op % 8 == 2 && (op / 8) % 8
                    >= 4) {
                    Some(self.get_pair(Register16::BC))
                } else {
                    None
                }
            },
            _ => None,
        }
    }

    /// The second half of a step: run the decoded instruction. `input` is
    /// the byte that the port of `input_port` gave; an instruction that
    /// reads no port does not look at it. Returns the T-states of the whole
    /// step and the port write that the host has to perform, if any.
    pub fn finish(&mut self, d: Decoded, input: u8) -> (r: (i64, Option<PortWrite>))
        requires
            old(self)@.reg.selects(d.index),
            d.valid(),
        ensures
            (Effect { next: final(self)@, cycles: r.0 as int, out: r.1 }) == finish_spec(
                old(self)@,
                d,
                input,
            ),
            final(self).wf(),
    {
        proof {
            reveal(finish_spec);
        }
        let index = d.index;
        let r = match d.page {
            Page::Done => {
                return (d.cycles as i64, None);
            },
            Page::Main => self.main_page(index, d.opcode, input),
            Page::Extended => self.extended_page(d.opcode, input),
            Page::Bits => (self.bits_page(index, d.disp, d.opcode), None),
        };
        proof {
            lemma_patch_selects(self@.reg, Index::HL);
        }
        self.route(Index::HL);
        (d.cycles as i64 + r.0, r.1)
    }

    /// Execute one step: accept a pending interrupt or run the instruction
    /// at PC, and return the T-states that it took.
    ///
    /// A port is read at most once, through `bus.cpu_inp`, with the port
    /// that `step_reads` names; the low eight bits of what comes back are
    /// the input of the instruction. A port write of the instruction goes
    /// to `bus.cpu_outp` at the end. Nothing is known of the byte that the
    /// bus returns, so the contract says what holds for whichever byte it
    /// was; `finish` says what the step does for each given byte.
    pub fn step<B: Bus>(&mut self, bus: &B) -> (cycles: i64)
        requires
            old(self).wf(),
        ensures
            final(self).wf(),
            0 <= final(self)@.pc() < 0x10000,
            step_reads(old(self)@) is None ==> final(self)@ == step_spec(old(self)@, 0).next
                && cycles == step_spec(old(self)@, 0).cycles,
            exists|input: u8|
                final(self)@ == (#[trigger] step_spec(old(self)@, input)).next && cycles
                    == step_spec(old(self)@, input).cycles,
    {
        let d = self.begin();
        let input: u8 = match self.input_port(&d) {
            Some(port) => {
                let v = bus.cpu_inp(port as RegT);
                #[verifier::truncate]
                (v as u8)
            },
            None => 0,
        };
        let r = self.finish(d, input);
        if let Some(w) = r.1 {
            bus.cpu_outp(w.port as RegT, w.val as RegT);
        }
        assert(self@ == step_spec(old(self)@, input).next);
        r.0
    }
}

} // verus!
