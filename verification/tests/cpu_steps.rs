use rz80::Register16::{AF, AF_, BC, BC_, DE, DE_, HL, HL_, IX, IY, SP};
use rz80::Register8::{A, B, C, F};
use rz80::{Bus, Page, RegT, CF, CPU, HF, NF, SF, XF, YF};
use std::cell::Cell;

struct Ports {
    port: Cell<RegT>,
    val: Cell<RegT>,
    reads: Cell<u32>,
    writes: Cell<u32>,
}

impl Ports {
    fn new() -> Ports {
        Ports { port: Cell::new(0), val: Cell::new(0), reads: Cell::new(0), writes: Cell::new(0) }
    }
}

impl Bus for Ports {
    fn cpu_inp(&self, port: RegT) -> RegT {
        self.reads.set(self.reads.get() + 1);
        self.port.set(port);
        0x1A5
    }

    fn cpu_outp(&self, port: RegT, val: RegT) {
        self.writes.set(self.writes.get() + 1);
        self.port.set(port);
        self.val.set(val);
    }
}

fn masked(cpu: &CPU) -> RegT {
    cpu.reg.get8(F) & !(XF | YF)
}

#[test]
fn scenario_ld_a_then_add_a_a() {
    let mut cpu = CPU::new_64k();
    let bus = Ports::new();
    cpu.mem.write(0x0000, &[0x3E, 0x0F, 0x87]);
    assert_eq!(cpu.step(&bus), 7);
    assert_eq!(cpu.step(&bus), 4);
    assert_eq!(cpu.reg.get8(A), 0x1E);
    assert_eq!(masked(&cpu), HF);
}

#[test]
fn scenario_sub_a_then_sub_b() {
    let mut cpu = CPU::new_64k();
    let bus = Ports::new();
    cpu.mem.write(0x0000, &[0x3E, 0x04, 0x06, 0x01, 0x97, 0x90]);
    for _ in 0..4 {
        cpu.step(&bus);
    }
    assert_eq!(cpu.reg.get8(A), 0xFF);
    assert_eq!(masked(&cpu), SF | HF | NF | CF);
}

#[test]
fn scenario_ldir_copies_three_bytes() {
    let mut cpu = CPU::new_64k();
    let bus = Ports::new();
    cpu.mem.write(0x1000, &[0x01, 0x02, 0x03]);
    cpu.mem.write(0x0000, &[0x21, 0x00, 0x10, 0x11, 0x00, 0x20, 0x01, 0x03, 0x00, 0xED, 0xB0]);
    assert_eq!(cpu.step(&bus), 10);
    assert_eq!(cpu.step(&bus), 10);
    assert_eq!(cpu.step(&bus), 10);
    assert_eq!(cpu.step(&bus), 21);
    assert_eq!(cpu.reg.pc(), 0x0009);
    assert_eq!(cpu.step(&bus), 21);
    assert_eq!(cpu.step(&bus), 16);
    assert_eq!(cpu.reg.pc(), 0x000B);
    assert_eq!(cpu.reg.get16(BC), 0);
    assert_eq!(cpu.reg.get16(HL), 0x1003);
    assert_eq!(cpu.reg.get16(DE), 0x2003);
    assert_eq!(cpu.mem.r8(0x2000), 1);
    assert_eq!(cpu.mem.r8(0x2001), 2);
    assert_eq!(cpu.mem.r8(0x2002), 3);
    assert_eq!(cpu.mem.r8(0x2003), 0);
}

#[test]
fn scenario_djnz_loop() {
    let mut cpu = CPU::new_64k();
    let bus = Ports::new();
    cpu.mem.write(0x0204, &[0x06, 0x03, 0x97, 0x3C, 0x10, 0xFD, 0x00]);
    cpu.reg.set_pc(0x0204);
    assert_eq!(cpu.step(&bus), 7);
    assert_eq!(cpu.step(&bus), 4);
    assert_eq!(cpu.step(&bus), 4);
    assert_eq!(cpu.step(&bus), 13);
    assert_eq!(cpu.reg.pc(), 0x0207);
    assert_eq!(cpu.step(&bus), 4);
    assert_eq!(cpu.step(&bus), 13);
    assert_eq!(cpu.step(&bus), 4);
    assert_eq!(cpu.step(&bus), 8);
    assert_eq!(cpu.reg.get8(A), 3);
    assert_eq!(cpu.reg.get8(B), 0);
    assert_eq!(cpu.reg.pc(), 0x020A);
}

#[test]
fn scenario_call_and_ret() {
    let mut cpu = CPU::new_64k();
    let bus = Ports::new();
    cpu.mem.write(0x0204, &[0xCD, 0x0A, 0x02, 0xCD, 0x0A, 0x02, 0xC9]);
    cpu.reg.set_pc(0x0204);
    assert_eq!(cpu.step(&bus), 17);
    assert_eq!(cpu.reg.pc(), 0x020A);
    assert_eq!(cpu.reg.get16(SP), 0xFFFE);
    assert_eq!(cpu.mem.r16(0xFFFE), 0x0207);
    assert_eq!(cpu.step(&bus), 10);
    assert_eq!(cpu.reg.pc(), 0x0207);
    assert_eq!(cpu.reg.get16(SP), 0x0000);
}

#[test]
fn scenario_ld_ix_then_store_indexed() {
    let mut cpu = CPU::new_64k();
    let bus = Ports::new();
    cpu.mem.write(0x0000, &[0xDD, 0x21, 0x00, 0x20, 0xDD, 0x36, 0x02, 0x33]);
    assert_eq!(cpu.step(&bus), 14);
    assert_eq!(cpu.step(&bus), 19);
    assert_eq!(cpu.reg.get16(IX), 0x2000);
    assert_eq!(cpu.mem.r8(0x2002), 0x33);
}

#[test]
fn scenario_neg() {
    let mut cpu = CPU::new_64k();
    let bus = Ports::new();
    cpu.mem.write(0x0000, &[0x3E, 0x01, 0xED, 0x44]);
    assert_eq!(cpu.step(&bus), 7);
    assert_eq!(cpu.step(&bus), 8);
    assert_eq!(cpu.reg.get8(A), 0xFF);
    assert_eq!(masked(&cpu), SF | HF | NF | CF);
}

#[test]
fn scenario_rlca_twice() {
    let mut cpu = CPU::new_64k();
    let bus = Ports::new();
    cpu.mem.write(0x0000, &[0x3E, 0xA0, 0x07, 0x07]);
    assert_eq!(cpu.step(&bus), 7);
    assert_eq!(cpu.step(&bus), 4);
    assert_eq!(cpu.reg.get8(A), 0x41);
    assert_eq!(cpu.step(&bus), 4);
    assert_eq!(cpu.reg.get8(A), 0x82);
}

#[test]
fn new_cpu_is_zeroed_and_idle() {
    let cpu = CPU::new();
    assert_eq!(cpu.reg.pc(), 0);
    assert_eq!(cpu.reg.get16(AF), 0);
    assert_eq!(cpu.reg.get16(SP), 0);
    assert_eq!(cpu.mem.r8(0x1234), 0);
    assert!(!cpu.halt && !cpu.iff1 && !cpu.iff2 && !cpu.enable_interrupt);
    assert!(!cpu.nmi_pending && !cpu.int_pending);
}

#[test]
fn reset_keeps_registers_and_memory() {
    let mut cpu = CPU::new();
    let bus = Ports::new();
    cpu.mem.write(0x0000, &[0x76]);
    cpu.reg.set16(BC, 0x1234);
    cpu.reg.i = 9;
    cpu.reg.im = 2;
    cpu.iff1 = true;
    cpu.iff2 = true;
    cpu.reg.set_pc(0x0000);
    cpu.step(&bus);
    assert!(cpu.halt);
    cpu.reset();
    assert!(!cpu.halt && !cpu.iff1 && !cpu.iff2);
    assert_eq!(cpu.reg.pc(), 0);
    assert_eq!(cpu.reg.i, 0);
    assert_eq!(cpu.reg.im, 0);
    assert_eq!(cpu.reg.r, 0);
    assert_eq!(cpu.reg.get16(BC), 0x1234);
    assert_eq!(cpu.mem.r8(0x0000), 0x76);
}

#[test]
fn ex_af_twice_restores_both() {
    let mut cpu = CPU::new();
    let bus = Ports::new();
    cpu.mem.write(0x0000, &[0x08, 0x08]);
    cpu.reg.set16(AF, 0x1234);
    cpu.reg.set16(AF_, 0x5678);
    assert_eq!(cpu.step(&bus), 4);
    assert_eq!(cpu.reg.get16(AF), 0x5678);
    assert_eq!(cpu.reg.get16(AF_), 0x1234);
    assert_eq!(cpu.step(&bus), 4);
    assert_eq!(cpu.reg.get16(AF), 0x1234);
    assert_eq!(cpu.reg.get16(AF_), 0x5678);
}

#[test]
fn exx_twice_restores_all_pairs() {
    let mut cpu = CPU::new();
    let bus = Ports::new();
    cpu.mem.write(0x0000, &[0xD9, 0xD9]);
    cpu.reg.set16(BC, 0x0102);
    cpu.reg.set16(DE, 0x0304);
    cpu.reg.set16(HL, 0x0506);
    cpu.reg.set16(BC_, 0x1112);
    cpu.reg.set16(DE_, 0x1314);
    cpu.reg.set16(HL_, 0x1516);
    cpu.reg.set16(AF, 0x7788);
    assert_eq!(cpu.step(&bus), 4);
    assert_eq!(cpu.reg.get16(BC), 0x1112);
    assert_eq!(cpu.reg.get16(DE), 0x1314);
    assert_eq!(cpu.reg.get16(HL), 0x1516);
    assert_eq!(cpu.reg.get16(AF), 0x7788);
    assert_eq!(cpu.step(&bus), 4);
    assert_eq!(cpu.reg.get16(BC), 0x0102);
    assert_eq!(cpu.reg.get16(DE), 0x0304);
    assert_eq!(cpu.reg.get16(HL), 0x0506);
    assert_eq!(cpu.reg.get16(BC_), 0x1112);
    assert_eq!(cpu.reg.get16(DE_), 0x1314);
    assert_eq!(cpu.reg.get16(HL_), 0x1516);
}

#[test]
fn loads_and_jumps_leave_f_alone() {
    let mut cpu = CPU::new();
    let bus = Ports::new();
    cpu.mem.write(
        0x0000,
        &[
            0x01, 0x34, 0x12, // LD BC,0x1234
            0x03, // INC BC
            0x41, // LD B,C
            0x36, 0x07, // LD (HL),7
            0xC5, // PUSH BC
            0xD1, // POP DE
            0xEB, // EX DE,HL
            0xC3, 0x10, 0x00, // JP 0x0010
        ],
    );
    cpu.mem.write(0x0010, &[0xCD, 0x20, 0x00]);
    cpu.mem.write(0x0020, &[0xD9, 0xC9]);
    cpu.reg.set8(F, 0xA5);
    cpu.reg.set16(HL, 0x4000);
    for _ in 0..11 {
        cpu.step(&bus);
        assert_eq!(cpu.reg.get8(F), 0xA5);
    }
    assert_eq!(cpu.reg.pc(), 0x0013);
}

#[test]
fn pc_wraps_and_stays_sixteen_bit() {
    let mut cpu = CPU::new();
    let bus = Ports::new();
    cpu.reg.set_pc(0xFFFF);
    assert_eq!(cpu.step(&bus), 4);
    assert_eq!(cpu.reg.pc(), 0x0000);
    cpu.mem.write(0xFFFE, &[0x18, 0x7F]);
    cpu.reg.set_pc(0xFFFE);
    assert_eq!(cpu.step(&bus), 12);
    assert_eq!(cpu.reg.pc(), 0x007F);
    cpu.mem.write(0x0000, &[0x18, 0x80]);
    cpu.reg.set_pc(0x0000);
    assert_eq!(cpu.step(&bus), 12);
    assert_eq!(cpu.reg.pc(), 0xFF82);
}

#[test]
fn refresh_counts_opcode_fetches_and_keeps_bit_7() {
    let mut cpu = CPU::new();
    let bus = Ports::new();
    cpu.mem.write(0x0000, &[0x00, 0xDD, 0x21, 0x00, 0x00, 0xED, 0x44, 0xCB, 0x00]);
    cpu.step(&bus);
    assert_eq!(cpu.reg.r, 1);
    cpu.step(&bus);
    assert_eq!(cpu.reg.r, 3);
    cpu.step(&bus);
    assert_eq!(cpu.reg.r, 5);
    cpu.step(&bus);
    assert_eq!(cpu.reg.r, 7);
    cpu.reg.r = 0xFF;
    cpu.reg.set_pc(0x0000);
    cpu.step(&bus);
    assert_eq!(cpu.reg.r, 0x80);
    cpu.reg.r = 0x7F;
    cpu.reg.set_pc(0x0000);
    cpu.step(&bus);
    assert_eq!(cpu.reg.r, 0x00);
}

#[test]
fn index_prefix_chains_let_the_last_one_win() {
    let mut cpu = CPU::new();
    let bus = Ports::new();
    cpu.mem.write(0x0000, &[0xDD, 0xFD, 0x21, 0x34, 0x12, 0xFD, 0xDD, 0xDD, 0x23]);
    assert_eq!(cpu.step(&bus), 18);
    assert_eq!(cpu.reg.get16(IY), 0x1234);
    assert_eq!(cpu.reg.get16(IX), 0x0000);
    assert_eq!(cpu.reg.get16(HL), 0x0000);
    assert_eq!(cpu.step(&bus), 18);
    assert_eq!(cpu.reg.get16(IX), 0x0001);
    assert_eq!(cpu.reg.get16(IY), 0x1234);
    assert_eq!(cpu.reg.pc(), 0x0009);
}

#[test]
fn extended_prefix_cancels_an_index_prefix() {
    let mut cpu = CPU::new();
    let bus = Ports::new();
    cpu.mem.write(0x0000, &[0xDD, 0xED, 0x5A, 0xDD, 0xED, 0x00]);
    cpu.reg.set16(HL, 0x1000);
    cpu.reg.set16(DE, 0x0234);
    cpu.reg.set16(IX, 0x8000);
    assert_eq!(cpu.step(&bus), 19);
    assert_eq!(cpu.reg.get16(HL), 0x1234);
    assert_eq!(cpu.reg.get16(IX), 0x8000);
    assert_eq!(cpu.step(&bus), 12);
    assert_eq!(cpu.reg.pc(), 0x0006);
}

#[test]
fn unassigned_extended_opcodes_do_nothing() {
    let mut cpu = CPU::new();
    let bus = Ports::new();
    cpu.mem.write(0x0000, &[0xED, 0x00, 0xED, 0xFF, 0xED, 0x80]);
    cpu.reg.set16(AF, 0x12FF);
    for k in 1..=3 {
        assert_eq!(cpu.step(&bus), 8);
        assert_eq!(cpu.reg.pc(), 2 * k);
        assert_eq!(cpu.reg.get16(AF), 0x12FF);
    }
}

#[test]
fn index_halves_are_registers_under_a_prefix() {
    let mut cpu = CPU::new();
    let bus = Ports::new();
    cpu.mem.write(
        0x0000,
        &[
            0xDD, 0x26, 0x12, // LD IXH,0x12
            0xDD, 0x2E, 0x34, // LD IXL,0x34
            0xFD, 0x26, 0x56, // LD IYH,0x56
            0xDD, 0x7C, // LD A,IXH
            0xDD, 0x85, // ADD A,IXL
            0xFD, 0x44, // LD B,IYH
        ],
    );
    cpu.reg.set16(HL, 0xAAAA);
    assert_eq!(cpu.step(&bus), 11);
    assert_eq!(cpu.step(&bus), 11);
    assert_eq!(cpu.step(&bus), 11);
    assert_eq!(cpu.reg.get16(IX), 0x1234);
    assert_eq!(cpu.reg.get16(IY), 0x5600);
    assert_eq!(cpu.reg.get16(HL), 0xAAAA);
    assert_eq!(cpu.step(&bus), 8);
    assert_eq!(cpu.reg.get8(A), 0x12);
    assert_eq!(cpu.step(&bus), 8);
    assert_eq!(cpu.reg.get8(A), 0x46);
    assert_eq!(cpu.step(&bus), 8);
    assert_eq!(cpu.reg.get8(B), 0x56);
}

#[test]
fn indexed_bit_page_reads_the_displacement_before_the_opcode() {
    let mut cpu = CPU::new();
    let bus = Ports::new();
    cpu.mem.write(
        0x0000,
        &[
            0xDD, 0xCB, 0x02, 0x06, // RLC (IX+2)
            0xDD, 0xCB, 0xFF, 0x00, // RLC (IX-1), also into B
            0xFD, 0xCB, 0x01, 0x7E, // BIT 7,(IY+1)
            0xFD, 0xCB, 0x01, 0xC6, // SET 0,(IY+1)
            0xFD, 0xCB, 0x01, 0xB9, // RES 7,(IY+1), also into C
        ],
    );
    cpu.reg.set16(IX, 0x1000);
    cpu.reg.set16(IY, 0x2000);
    cpu.mem.write(0x0FFF, &[0x81, 0x00, 0x00, 0x40]);
    cpu.mem.write(0x2001, &[0x80]);
    assert_eq!(cpu.step(&bus), 23);
    assert_eq!(cpu.mem.r8(0x1002), 0x80);
    assert_eq!(cpu.reg.pc(), 0x0004);
    assert_eq!(cpu.step(&bus), 23);
    assert_eq!(cpu.mem.r8(0x0FFF), 0x03);
    assert_eq!(cpu.reg.get8(B), 0x03);
    assert_eq!(masked(&cpu) & CF, CF);
    assert_eq!(cpu.step(&bus), 20);
    assert_eq!(masked(&cpu), SF | HF | CF);
    assert_eq!(cpu.step(&bus), 23);
    assert_eq!(cpu.mem.r8(0x2001), 0x81);
    assert_eq!(cpu.step(&bus), 23);
    assert_eq!(cpu.mem.r8(0x2001), 0x01);
    assert_eq!(cpu.reg.get8(C), 0x01);
}

#[test]
fn bit_page_on_registers_and_memory() {
    let mut cpu = CPU::new();
    let bus = Ports::new();
    cpu.mem.write(
        0x0000,
        &[
            0xCB, 0xC7, // SET 0,A
            0xCB, 0x47, // BIT 0,A
            0xCB, 0x87, // RES 0,A
            0xCB, 0x47, // BIT 0,A
            0xCB, 0xFE, // SET 7,(HL)
            0xCB, 0x7E, // BIT 7,(HL)
            0xCB, 0x37, // SLL A
        ],
    );
    cpu.reg.set16(HL, 0x3000);
    assert_eq!(cpu.step(&bus), 8);
    assert_eq!(cpu.reg.get8(A), 0x01);
    assert_eq!(cpu.step(&bus), 8);
    assert_eq!(masked(&cpu), HF);
    assert_eq!(cpu.step(&bus), 8);
    assert_eq!(cpu.reg.get8(A), 0x00);
    assert_eq!(cpu.step(&bus), 8);
    assert_eq!(masked(&cpu), 0x40 | HF | 0x04);
    assert_eq!(cpu.step(&bus), 15);
    assert_eq!(cpu.mem.r8(0x3000), 0x80);
    assert_eq!(cpu.step(&bus), 12);
    assert_eq!(masked(&cpu), SF | HF);
    assert_eq!(cpu.step(&bus), 8);
    assert_eq!(cpu.reg.get8(A), 0x01);
}

#[test]
fn nmi_is_accepted_whatever_iff1_is() {
    let mut cpu = CPU::new();
    let bus = Ports::new();
    cpu.reg.set_pc(0x1234);
    cpu.reg.set16(SP, 0x0100);
    cpu.iff1 = false;
    cpu.iff2 = true;
    cpu.nmi();
    assert_eq!(cpu.step(&bus), 11);
    assert_eq!(cpu.reg.pc(), 0x0066);
    assert_eq!(cpu.reg.get16(SP), 0x00FE);
    assert_eq!(cpu.mem.r16(0x00FE), 0x1234);
    assert!(!cpu.iff1);
    assert!(cpu.iff2);
    assert!(!cpu.nmi_pending);
    assert_eq!(cpu.step(&bus), 4);
    assert_eq!(cpu.reg.pc(), 0x0067);
}

#[test]
fn maskable_interrupt_needs_iff1() {
    let mut cpu = CPU::new();
    let bus = Ports::new();
    cpu.reg.im = 1;
    cpu.irq(0xFF);
    assert_eq!(cpu.step(&bus), 4);
    assert_eq!(cpu.reg.pc(), 0x0001);
    assert!(cpu.int_pending);
    cpu.iff1 = true;
    cpu.iff2 = true;
    assert_eq!(cpu.step(&bus), 13);
    assert_eq!(cpu.reg.pc(), 0x0038);
    assert_eq!(cpu.mem.r16(0xFFFE), 0x0001);
    assert!(!cpu.iff1 && !cpu.iff2);
    assert!(!cpu.int_pending);
}

#[test]
fn interrupt_mode_0_runs_the_supplied_opcode() {
    let mut cpu = CPU::new();
    let bus = Ports::new();
    cpu.reg.set_pc(0x0200);
    cpu.iff1 = true;
    cpu.irq(0xFF);
    assert_eq!(cpu.step(&bus), 13);
    assert_eq!(cpu.reg.pc(), 0x0038);
    assert_eq!(cpu.mem.r16(0xFFFE), 0x0200);
    cpu.iff1 = true;
    cpu.irq(0xD7);
    assert_eq!(cpu.step(&bus), 13);
    assert_eq!(cpu.reg.pc(), 0x0010);
    assert_eq!(cpu.mem.r16(0xFFFC), 0x0038);
}

#[test]
fn interrupt_mode_2_calls_through_the_vector_table() {
    let mut cpu = CPU::new();
    let bus = Ports::new();
    cpu.reg.set_pc(0x0300);
    cpu.reg.im = 2;
    cpu.reg.i = 0x20;
    cpu.mem.w16(0x2010, 0x4000);
    cpu.iff1 = true;
    cpu.iff2 = true;
    cpu.irq(0x11);
    assert_eq!(cpu.step(&bus), 19);
    assert_eq!(cpu.reg.pc(), 0x4000);
    assert_eq!(cpu.mem.r16(0xFFFE), 0x0300);
    assert!(!cpu.iff1 && !cpu.iff2);
}

#[test]
fn ei_defers_the_interrupt_by_one_instruction() {
    let mut cpu = CPU::new();
    let bus = Ports::new();
    cpu.mem.write(0x0000, &[0xFB, 0x3C, 0x3C]);
    cpu.reg.im = 1;
    cpu.irq(0xFF);
    assert_eq!(cpu.step(&bus), 4);
    assert!(cpu.iff1 && cpu.iff2);
    assert_eq!(cpu.step(&bus), 4);
    assert_eq!(cpu.reg.get8(A), 1);
    assert_eq!(cpu.reg.pc(), 0x0002);
    assert_eq!(cpu.step(&bus), 13);
    assert_eq!(cpu.reg.pc(), 0x0038);
    assert_eq!(cpu.mem.r16(0xFFFE), 0x0002);
    assert_eq!(cpu.reg.get8(A), 1);
}

#[test]
fn di_disables_interrupts() {
    let mut cpu = CPU::new();
    let bus = Ports::new();
    cpu.mem.write(0x0000, &[0xF3, 0x00]);
    cpu.iff1 = true;
    cpu.iff2 = true;
    assert_eq!(cpu.step(&bus), 4);
    assert!(!cpu.iff1 && !cpu.iff2);
    cpu.reg.im = 1;
    cpu.irq(0xFF);
    assert_eq!(cpu.step(&bus), 4);
    assert_eq!(cpu.reg.pc(), 0x0002);
}

#[test]
fn interrupt_wakes_a_halted_cpu_and_returns_past_the_halt() {
    let mut cpu = CPU::new();
    let bus = Ports::new();
    cpu.mem.write(0x0000, &[0x76, 0x3C]);
    cpu.mem.write(0x0066, &[0xED, 0x45]);
    assert_eq!(cpu.step(&bus), 4);
    assert_eq!(cpu.step(&bus), 4);
    assert!(cpu.halt);
    assert_eq!(cpu.reg.pc(), 0x0000);
    cpu.iff2 = true;
    cpu.nmi();
    assert_eq!(cpu.step(&bus), 11);
    assert!(!cpu.halt);
    assert_eq!(cpu.reg.pc(), 0x0066);
    assert_eq!(cpu.mem.r16(0xFFFE), 0x0001);
    assert_eq!(cpu.step(&bus), 14);
    assert_eq!(cpu.reg.pc(), 0x0001);
    assert!(cpu.iff1);
    assert_eq!(cpu.step(&bus), 4);
    assert_eq!(cpu.reg.get8(A), 1);
}

#[test]
fn im_selects_the_mode() {
    let mut cpu = CPU::new();
    let bus = Ports::new();
    cpu.mem.write(0x0000, &[0xED, 0x56, 0xED, 0x5E, 0xED, 0x46]);
    assert_eq!(cpu.step(&bus), 8);
    assert_eq!(cpu.reg.im, 1);
    assert_eq!(cpu.step(&bus), 8);
    assert_eq!(cpu.reg.im, 2);
    assert_eq!(cpu.step(&bus), 8);
    assert_eq!(cpu.reg.im, 0);
}

#[test]
fn bus_input_is_masked_to_a_byte() {
    let mut cpu = CPU::new();
    let bus = Ports::new();
    cpu.mem.write(0x0000, &[0xDB, 0x07, 0x00, 0xD3, 0x09]);
    cpu.reg.set8(A, 0x12);
    assert_eq!(cpu.step(&bus), 11);
    assert_eq!(bus.port.get(), 0x1207);
    assert_eq!(cpu.reg.get8(A), 0xA5);
    assert_eq!(bus.reads.get(), 1);
    assert_eq!(cpu.step(&bus), 4);
    assert_eq!(bus.reads.get(), 1);
    assert_eq!(bus.writes.get(), 0);
    assert_eq!(cpu.step(&bus), 11);
    assert_eq!(bus.writes.get(), 1);
    assert_eq!(bus.port.get(), 0xA509);
    assert_eq!(bus.val.get(), 0xA5);
}

#[test]
fn begin_and_finish_split_a_step_around_the_port() {
    let mut cpu = CPU::new();
    cpu.mem.write(0x0000, &[0xED, 0x50, 0xED, 0x51, 0x3C]);
    cpu.reg.set16(BC, 0x1234);
    let d = cpu.begin();
    assert!(d.page == Page::Extended);
    assert_eq!(d.opcode, 0x50);
    assert_eq!(cpu.input_port(&d), Some(0x1234));
    let (cycles, out) = cpu.finish(d, 0x80);
    assert_eq!(cycles, 12);
    assert!(out.is_none());
    assert_eq!(cpu.reg.get16(DE), 0x8000);
    assert_eq!(masked(&cpu), SF);
    let d = cpu.begin();
    assert_eq!(cpu.input_port(&d), None);
    let (cycles, out) = cpu.finish(d, 0);
    assert_eq!(cycles, 12);
    let w = out.unwrap();
    assert_eq!((w.port, w.val), (0x1234, 0x80));
    let d = cpu.begin();
    assert!(d.page == Page::Main);
    assert_eq!(cpu.input_port(&d), None);
    let (cycles, out) = cpu.finish(d, 0x55);
    assert_eq!(cycles, 4);
    assert!(out.is_none());
    assert_eq!(cpu.reg.get8(A), 1);
}

#[test]
fn sixteen_bit_arithmetic_under_a_prefix() {
    let mut cpu = CPU::new();
    let bus = Ports::new();
    cpu.mem.write(
        0x0000,
        &[
            0xDD, 0x29, // ADD IX,IX
            0xFD, 0x09, // ADD IY,BC
            0xDD, 0xE3, // EX (SP),IX
            0xFD, 0xE9, // JP (IY)
        ],
    );
    cpu.reg.set16(IX, 0x4000);
    cpu.reg.set16(IY, 0x0FFF);
    cpu.reg.set16(BC, 0x0001);
    cpu.reg.set16(SP, 0x8000);
    cpu.mem.w16(0x8000, 0xBEEF);
    assert_eq!(cpu.step(&bus), 15);
    assert_eq!(cpu.reg.get16(IX), 0x8000);
    assert_eq!(cpu.step(&bus), 15);
    assert_eq!(cpu.reg.get16(IY), 0x1000);
    assert_eq!(masked(&cpu), HF);
    assert_eq!(cpu.step(&bus), 23);
    assert_eq!(cpu.reg.get16(IX), 0xBEEF);
    assert_eq!(cpu.mem.r16(0x8000), 0x8000);
    assert_eq!(cpu.step(&bus), 8);
    assert_eq!(cpu.reg.pc(), 0x1000);
}

#[test]
fn every_opcode_takes_its_time_and_restores_the_tables() {
    let bus = Ports::new();
    for prefix in [None, Some(0xCBu8), Some(0xEDu8), Some(0xDDu8), Some(0xFDu8)] {
        for op in 0..=255u8 {
            let mut cpu = CPU::new();
            cpu.reg.set16(HL, 0x4000);
            cpu.reg.set16(IX, 0x5000);
            cpu.reg.set16(IY, 0x6000);
            cpu.reg.set16(SP, 0x8000);
            cpu.reg.set16(BC, 0x0102);
            match prefix {
                None => cpu.mem.write(0x0100, &[op, 0x01, 0x02, 0x03]),
                Some(p) => cpu.mem.write(0x0100, &[p, op, 0x01, 0x02, 0x03]),
            }
            cpu.reg.set_pc(0x0100);
            let cycles = cpu.step(&bus);
            assert!(cycles >= 4 && cycles <= 27, "{:?} {:02X}: {}", prefix, op, cycles);
            assert!(cpu.reg.pc() >= 0 && cpu.reg.pc() < 0x10000);
            cpu.reg.set16(HL, 0x1234);
            assert_eq!(cpu.reg.r8(4), 0x12);
            assert_eq!(cpu.reg.r8(5), 0x34);
            assert_eq!(cpu.reg.r16sp(2), 0x1234);
            assert_eq!(cpu.reg.r16af(2), 0x1234);
        }
    }
}

#[test]
fn only_the_exchanges_touch_the_shadow_set() {
    let bus = Ports::new();
    for prefix in [None, Some(0xCBu8), Some(0xEDu8), Some(0xDDu8)] {
        for op in 0..=255u8 {
            if prefix != Some(0xCB) && prefix != Some(0xED) && (op == 0x08 || op == 0xD9) {
                continue;
            }
            let mut cpu = CPU::new();
            cpu.reg.set16(AF_, 0xA1F1);
            cpu.reg.set16(BC_, 0xB1C1);
            cpu.reg.set16(DE_, 0xD1E1);
            cpu.reg.set16(HL_, 0x4111);
            cpu.reg.set16(HL, 0x4000);
            cpu.reg.set16(SP, 0x8000);
            match prefix {
                None => cpu.mem.write(0x0100, &[op, 0x01, 0x02, 0x03]),
                Some(p) => cpu.mem.write(0x0100, &[p, op, 0x01, 0x02, 0x03]),
            }
            cpu.reg.set_pc(0x0100);
            cpu.step(&bus);
            assert_eq!(cpu.reg.get16(AF_), 0xA1F1);
            assert_eq!(cpu.reg.get16(BC_), 0xB1C1);
            assert_eq!(cpu.reg.get16(DE_), 0xD1E1);
            assert_eq!(cpu.reg.get16(HL_), 0x4111);
        }
    }
}
