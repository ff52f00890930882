use rz80::Memory;
use rz80::Register16::{AF, BC, DE, HL, IX, IY, SP, WZ};
use rz80::Register8::{A, B, H, IXH, IXL, IYH, IYL, L};
use rz80::Registers;

#[test]
fn memory_starts_zeroed() {
    let mem = Memory::new();
    assert_eq!(mem.r8(0x0000), 0);
    assert_eq!(mem.r8(0x8000), 0);
    assert_eq!(mem.r8(0xFFFF), 0);
    assert_eq!(mem.r16(0xFFFF), 0);
}

#[test]
fn memory_bytes_and_words_are_little_endian() {
    let mut mem = Memory::new();
    mem.w8(0x1000, 0x12);
    assert_eq!(mem.r8(0x1000), 0x12);
    mem.w16(0x2000, 0xABCD);
    assert_eq!(mem.r8(0x2000), 0xCD);
    assert_eq!(mem.r8(0x2001), 0xAB);
    assert_eq!(mem.r16(0x2000), 0xABCD);
    mem.w8(0x3000, 0x34);
    mem.w8(0x3001, 0x12);
    assert_eq!(mem.r16(0x3000), 0x1234);
}

#[test]
fn memory_masks_addresses_and_values() {
    let mut mem = Memory::new();
    mem.w8(0x1_0005, 0x1FF);
    assert_eq!(mem.r8(0x0005), 0xFF);
    assert_eq!(mem.r8(0x2_0005), 0xFF);
    mem.w8(-1, 0x77);
    assert_eq!(mem.r8(0xFFFF), 0x77);
    mem.w16(0x0100, 0x12_3456);
    assert_eq!(mem.r16(0x0100), 0x3456);
}

#[test]
fn memory_words_wrap_at_the_top() {
    let mut mem = Memory::new();
    mem.w16(0xFFFF, 0x1234);
    assert_eq!(mem.r8(0xFFFF), 0x34);
    assert_eq!(mem.r8(0x0000), 0x12);
    assert_eq!(mem.r16(0xFFFF), 0x1234);
}

#[test]
fn memory_write_copies_and_wraps() {
    let mut mem = Memory::new();
    mem.write(0x0100, &[1, 2, 3, 4]);
    assert_eq!(mem.r8(0x00FF), 0);
    assert_eq!(mem.r8(0x0100), 1);
    assert_eq!(mem.r8(0x0103), 4);
    assert_eq!(mem.r8(0x0104), 0);
    mem.write(0xFFFE, &[0xA, 0xB, 0xC]);
    assert_eq!(mem.r8(0xFFFE), 0xA);
    assert_eq!(mem.r8(0xFFFF), 0xB);
    assert_eq!(mem.r8(0x0000), 0xC);
    mem.write(0x0200, &[]);
    assert_eq!(mem.r8(0x0200), 0);
}

#[test]
fn memory_write_longer_than_the_image_keeps_the_last_bytes() {
    let mut mem = Memory::new();
    let mut data = vec![0x11u8; 65536];
    data.push(0x22);
    data.push(0x33);
    mem.write(0x0010, &data);
    assert_eq!(mem.r8(0x0010), 0x22);
    assert_eq!(mem.r8(0x0011), 0x33);
    assert_eq!(mem.r8(0x0012), 0x11);
    assert_eq!(mem.r8(0x000F), 0x11);
}

#[test]
fn registers_mask_on_write() {
    let mut reg = Registers::new();
    reg.set8(A, 0x1FF);
    assert_eq!(reg.get8(A), 0xFF);
    reg.set8(A, -1);
    assert_eq!(reg.get8(A), 0xFF);
    reg.set8(A, 0xFF);
    let a = reg.get8(A) + 1;
    reg.set8(A, a);
    assert_eq!(reg.get8(A), 0x00);
    reg.set16(HL, 0x0000);
    let hl = reg.get16(HL) - 1;
    reg.set16(HL, hl);
    assert_eq!(reg.get16(HL), 0xFFFF);
    reg.set16(HL, 0x12345);
    assert_eq!(reg.get16(HL), 0x2345);
    reg.set_pc(0x1_0002);
    assert_eq!(reg.pc(), 0x0002);
}

#[test]
fn registers_pc_wraps() {
    let mut reg = Registers::new();
    reg.set_pc(0xFFFF);
    reg.inc_pc(1);
    assert_eq!(reg.pc(), 0x0000);
    reg.dec_pc(2);
    assert_eq!(reg.pc(), 0xFFFE);
    reg.inc_pc(0x0005);
    assert_eq!(reg.pc(), 0x0003);
}

#[test]
fn registers_pairs_are_high_byte_first() {
    let mut reg = Registers::new();
    reg.set16(IX, 0x1234);
    assert_eq!(reg.get8(IXH), 0x12);
    assert_eq!(reg.get8(IXL), 0x34);
    reg.set8(IYH, 0xAB);
    reg.set8(IYL, 0xCD);
    assert_eq!(reg.get16(IY), 0xABCD);
}

#[test]
fn registers_swap_exchanges_two_pairs() {
    let mut reg = Registers::new();
    reg.set16(DE, 0x1111);
    reg.set16(HL, 0x2222);
    reg.set16(BC, 0x3333);
    reg.swap(DE, HL);
    assert_eq!(reg.get16(DE), 0x2222);
    assert_eq!(reg.get16(HL), 0x1111);
    assert_eq!(reg.get16(BC), 0x3333);
    reg.swap(BC, BC);
    assert_eq!(reg.get16(BC), 0x3333);
}

#[test]
fn registers_indexed_access_by_default() {
    let mut reg = Registers::new();
    for i in [0usize, 1, 2, 3, 4, 5, 7] {
        reg.set_r8(i, 0x10 + i as i32);
    }
    assert_eq!(reg.get16(BC), 0x1011);
    assert_eq!(reg.get16(DE), 0x1213);
    assert_eq!(reg.get16(HL), 0x1415);
    assert_eq!(reg.get8(A), 0x17);
    assert_eq!(reg.r8(4), 0x14);
    assert_eq!(reg.r8i(5), 0x15);
    reg.set_r16sp(3, 0x8000);
    assert_eq!(reg.get16(SP), 0x8000);
    assert_eq!(reg.r16sp(3), 0x8000);
    reg.set_r16af(3, 0x55AA);
    assert_eq!(reg.get16(AF), 0x55AA);
    assert_eq!(reg.r16af(3), 0x55AA);
    assert_eq!(reg.r16af(0), 0x1011);
    assert_eq!(reg.r16sp(1), 0x1213);
}

#[test]
fn registers_patch_routes_h_l_and_hl() {
    let mut reg = Registers::new();
    reg.set16(HL, 0x1122);
    reg.set16(IX, 0x3344);
    reg.set16(IY, 0x5566);
    reg.patch_ix();
    assert_eq!(reg.r8(4), 0x33);
    assert_eq!(reg.r8(5), 0x44);
    assert_eq!(reg.r8i(4), 0x11);
    assert_eq!(reg.r8i(5), 0x22);
    assert_eq!(reg.r16sp(2), 0x3344);
    assert_eq!(reg.r16af(2), 0x3344);
    reg.patch_iy();
    assert_eq!(reg.r8(4), 0x55);
    assert_eq!(reg.r8(5), 0x66);
    assert_eq!(reg.r16sp(2), 0x5566);
    assert_eq!(reg.r16af(2), 0x5566);
    reg.set_r8(4, 0x77);
    reg.set_r8i(4, 0x88);
    reg.set_r16sp(2, 0x99AA);
    assert_eq!(reg.get16(IY), 0x99AA);
    assert_eq!(reg.get8(H), 0x88);
    assert_eq!(reg.get8(L), 0x22);
}

#[test]
fn registers_unpatch_restores_the_tables() {
    let mut reg = Registers::new();
    reg.set16(HL, 0x1122);
    reg.set16(IX, 0x3344);
    reg.set16(IY, 0x5566);
    reg.patch_ix();
    reg.unpatch();
    assert_eq!(reg.r8(4), 0x11);
    assert_eq!(reg.r8(5), 0x22);
    assert_eq!(reg.r16sp(2), 0x1122);
    assert_eq!(reg.r16af(2), 0x1122);
    reg.patch_iy();
    reg.patch_ix();
    reg.unpatch();
    assert_eq!(reg.r8(4), 0x11);
    assert_eq!(reg.r8(5), 0x22);
    assert_eq!(reg.r16sp(2), 0x1122);
    assert_eq!(reg.r16af(2), 0x1122);
    assert_eq!(reg.get16(IX), 0x3344);
    assert_eq!(reg.get16(IY), 0x5566);
}

#[test]
fn registers_reset_keeps_the_general_registers() {
    let mut reg = Registers::new();
    reg.set16(BC, 0x1234);
    reg.set16(WZ, 0x5678);
    reg.set8(B, 0x9A);
    reg.set8(L, 0x42);
    reg.set_pc(0x4000);
    reg.i = 3;
    reg.r = 4;
    reg.im = 2;
    reg.reset();
    assert_eq!(reg.pc(), 0);
    assert_eq!(reg.get16(WZ), 0);
    assert_eq!(reg.i, 0);
    assert_eq!(reg.r, 0);
    assert_eq!(reg.im, 0);
    assert_eq!(reg.get16(BC), 0x9A34);
    assert_eq!(reg.get8(L), 0x42);
}
