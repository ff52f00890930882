use rz80::Register16::{AF, AF_, BC, BC_, DE, DE_, HL, HL_, IX, IY, SP, WZ, WZ_};
use rz80::Register8::{A, B, C, D, E, F, H, L};
use rz80::Registers;

#[test]
fn new() {
    let reg = Registers::new();
    assert_eq!(reg.get8(A), 0);
    assert_eq!(reg.get8(F), 0);
    assert_eq!(reg.get8(B), 0);
    assert_eq!(reg.get8(C), 0);
    assert_eq!(reg.get8(D), 0);
    assert_eq!(reg.get8(E), 0);
    assert_eq!(reg.get8(H), 0);
    assert_eq!(reg.get8(L), 0);
    assert_eq!(reg.get16(AF), 0);
    assert_eq!(reg.get16(AF_), 0);
    assert_eq!(reg.get16(BC), 0);
    assert_eq!(reg.get16(BC_), 0);
    assert_eq!(reg.get16(DE), 0);
    assert_eq!(reg.get16(DE_), 0);
    assert_eq!(reg.get16(HL), 0);
    assert_eq!(reg.get16(HL_), 0);
    assert_eq!(reg.get16(WZ), 0);
    assert_eq!(reg.get16(WZ_), 0);
    assert_eq!(reg.get16(IX), 0);
    assert_eq!(reg.get16(IY), 0);
    assert_eq!(reg.pc(), 0);
    assert_eq!(reg.get16(SP), 0);
    assert_eq!(reg.r, 0);
    assert_eq!(reg.i, 0);
    assert_eq!(reg.im, 0);
}

#[test]
fn set_get() {
    let mut reg = Registers::new();
    reg.set8(A, 0x12);
    reg.set8(F, 0x34);
    assert_eq!(reg.get8(A), 0x12);
    assert_eq!(reg.get8(F), 0x34);
    assert_eq!(reg.get16(AF), 0x1234);
    reg.set16(AF, 0x2345);
    assert_eq!(reg.get16(AF), 0x2345);
    assert_eq!(reg.get8(A), 0x23);
    assert_eq!(reg.get8(F), 0x45);
    reg.set8(B, 0x34);
    reg.set8(C, 0x56);
    assert_eq!(reg.get8(B), 0x34);
    assert_eq!(reg.get8(C), 0x56);
    assert_eq!(reg.get16(BC), 0x3456);
    reg.set8(D, 0x78);
    reg.set8(E, 0x9A);
    assert_eq!(reg.get16(DE), 0x789A);
    assert_eq!(reg.get8(D), 0x78);
    assert_eq!(reg.get8(E), 0x9A);
    reg.set8(H, 0xAB);
    reg.set8(L, 0xCD);
    assert_eq!(reg.get16(HL), 0xABCD);
    assert_eq!(reg.get8(H), 0xAB);
    assert_eq!(reg.get8(L), 0xCD);
    reg.set16(IX, 0x0102);
    assert_eq!(reg.get16(IX), 0x0102);
    reg.set16(IY, 0x0304);
    assert_eq!(reg.get16(IY), 0x0304);
    reg.set_pc(0x1122);
    assert_eq!(reg.pc(), 0x1122);
    reg.set16(SP, 0x3344);
    assert_eq!(reg.get16(SP), 0x3344);
}
