use rz80::flags::{
    adc16, adc8, add16, add8, and8, bit, block_cp, block_io, block_ld, ccf, cp8, cpl, daa, dec8,
    inc8, load, neg8, or8, parity, reset_bit, rld, rotate_a, rrd, sbc16, sbc8, scf, set_bit,
    shift8, sub8, test_bit, xor8, Flags,
};
use rz80::{CF, HF, NF, PF, SF, VF, XF, YF, ZF};

fn f(bits: i32) -> u8 {
    bits as u8
}

#[test]
fn add8_sets_each_flag() {
    let r = add8(0x0F, 0x0F);
    assert_eq!((r.res, r.f), (0x1E, f(HF | XF)));
    let r = add8(0x81, 0x80);
    assert_eq!((r.res, r.f), (0x01, f(VF | CF)));
    let r = add8(0xFF, 0x01);
    assert_eq!((r.res, r.f), (0x00, f(ZF | HF | CF)));
    let r = add8(0x40, 0x40);
    assert_eq!((r.res, r.f), (0x80, f(SF | VF)));
}

#[test]
fn adc8_takes_the_carry_in() {
    let r = adc8(0x00, 0xFF, true);
    assert_eq!((r.res, r.f), (0x00, f(ZF | HF | CF)));
    let r = adc8(0x0F, 0x00, true);
    assert_eq!((r.res, r.f), (0x10, f(HF)));
    let r = adc8(0x7F, 0x00, true);
    assert_eq!((r.res, r.f), (0x80, f(SF | HF | VF)));
}

#[test]
fn sub8_and_sbc8_borrow() {
    let r = sub8(0x04, 0x05);
    assert_eq!((r.res, r.f), (0xFF, f(SF | YF | HF | XF | NF | CF)));
    let r = sbc8(0x00, 0x00, true);
    assert_eq!((r.res, r.f), (0xFF, f(SF | YF | HF | XF | NF | CF)));
    let r = sub8(0x80, 0x01);
    assert_eq!((r.res, r.f), (0x7F, f(YF | HF | XF | VF | NF)));
    let r = sub8(0x10, 0x10);
    assert_eq!((r.res, r.f), (0x00, f(ZF | NF)));
}

#[test]
fn cp8_copies_xy_from_the_operand() {
    assert_eq!(cp8(0x04, 0x05), f(SF | HF | NF | CF));
    assert_eq!(cp8(0x00, 0x28), f(SF | YF | HF | XF | NF | CF));
    assert_eq!(cp8(0x28, 0x28), f(ZF | YF | XF | NF));
}

#[test]
fn logic_ops_set_parity() {
    let r = and8(0xFF, 0x0F);
    assert_eq!((r.res, r.f), (0x0F, f(HF | XF | PF)));
    let r = or8(0x00, 0x00);
    assert_eq!((r.res, r.f), (0x00, f(ZF | PF)));
    let r = or8(0x80, 0x01);
    assert_eq!((r.res, r.f), (0x81, f(SF | PF)));
    let r = xor8(0xFF, 0xFF);
    assert_eq!((r.res, r.f), (0x00, f(ZF | PF)));
    let r = xor8(0x01, 0x00);
    assert_eq!((r.res, r.f), (0x01, 0));
}

#[test]
fn inc8_and_dec8_keep_carry() {
    let r = inc8(0x7F, f(CF));
    assert_eq!((r.res, r.f), (0x80, f(SF | HF | VF | CF)));
    let r = inc8(0xFF, 0);
    assert_eq!((r.res, r.f), (0x00, f(ZF | HF)));
    let r = dec8(0x80, 0);
    assert_eq!((r.res, r.f), (0x7F, f(YF | HF | XF | VF | NF)));
    let r = dec8(0x01, f(CF));
    assert_eq!((r.res, r.f), (0x00, f(ZF | NF | CF)));
    let r = dec8(0x00, 0);
    assert_eq!((r.res, r.f), (0xFF, f(SF | YF | HF | XF | NF)));
}

#[test]
fn neg8_is_zero_minus_a() {
    let r = neg8(0x01);
    assert_eq!((r.res, r.f), (0xFF, f(SF | YF | HF | XF | NF | CF)));
    let r = neg8(0x80);
    assert_eq!((r.res, r.f), (0x80, f(SF | VF | NF | CF)));
    let r = neg8(0x00);
    assert_eq!((r.res, r.f), (0x00, f(ZF | NF)));
}

#[test]
fn add16_keeps_s_z_pv() {
    let r = add16(0x0FFF, 0x0001, f(SF | ZF | PF));
    assert_eq!((r.res, r.f), (0x1000, f(SF | ZF | PF | HF)));
    let r = add16(0xFFFF, 0x0001, f(NF));
    assert_eq!((r.res, r.f), (0x0000, f(HF | CF)));
    let r = add16(0x2000, 0x0800, 0);
    assert_eq!((r.res, r.f), (0x2800, f(YF | XF)));
}

#[test]
fn adc16_and_sbc16_set_all_flags() {
    let r = adc16(0x7FFF, 0x0000, true);
    assert_eq!((r.res, r.f), (0x8000, f(SF | HF | VF)));
    let r = adc16(0xFFFF, 0x0000, true);
    assert_eq!((r.res, r.f), (0x0000, f(ZF | HF | CF)));
    let r = sbc16(0x0000, 0x0001, false);
    assert_eq!((r.res, r.f), (0xFFFF, f(SF | YF | HF | XF | NF | CF)));
    let r = sbc16(0x8000, 0x0001, false);
    assert_eq!((r.res, r.f), (0x7FFF, f(YF | HF | XF | VF | NF)));
    let r = sbc16(0x1234, 0x1233, true);
    assert_eq!((r.res, r.f), (0x0000, f(ZF | NF)));
}

#[test]
fn shift8_each_kind() {
    let r = shift8(0, 0x81, 0);
    assert_eq!((r.res, r.f), (0x03, f(PF | CF)));
    let r = shift8(1, 0x01, 0);
    assert_eq!((r.res, r.f), (0x80, f(SF | CF)));
    let r = shift8(2, 0x80, f(CF));
    assert_eq!((r.res, r.f), (0x01, f(CF)));
    let r = shift8(3, 0x01, 0);
    assert_eq!((r.res, r.f), (0x00, f(ZF | PF | CF)));
    let r = shift8(3, 0x00, f(CF));
    assert_eq!((r.res, r.f), (0x80, f(SF)));
    let r = shift8(4, 0xFF, 0);
    assert_eq!((r.res, r.f), (0xFE, f(SF | YF | XF | CF)));
    let r = shift8(5, 0x81, 0);
    assert_eq!((r.res, r.f), (0xC0, f(SF | PF | CF)));
    let r = shift8(6, 0x00, 0);
    assert_eq!((r.res, r.f), (0x01, 0));
    let r = shift8(7, 0x81, 0);
    assert_eq!((r.res, r.f), (0x40, f(CF)));
}

#[test]
fn rotate_a_keeps_s_z_pv() {
    let r = rotate_a(0, 0xA0, 0);
    assert_eq!((r.res, r.f), (0x41, f(CF)));
    let r = rotate_a(0, 0x41, f(CF));
    assert_eq!((r.res, r.f), (0x82, 0));
    let r = rotate_a(1, 0x01, f(SF | ZF | PF));
    assert_eq!((r.res, r.f), (0x80, f(SF | ZF | PF | CF)));
    let r = rotate_a(2, 0x80, f(CF | HF | NF));
    assert_eq!((r.res, r.f), (0x01, f(CF)));
    let r = rotate_a(3, 0x10, f(CF));
    assert_eq!((r.res, r.f), (0x88, f(XF)));
}

#[test]
fn daa_adjusts_after_add_and_sub() {
    let r = daa(0x3C, 0);
    assert_eq!((r.res, r.f), (0x42, f(HF | PF)));
    let r = daa(0x9A, 0);
    assert_eq!((r.res, r.f), (0x00, f(ZF | HF | PF | CF)));
    let r = daa(0x0F, f(NF | HF));
    assert_eq!((r.res, r.f), (0x09, f(XF | PF | NF)));
    let r = daa(0x00, f(CF));
    assert_eq!((r.res, r.f), (0x60, f(YF | PF | CF)));
    let r = daa(0x15, f(NF | HF));
    assert_eq!((r.res, r.f), (0x0F, f(HF | XF | PF | NF)));
}

#[test]
fn cpl_scf_ccf() {
    let r = cpl(0x0F, 0);
    assert_eq!((r.res, r.f), (0xF0, f(YF | HF | NF)));
    assert_eq!(scf(0x00, 0xFF), f(SF | ZF | PF | CF));
    assert_eq!(scf(0x28, 0), f(YF | XF | CF));
    assert_eq!(ccf(0x00, f(CF)), f(HF));
    assert_eq!(ccf(0x00, 0), f(CF));
}

#[test]
fn bit_test_set_reset() {
    assert_eq!(bit(7, 0x80, 0x80, 0), f(SF | HF));
    assert_eq!(bit(0, 0x00, 0xFF, f(CF)), f(ZF | YF | HF | XF | PF | CF));
    assert_eq!(bit(3, 0x08, 0x00, 0), f(HF));
    assert!(test_bit(5, 0x20));
    assert!(!test_bit(5, 0xDF));
    assert_eq!(set_bit(3, 0x00), 0x08);
    assert_eq!(set_bit(3, 0x08), 0x08);
    assert_eq!(set_bit(7, 0x7F), 0xFF);
    assert_eq!(reset_bit(3, 0xFF), 0xF7);
    assert_eq!(reset_bit(0, 0xFE), 0xFE);
}

#[test]
fn digit_rotations() {
    let r = rrd(0x12, 0x34, 0);
    assert_eq!((r.a, r.m, r.f), (0x14, 0x23, f(PF)));
    let r = rld(0x14, 0x23, 0);
    assert_eq!((r.a, r.m, r.f), (0x12, 0x34, f(PF)));
    let r = rld(0x12, 0x34, f(CF));
    assert_eq!((r.a, r.m, r.f), (0x13, 0x42, f(CF)));
}

#[test]
fn parity_is_even_popcount() {
    assert!(parity(0x00));
    assert!(!parity(0x01));
    assert!(parity(0x03));
    assert!(!parity(0x80));
    assert!(parity(0xFF));
    for v in 0..=255u8 {
        assert_eq!(parity(v), v.count_ones() % 2 == 0);
    }
}

#[test]
fn block_flags() {
    assert_eq!(block_ld(0x00, 0x0A, true, 0xFF), f(SF | ZF | YF | XF | PF | CF));
    assert_eq!(block_ld(0x01, 0x00, false, 0), 0);
    assert_eq!(block_cp(0x10, 0x01, false, f(CF)), f(YF | HF | XF | NF | CF));
    assert_eq!(block_cp(0x33, 0x33, true, 0), f(ZF | PF | NF));
    assert_eq!(block_io(0x00, 0x80, 0x80), f(ZF | HF | PF | NF | CF));
    assert_eq!(block_io(0x02, 0x04, 0x03), f(PF));
    assert_eq!(block_io(0x03, 0x01, 0x00), 0);
}

#[test]
fn load_flags_keep_carry() {
    assert_eq!(load(0x00, true, f(CF)), f(ZF | PF | CF));
    assert_eq!(load(0x80, false, f(HF | NF)), f(SF));
}

#[test]
fn flags_pack_and_unpack() {
    let fl = Flags::unpack(0xA5);
    assert!(fl.s && !fl.z && fl.y && !fl.h && !fl.x && fl.pv && !fl.n && fl.c);
    for v in 0..=255u8 {
        assert_eq!(Flags::unpack(v).pack(), v);
    }
    assert_eq!(Flags::from_result(0x28).pack(), f(YF | XF));
    assert_eq!(Flags::from_result(0x00).pack(), f(ZF));
}

#[test]
fn add8_carry_and_half_carry_for_all_bytes() {
    for a in 0..=255u8 {
        for b in 0..=255u8 {
            let r = add8(a, b);
            let sum = a as u32 + b as u32;
            assert_eq!(r.res as u32, sum % 256);
            assert_eq!(r.f & f(CF) != 0, sum >= 256);
            assert_eq!(r.f & f(HF) != 0, (a & 0xF) + (b & 0xF) >= 16);
        }
    }
}

#[test]
fn inc8_undoes_dec8_for_all_bytes() {
    for a in 0..=255u8 {
        assert_eq!(inc8(dec8(a, 0).res, 0).res, a);
        assert_eq!(dec8(inc8(a, 0xFF).res, 0xFF).res, a);
    }
}
