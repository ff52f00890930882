//! The flag register and the flag algebra of the arithmetic, logic, rotate
//! and shift operations.
use vstd::prelude::*;

use crate::RegT;

verus! {

/// CPU carry flag.
pub const CF: RegT = 0x01;
/// CPU add/subtract flag.
pub const NF: RegT = 0x02;
/// CPU overflow flag (same bit as parity).
pub const VF: RegT = 0x04;
/// CPU parity flag (same bit as overflow).
pub const PF: RegT = 0x04;
/// CPU undocumented 'X' flag.
pub const XF: RegT = 0x08;
/// CPU half carry flag.
pub const HF: RegT = 0x10;
/// CPU undocumented 'Y' flag.
pub const YF: RegT = 0x20;
/// CPU zero flag.
pub const ZF: RegT = 0x40;
/// CPU sign flag.
pub const SF: RegT = 0x80;

/// The eight flags of the F register, one field per bit.
#[derive(Copy, Clone, PartialEq, Eq, Structural)]
pub struct Flags {
    /// Sign, bit 7.
    pub s: bool,
    /// Zero, bit 6.
    pub z: bool,
    /// Undocumented copy of bit 5.
    pub y: bool,
    /// Half carry, bit 4.
    pub h: bool,
    /// Undocumented copy of bit 3.
    pub x: bool,
    /// Parity or overflow, bit 2.
    pub pv: bool,
    /// Add/subtract, bit 1.
    pub n: bool,
    /// Carry, bit 0.
    pub c: bool,
}

/// One if the condition holds, else zero.
pub open spec fn b2i(b: bool) -> int {
    if b { 1 } else { 0 }
}

/// The weight of a flag if it is set, else zero.
pub open spec fn weigh(b: bool, weight: int) -> int {
    if b { weight } else { 0 }
}

/// Bit `k` of a value, for `k` a literal weight: `v / weight` is odd.
pub open spec fn odd_at(v: int, weight: int) -> bool {
    (v / weight) % 2 == 1
}

/// A byte read as a two's complement number.
pub open spec fn signed8(v: u8) -> int {
    if v >= 128 { v - 256 } else { v as int }
}

/// A word read as a two's complement number.
pub open spec fn signed16(v: u16) -> int {
    if v >= 32768 { v - 65536 } else { v as int }
}

/// The number of one bits of a byte.
pub open spec fn popcount(v: u8) -> int {
    v % 2 + v / 2 % 2 + v / 4 % 2 + v / 8 % 2 + v / 16 % 2 + v / 32 % 2 + v / 64 % 2 + v / 128
}

/// Parity as the P flag reports it: true when the number of one bits is even.
pub open spec fn even_parity(v: u8) -> bool {
    popcount(v) % 2 == 0
}

impl Flags {
    /// The F register that holds these flags.
    pub open spec fn byte(self) -> u8 {
        (weigh(self.s, 128) + weigh(self.z, 64) + weigh(self.y, 32) + weigh(self.h, 16) + weigh(
            self.x,
            8,
        ) + weigh(self.pv, 4) + weigh(self.n, 2) + weigh(self.c, 1)) as u8
    }

    /// The flags that an F register holds.
    pub open spec fn of(f: u8) -> Flags {
        Flags {
            s: f >= 128,
            z: odd_at(f as int, 64),
            y: odd_at(f as int, 32),
            h: odd_at(f as int, 16),
            x: odd_at(f as int, 8),
            pv: odd_at(f as int, 4),
            n: odd_at(f as int, 2),
            c: f % 2 == 1,
        }
    }

    /// Sign, zero and the two copy bits as a result byte sets them; the
    /// other four flags clear.
    pub open spec fn szyx(v: u8) -> Flags {
        Flags {
            s: v >= 128,
            z: v == 0,
            y: odd_at(v as int, 32),
            h: false,
            x: odd_at(v as int, 8),
            pv: false,
            n: false,
            c: false,
        }
    }

    /// Pack the flags into an F register value.
    pub fn pack(self) -> (f: u8)
        ensures
            f == self.byte(),
    {
        let mut f: u8 = 0;
        if self.s {
            f = f + 0x80;
        }
        if self.z {
            f = f + 0x40;
        }
        if self.y {
            f = f + 0x20;
        }
        if self.h {
            f = f + 0x10;
        }
        if self.x {
            f = f + 0x08;
        }
        if self.pv {
            f = f + 0x04;
        }
        if self.n {
            f = f + 0x02;
        }
        if self.c {
            f = f + 0x01;
        }
        f
    }

    /// Unpack an F register value.
    pub fn unpack(f: u8) -> (fl: Flags)
        ensures
            fl == Flags::of(f),
    {
        proof {
            lemma_mask_bits(f);
        }
        Flags {
            s: f & 0x80 != 0,
            z: f & 0x40 != 0,
            y: f & 0x20 != 0,
            h: f & 0x10 != 0,
            x: f & 0x08 != 0,
            pv: f & 0x04 != 0,
            n: f & 0x02 != 0,
            c: f & 0x01 != 0,
        }
    }

    /// Sign, zero and the two copy bits of a result byte.
    pub fn from_result(v: u8) -> (fl: Flags)
        ensures
            fl == Flags::szyx(v),
    {
        proof {
            lemma_mask_bits(v);
        }
        Flags {
            s: v & 0x80 != 0,
            z: v == 0,
            y: v & 0x20 != 0,
            h: false,
            x: v & 0x08 != 0,
            pv: false,
            n: false,
            c: false,
        }
    }
}

/// Testing a byte against a one-bit mask reads the bit of that weight.
pub proof fn lemma_mask_bits(v: u8)
    by (bit_vector)
    ensures
        (v & 0x80 != 0) == (v >= 128),
        (v & 0x40 != 0) == ((v / 64) % 2 == 1),
        (v & 0x20 != 0) == ((v / 32) % 2 == 1),
        (v & 0x10 != 0) == ((v / 16) % 2 == 1),
        (v & 0x08 != 0) == ((v / 8) % 2 == 1),
        (v & 0x04 != 0) == ((v / 4) % 2 == 1),
        (v & 0x02 != 0) == ((v / 2) % 2 == 1),
        (v & 0x01 != 0) == (v % 2 == 1),
        v & 0x0F == v % 16,
{
}

/// A byte is the sum of the weights of its set bits.
proof fn lemma_weights_sum(f: u8)
    by (bit_vector)
    ensures
        (if f >= 128 { 128int } else { 0 }) + (if (f / 64) % 2 == 1 { 64int } else { 0 }) + (if (f
            / 32) % 2 == 1 { 32int } else { 0 }) + (if (f / 16) % 2 == 1 { 16int } else { 0 }) + (if (
        f / 8) % 2 == 1 { 8int } else { 0 }) + (if (f / 4) % 2 == 1 { 4int } else { 0 }) + (if (f
            / 2) % 2 == 1 { 2int } else { 0 }) + (if f % 2 == 1 { 1int } else { 0 }) == f as int,
{
}

/// In a sum of distinct bit weights each bit is set exactly when its
/// weight was added.
proof fn lemma_sum_weights(
    s: bool,
    z: bool,
    y: bool,
    h: bool,
    x: bool,
    pv: bool,
    n: bool,
    c: bool,
    f: u8,
)
    by (bit_vector)
    requires
        f as int == (if s { 128int } else { 0 }) + (if z { 64int } else { 0 }) + (if y { 32int } else { 0 }) + (
        if h { 16int } else { 0 }) + (if x { 8int } else { 0 }) + (if pv { 4int } else { 0 }) + (if n { 2int } else { 0 }) + (
        if c { 1int } else { 0 }),
    ensures
        (f >= 128) == s,
        ((f / 64) % 2 == 1) == z,
        ((f / 32) % 2 == 1) == y,
        ((f / 16) % 2 == 1) == h,
        ((f / 8) % 2 == 1) == x,
        ((f / 4) % 2 == 1) == pv,
        ((f / 2) % 2 == 1) == n,
        (f % 2 == 1) == c,
{
}

/// Unpacking what was packed gives the flags back.
pub proof fn law_unpack_inverts_pack(fl: Flags)
    ensures
        Flags::of(fl.byte()) == fl,
{
    let f = fl.byte();
    assert(f as int == weigh(fl.s, 128) + weigh(fl.z, 64) + weigh(fl.y, 32) + weigh(fl.h, 16)
        + weigh(fl.x, 8) + weigh(fl.pv, 4) + weigh(fl.n, 2) + weigh(fl.c, 1));
    lemma_sum_weights(fl.s, fl.z, fl.y, fl.h, fl.x, fl.pv, fl.n, fl.c, f);
}

/// Packing what was unpacked gives the byte back.
pub proof fn law_pack_inverts_unpack(f: u8)
    ensures
        Flags::of(f).byte() == f,
{
    lemma_weights_sum(f);
}

/// Result byte and new F register of an 8-bit operation.
#[derive(Copy, Clone, PartialEq, Eq, Structural)]
pub struct Alu8 {
    /// The result byte.
    pub res: u8,
    /// The new F register.
    pub f: u8,
}

/// Result word and new F register of a 16-bit operation.
#[derive(Copy, Clone, PartialEq, Eq, Structural)]
pub struct Alu16 {
    /// The result word.
    pub res: u16,
    /// The new F register.
    pub f: u8,
}

/// `a + b + cin` on bytes: the sum modulo 256; S, Z, Y, X from the result,
/// H the carry out of the low nibble, P/V signed overflow, N clear, C the
/// carry out of the byte.
#[verifier::opaque]
pub open spec fn add8_spec(a: u8, b: u8, cin: bool) -> Alu8 {
    let sum = a + b + b2i(cin);
    let res = (sum % 256) as u8;
    let over = signed8(a) + signed8(b) + b2i(cin);
    Alu8 {
        res,
        f: (Flags {
            h: a % 16 + b % 16 + b2i(cin) >= 16,
            pv: over < -128 || over > 127,
            c: sum >= 256,
            ..Flags::szyx(res)
        }).byte(),
    }
}

/// `a - b - cin` on bytes: the difference modulo 256; S, Z, Y, X from the
/// result, H the borrow into the low nibble, P/V signed overflow, N set, C
/// the borrow into the byte.
#[verifier::opaque]
pub open spec fn sub8_spec(a: u8, b: u8, cin: bool) -> Alu8 {
    let diff = a - b - b2i(cin);
    let res = (diff % 256) as u8;
    let over = signed8(a) - signed8(b) - b2i(cin);
    Alu8 {
        res,
        f: (Flags {
            h: a % 16 - b % 16 - b2i(cin) < 0,
            pv: over < -128 || over > 127,
            n: true,
            c: diff < 0,
            ..Flags::szyx(res)
        }).byte(),
    }
}

/// The flags of a compare: those of `a - b`, but Y and X copied from the
/// operand `b`.
#[verifier::opaque]
pub open spec fn cp8_spec(a: u8, b: u8) -> u8 {
    let fl = Flags::of(sub8_spec(a, b, false).f);
    (Flags { y: odd_at(b as int, 32), x: odd_at(b as int, 8), ..fl }).byte()
}

/// Flags of a logic operation or a shift with result `res`: S, Z, Y, X from
/// the result, P/V its parity, N clear, H and C as given.
#[verifier::opaque]
pub open spec fn logic_flags(res: u8, h: bool, c: bool) -> u8 {
    (Flags { h, pv: even_parity(res), c, ..Flags::szyx(res) }).byte()
}

/// Bitwise and: H set, C clear.
pub open spec fn and8_spec(a: u8, b: u8) -> Alu8 {
    Alu8 { res: a & b, f: logic_flags(a & b, true, false) }
}

/// Bitwise or: H and C clear.
pub open spec fn or8_spec(a: u8, b: u8) -> Alu8 {
    Alu8 { res: a | b, f: logic_flags(a | b, false, false) }
}

/// Bitwise exclusive or: H and C clear.
pub open spec fn xor8_spec(a: u8, b: u8) -> Alu8 {
    Alu8 { res: a ^ b, f: logic_flags(a ^ b, false, false) }
}

/// Increment: the flags of `a + 1`, with C kept from `f`.
#[verifier::opaque]
pub open spec fn inc8_spec(a: u8, f: u8) -> Alu8 {
    let r = add8_spec(a, 1, false);
    Alu8 { res: r.res, f: (Flags { c: Flags::of(f).c, ..Flags::of(r.f) }).byte() }
}

/// Decrement: the flags of `a - 1`, with C kept from `f`.
#[verifier::opaque]
pub open spec fn dec8_spec(a: u8, f: u8) -> Alu8 {
    let r = sub8_spec(a, 1, false);
    Alu8 { res: r.res, f: (Flags { c: Flags::of(f).c, ..Flags::of(r.f) }).byte() }
}

/// Negate: `0 - a`.
pub open spec fn neg8_spec(a: u8) -> Alu8 {
    sub8_spec(0, a, false)
}

/// The exclusive-or tests for the half carry and the overflow of a sum say
/// what the arithmetic says.
proof fn lemma_add_bits(a: u8, b: u8, c: u8, sum: u16, res: u8)
    by (bit_vector)
    requires
        c <= 1,
        sum as int == a as int + b as int + c as int,
        res == sum as u8,
    ensures
        res as int == (sum as int) % 256,
        ((a ^ b ^ res) & 0x10 != 0) == ((a & 0xF) + (b & 0xF) + c >= 16),
        ((a ^ res) & (b ^ res) & 0x80 != 0) == ((a < 128) == (b < 128) && (a < 128) != (res
            < 128)),
{
}

/// The exclusive-or tests for the half borrow and the overflow of a
/// difference say what the arithmetic says.
proof fn lemma_sub_bits(a: u8, b: u8, c: u8, t: u16, res: u8)
    by (bit_vector)
    requires
        c <= 1,
        t as int == a as int + 256 - b as int - c as int,
        res == t as u8,
    ensures
        res as int == (t as int) % 256,
        ((a ^ b ^ res) & 0x10 != 0) == ((a & 0xF) < (b & 0xF) + c),
        ((a ^ b) & (a ^ res) & 0x80 != 0) == ((a < 128) != (b < 128) && (a < 128) != (res
            < 128)),
{
}

/// A sum overflows the signed range exactly when both operands have one
/// sign and the result the other.
proof fn lemma_add_signs(a: u8, b: u8, c: int, res: u8)
    requires
        0 <= c <= 1,
        res as int == (a + b + c) % 256,
    ensures
        (signed8(a) + signed8(b) + c < -128 || signed8(a) + signed8(b) + c > 127) == ((a < 128)
            == (b < 128) && (a < 128) != (res < 128)),
{
}

/// A difference overflows the signed range exactly when the operands differ
/// in sign and the result has the sign of the subtrahend.
proof fn lemma_sub_signs(a: u8, b: u8, c: int, res: u8)
    requires
        0 <= c <= 1,
        res as int == (a + 256 - b - c) % 256,
    ensures
        res as int == (a - b - c) % 256,
        (signed8(a) - signed8(b) - c < -128 || signed8(a) - signed8(b) - c > 127) == ((a < 128)
            != (b < 128) && (a < 128) != (res < 128)),
{
    let diff = a - b - c;
    if diff >= 0 {
        assert((diff + 256) % 256 == diff && diff % 256 == diff);
    } else {
        assert((diff + 256) % 256 == diff + 256 && diff % 256 == diff + 256);
    }
}

/// The number of one bits of a byte is even exactly when folding the byte
/// onto its lowest bit by exclusive or leaves that bit clear.
proof fn lemma_parity_fold(v: u8)
    by (bit_vector)
    ensures
        ((v ^ (v >> 4) ^ ((v ^ (v >> 4)) >> 2) ^ ((v ^ (v >> 4) ^ ((v ^ (v >> 4)) >> 2)) >> 1)) & 1
            == 0) == (((v % 2) as int + (v / 2 % 2) as int + (v / 4 % 2) as int + (v / 8 % 2) as int + (v
            / 16 % 2) as int + (v / 32 % 2) as int + (v / 64 % 2) as int + (v / 128) as int) % 2
            == 0),
{
}

/// True when the number of one bits of `v` is even.
pub fn parity(v: u8) -> (p: bool)
    ensures
        p == even_parity(v),
{
    proof {
        lemma_parity_fold(v);
    }
    let a: u8 = v ^ (v >> 4);
    let b: u8 = a ^ (a >> 2);
    let c: u8 = b ^ (b >> 1);
    c & 1 == 0
}

/// `a + b + cin` with its flags.
pub fn adc8(a: u8, b: u8, cin: bool) -> (r: Alu8)
    ensures
        r == add8_spec(a, b, cin),
{
    proof {
        reveal(add8_spec);
    }
    let c: u8 = if cin { 1 } else { 0 };
    let sum: u16 = a as u16 + b as u16 + c as u16;
    let res: u8 = #[verifier::truncate] (sum as u8);
    proof {
        lemma_add_bits(a, b, c, sum, res);
        lemma_mask_bits(a);
        lemma_mask_bits(b);
        lemma_add_signs(a, b, c as int, res);
    }
    let fl = Flags {
        h: (a ^ b ^ res) & 0x10 != 0,
        pv: (a ^ res) & (b ^ res) & 0x80 != 0,
        c: sum > 0xFF,
        ..Flags::from_result(res)
    };
    Alu8 { res, f: fl.pack() }
}

/// `a + b` with its flags.
pub fn add8(a: u8, b: u8) -> (r: Alu8)
    ensures
        r == add8_spec(a, b, false),
{
    adc8(a, b, false)
}

/// `a - b - cin` with its flags.
pub fn sbc8(a: u8, b: u8, cin: bool) -> (r: Alu8)
    ensures
        r == sub8_spec(a, b, cin),
{
    proof {
        reveal(sub8_spec);
    }
    let c: u8 = if cin { 1 } else { 0 };
    let t: u16 = (a as u16 + 0x100) - b as u16 - c as u16;
    let res: u8 = #[verifier::truncate] (t as u8);
    proof {
        lemma_sub_bits(a, b, c, t, res);
        lemma_mask_bits(a);
        lemma_mask_bits(b);
        lemma_sub_signs(a, b, c as int, res);
    }
    let fl = Flags {
        h: (a ^ b ^ res) & 0x10 != 0,
        pv: (a ^ b) & (a ^ res) & 0x80 != 0,
        n: true,
        c: t < 0x100,
        ..Flags::from_result(res)
    };
    Alu8 { res, f: fl.pack() }
}

/// `a - b` with its flags.
pub fn sub8(a: u8, b: u8) -> (r: Alu8)
    ensures
        r == sub8_spec(a, b, false),
{
    sbc8(a, b, false)
}

/// The flags of comparing `a` with `b`.
pub fn cp8(a: u8, b: u8) -> (f: u8)
    ensures
        f == cp8_spec(a, b),
{
    proof {
        reveal(cp8_spec);
        reveal(sub8_spec);
    }
    let r = sbc8(a, b, false);
    let fl = Flags::unpack(r.f);
    let fb = Flags::from_result(b);
    (Flags { y: fb.y, x: fb.x, ..fl }).pack()
}

/// Flags of a logic operation or shift result.
pub fn logic(res: u8, h: bool, c: bool) -> (f: u8)
    ensures
        f == logic_flags(res, h, c),
{
    proof {
        reveal(logic_flags);
    }
    (Flags { h, pv: parity(res), c, ..Flags::from_result(res) }).pack()
}

/// Bitwise and with its flags.
pub fn and8(a: u8, b: u8) -> (r: Alu8)
    ensures
        r == and8_spec(a, b),
{
    Alu8 { res: a & b, f: logic(a & b, true, false) }
}

/// Bitwise or with its flags.
pub fn or8(a: u8, b: u8) -> (r: Alu8)
    ensures
        r == or8_spec(a, b),
{
    Alu8 { res: a | b, f: logic(a | b, false, false) }
}

/// Bitwise exclusive or with its flags.
pub fn xor8(a: u8, b: u8) -> (r: Alu8)
    ensures
        r == xor8_spec(a, b),
{
    Alu8 { res: a ^ b, f: logic(a ^ b, false, false) }
}

/// `a + 1` with its flags; the carry flag of `f` is kept.
pub fn inc8(a: u8, f: u8) -> (r: Alu8)
    ensures
        r == inc8_spec(a, f),
{
    proof {
        reveal(inc8_spec);
    }
    let s = adc8(a, 1, false);
    let fl = Flags { c: Flags::unpack(f).c, ..Flags::unpack(s.f) };
    Alu8 { res: s.res, f: fl.pack() }
}

/// `a - 1` with its flags; the carry flag of `f` is kept.
pub fn dec8(a: u8, f: u8) -> (r: Alu8)
    ensures
        r == dec8_spec(a, f),
{
    proof {
        reveal(dec8_spec);
    }
    let s = sbc8(a, 1, false);
    let fl = Flags { c: Flags::unpack(f).c, ..Flags::unpack(s.f) };
    Alu8 { res: s.res, f: fl.pack() }
}

/// `0 - a` with its flags.
pub fn neg8(a: u8) -> (r: Alu8)
    ensures
        r == neg8_spec(a),
{
    sbc8(0, a, false)
}

/// `a + b` on words for `ADD HL,rp`: H the carry out of bit 11, C the carry
/// out of the word, N clear, Y and X from the high byte of the result; S, Z
/// and P/V kept from `f`.
#[verifier::opaque]
pub open spec fn add16_spec(a: u16, b: u16, f: u8) -> Alu16 {
    let res = ((a + b) % 65536) as u16;
    let hi = Flags::szyx((res / 256) as u8);
    Alu16 {
        res,
        f: (Flags {
            y: hi.y,
            h: a % 4096 + b % 4096 >= 4096,
            x: hi.x,
            n: false,
            c: a + b >= 65536,
            ..Flags::of(f)
        }).byte(),
    }
}

/// `a + b + cin` on words for `ADC HL,rp`: every flag is set as by the 8-bit
/// operation, widened; Y and X from the high byte of the result.
#[verifier::opaque]
pub open spec fn adc16_spec(a: u16, b: u16, cin: bool) -> Alu16 {
    let sum = a + b + b2i(cin);
    let res = (sum % 65536) as u16;
    let hi = Flags::szyx((res / 256) as u8);
    let over = signed16(a) + signed16(b) + b2i(cin);
    Alu16 {
        res,
        f: (Flags {
            s: res >= 32768,
            z: res == 0,
            y: hi.y,
            h: a % 4096 + b % 4096 + b2i(cin) >= 4096,
            x: hi.x,
            pv: over < -32768 || over > 32767,
            n: false,
            c: sum >= 65536,
        }).byte(),
    }
}

/// `a - b - cin` on words for `SBC HL,rp`.
#[verifier::opaque]
pub open spec fn sbc16_spec(a: u16, b: u16, cin: bool) -> Alu16 {
    let diff = a - b - b2i(cin);
    let res = (diff % 65536) as u16;
    let hi = Flags::szyx((res / 256) as u8);
    let over = signed16(a) - signed16(b) - b2i(cin);
    Alu16 {
        res,
        f: (Flags {
            s: res >= 32768,
            z: res == 0,
            y: hi.y,
            h: a % 4096 - b % 4096 - b2i(cin) < 0,
            x: hi.x,
            pv: over < -32768 || over > 32767,
            n: true,
            c: diff < 0,
        }).byte(),
    }
}

/// Masking a word to twelve bits is the remainder modulo 4096.
proof fn lemma_mask12(v: u16)
    by (bit_vector)
    ensures
        v & 0x0FFF == v % 4096,
{
}

/// The exclusive-or tests for the carry out of bit 11 and the overflow of a
/// 16-bit sum say what the arithmetic says.
proof fn lemma_add16_bits(a: u16, b: u16, c: u16, sum: u32, res: u16)
    by (bit_vector)
    requires
        c <= 1,
        sum as int == a as int + b as int + c as int,
        res == sum as u16,
    ensures
        res as int == (sum as int) % 65536,
        ((a ^ b ^ res) & 0x1000 != 0) == ((a & 0xFFF) + (b & 0xFFF) + c >= 0x1000),
        ((a ^ res) & (b ^ res) & 0x8000 != 0) == ((a < 32768) == (b < 32768) && (a < 32768) != (
        res < 32768)),
{
}

/// The exclusive-or tests for the borrow into bit 11 and the overflow of a
/// 16-bit difference say what the arithmetic says.
proof fn lemma_sub16_bits(a: u16, b: u16, c: u16, t: u32, res: u16)
    by (bit_vector)
    requires
        c <= 1,
        t as int == a as int + 65536 - b as int - c as int,
        res == t as u16,
    ensures
        res as int == (t as int) % 65536,
        ((a ^ b ^ res) & 0x1000 != 0) == ((a & 0xFFF) < (b & 0xFFF) + c),
        ((a ^ b) & (a ^ res) & 0x8000 != 0) == ((a < 32768) != (b < 32768) && (a < 32768) != (
        res < 32768)),
{
}

/// A 16-bit sum overflows the signed range exactly when both operands have
/// one sign and the result the other.
proof fn lemma_add16_signs(a: u16, b: u16, c: int, res: u16)
    requires
        0 <= c <= 1,
        res as int == (a + b + c) % 65536,
    ensures
        (signed16(a) + signed16(b) + c < -32768 || signed16(a) + signed16(b) + c > 32767) == ((a
            < 32768) == (b < 32768) && (a < 32768) != (res < 32768)),
{
}

/// A 16-bit difference overflows the signed range exactly when the
/// operands differ in sign and the result has the sign of the subtrahend.
proof fn lemma_sub16_signs(a: u16, b: u16, c: int, res: u16)
    requires
        0 <= c <= 1,
        res as int == (a + 65536 - b - c) % 65536,
    ensures
        res as int == (a - b - c) % 65536,
        (signed16(a) - signed16(b) - c < -32768 || signed16(a) - signed16(b) - c > 32767) == ((a
            < 32768) != (b < 32768) && (a < 32768) != (res < 32768)),
{
    let diff = a - b - c;
    if diff >= 0 {
        assert((diff + 65536) % 65536 == diff && diff % 65536 == diff);
    } else {
        assert((diff + 65536) % 65536 == diff + 65536 && diff % 65536 == diff + 65536);
    }
}

/// `a + b + cin` on words with all its flags.
pub fn adc16(a: u16, b: u16, cin: bool) -> (r: Alu16)
    ensures
        r == adc16_spec(a, b, cin),
{
    proof {
        reveal(adc16_spec);
    }
    let c: u16 = if cin { 1 } else { 0 };
    let sum: u32 = a as u32 + b as u32 + c as u32;
    let res: u16 = #[verifier::truncate] (sum as u16);
    proof {
        lemma_add16_bits(a, b, c, sum, res);
        lemma_mask12(a);
        lemma_mask12(b);
        lemma_add16_signs(a, b, c as int, res);
    }
    let hi = Flags::from_result((res / 256) as u8);
    let fl = Flags {
        s: res >= 0x8000,
        z: res == 0,
        y: hi.y,
        h: (a ^ b ^ res) & 0x1000 != 0,
        x: hi.x,
        pv: (a ^ res) & (b ^ res) & 0x8000 != 0,
        n: false,
        c: sum > 0xFFFF,
    };
    Alu16 { res, f: fl.pack() }
}

/// `a + b` on words; S, Z and P/V are kept from `f`.
pub fn add16(a: u16, b: u16, f: u8) -> (r: Alu16)
    ensures
        r == add16_spec(a, b, f),
{
    proof {
        reveal(add16_spec);
        reveal(adc16_spec);
    }
    let full = adc16(a, b, false);
    proof {
        law_unpack_inverts_pack(Flags::of(full.f));
        lemma_flags_of_adc16(a, b);
    }
    let n = Flags::unpack(full.f);
    let o = Flags::unpack(f);
    let fl = Flags { s: o.s, z: o.z, pv: o.pv, ..n };
    Alu16 { res: full.res, f: fl.pack() }
}

/// The flags that `adc16_spec` packs, unpacked again.
proof fn lemma_flags_of_adc16(a: u16, b: u16)
    ensures
        ({
            let r = adc16_spec(a, b, false);
            let hi = Flags::szyx((r.res / 256) as u8);
            let fl = Flags::of(r.f);
            &&& fl.y == hi.y
            &&& fl.x == hi.x
            &&& fl.h == (a % 4096 + b % 4096 >= 4096)
            &&& !fl.n
            &&& fl.c == (a + b >= 65536)
        }),
{
    reveal(adc16_spec);
    let sum = a + b;
    let res = (sum % 65536) as u16;
    let hi = Flags::szyx((res / 256) as u8);
    let over = signed16(a) + signed16(b);
    law_unpack_inverts_pack(
        Flags {
            s: res >= 32768,
            z: res == 0,
            y: hi.y,
            h: a % 4096 + b % 4096 >= 4096,
            x: hi.x,
            pv: over < -32768 || over > 32767,
            n: false,
            c: sum >= 65536,
        },
    );
}

/// `a - b - cin` on words with all its flags.
pub fn sbc16(a: u16, b: u16, cin: bool) -> (r: Alu16)
    ensures
        r == sbc16_spec(a, b, cin),
{
    proof {
        reveal(sbc16_spec);
    }
    let c: u16 = if cin { 1 } else { 0 };
    let t: u32 = (a as u32 + 0x10000) - b as u32 - c as u32;
    let res: u16 = #[verifier::truncate] (t as u16);
    proof {
        lemma_sub16_bits(a, b, c, t, res);
        lemma_mask12(a);
        lemma_mask12(b);
        lemma_sub16_signs(a, b, c as int, res);
    }
    let hi = Flags::from_result((res / 256) as u8);
    let fl = Flags {
        s: res >= 0x8000,
        z: res == 0,
        y: hi.y,
        h: (a ^ b ^ res) & 0x1000 != 0,
        x: hi.x,
        pv: (a ^ b) & (a ^ res) & 0x8000 != 0,
        n: true,
        c: t < 0x10000,
    };
    Alu16 { res, f: fl.pack() }
}

/// The byte that a rotate or shift leaves. `kind` is the 3-bit operation
/// field: 0 RLC, 1 RRC, 2 RL, 3 RR, 4 SLA, 5 SRA, 6 SLL (shifts a one in),
/// anything else SRL.
pub open spec fn shifted(kind: u8, v: u8, cin: bool) -> u8 {
    let left = (v % 128) * 2;
    let right = v / 2;
    (if kind == 0 {
        left + v / 128
    } else if kind == 1 {
        right + (v % 2) * 128
    } else if kind == 2 {
        left + b2i(cin)
    } else if kind == 3 {
        right + 128 * b2i(cin)
    } else if kind == 4 {
        left
    } else if kind == 5 {
        right + (v / 128) * 128
    } else if kind == 6 {
        left + 1
    } else {
        right as int
    }) as u8
}

/// The bit that a rotate or shift moves out: bit 7 for the left-going kinds
/// (0, 2, 4, 6), bit 0 for the others.
pub open spec fn shifted_out(kind: u8, v: u8) -> bool {
    if kind == 0 || kind == 2 || kind == 4 || kind == 6 {
        v >= 128
    } else {
        v % 2 == 1
    }
}

/// A rotate or shift of the `CB` page: S, Z, Y, X and parity from the
/// result, H and N clear, C the bit moved out.
#[verifier::opaque]
pub open spec fn shift8_spec(kind: u8, v: u8, f: u8) -> Alu8 {
    let res = shifted(kind, v, Flags::of(f).c);
    Alu8 { res, f: logic_flags(res, false, shifted_out(kind, v)) }
}

/// RLCA, RRCA, RLA, RRA (kinds 0 to 3) on the accumulator: H and N clear, C
/// the bit moved out, Y and X from the result; S, Z and P/V kept from `f`.
#[verifier::opaque]
pub open spec fn rotate_a_spec(kind: u8, a: u8, f: u8) -> Alu8 {
    let res = shifted(kind, a, Flags::of(f).c);
    let r = Flags::szyx(res);
    Alu8 {
        res,
        f: (Flags { y: r.y, h: false, x: r.x, n: false, c: shifted_out(kind, a), ..Flags::of(f) }).byte(),
    }
}

/// Decimal adjust. With `lo` = low nibble above 9 or H set, and `hi` = value
/// above 0x99 or C set, the correction is 6 for `lo` plus 0x60 for `hi`; it
/// is subtracted if N is set and added otherwise. C becomes `hi`, H the
/// carry or borrow between the nibbles, P/V the parity of the result; N is
/// kept.
#[verifier::opaque]
pub open spec fn daa_spec(a: u8, f: u8) -> Alu8 {
    let o = Flags::of(f);
    let lo = a % 16 > 9 || o.h;
    let hi = a > 0x99 || o.c;
    let adj = weigh(lo, 6) + weigh(hi, 0x60);
    let res = (if o.n { (a - adj) % 256 } else { (a + adj) % 256 }) as u8;
    Alu8 {
        res,
        f: (Flags {
            h: if o.n { o.h && a % 16 < 6 } else { a % 16 > 9 },
            pv: even_parity(res),
            n: o.n,
            c: hi,
            ..Flags::szyx(res)
        }).byte(),
    }
}

/// CPL: the accumulator inverted; H and N set, Y and X from the result, the
/// other flags kept.
#[verifier::opaque]
pub open spec fn cpl_spec(a: u8, f: u8) -> Alu8 {
    let res = (255 - a) as u8;
    let r = Flags::szyx(res);
    Alu8 { res, f: (Flags { y: r.y, h: true, x: r.x, n: true, ..Flags::of(f) }).byte() }
}

/// SCF: C set, H and N clear, Y and X from the accumulator.
#[verifier::opaque]
pub open spec fn scf_spec(a: u8, f: u8) -> u8 {
    let r = Flags::szyx(a);
    (Flags { y: r.y, h: false, x: r.x, n: false, c: true, ..Flags::of(f) }).byte()
}

/// CCF: C inverted, H the old C, N clear, Y and X from the accumulator.
#[verifier::opaque]
pub open spec fn ccf_spec(a: u8, f: u8) -> u8 {
    let o = Flags::of(f);
    let r = Flags::szyx(a);
    (Flags { y: r.y, h: o.c, x: r.x, n: false, c: !o.c, ..o }).byte()
}

/// The weight of bit `n` of a byte, for `n` taken modulo 8.
pub open spec fn bit_weight(n: u8) -> u8 {
    let k = n % 8;
    if k == 0 {
        1
    } else if k == 1 {
        2
    } else if k == 2 {
        4
    } else if k == 3 {
        8
    } else if k == 4 {
        16
    } else if k == 5 {
        32
    } else if k == 6 {
        64
    } else {
        128
    }
}

/// Whether bit `n` of `v` is set.
pub open spec fn bit_is_set(n: u8, v: u8) -> bool {
    odd_at(v as int, bit_weight(n) as int)
}

/// `v` with bit `n` set.
pub open spec fn with_bit(n: u8, v: u8) -> u8 {
    if bit_is_set(n, v) { v } else { (v + bit_weight(n)) as u8 }
}

/// `v` with bit `n` cleared.
pub open spec fn without_bit(n: u8, v: u8) -> u8 {
    if bit_is_set(n, v) { (v - bit_weight(n)) as u8 } else { v }
}

/// BIT n: Z and P/V set when the bit is clear, S set when bit 7 is tested
/// and set, H set, N clear, C kept; Y and X are copied from `xy`.
#[verifier::opaque]
pub open spec fn bit_spec(n: u8, v: u8, xy: u8, f: u8) -> u8 {
    let set = bit_is_set(n, v);
    let r = Flags::szyx(xy);
    (Flags {
        s: set && n % 8 == 7,
        z: !set,
        y: r.y,
        h: true,
        x: r.x,
        pv: !set,
        n: false,
        c: Flags::of(f).c,
    }).byte()
}

/// Flags of a loaded value where the carry is kept: S, Z, Y, X from `v`, H
/// and N clear, C from `f`, P/V as given.
#[verifier::opaque]
pub open spec fn load_flags(v: u8, pv: bool, f: u8) -> u8 {
    (Flags { pv, c: Flags::of(f).c, ..Flags::szyx(v) }).byte()
}

/// The accumulator and the memory byte after RLD or RRD, with the flags.
#[derive(Copy, Clone, PartialEq, Eq, Structural)]
pub struct Digits {
    /// The new accumulator.
    pub a: u8,
    /// The new memory byte.
    pub m: u8,
    /// The new F register.
    pub f: u8,
}

/// RLD: the low digit of A goes to the low digit of the byte, the low digit
/// of the byte to its high digit, and its high digit to the low digit of A.
#[verifier::opaque]
pub open spec fn rld_spec(a: u8, m: u8, f: u8) -> Digits {
    let na = ((a / 16) * 16 + m / 16) as u8;
    Digits { a: na, m: ((m % 16) * 16 + a % 16) as u8, f: load_flags(na, even_parity(na), f) }
}

/// RRD: the low digit of A goes to the high digit of the byte, the high
/// digit of the byte to its low digit, and its low digit to the low digit
/// of A.
#[verifier::opaque]
pub open spec fn rrd_spec(a: u8, m: u8, f: u8) -> Digits {
    let na = ((a / 16) * 16 + m % 16) as u8;
    Digits { a: na, m: ((a % 16) * 16 + m / 16) as u8, f: load_flags(na, even_parity(na), f) }
}

/// Flags after LDI / LDD moved byte `v`: H and N clear, P/V set while BC is
/// not zero; with `n = A + v`, Y is bit 1 of `n` and X its bit 3; S, Z, C kept.
#[verifier::opaque]
pub open spec fn block_ld_flags(a: u8, v: u8, more: bool, f: u8) -> u8 {
    let n = (a + v) % 256;
    (Flags { y: odd_at(n, 2), h: false, x: odd_at(n, 8), pv: more, n: false, ..Flags::of(f) }).byte()
}

/// Flags after CPI / CPD compared A with byte `v`: S, Z, H as for `A - v`, N
/// set, P/V set while BC is not zero, C kept; with `n = A - v - H`, Y is
/// bit 1 of `n` and X its bit 3.
#[verifier::opaque]
pub open spec fn block_cp_flags(a: u8, v: u8, more: bool, f: u8) -> u8 {
    let d = Flags::of(sub8_spec(a, v, false).f);
    let n = (a - v - b2i(d.h)) % 256;
    (Flags {
        s: d.s,
        z: d.z,
        y: odd_at(n, 2),
        h: d.h,
        x: odd_at(n, 8),
        pv: more,
        n: true,
        c: Flags::of(f).c,
    }).byte()
}

/// Flags after a block I/O step moved byte `v`. `b` is the counter after its
/// decrement and `k` the byte added to `v` (C plus or minus one for input,
/// L after the pointer moved for output): S, Z, Y, X from `b`; N is bit 7
/// of `v`; H and C are set when `v + k` carries; P/V is the parity of
/// `((v + k) mod 8) xor b`.
#[verifier::opaque]
pub open spec fn block_io_flags(b: u8, v: u8, k: u8) -> u8 {
    let t = v + k;
    (Flags {
        h: t >= 256,
        pv: even_parity(((t % 8) as u8) ^ b),
        n: v >= 128,
        c: t >= 256,
        ..Flags::szyx(b)
    }).byte()
}

/// Rotate or shift `v` by the `CB`-page operation `kind`.
pub fn shift8(kind: u8, v: u8, f: u8) -> (r: Alu8)
    ensures
        r == shift8_spec(kind, v, f),
{
    proof {
        reveal(shift8_spec);
    }
    let cin: u8 = if Flags::unpack(f).c { 1 } else { 0 };
    let left: u8 = (v % 128) * 2;
    let right: u8 = v / 2;
    let res: u8 = if kind == 0 {
        left + v / 128
    } else if kind == 1 {
        right + (v % 2) * 128
    } else if kind == 2 {
        left + cin
    } else if kind == 3 {
        right + 128 * cin
    } else if kind == 4 {
        left
    } else if kind == 5 {
        right + (v / 128) * 128
    } else if kind == 6 {
        left + 1
    } else {
        right
    };
    let out = if kind == 0 || kind == 2 || kind == 4 || kind == 6 {
        v >= 128
    } else {
        v % 2 == 1
    };
    Alu8 { res, f: logic(res, false, out) }
}

/// Rotate the accumulator: RLCA, RRCA, RLA, RRA for `kind` 0 to 3.
pub fn rotate_a(kind: u8, a: u8, f: u8) -> (r: Alu8)
    ensures
        r == rotate_a_spec(kind, a, f),
{
    proof {
        reveal(rotate_a_spec);
        reveal(logic_flags);
        reveal(shift8_spec);
    }
    let s = shift8(kind, a, f);
    proof {
        law_unpack_inverts_pack(
            Flags {
                h: false,
                pv: even_parity(s.res),
                c: shifted_out(kind, a),
                ..Flags::szyx(s.res)
            },
        );
    }
    let n = Flags::unpack(s.f);
    let o = Flags::unpack(f);
    let fl = Flags { y: n.y, h: false, x: n.x, n: false, c: n.c, ..o };
    Alu8 { res: s.res, f: fl.pack() }
}

/// Adding the modulus before reducing does not change the residue.
proof fn lemma_mod_shift(x: int)
    requires
        -256 <= x < 256,
    ensures
        (x + 256) % 256 == x % 256,
{
    if x >= 0 {
        assert((x + 256) % 256 == x && x % 256 == x);
    } else {
        assert((x + 256) % 256 == x + 256 && x % 256 == x + 256);
    }
}

/// Decimal adjust the accumulator after an addition or subtraction.
pub fn daa(a: u8, f: u8) -> (r: Alu8)
    ensures
        r == daa_spec(a, f),
{
    proof {
        reveal(daa_spec);
    }
    let o = Flags::unpack(f);
    let lo = a % 16 > 9 || o.h;
    let hi = a > 0x99 || o.c;
    let adj: u8 = (if lo { 6 } else { 0 }) + (if hi { 0x60 } else { 0 });
    let res: u8 = if o.n {
        proof {
            lemma_mod_shift(a - adj);
        }
        ((a as u16 + 256 - adj as u16) % 256) as u8
    } else {
        ((a as u16 + adj as u16) % 256) as u8
    };
    let fl = Flags {
        h: if o.n { o.h && a % 16 < 6 } else { a % 16 > 9 },
        pv: parity(res),
        n: o.n,
        c: hi,
        ..Flags::from_result(res)
    };
    Alu8 { res, f: fl.pack() }
}

/// Invert the accumulator.
pub fn cpl(a: u8, f: u8) -> (r: Alu8)
    ensures
        r == cpl_spec(a, f),
{
    proof {
        reveal(cpl_spec);
    }
    let res: u8 = 255 - a;
    let n = Flags::from_result(res);
    let fl = Flags { y: n.y, h: true, x: n.x, n: true, ..Flags::unpack(f) };
    Alu8 { res, f: fl.pack() }
}

/// The flags after SCF.
pub fn scf(a: u8, f: u8) -> (r: u8)
    ensures
        r == scf_spec(a, f),
{
    proof {
        reveal(scf_spec);
    }
    let n = Flags::from_result(a);
    (Flags { y: n.y, h: false, x: n.x, n: false, c: true, ..Flags::unpack(f) }).pack()
}

/// The flags after CCF.
pub fn ccf(a: u8, f: u8) -> (r: u8)
    ensures
        r == ccf_spec(a, f),
{
    proof {
        reveal(ccf_spec);
    }
    let o = Flags::unpack(f);
    let n = Flags::from_result(a);
    (Flags { y: n.y, h: o.c, x: n.x, n: false, c: !o.c, ..o }).pack()
}

/// The weight of bit `n` (taken modulo 8).
pub fn weight_of(n: u8) -> (w: u8)
    ensures
        w == bit_weight(n),
        w > 0,
{
    let k = n % 8;
    if k == 0 {
        1
    } else if k == 1 {
        2
    } else if k == 2 {
        4
    } else if k == 3 {
        8
    } else if k == 4 {
        16
    } else if k == 5 {
        32
    } else if k == 6 {
        64
    } else {
        128
    }
}

/// Test bit `n` of `v`.
pub fn test_bit(n: u8, v: u8) -> (b: bool)
    ensures
        b == bit_is_set(n, v),
{
    (v / weight_of(n)) % 2 == 1
}

/// Set bit `n` of `v`.
pub fn set_bit(n: u8, v: u8) -> (r: u8)
    ensures
        r == with_bit(n, v),
{
    let w = weight_of(n);
    if test_bit(n, v) {
        v
    } else {
        proof {
            lemma_bit_room(n, v);
        }
        v + w
    }
}

/// Clear bit `n` of `v`.
pub fn reset_bit(n: u8, v: u8) -> (r: u8)
    ensures
        r == without_bit(n, v),
{
    let w = weight_of(n);
    if test_bit(n, v) {
        proof {
            lemma_bit_room(n, v);
        }
        v - w
    } else {
        v
    }
}

/// A set bit can be taken out of a byte and a clear one put in without
/// leaving the range of a byte.
proof fn lemma_bit_room(n: u8, v: u8)
    ensures
        bit_is_set(n, v) ==> v >= bit_weight(n),
        !bit_is_set(n, v) ==> v + bit_weight(n) <= 255,
{
    lemma_mask_bits(v);
    let k = n % 8;
    if k == 0 {
    } else if k == 1 {
    } else if k == 2 {
    } else if k == 3 {
    } else if k == 4 {
    } else if k == 5 {
    } else if k == 6 {
    } else {
    }
}

/// The flags after BIT n on `v`; Y and X are copied from `xy`.
pub fn bit(n: u8, v: u8, xy: u8, f: u8) -> (r: u8)
    ensures
        r == bit_spec(n, v, xy, f),
{
    proof {
        reveal(bit_spec);
    }
    let set = test_bit(n, v);
    let x = Flags::from_result(xy);
    (Flags {
        s: set && n % 8 == 7,
        z: !set,
        y: x.y,
        h: true,
        x: x.x,
        pv: !set,
        n: false,
        c: Flags::unpack(f).c,
    }).pack()
}

/// Flags of a loaded value, carry kept.
pub fn load(v: u8, pv: bool, f: u8) -> (r: u8)
    ensures
        r == load_flags(v, pv, f),
{
    proof {
        reveal(load_flags);
    }
    (Flags { pv, c: Flags::unpack(f).c, ..Flags::from_result(v) }).pack()
}

/// Rotate the digits of A and a memory byte to the left.
pub fn rld(a: u8, m: u8, f: u8) -> (r: Digits)
    ensures
        r == rld_spec(a, m, f),
{
    proof {
        reveal(rld_spec);
    }
    let na: u8 = (a / 16) * 16 + m / 16;
    Digits { a: na, m: (m % 16) * 16 + a % 16, f: load(na, parity(na), f) }
}

/// Rotate the digits of A and a memory byte to the right.
pub fn rrd(a: u8, m: u8, f: u8) -> (r: Digits)
    ensures
        r == rrd_spec(a, m, f),
{
    proof {
        reveal(rrd_spec);
    }
    let na: u8 = (a / 16) * 16 + m % 16;
    Digits { a: na, m: (a % 16) * 16 + m / 16, f: load(na, parity(na), f) }
}

/// The flags after LDI or LDD.
pub fn block_ld(a: u8, v: u8, more: bool, f: u8) -> (r: u8)
    ensures
        r == block_ld_flags(a, v, more, f),
{
    proof {
        reveal(block_ld_flags);
    }
    let n: u8 = ((a as u16 + v as u16) % 256) as u8;
    (Flags {
        y: (n / 2) % 2 == 1,
        h: false,
        x: (n / 8) % 2 == 1,
        pv: more,
        n: false,
        ..Flags::unpack(f)
    }).pack()
}

/// The flags after CPI or CPD.
pub fn block_cp(a: u8, v: u8, more: bool, f: u8) -> (r: u8)
    ensures
        r == block_cp_flags(a, v, more, f),
{
    proof {
        reveal(block_cp_flags);
        reveal(sub8_spec);
    }
    let d = Flags::unpack(sbc8(a, v, false).f);
    let h: u16 = if d.h { 1 } else { 0 };
    proof {
        lemma_mod_shift(a - v - h);
    }
    let n: u8 = ((a as u16 + 256 - v as u16 - h) % 256) as u8;
    (Flags {
        s: d.s,
        z: d.z,
        y: (n / 2) % 2 == 1,
        h: d.h,
        x: (n / 8) % 2 == 1,
        pv: more,
        n: true,
        c: Flags::unpack(f).c,
    }).pack()
}

/// The flags after INI, IND, OUTI or OUTD.
pub fn block_io(b: u8, v: u8, k: u8) -> (r: u8)
    ensures
        r == block_io_flags(b, v, k),
{
    proof {
        reveal(block_io_flags);
    }
    let t: u16 = v as u16 + k as u16;
    (Flags {
        h: t >= 256,
        pv: parity(((t % 8) as u8) ^ b),
        n: v >= 128,
        c: t >= 256,
        ..Flags::from_result(b)
    }).pack()
}

/// For all bytes `a` and `b`, the sum that `add8` returns is `a + b` modulo
/// 256, its carry flag is set exactly when `a + b` does not fit in a byte,
/// and its half-carry flag exactly when the low nibbles carry.
pub proof fn law_add8_carries(a: u8, b: u8)
    ensures
        add8_spec(a, b, false).res == (a + b) % 256,
        Flags::of(add8_spec(a, b, false).f).c <==> a + b >= 256,
        Flags::of(add8_spec(a, b, false).f).h <==> (a % 16) + (b % 16) >= 16,
{
    reveal(add8_spec);
    let res = ((a + b) % 256) as u8;
    let over = signed8(a) + signed8(b);
    law_unpack_inverts_pack(
        Flags {
            h: a % 16 + b % 16 >= 16,
            pv: over < -128 || over > 127,
            c: a + b >= 256,
            ..Flags::szyx(res)
        },
    );
}

/// For every byte `a` and whatever the flags were, incrementing what a
/// decrement returned gives `a` back.
pub proof fn law_inc_undoes_dec(a: u8, f1: u8, f2: u8)
    ensures
        inc8_spec(dec8_spec(a, f1).res, f2).res == a,
        dec8_spec(inc8_spec(a, f1).res, f2).res == a,
{
    reveal(inc8_spec);
    reveal(dec8_spec);
    reveal(add8_spec);
    reveal(sub8_spec);
    let d = sub8_spec(a, 1, false).res;
    assert(d == if a == 0 { 255 } else { a - 1 });
    assert(add8_spec(d, 1, false).res == a);
    let i = add8_spec(a, 1, false).res;
    assert(i == if a == 255 { 0 } else { a + 1 });
    assert(sub8_spec(i, 1, false).res == a);
}

} // verus!
