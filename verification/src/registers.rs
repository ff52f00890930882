//! The Z80 register file: 8-bit registers, register pairs, the shadow set,
//! the program counter and the selection tables that route the register
//! fields of an opcode.
use vstd::prelude::*;

use crate::RegT;

verus! {

/// The 8-bit registers, in storage order (high byte of a pair first).
#[derive(Copy, Clone, PartialEq, Eq, Structural)]
pub enum Register8 {
    B, C, D, E, H, L, A, F,
    IXH, IXL, IYH, IYL,
    SPH, SPL, WZH, WZL,
    B_, C_, D_, E_, H_, L_, A_, F_,
    WZH_, WZL_,
}

/// The register pairs and 16-bit registers.
#[derive(Copy, Clone, PartialEq, Eq, Structural)]
pub enum Register16 {
    BC, DE, HL, AF,
    IX, IY, SP, WZ,
    BC_, DE_, HL_, AF_,
    WZ_,
}

/// Which 16-bit register stands in for HL while an instruction is decoded:
/// HL itself, or IX / IY under a `DD` / `FD` prefix.
#[derive(Copy, Clone, PartialEq, Eq, Structural)]
pub enum Index {
    HL,
    IX,
    IY,
}

impl Register8 {
    /// Position of the register in the register bank.
    pub open spec fn slot(self) -> int {
        match self {
            Register8::B => 0,
            Register8::C => 1,
            Register8::D => 2,
            Register8::E => 3,
            Register8::H => 4,
            Register8::L => 5,
            Register8::A => 6,
            Register8::F => 7,
            Register8::IXH => 8,
            Register8::IXL => 9,
            Register8::IYH => 10,
            Register8::IYL => 11,
            Register8::SPH => 12,
            Register8::SPL => 13,
            Register8::WZH => 14,
            Register8::WZL => 15,
            Register8::B_ => 16,
            Register8::C_ => 17,
            Register8::D_ => 18,
            Register8::E_ => 19,
            Register8::H_ => 20,
            Register8::L_ => 21,
            Register8::A_ => 22,
            Register8::F_ => 23,
            Register8::WZH_ => 24,
            Register8::WZL_ => 25,
        }
    }

    /// Position of the register in the register bank, as an index.
    fn index(self) -> (i: usize)
        ensures
            i == self.slot(),
            i < 26,
    {
        match self {
            Register8::B => 0,
            Register8::C => 1,
            Register8::D => 2,
            Register8::E => 3,
            Register8::H => 4,
            Register8::L => 5,
            Register8::A => 6,
            Register8::F => 7,
            Register8::IXH => 8,
            Register8::IXL => 9,
            Register8::IYH => 10,
            Register8::IYL => 11,
            Register8::SPH => 12,
            Register8::SPL => 13,
            Register8::WZH => 14,
            Register8::WZL => 15,
            Register8::B_ => 16,
            Register8::C_ => 17,
            Register8::D_ => 18,
            Register8::E_ => 19,
            Register8::H_ => 20,
            Register8::L_ => 21,
            Register8::A_ => 22,
            Register8::F_ => 23,
            Register8::WZH_ => 24,
            Register8::WZL_ => 25,
        }
    }
}

impl Register16 {
    /// The register that holds the high byte of the pair.
    pub open spec fn high(self) -> Register8 {
        match self {
            Register16::BC => Register8::B,
            Register16::DE => Register8::D,
            Register16::HL => Register8::H,
            Register16::AF => Register8::A,
            Register16::IX => Register8::IXH,
            Register16::IY => Register8::IYH,
            Register16::SP => Register8::SPH,
            Register16::WZ => Register8::WZH,
            Register16::BC_ => Register8::B_,
            Register16::DE_ => Register8::D_,
            Register16::HL_ => Register8::H_,
            Register16::AF_ => Register8::A_,
            Register16::WZ_ => Register8::WZH_,
        }
    }

    /// The register that holds the low byte of the pair.
    pub open spec fn low(self) -> Register8 {
        match self {
            Register16::BC => Register8::C,
            Register16::DE => Register8::E,
            Register16::HL => Register8::L,
            Register16::AF => Register8::F,
            Register16::IX => Register8::IXL,
            Register16::IY => Register8::IYL,
            Register16::SP => Register8::SPL,
            Register16::WZ => Register8::WZL,
            Register16::BC_ => Register8::C_,
            Register16::DE_ => Register8::E_,
            Register16::HL_ => Register8::L_,
            Register16::AF_ => Register8::F_,
            Register16::WZ_ => Register8::WZL_,
        }
    }

    /// The registers of the high and the low byte.
    fn halves(self) -> (p: (Register8, Register8))
        ensures
            p.0 == self.high(),
            p.1 == self.low(),
    {
        match self {
            Register16::BC => (Register8::B, Register8::C),
            Register16::DE => (Register8::D, Register8::E),
            Register16::HL => (Register8::H, Register8::L),
            Register16::AF => (Register8::A, Register8::F),
            Register16::IX => (Register8::IXH, Register8::IXL),
            Register16::IY => (Register8::IYH, Register8::IYL),
            Register16::SP => (Register8::SPH, Register8::SPL),
            Register16::WZ => (Register8::WZH, Register8::WZL),
            Register16::BC_ => (Register8::B_, Register8::C_),
            Register16::DE_ => (Register8::D_, Register8::E_),
            Register16::HL_ => (Register8::H_, Register8::L_),
            Register16::AF_ => (Register8::A_, Register8::F_),
            Register16::WZ_ => (Register8::WZH_, Register8::WZL_),
        }
    }
}

impl Index {
    /// The 16-bit register selected by this index mode.
    pub open spec fn pair(self) -> Register16 {
        match self {
            Index::HL => Register16::HL,
            Index::IX => Register16::IX,
            Index::IY => Register16::IY,
        }
    }

    /// The 8-bit selection table under this index mode. Entry 6 is the place
    /// of the memory operand; instructions never read a register through it.
    pub open spec fn table_r(self) -> Seq<Register8> {
        seq![
            Register8::B,
            Register8::C,
            Register8::D,
            Register8::E,
            self.pair().high(),
            self.pair().low(),
            Register8::F,
            Register8::A,
        ]
    }

    /// The pair table that ends in SP, under this index mode.
    pub open spec fn table_sp(self) -> Seq<Register16> {
        seq![Register16::BC, Register16::DE, self.pair(), Register16::SP]
    }

    /// The pair table that ends in AF, under this index mode.
    pub open spec fn table_af(self) -> Seq<Register16> {
        seq![Register16::BC, Register16::DE, self.pair(), Register16::AF]
    }
}

/// The low eight bits of a value.
pub open spec fn low8(v: RegT) -> u8 {
    ((v as int) % 256) as u8
}

/// The low sixteen bits of a value.
pub open spec fn low16(v: RegT) -> u16 {
    ((v as int) % 65536) as u16
}

/// Truncating a value to a byte keeps it modulo 256; to a word, modulo 65536.
pub proof fn lemma_truncate(v: RegT)
    by (bit_vector)
    ensures
        (v as u8) as int == (v as int) % 256,
        (v as u16) as int == (v as int) % 65536,
{
}

/// Mathematical model of the register file.
pub struct RegistersView {
    /// The 26 register bytes, by `Register8::slot`.
    pub bank: Seq<u8>,
    /// The program counter.
    pub pc: u16,
    /// The interrupt vector register.
    pub i: u8,
    /// The refresh register.
    pub r: u8,
    /// The interrupt mode.
    pub im: u8,
    /// 3-bit field to 8-bit register, rewritten by an index prefix.
    pub m_r: Seq<Register8>,
    /// 3-bit field to 8-bit register, never rewritten.
    pub m_r2: Seq<Register8>,
    /// 2-bit field to pair, last entry SP.
    pub m_sp: Seq<Register16>,
    /// 2-bit field to pair, last entry AF.
    pub m_af: Seq<Register16>,
}

impl RegistersView {
    /// Content of an 8-bit register.
    pub open spec fn get8(self, r: Register8) -> u8 {
        self.bank[r.slot()]
    }

    /// The file with one 8-bit register replaced.
    pub open spec fn set8(self, r: Register8, v: u8) -> RegistersView {
        RegistersView { bank: self.bank.update(r.slot(), v), ..self }
    }

    /// Content of a pair: `(high << 8) | low`.
    #[verifier::opaque]
    pub open spec fn get16(self, rp: Register16) -> u16 {
        (self.get8(rp.high()) as int * 256 + self.get8(rp.low()) as int) as u16
    }

    /// The file with one pair replaced.
    pub open spec fn set16(self, rp: Register16, v: u16) -> RegistersView {
        self.set8(rp.high(), (v / 256) as u8).set8(rp.low(), (v % 256) as u8)
    }

    /// The file with the program counter replaced.
    pub open spec fn with_pc(self, pc: u16) -> RegistersView {
        RegistersView { pc, ..self }
    }

    /// The file with the contents of two pairs exchanged.
    pub open spec fn swap(self, r1: Register16, r2: Register16) -> RegistersView {
        self.set16(r1, self.get16(r2)).set16(r2, self.get16(r1))
    }

    /// The file with its tables routed to `idx` in the places of H, L and HL.
    pub open spec fn patch(self, idx: Index) -> RegistersView {
        RegistersView {
            m_r: self.m_r.update(4, idx.pair().high()).update(5, idx.pair().low()),
            m_sp: self.m_sp.update(2, idx.pair()),
            m_af: self.m_af.update(2, idx.pair()),
            ..self
        }
    }

    /// The file after a reset: PC, WZ, IM, I and R cleared, the rest kept.
    pub open spec fn reset(self) -> RegistersView {
        RegistersView { pc: 0, i: 0, r: 0, im: 0, ..self.set16(Register16::WZ, 0) }
    }

    /// Both files have the same tables.
    pub open spec fn same_tables(self, other: RegistersView) -> bool {
        &&& self.m_r == other.m_r
        &&& self.m_r2 == other.m_r2
        &&& self.m_sp == other.m_sp
        &&& self.m_af == other.m_af
    }

    /// The tables are those of index mode `idx`.
    pub open spec fn selects(self, idx: Index) -> bool {
        &&& self.m_r == idx.table_r()
        &&& self.m_r2 == Index::HL.table_r()
        &&& self.m_sp == idx.table_sp()
        &&& self.m_af == idx.table_af()
    }

    /// The tables are in one of the three states that the prefixes produce.
    pub open spec fn wf(self) -> bool {
        self.selects(Index::HL) || self.selects(Index::IX) || self.selects(Index::IY)
    }
}

/// CPU register access.
///
/// Values are stored masked to the width of the register: a write of `0x1FF`
/// to an 8-bit register stores `0xFF`, a write of `-1` to a pair `0xFFFF`.
pub struct Registers {
    pub(crate) reg: [u8; 26],
    pub(crate) r_pc: u16,
    /// The interrupt vector register.
    pub i: u8,
    /// The refresh register.
    pub r: u8,
    /// The interrupt mode.
    pub im: u8,
    pub(crate) m_r: [Register8; 8],
    pub(crate) m_r2: [Register8; 8],
    pub(crate) m_sp: [Register16; 4],
    pub(crate) m_af: [Register16; 4],
}

impl View for Registers {
    type V = RegistersView;

    open(crate) spec fn view(&self) -> RegistersView {
        RegistersView {
            bank: self.reg@,
            pc: self.r_pc,
            i: self.i,
            r: self.r,
            im: self.im,
            m_r: self.m_r@,
            m_r2: self.m_r2@,
            m_sp: self.m_sp@,
            m_af: self.m_af@,
        }
    }
}

impl Registers {
    /// The model of a register file always holds its 26 bytes and tables of
    /// eight and four entries.
    pub proof fn lemma_len(&self)
        ensures
            self@.bank.len() == 26,
            self@.m_r.len() == 8,
            self@.m_r2.len() == 8,
            self@.m_sp.len() == 4,
            self@.m_af.len() == 4,
    {
    }

    /// The public fields are what the model says they are.
    pub(crate) proof fn lemma_fields(&self)
        ensures
            self@.i == self.i,
            self@.r == self.r,
            self@.im == self.im,
            self@.bank.len() == 26,
    {
    }

    /// Initialize a new register file: every register zero, tables at HL.
    pub fn new() -> (r: Registers)
        ensures
            r@.bank == Seq::new(26, |k: int| 0u8),
            r@.pc == 0,
            r@.i == 0,
            r@.r == 0,
            r@.im == 0,
            r@.selects(Index::HL),
    {
        let r = Registers {
            reg: [0; 26],
            r_pc: 0,
            i: 0,
            r: 0,
            im: 0,
            m_r: [
                Register8::B,
                Register8::C,
                Register8::D,
                Register8::E,
                Register8::H,
                Register8::L,
                Register8::F,
                Register8::A,
            ],
            m_r2: [
                Register8::B,
                Register8::C,
                Register8::D,
                Register8::E,
                Register8::H,
                Register8::L,
                Register8::F,
                Register8::A,
            ],
            m_sp: [Register16::BC, Register16::DE, Register16::HL, Register16::SP],
            m_af: [Register16::BC, Register16::DE, Register16::HL, Register16::AF],
        };
        assert(r.reg@ =~= Seq::new(26, |k: int| 0u8));
        assert(r.m_r@ =~= Index::HL.table_r());
        assert(r.m_r2@ =~= Index::HL.table_r());
        assert(r.m_sp@ =~= Index::HL.table_sp());
        assert(r.m_af@ =~= Index::HL.table_af());
        r
    }

    /// Perform a CPU reset (clears PC, WZ, IM, I and R, keeps the rest).
    pub fn reset(&mut self)
        ensures
            final(self)@ == old(self)@.reset(),
    {
        self.r_pc = 0;
        self.set16(Register16::WZ, 0);
        self.im = 0;
        self.i = 0;
        self.r = 0;
    }

    /// Get content of 8-bit register.
    pub fn get8(&self, reg: Register8) -> (v: RegT)
        ensures
            v == self@.get8(reg),
    {
        self.reg[reg.index()] as RegT
    }

    /// Set content of 8-bit register; `v` is masked to 8 bits.
    pub fn set8(&mut self, reg: Register8, v: RegT)
        ensures
            final(self)@ == old(self)@.set8(reg, low8(v)),
    {
        proof {
            lemma_truncate(v);
        }
        self.reg[reg.index()] = #[verifier::truncate] (v as u8);
    }

    /// Get content of register pair or 16-bit register.
    pub fn get16(&self, reg: Register16) -> (v: RegT)
        ensures
            v == self@.get16(reg),
    {
        proof {
            reveal(RegistersView::get16);
        }
        let (h, l) = reg.halves();
        let hv: RegT = self.reg[h.index()] as RegT;
        let lv: RegT = self.reg[l.index()] as RegT;
        hv * 256 + lv
    }

    /// Set content of register pair or 16-bit register; `v` is masked to 16
    /// bits.
    pub fn set16(&mut self, reg: Register16, v: RegT)
        ensures
            final(self)@ == old(self)@.set16(reg, low16(v)),
    {
        proof {
            lemma_truncate(v);
        }
        let w: u16 = #[verifier::truncate] (v as u16);
        let (h, l) = reg.halves();
        self.reg[h.index()] = (w / 256) as u8;
        self.reg[l.index()] = (w % 256) as u8;
    }

    /// Get content of PC register.
    pub fn pc(&self) -> (v: RegT)
        ensures
            v == self@.pc,
    {
        self.r_pc as RegT
    }

    /// Set content of PC register; `v` is masked to 16 bits.
    pub fn set_pc(&mut self, v: RegT)
        ensures
            final(self)@ == old(self)@.with_pc(low16(v)),
    {
        proof {
            lemma_truncate(v);
        }
        self.r_pc = #[verifier::truncate] (v as u16);
    }

    /// Increment the PC register by some value, wrapping at 16 bits.
    pub fn inc_pc(&mut self, inc: u16)
        ensures
            final(self)@ == old(self)@.with_pc(((old(self)@.pc + inc) % 65536) as u16),
    {
        self.r_pc = self.r_pc.wrapping_add(inc);
    }

    /// Decrement the PC register by some value, wrapping at 16 bits.
    pub fn dec_pc(&mut self, dec: u16)
        ensures
            final(self)@ == old(self)@.with_pc(((old(self)@.pc - dec) % 65536) as u16),
    {
        self.r_pc = self.r_pc.wrapping_sub(dec);
    }

    /// Get 8-bit register by index (where index is 3-bit register id from
    /// Z80 instruction).
    pub fn r8(&self, i: usize) -> (v: RegT)
        requires
            i < 8,
        ensures
            v == self@.get8(self@.m_r[i as int]),
    {
        let r = self.m_r[i];
        self.get8(r)
    }

    /// Set 8-bit register by index (where index is 3-bit register id from
    /// Z80 instruction).
    pub fn set_r8(&mut self, i: usize, v: RegT)
        requires
            i < 8,
        ensures
            final(self)@ == old(self)@.set8(old(self)@.m_r[i as int], low8(v)),
    {
        let r = self.m_r[i];
        self.set8(r, v);
    }

    /// Get 8-bit register by index, H,L never patched to IXH,IXL,IYH,IYL.
    pub fn r8i(&self, i: usize) -> (v: RegT)
        requires
            i < 8,
        ensures
            v == self@.get8(self@.m_r2[i as int]),
    {
        let r = self.m_r2[i];
        self.get8(r)
    }

    /// Set 8-bit register by index, H,L never patched to IXH,IXL,IYH,IYL.
    pub fn set_r8i(&mut self, i: usize, v: RegT)
        requires
            i < 8,
        ensures
            final(self)@ == old(self)@.set8(old(self)@.m_r2[i as int], low8(v)),
    {
        let r = self.m_r2[i];
        self.set8(r, v);
    }

    /// Get 16-bit register by 2-bit index with mapping through SP-table.
    pub fn r16sp(&self, i: usize) -> (v: RegT)
        requires
            i < 4,
        ensures
            v == self@.get16(self@.m_sp[i as int]),
    {
        let r = self.m_sp[i];
        self.get16(r)
    }

    /// Set 16-bit register by 2-bit index with mapping through SP-table.
    pub fn set_r16sp(&mut self, i: usize, v: RegT)
        requires
            i < 4,
        ensures
            final(self)@ == old(self)@.set16(old(self)@.m_sp[i as int], low16(v)),
    {
        let r = self.m_sp[i];
        self.set16(r, v);
    }

    /// Get 16-bit register by 2-bit index with mapping through AF-table.
    pub fn r16af(&self, i: usize) -> (v: RegT)
        requires
            i < 4,
        ensures
            v == self@.get16(self@.m_af[i as int]),
    {
        let r = self.m_af[i];
        self.get16(r)
    }

    /// Set 16-bit register by 2-bit index with mapping through AF-table.
    pub fn set_r16af(&mut self, i: usize, v: RegT)
        requires
            i < 4,
        ensures
            final(self)@ == old(self)@.set16(old(self)@.m_af[i as int], low16(v)),
    {
        let r = self.m_af[i];
        self.set16(r, v);
    }

    /// Swap two 16-bit registers.
    pub fn swap(&mut self, r1: Register16, r2: Register16)
        ensures
            final(self)@ == old(self)@.swap(r1, r2),
    {
        let v1 = self.get16(r1);
        let v2 = self.get16(r2);
        assert(low16(v1) == old(self)@.get16(r1) && low16(v2) == old(self)@.get16(r2));
        self.set16(r1, v2);
        assert(self@ == old(self)@.set16(r1, old(self)@.get16(r2)));
        self.set16(r2, v1);
    }

    /// Patch register mapping tables for use of IX instead of HL.
    pub fn patch_ix(&mut self)
        ensures
            final(self)@ == old(self)@.patch(Index::IX),
    {
        self.m_r[4] = Register8::IXH;
        self.m_r[5] = Register8::IXL;
        self.m_sp[2] = Register16::IX;
        self.m_af[2] = Register16::IX;
    }

    /// Patch register mapping tables for use of IY instead of HL.
    pub fn patch_iy(&mut self)
        ensures
            final(self)@ == old(self)@.patch(Index::IY),
    {
        self.m_r[4] = Register8::IYH;
        self.m_r[5] = Register8::IYL;
        self.m_sp[2] = Register16::IY;
        self.m_af[2] = Register16::IY;
    }

    /// Unpatch register mapping tables to use HL instead of IX/IY.
    pub fn unpatch(&mut self)
        ensures
            final(self)@ == old(self)@.patch(Index::HL),
    {
        self.m_r[4] = Register8::H;
        self.m_r[5] = Register8::L;
        self.m_sp[2] = Register16::HL;
        self.m_af[2] = Register16::HL;
    }
}

/// Patching a well-formed file for any index mode leaves its tables exactly
/// those of that mode, whatever mode they were in before.
pub proof fn lemma_patch_selects(r: RegistersView, idx: Index)
    requires
        r.wf(),
    ensures
        r.patch(idx).selects(idx),
        r.patch(idx).wf(),
{
    let p = r.patch(idx);
    assert(p.m_r =~= idx.table_r());
    assert(p.m_sp =~= idx.table_sp());
    assert(p.m_af =~= idx.table_af());
}

/// After a patch for IX or IY, unpatching restores the 8-bit table and the
/// HL places of both pair tables to their defaults, and touches neither the
/// registers nor the never-patched table.
pub proof fn law_unpatch_restores(r: RegistersView, idx: Index)
    requires
        r.wf(),
    ensures
        r.patch(idx).patch(Index::HL).m_r == Index::HL.table_r(),
        r.patch(idx).patch(Index::HL).m_sp[2] == Register16::HL,
        r.patch(idx).patch(Index::HL).m_af[2] == Register16::HL,
        r.patch(idx).patch(Index::HL).selects(Index::HL),
        r.patch(idx).patch(Index::HL).bank == r.bank,
        r.patch(idx).patch(Index::HL).m_r2 == r.m_r2,
{
    lemma_patch_selects(r, idx);
    lemma_patch_selects(r.patch(idx), Index::HL);
}

} // verus!
