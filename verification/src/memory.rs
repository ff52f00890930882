//! The 64 KiB memory image.
use vstd::prelude::*;

use crate::registers::{lemma_truncate, low16, low8};
use crate::RegT;

verus! {

/// The word stored at `addr`, low byte first; the high byte is read from
/// the next address, which wraps from 0xFFFF to 0.
pub open spec fn word_at(mem: Seq<u8>, addr: u16) -> u16 {
    (mem[addr as int] as int + 256 * mem[(addr + 1) % 65536] as int) as u16
}

/// Memory with word `v` stored at `addr`: the low byte at `addr`, then the
/// high byte at the next address, which wraps from 0xFFFF to 0.
pub open spec fn with_word(mem: Seq<u8>, addr: u16, v: u16) -> Seq<u8> {
    mem.update(addr as int, (v % 256) as u8).update((addr + 1) % 65536, (v / 256) as u8)
}

/// Memory with the bytes of `data` stored one after another from `addr`
/// on, the address wrapping from 0xFFFF to 0.
pub open spec fn with_bytes(mem: Seq<u8>, addr: u16, data: Seq<u8>) -> Seq<u8>
    decreases data.len(),
{
    if data.len() == 0 {
        mem
    } else {
        with_bytes(mem, addr, data.drop_last()).update(
            (addr + data.len() - 1) % 65536,
            data.last(),
        )
    }
}

/// Flat memory of 64 KiB. Every address is masked to 16 bits, so every
/// access is in range.
pub struct Memory {
    pub(crate) heap: [u8; 65536],
}

impl View for Memory {
    type V = Seq<u8>;

    open(crate) spec fn view(&self) -> Seq<u8> {
        self.heap@
    }
}

impl Memory {
    /// The image always holds 65536 bytes.
    pub proof fn lemma_len(&self)
        ensures
            self@.len() == 65536,
    {
    }

    /// A memory image of 64 KiB, all zero.
    pub fn new() -> (m: Memory)
        ensures
            m@ == Seq::new(65536, |k: int| 0u8),
    {
        let m = Memory { heap: [0; 65536] };
        assert(m.heap@ =~= Seq::new(65536, |k: int| 0u8));
        m
    }

    /// Read the byte at `addr`.
    pub fn r8(&self, addr: RegT) -> (v: RegT)
        ensures
            v == self@[low16(addr) as int],
    {
        proof {
            lemma_truncate(addr);
        }
        let a: u16 = #[verifier::truncate] (addr as u16);
        self.heap[a as usize] as RegT
    }

    /// Write the low 8 bits of `val` to `addr`.
    pub fn w8(&mut self, addr: RegT, val: RegT)
        ensures
            final(self)@ == old(self)@.update(low16(addr) as int, low8(val)),
    {
        proof {
            lemma_truncate(addr);
            lemma_truncate(val);
        }
        let a: u16 = #[verifier::truncate] (addr as u16);
        self.heap[a as usize] = #[verifier::truncate] (val as u8);
    }

    /// Read the little-endian word at `addr`.
    pub fn r16(&self, addr: RegT) -> (v: RegT)
        ensures
            v == word_at(self@, low16(addr)),
    {
        proof {
            lemma_truncate(addr);
        }
        let a: u16 = #[verifier::truncate] (addr as u16);
        let l: RegT = self.heap[a as usize] as RegT;
        let h: RegT = self.heap[a.wrapping_add(1) as usize] as RegT;
        h * 256 + l
    }

    /// Write the low 16 bits of `val` to `addr`, low byte first.
    pub fn w16(&mut self, addr: RegT, val: RegT)
        ensures
            final(self)@ == with_word(old(self)@, low16(addr), low16(val)),
    {
        proof {
            lemma_truncate(addr);
            lemma_truncate(val);
        }
        let a: u16 = #[verifier::truncate] (addr as u16);
        let w: u16 = #[verifier::truncate] (val as u16);
        self.heap[a as usize] = (w % 256) as u8;
        self.heap[a.wrapping_add(1) as usize] = (w / 256) as u8;
    }

    /// Copy a range of bytes into memory, starting at `addr`.
    pub fn write(&mut self, addr: RegT, data: &[u8])
        ensures
            final(self)@ == with_bytes(old(self)@, low16(addr), data@),
    {
        proof {
            lemma_truncate(addr);
        }
        let a: u16 = #[verifier::truncate] (addr as u16);
        let mut n: usize = 0;
        while n < data.len()
            invariant
                n <= data.len(),
                self@ == with_bytes(old(self)@, a, data@.take(n as int)),
            decreases data.len() - n,
        {
            let off: u16 = (n % 65536) as u16;
            let k: u16 = a.wrapping_add(off);
            self.heap[k as usize] = data[n];
            proof {
                let next = data@.take(n + 1);
                assert(next.drop_last() =~= data@.take(n as int));
                assert((a + next.len() - 1) % 65536 == k as int);
            }
            n = n + 1;
        }
        assert(data@.take(n as int) =~= data@);
    }
}

/// A block of at most 64 KiB lands where one expects it: the byte at offset
/// `j` of the block is found at `addr + j`, wrapped to 16 bits, and the
/// rest of the memory is as it was.
pub proof fn law_write_places_bytes(mem: Seq<u8>, addr: u16, data: Seq<u8>, k: int)
    requires
        mem.len() == 65536,
        data.len() <= 65536,
        0 <= k < 65536,
    ensures
        with_bytes(mem, addr, data).len() == 65536,
        with_bytes(mem, addr, data)[k] == if (k - addr) % 65536 < data.len() {
            data[(k - addr) % 65536]
        } else {
            mem[k]
        },
    decreases data.len(),
{
    if data.len() > 0 {
        law_write_places_bytes(mem, addr, data.drop_last(), k);
    }
}

} // verus!
