//! The I/O bus that the host system attaches to the CPU.
use vstd::prelude::*;

use crate::RegT;

verus! {

/// System bus: the host implements it to give the CPU its input and output
/// ports. Ports have 16-bit addresses and carry 8-bit data.
///
/// Nothing is assumed of an implementation: the CPU masks what `cpu_inp`
/// returns to 8 bits and works with whatever value comes back.
pub trait Bus {
    /// CPU reads from I/O port `port`.
    fn cpu_inp(&self, port: RegT) -> RegT;

    /// CPU writes `val` to I/O port `port`.
    fn cpu_outp(&self, port: RegT, val: RegT);
}

} // verus!
