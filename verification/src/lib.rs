//! A cycle-counted Z80 CPU core with machine-checked contracts.
//!
//! The crate has three layers.
//!
//! * The state: [`Registers`], [`Memory`] and [`CPU`], each with a
//!   mathematical model ([`RegistersView`], a sequence of bytes, [`Machine`]).
//! * The instruction set as functions on the model: the flag algebra in
//!   [`flags`], the three opcode pages in [`isa`], [`isa_extended`] and
//!   [`isa_bits`], and the step with its prefixes and interrupts in
//!   [`isa_step`].
//! * The executable engine, proved to do what the model says: the page
//!   executors and [`CPU::step`].
//!
//! [`laws`], [`laws_flags`] and [`laws_shadow`] hold facts that are proved of
//! the instruction set as a whole.
use vstd::prelude::*;

pub mod bus;
pub mod cpu;
pub mod execute;
pub mod execute_bits;
pub mod execute_extended;
pub mod flags;
pub mod isa;
pub mod isa_bits;
pub mod isa_extended;
pub mod isa_step;
pub mod laws;
pub mod laws_flags;
pub mod laws_shadow;
pub mod machine;
pub mod memory;
pub mod registers;
pub mod step;

pub use bus::Bus;
pub use cpu::CPU;
pub use flags::{CF, HF, NF, PF, SF, VF, XF, YF, ZF};
pub use isa_step::{Decoded, Page};
pub use machine::{Effect, Machine, PortWrite};
pub use memory::Memory;
pub use registers::{Index, Register16, Register8, Registers, RegistersView};

verus! {

/// Integer type used for 8- and 16-bit values at the public interface.
///
/// Values wider than the destination are masked when they are stored.
pub type RegT = i32;

} // verus!
