//! A cycle-counted interpreter for the Intel 8080 instruction set.
//!
//! The processor is modelled by [`state::CpuState`], a mathematical record of
//! the registers, flags, memory and interrupt latch, together with a total
//! transition function on that record. [`CPU`] is the executable processor;
//! every operation on it is proved to follow the model.
//!
//! - [`flags`] and [`alu`] hold the status flags and the arithmetic kernel,
//! - [`instr`] the opcode table, the decoder and the timing table,
//! - [`state`] the model and [`laws`] what is proved about it,
//! - [`cpu`] the processor and [`bus`] the ports it talks to,
//! - [`dump`] the text of the diagnostic dump,
//! - [`image`] helpers that build memory images,
//! - [`monitor`], [`invaders`] and [`chip8`] three machines built around the
//!   processor: a monitor for diagnostic programs, the Space Invaders cabinet
//!   and the ports of a CHIP-8 interpreter.

use vstd::prelude::*;

pub mod alu;
pub mod bus;
pub mod chip8;
pub mod cpu;
pub mod dump;
pub mod flags;
pub mod image;
pub mod instr;
pub mod invaders;
pub mod laws;
pub mod monitor;
pub mod state;

pub use bus::Bus;
pub use cpu::CPU;

verus! {

/// Clock rate of the processor in Hz.
pub const RATE: u32 = 2_000_000;

/// Size of the address space in bytes.
pub const MEM_SIZE: usize = 65536;

} // verus!
