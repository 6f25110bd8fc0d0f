//! A verified interpreter core for a fixed 8-bit virtual machine instruction
//! set: 35 opcodes over 16 general registers, a 4 KiB address space, a 64x32
//! monochrome framebuffer, a 16-entry call stack and two countdown timers.
//!
//! The interpreter owns all machine state and exposes one operation, "execute
//! one cycle" ([`processor::Processor::run_cycle`]); rendering, input polling,
//! audio and program loading are external collaborators that exchange plain
//! values with the core.

pub mod arith;
pub mod chip8;
pub mod laws;
pub mod model;
pub mod processor;
