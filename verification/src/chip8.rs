//! A minimal machine-state aggregate: registers, memory, call stack, timers
//! and program counter, with nothing attached to them.  The full interpreter,
//! which adds the framebuffer, key state and the cycle execution logic, lives in
//! [`crate::processor`].

use vstd::prelude::*;

verus! {

/// A bare machine state: 4 KiB of memory, the 16 8-bit registers, the address
/// register, a 12-level call stack, the two timers and the program counter.
pub struct Chip8 {
    /// The 4096 memory cells.
    pub mem: [u8; 4096],
    /// The 16 general-purpose registers; during addition register 15 is a
    /// carry flag, during subtraction a not-borrow flag.
    pub v_reg: [u8; 16],
    /// The 16-bit address register.
    pub i_reg: u16,
    /// Return addresses for 12 levels of call nesting.
    pub stack: [u32; 12],
    /// Delay countdown timer.
    pub delay_timer: u8,
    /// Sound countdown timer.
    pub sound_timer: u8,
    /// The program counter.
    pub pc: u32,
}

impl Chip8 {
    /// A machine with every cell zeroed and the program counter at the
    /// conventional load address.
    pub fn new() -> (r: Chip8)
        ensures
            r.mem@ =~= Seq::new(4096, |a: int| 0u8),
            r.v_reg@ =~= Seq::new(16, |x: int| 0u8),
            r.i_reg == 0,
            r.stack@ =~= Seq::new(12, |d: int| 0u32),
            r.delay_timer == 0,
            r.sound_timer == 0,
            r.pc == 0x200,
    {
        Chip8 {
            mem: [0; 4096],
            v_reg: [0; 16],
            i_reg: 0,
            stack: [0; 12],
            delay_timer: 0,
            sound_timer: 0,
            pc: 0x200,
        }
    }
}

} // verus!
