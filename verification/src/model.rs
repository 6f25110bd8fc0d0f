//! Mathematical model of the virtual machine.
//!
//! `VmState` is the specification-level image of the interpreter state; every
//! executable operation on [`crate::processor::Processor`] is specified as a
//! pure transition on `VmState`.  The transition semantics of a whole cycle is
//! `spec_cycle`; `decode` gives the meaning of a 16-bit instruction word.

use vstd::prelude::*;

verus! {

/// Number of addressable memory cells.
pub const MEM_SIZE: usize = 4096;

/// Lowest address of the loaded program image; also the initial program counter.
pub const PROGRAM_START: usize = 512;

/// Number of general-purpose registers.
pub const NUM_REGS: usize = 16;

/// Capacity of the call stack.
pub const STACK_SIZE: usize = 16;

/// Number of logical keys.
pub const NUM_KEYS: usize = 16;

/// Framebuffer width in pixels.
pub const FB_WIDTH: usize = 64;

/// Framebuffer height in pixels.
pub const FB_HEIGHT: usize = 32;

/// Number of framebuffer cells (row-major, `FB_WIDTH * FB_HEIGHT`).
pub const FB_SIZE: usize = 2048;

/// Number of bytes of the built-in font (16 glyphs of 5 bytes).
pub const FONT_BYTES: usize = 80;

/// A fatal execution error.  No error is recoverable: each one indicates a
/// malformed or corrupt program, and the driver loop is expected to stop.
#[derive(Clone, Copy, Debug, PartialEq, Eq, Structural)]
pub enum VmError {
    /// The fetched instruction word matches no known opcode pattern.
    DecodeError,
    /// A return was executed with an empty call stack.
    StackUnderflow,
    /// A call was executed with a full call stack.
    StackOverflow,
    /// A computed address (memory index, address register, program counter
    /// target, or key index) falls outside its valid range.
    OutOfBoundsAddress,
}

/// How the program counter moves after an instruction.
#[derive(Clone, Copy, Debug, PartialEq, Eq, Structural)]
pub enum ProgramCounterAction {
    /// Step to the next instruction word (+2).
    Advance,
    /// Skip over the next instruction word (+4).
    SkipNext,
    /// Set the program counter to an absolute address.
    Jump(u16),
    /// Leave the program counter unchanged, so the same instruction is
    /// fetched again on the next cycle.
    WaitForKey,
}

impl ProgramCounterAction {
    /// Choose between two actions.
    pub fn action_if(
        condition: bool,
        action_true: ProgramCounterAction,
        action_false: ProgramCounterAction,
    ) -> (r: ProgramCounterAction)
        ensures
            r == if condition { action_true } else { action_false },
    {
        if condition {
            action_true
        } else {
            action_false
        }
    }

    /// Skip the next instruction when the condition holds, else advance.
    pub fn skip_if(condition: bool) -> (r: ProgramCounterAction)
        ensures
            r == if condition { ProgramCounterAction::SkipNext } else { ProgramCounterAction::Advance },
    {
        ProgramCounterAction::action_if(
            condition,
            ProgramCounterAction::SkipNext,
            ProgramCounterAction::Advance,
        )
    }
}

/// A decoded instruction.  Fields named `x` and `y` are register selectors
/// (4 bits), `kk` is an 8-bit literal, `nnn` a 12-bit address literal and
/// `n` a 4-bit literal.
#[derive(Clone, Copy, Debug, PartialEq, Eq, Structural)]
pub enum Instr {
    /// 00E0: clear the framebuffer.
    ClearScreen,
    /// 00EE: return from a subroutine.
    Return,
    /// 1nnn: jump to `nnn`.
    Jump(u16),
    /// 2nnn: call the subroutine at `nnn`.
    Call(u16),
    /// 3xkk: skip the next instruction if `Vx == kk`.
    SkipEqByte(u8, u8),
    /// 4xkk: skip the next instruction if `Vx != kk`.
    SkipNeByte(u8, u8),
    /// 5xy0: skip the next instruction if `Vx == Vy`.
    SkipEqReg(u8, u8),
    /// 6xkk: `Vx := kk`.
    LoadByte(u8, u8),
    /// 7xkk: `Vx := Vx + kk` modulo 256, flags untouched.
    AddByte(u8, u8),
    /// 8xy0: `Vx := Vy`.
    Assign(u8, u8),
    /// 8xy1: `Vx := Vx | Vy`.
    Or(u8, u8),
    /// 8xy2: `Vx := Vx & Vy`.
    And(u8, u8),
    /// 8xy3: `Vx := Vx ^ Vy`.
    Xor(u8, u8),
    /// 8xy4: `Vx := Vx + Vy` modulo 256, carry into `VF`.
    AddCarry(u8, u8),
    /// 8xy5: `Vx := Vx - Vy` modulo 256, not-borrow into `VF`.
    SubBorrow(u8, u8),
    /// 8xy6: `Vx := Vx >> 1`, dropped low bit into `VF`.
    ShiftRight(u8),
    /// 8xy7: `Vx := Vy - Vx` modulo 256, not-borrow into `VF`.
    SubReverse(u8, u8),
    /// 8xyE: `Vx := Vx << 1` modulo 256, dropped high bit into `VF`.
    ShiftLeft(u8),
    /// 9xy0: skip the next instruction if `Vx != Vy`.
    SkipNeReg(u8, u8),
    /// Annn: address register := `nnn`.
    SetIndex(u16),
    /// Bnnn: jump to `V0 + nnn`.
    JumpPlusV0(u16),
    /// Cxkk: `Vx := random byte & kk`.
    Random(u8, u8),
    /// Dxyn: draw an `n`-row sprite at `(Vx, Vy)`, collision into `VF`.
    Draw(u8, u8, u8),
    /// Ex9E: skip the next instruction if key `Vx` is pressed.
    SkipKeyPressed(u8),
    /// ExA1: skip the next instruction if key `Vx` is not pressed.
    SkipKeyNotPressed(u8),
    /// Fx07: `Vx := delay timer`.
    ReadDelay(u8),
    /// Fx0A: wait for a key press, store the key index in `Vx`.
    WaitKey(u8),
    /// Fx15: delay timer := `Vx`.
    SetDelay(u8),
    /// Fx18: sound timer := `Vx`.
    SetSound(u8),
    /// Fx1E: address register := address register + `Vx`.
    AddIndex(u8),
    /// Fx29: address register := location of the font glyph for `Vx`.
    FontAddr(u8),
    /// Fx33: store the decimal digits of `Vx` at the address register.
    StoreBcd(u8),
    /// Fx55: store `V0..=Vx` to memory at the address register.
    StoreRegs(u8),
    /// Fx65: load `V0..=Vx` from memory at the address register.
    LoadRegs(u8),
}

/// The specification-level machine state.
#[verifier::ext_equal]
pub ghost struct VmState {
    /// The 4096 memory cells.
    pub mem: Seq<u8>,
    /// The 16 general-purpose registers; register 15 doubles as the flags register.
    pub v: Seq<u8>,
    /// The 16-bit address register.
    pub i: int,
    /// The call stack cells; only the first `sp` hold live return addresses.
    pub stack: Seq<u16>,
    /// The call stack depth.
    pub sp: int,
    /// Delay countdown timer.
    pub delay_timer: u8,
    /// Sound countdown timer.
    pub sound_timer: u8,
    /// The program counter.
    pub pc: int,
    /// The framebuffer, row-major: the pixel at column `c` of row `r` is cell
    /// `r * 64 + c`.  Every cell is 0 or 1.
    pub vram: Seq<u8>,
    /// The pressed state of the 16 logical keys.
    pub keys: Seq<bool>,
    /// Whether a draw instruction executed during the current cycle.
    pub redraw: bool,
}

impl VmState {
    /// Well-formedness: field sizes, and every computed cursor in range.  The
    /// program counter must leave room for a 2-byte fetch.
    pub open spec fn wf(self) -> bool {
        &&& self.mem.len() == MEM_SIZE
        &&& self.v.len() == NUM_REGS
        &&& self.stack.len() == STACK_SIZE
        &&& 0 <= self.sp <= STACK_SIZE
        &&& 0 <= self.i < MEM_SIZE
        &&& 0 <= self.pc && self.pc + 1 < MEM_SIZE
        &&& self.vram.len() == FB_SIZE
        &&& (forall|p: int| 0 <= p < FB_SIZE ==> self.vram[p] <= 1)
        &&& self.keys.len() == NUM_KEYS
    }

    /// The state with one register replaced.
    pub open spec fn with_reg(self, x: int, val: u8) -> VmState {
        VmState { v: self.v.update(x, val), ..self }
    }
}

/// The built-in font: 16 glyphs of 5 bytes, for the hexadecimal digits 0-F.
pub open spec fn font_seq() -> Seq<u8> {
    seq![
        0xF0u8, 0x90, 0x90, 0x90, 0xF0, // 0
        0x20, 0x60, 0x20, 0x20, 0x70, // 1
        0xF0, 0x10, 0xF0, 0x80, 0xF0, // 2
        0xF0, 0x10, 0xF0, 0x10, 0xF0, // 3
        0x90, 0x90, 0xF0, 0x10, 0x10, // 4
        0xF0, 0x80, 0xF0, 0x10, 0xF0, // 5
        0xF0, 0x80, 0xF0, 0x90, 0xF0, // 6
        0xF0, 0x10, 0x20, 0x40, 0x40, // 7
        0xF0, 0x90, 0xF0, 0x90, 0xF0, // 8
        0xF0, 0x90, 0xF0, 0x10, 0xF0, // 9
        0xF0, 0x90, 0xF0, 0x90, 0x90, // A
        0xE0, 0x90, 0xE0, 0x90, 0xE0, // B
        0xF0, 0x80, 0x80, 0x80, 0xF0, // C
        0xE0, 0x90, 0x90, 0x90, 0xE0, // D
        0xF0, 0x80, 0xF0, 0x80, 0xF0, // E
        0xF0, 0x80, 0xF0, 0x80, 0x80, // F
    ]
}

/// The machine state at construction: font in memory cells 0-79, everything
/// else zeroed, program counter at the conventional load address.
pub open spec fn initial_state() -> VmState {
    VmState {
        mem: Seq::new(MEM_SIZE as nat, |a: int| if 0 <= a < FONT_BYTES { font_seq()[a] } else { 0u8 }),
        v: Seq::new(NUM_REGS as nat, |x: int| 0u8),
        i: 0,
        stack: Seq::new(STACK_SIZE as nat, |d: int| 0u16),
        sp: 0,
        delay_timer: 0,
        sound_timer: 0,
        pc: PROGRAM_START as int,
        vram: Seq::new(FB_SIZE as nat, |p: int| 0u8),
        keys: Seq::new(NUM_KEYS as nat, |k: int| false),
        redraw: false,
    }
}

/// The meaning of a 16-bit instruction word, or `None` for an unrecognized
/// nibble pattern (a fatal decode error: there is no silent no-op fallback).
pub open spec fn decode(instr: u16) -> Option<Instr> {
    let c = instr / 0x1000;
    let x = ((instr / 0x100) % 0x10) as u8;
    let y = ((instr / 0x10) % 0x10) as u8;
    let n = (instr % 0x10) as u8;
    let nnn = (instr % 0x1000) as u16;
    let kk = (instr % 0x100) as u8;
    if instr == 0x00E0 {
        Some(Instr::ClearScreen)
    } else if instr == 0x00EE {
        Some(Instr::Return)
    } else if c == 0x1 {
        Some(Instr::Jump(nnn))
    } else if c == 0x2 {
        Some(Instr::Call(nnn))
    } else if c == 0x3 {
        Some(Instr::SkipEqByte(x, kk))
    } else if c == 0x4 {
        Some(Instr::SkipNeByte(x, kk))
    } else if c == 0x5 && n == 0x0 {
        Some(Instr::SkipEqReg(x, y))
    } else if c == 0x6 {
        Some(Instr::LoadByte(x, kk))
    } else if c == 0x7 {
        Some(Instr::AddByte(x, kk))
    } else if c == 0x8 && n == 0x0 {
        Some(Instr::Assign(x, y))
    } else if c == 0x8 && n == 0x1 {
        Some(Instr::Or(x, y))
    } else if c == 0x8 && n == 0x2 {
        Some(Instr::And(x, y))
    } else if c == 0x8 && n == 0x3 {
        Some(Instr::Xor(x, y))
    } else if c == 0x8 && n == 0x4 {
        Some(Instr::AddCarry(x, y))
    } else if c == 0x8 && n == 0x5 {
        Some(Instr::SubBorrow(x, y))
    } else if c == 0x8 && n == 0x6 {
        Some(Instr::ShiftRight(x))
    } else if c == 0x8 && n == 0x7 {
        Some(Instr::SubReverse(x, y))
    } else if c == 0x8 && n == 0xE {
        Some(Instr::ShiftLeft(x))
    } else if c == 0x9 && n == 0x0 {
        Some(Instr::SkipNeReg(x, y))
    } else if c == 0xA {
        Some(Instr::SetIndex(nnn))
    } else if c == 0xB {
        Some(Instr::JumpPlusV0(nnn))
    } else if c == 0xC {
        Some(Instr::Random(x, kk))
    } else if c == 0xD {
        Some(Instr::Draw(x, y, n))
    } else if c == 0xE && kk == 0x9E {
        Some(Instr::SkipKeyPressed(x))
    } else if c == 0xE && kk == 0xA1 {
        Some(Instr::SkipKeyNotPressed(x))
    } else if c == 0xF && kk == 0x07 {
        Some(Instr::ReadDelay(x))
    } else if c == 0xF && kk == 0x0A {
        Some(Instr::WaitKey(x))
    } else if c == 0xF && kk == 0x15 {
        Some(Instr::SetDelay(x))
    } else if c == 0xF && kk == 0x18 {
        Some(Instr::SetSound(x))
    } else if c == 0xF && kk == 0x1E {
        Some(Instr::AddIndex(x))
    } else if c == 0xF && kk == 0x29 {
        Some(Instr::FontAddr(x))
    } else if c == 0xF && kk == 0x33 {
        Some(Instr::StoreBcd(x))
    } else if c == 0xF && kk == 0x55 {
        Some(Instr::StoreRegs(x))
    } else if c == 0xF && kk == 0x65 {
        Some(Instr::LoadRegs(x))
    } else {
        None
    }
}

/// Every operand a decoded instruction carries is in range: register
/// selectors below 16, address literals below 4096, nibbles below 16.
pub open spec fn instr_operands_in_range(ins: Instr) -> bool {
    match ins {
        Instr::ClearScreen => true,
        Instr::Return => true,
        Instr::Jump(nnn) => nnn < 4096,
        Instr::Call(nnn) => nnn < 4096,
        Instr::SkipEqByte(x, _kk) => x < 16,
        Instr::SkipNeByte(x, _kk) => x < 16,
        Instr::SkipEqReg(x, y) => x < 16 && y < 16,
        Instr::LoadByte(x, _kk) => x < 16,
        Instr::AddByte(x, _kk) => x < 16,
        Instr::Assign(x, y) => x < 16 && y < 16,
        Instr::Or(x, y) => x < 16 && y < 16,
        Instr::And(x, y) => x < 16 && y < 16,
        Instr::Xor(x, y) => x < 16 && y < 16,
        Instr::AddCarry(x, y) => x < 16 && y < 16,
        Instr::SubBorrow(x, y) => x < 16 && y < 16,
        Instr::ShiftRight(x) => x < 16,
        Instr::SubReverse(x, y) => x < 16 && y < 16,
        Instr::ShiftLeft(x) => x < 16,
        Instr::SkipNeReg(x, y) => x < 16 && y < 16,
        Instr::SetIndex(nnn) => nnn < 4096,
        Instr::JumpPlusV0(nnn) => nnn < 4096,
        Instr::Random(x, _kk) => x < 16,
        Instr::Draw(x, y, n) => x < 16 && y < 16 && n < 16,
        Instr::SkipKeyPressed(x) => x < 16,
        Instr::SkipKeyNotPressed(x) => x < 16,
        Instr::ReadDelay(x) => x < 16,
        Instr::WaitKey(x) => x < 16,
        Instr::SetDelay(x) => x < 16,
        Instr::SetSound(x) => x < 16,
        Instr::AddIndex(x) => x < 16,
        Instr::FontAddr(x) => x < 16,
        Instr::StoreBcd(x) => x < 16,
        Instr::StoreRegs(x) => x < 16,
        Instr::LoadRegs(x) => x < 16,
    }
}

/// Decoding only produces instructions with in-range operands.
pub proof fn lemma_decode_operands_in_range(instr: u16)
    ensures
        decode(instr) matches Some(ins) ==> instr_operands_in_range(ins),
{
}

/// Skip the next instruction when the condition holds, else advance.
pub open spec fn skip_action(condition: bool) -> ProgramCounterAction {
    if condition {
        ProgramCounterAction::SkipNext
    } else {
        ProgramCounterAction::Advance
    }
}

/// The sprite bit drawn at column offset `j` (0 = leftmost) of a sprite row:
/// bit `7 - j` of the row byte.
pub open spec fn sprite_bit(data: u8, j: int) -> u8 {
    (data >> ((7 - j) as u8)) & 1
}

/// The sprite bit that an `n`-row draw at `(x, y)` of the sprite stored at
/// memory address `i` XORs onto framebuffer cell `p` (0 where the cell lies
/// outside the drawn window).  Row `k` of the sprite lands on framebuffer row
/// `(y + k) % 32`, and its bit `j` on column `(x + j) % 64` (toroidal
/// wraparound), so cell `p` is hit by row offset `(p / 64 - y) % 32` and
/// column offset `(p % 64 - x) % 64` when those fall below `n` and 8.
pub open spec fn sprite_cell_bit(mem: Seq<u8>, i: int, x: int, y: int, n: int, p: int) -> u8 {
    let k = ((p / 64) - y) % 32;
    let j = ((p % 64) - x) % 64;
    if k < n && j < 8 {
        sprite_bit(mem[i + k], j)
    } else {
        0u8
    }
}

/// The framebuffer after the draw: every cell XORed with its sprite bit.
pub open spec fn draw_fb(fb: Seq<u8>, mem: Seq<u8>, i: int, x: int, y: int, n: int) -> Seq<u8> {
    Seq::new(FB_SIZE as nat, |p: int| fb[p] ^ sprite_cell_bit(mem, i, x, y, n, p))
}

/// Whether the draw collides: some already-set cell is XORed with a sprite
/// bit of 1 (and thereby erased).
pub open spec fn draw_collision(fb: Seq<u8>, mem: Seq<u8>, i: int, x: int, y: int, n: int) -> bool {
    exists|p: int|
        0 <= p < FB_SIZE && fb[p] == 1 && sprite_cell_bit(mem, i, x, y, n, p) == 1
}

/// The lowest pressed key index at or above `k`, if any.
pub open spec fn first_pressed_from(keys: Seq<bool>, k: int) -> Option<int>
    decreases NUM_KEYS - k when 0 <= k <= NUM_KEYS
{
    if k >= NUM_KEYS {
        None
    } else if keys[k] {
        Some(k)
    } else {
        first_pressed_from(keys, k + 1)
    }
}

/// The lowest pressed key index, if any key is pressed.
pub open spec fn first_pressed(keys: Seq<bool>) -> Option<int> {
    first_pressed_from(keys, 0)
}

/// 00E0: clear the framebuffer.  The display is out of date afterwards, so
/// the redraw flag is raised.
pub open spec fn cls_effect(s: VmState) -> (VmState, ProgramCounterAction) {
    (
        VmState { vram: Seq::new(FB_SIZE as nat, |p: int| 0u8), redraw: true, ..s },
        ProgramCounterAction::Advance,
    )
}

/// 00EE: pop the call stack into the program counter; popping with an empty
/// stack is fatal.
pub open spec fn ret_effect(s: VmState) -> Result<(VmState, ProgramCounterAction), VmError> {
    if s.sp <= 0 {
        Err(VmError::StackUnderflow)
    } else {
        Ok(
            (
                VmState { sp: s.sp - 1, ..s },
                ProgramCounterAction::Jump(s.stack[s.sp - 1]),
            ),
        )
    }
}

/// 2nnn: push the address of the next instruction, jump to `nnn`; pushing
/// with a full stack is fatal.
pub open spec fn call_effect(s: VmState, nnn: u16) -> Result<
    (VmState, ProgramCounterAction),
    VmError,
> {
    if s.sp >= STACK_SIZE {
        Err(VmError::StackOverflow)
    } else {
        Ok(
            (
                VmState { stack: s.stack.update(s.sp, (s.pc + 2) as u16), sp: s.sp + 1, ..s },
                ProgramCounterAction::Jump(nnn),
            ),
        )
    }
}

/// 7xkk: add modulo 256, with no flag mutation.
pub open spec fn add_byte_effect(s: VmState, x: u8, kk: u8) -> (VmState, ProgramCounterAction) {
    (
        s.with_reg(x as int, ((s.v[x as int] + kk) % 256) as u8),
        ProgramCounterAction::Advance,
    )
}

/// 8xy4: add modulo 256; the flags register becomes 1 exactly when the true
/// sum exceeds 255, else 0.
pub open spec fn add_carry_effect(s: VmState, x: u8, y: u8) -> (VmState, ProgramCounterAction) {
    let sum = s.v[x as int] + s.v[y as int];
    let vf: u8 = if sum > 255 {
        1
    } else {
        0
    };
    (
        s.with_reg(x as int, (sum % 256) as u8).with_reg(15, vf),
        ProgramCounterAction::Advance,
    )
}

/// 8xy5: subtract modulo 256; the flags register becomes 1 exactly when
/// `Vx > Vy` (not-borrow convention), else 0.
pub open spec fn sub_borrow_effect(s: VmState, x: u8, y: u8) -> (VmState, ProgramCounterAction) {
    let vf: u8 = if s.v[x as int] > s.v[y as int] {
        1
    } else {
        0
    };
    (
        s.with_reg(x as int, ((s.v[x as int] - s.v[y as int]) % 256) as u8).with_reg(15, vf),
        ProgramCounterAction::Advance,
    )
}

/// 8xy7: reverse subtract modulo 256; the flags register becomes 1 exactly
/// when `Vy > Vx` (not-borrow convention), else 0.
pub open spec fn sub_reverse_effect(s: VmState, x: u8, y: u8) -> (VmState, ProgramCounterAction) {
    let vf: u8 = if s.v[y as int] > s.v[x as int] {
        1
    } else {
        0
    };
    (
        s.with_reg(x as int, ((s.v[y as int] - s.v[x as int]) % 256) as u8).with_reg(15, vf),
        ProgramCounterAction::Advance,
    )
}

/// 8xy6: logical shift right by one; the dropped low bit is captured in the
/// flags register before the shift.
pub open spec fn shift_right_effect(s: VmState, x: u8) -> (VmState, ProgramCounterAction) {
    (
        s.with_reg(x as int, (s.v[x as int] / 2) as u8).with_reg(15, (s.v[x as int] % 2) as u8),
        ProgramCounterAction::Advance,
    )
}

/// 8xyE: logical shift left by one modulo 256; the dropped high bit is
/// captured in the flags register before the shift.
pub open spec fn shift_left_effect(s: VmState, x: u8) -> (VmState, ProgramCounterAction) {
    (
        s.with_reg(x as int, ((s.v[x as int] * 2) % 256) as u8).with_reg(
            15,
            (s.v[x as int] / 128) as u8,
        ),
        ProgramCounterAction::Advance,
    )
}

/// Cxkk: mask a random byte with `kk`.
pub open spec fn random_effect(s: VmState, x: u8, kk: u8, rnd: u8) -> (
    VmState,
    ProgramCounterAction,
) {
    (s.with_reg(x as int, rnd & kk), ProgramCounterAction::Advance)
}

/// Dxyn: XOR an `n`-row sprite read from memory at the address register onto
/// the framebuffer at `(Vx, Vy)` with toroidal wraparound; the flags register
/// becomes 1 exactly when a set pixel is erased; the redraw flag is raised.
/// Reading the sprite outside memory is fatal.
pub open spec fn draw_effect(s: VmState, x: u8, y: u8, n: u8) -> Result<
    (VmState, ProgramCounterAction),
    VmError,
> {
    if s.i + n > MEM_SIZE {
        Err(VmError::OutOfBoundsAddress)
    } else {
        let px = s.v[x as int] as int;
        let py = s.v[y as int] as int;
        let coll = draw_collision(s.vram, s.mem, s.i, px, py, n as int);
        Ok(
            (
                VmState {
                    vram: draw_fb(s.vram, s.mem, s.i, px, py, n as int),
                    v: s.v.update(15, if coll { 1u8 } else { 0u8 }),
                    redraw: true,
                    ..s
                },
                ProgramCounterAction::Advance,
            ),
        )
    }
}

/// Ex9E / ExA1: test the key named by `Vx`; a register value that names no
/// key is fatal.
pub open spec fn skip_key_effect(s: VmState, x: u8, want_pressed: bool) -> Result<
    (VmState, ProgramCounterAction),
    VmError,
> {
    if s.v[x as int] >= NUM_KEYS {
        Err(VmError::OutOfBoundsAddress)
    } else {
        Ok((s, skip_action(s.keys[s.v[x as int] as int] == want_pressed)))
    }
}

/// Fx0A: on the lowest pressed key, store its index and advance; with no key
/// pressed, hold the program counter so the instruction re-executes next
/// cycle.
pub open spec fn wait_key_effect(s: VmState, x: u8) -> (VmState, ProgramCounterAction) {
    match first_pressed(s.keys) {
        Some(k) => (s.with_reg(x as int, k as u8), ProgramCounterAction::Advance),
        None => (s, ProgramCounterAction::WaitForKey),
    }
}

/// Fx1E: add `Vx` to the address register; leaving the address space is
/// fatal.
pub open spec fn add_index_effect(s: VmState, x: u8) -> Result<
    (VmState, ProgramCounterAction),
    VmError,
> {
    if s.i + s.v[x as int] < MEM_SIZE {
        Ok((VmState { i: s.i + s.v[x as int], ..s }, ProgramCounterAction::Advance))
    } else {
        Err(VmError::OutOfBoundsAddress)
    }
}

/// Fx33: store the hundreds, tens and units decimal digits of `Vx` at the
/// address register; writing outside memory is fatal.
pub open spec fn store_bcd_effect(s: VmState, x: u8) -> Result<
    (VmState, ProgramCounterAction),
    VmError,
> {
    if s.i + 2 < MEM_SIZE {
        let vx = s.v[x as int];
        Ok(
            (
                VmState {
                    mem: s.mem.update(s.i, ((vx / 100) % 10) as u8).update(
                        s.i + 1,
                        ((vx / 10) % 10) as u8,
                    ).update(s.i + 2, (vx % 10) as u8),
                    ..s
                },
                ProgramCounterAction::Advance,
            ),
        )
    } else {
        Err(VmError::OutOfBoundsAddress)
    }
}

/// Fx55: block-copy registers 0..=x to memory at the address register;
/// writing outside memory is fatal.
pub open spec fn store_regs_effect(s: VmState, x: u8) -> Result<
    (VmState, ProgramCounterAction),
    VmError,
> {
    if s.i + x < MEM_SIZE {
        Ok(
            (
                VmState {
                    mem: Seq::new(
                        MEM_SIZE as nat,
                        |a: int| if s.i <= a <= s.i + x { s.v[a - s.i] } else { s.mem[a] },
                    ),
                    ..s
                },
                ProgramCounterAction::Advance,
            ),
        )
    } else {
        Err(VmError::OutOfBoundsAddress)
    }
}

/// Fx65: block-copy memory at the address register to registers 0..=x;
/// reading outside memory is fatal.
pub open spec fn load_regs_effect(s: VmState, x: u8) -> Result<
    (VmState, ProgramCounterAction),
    VmError,
> {
    if s.i + x < MEM_SIZE {
        Ok(
            (
                VmState {
                    v: Seq::new(
                        NUM_REGS as nat,
                        |r: int| if r <= x { s.mem[s.i + r] } else { s.v[r] },
                    ),
                    ..s
                },
                ProgramCounterAction::Advance,
            ),
        )
    } else {
        Err(VmError::OutOfBoundsAddress)
    }
}

/// The state change and program-counter action of one decoded instruction.
/// `rnd` is the byte that the random source produced for this cycle; only
/// `Random` reads it.
pub open spec fn instr_effect(s: VmState, ins: Instr, rnd: u8) -> Result<
    (VmState, ProgramCounterAction),
    VmError,
> {
    match ins {
        Instr::ClearScreen => Ok(cls_effect(s)),
        Instr::Return => ret_effect(s),
        Instr::Jump(nnn) => Ok((s, ProgramCounterAction::Jump(nnn))),
        Instr::Call(nnn) => call_effect(s, nnn),
        Instr::SkipEqByte(x, kk) => Ok((s, skip_action(s.v[x as int] == kk))),
        Instr::SkipNeByte(x, kk) => Ok((s, skip_action(s.v[x as int] != kk))),
        Instr::SkipEqReg(x, y) => Ok((s, skip_action(s.v[x as int] == s.v[y as int]))),
        Instr::LoadByte(x, kk) => Ok((s.with_reg(x as int, kk), ProgramCounterAction::Advance)),
        Instr::AddByte(x, kk) => Ok(add_byte_effect(s, x, kk)),
        Instr::Assign(x, y) => Ok(
            (s.with_reg(x as int, s.v[y as int]), ProgramCounterAction::Advance),
        ),
        Instr::Or(x, y) => Ok(
            (s.with_reg(x as int, s.v[x as int] | s.v[y as int]), ProgramCounterAction::Advance),
        ),
        Instr::And(x, y) => Ok(
            (s.with_reg(x as int, s.v[x as int] & s.v[y as int]), ProgramCounterAction::Advance),
        ),
        Instr::Xor(x, y) => Ok(
            (s.with_reg(x as int, s.v[x as int] ^ s.v[y as int]), ProgramCounterAction::Advance),
        ),
        Instr::AddCarry(x, y) => Ok(add_carry_effect(s, x, y)),
        Instr::SubBorrow(x, y) => Ok(sub_borrow_effect(s, x, y)),
        Instr::ShiftRight(x) => Ok(shift_right_effect(s, x)),
        Instr::SubReverse(x, y) => Ok(sub_reverse_effect(s, x, y)),
        Instr::ShiftLeft(x) => Ok(shift_left_effect(s, x)),
        Instr::SkipNeReg(x, y) => Ok((s, skip_action(s.v[x as int] != s.v[y as int]))),
        Instr::SetIndex(nnn) => Ok((VmState { i: nnn as int, ..s }, ProgramCounterAction::Advance)),
        Instr::JumpPlusV0(nnn) => Ok(
            (s, ProgramCounterAction::Jump((s.v[0] + nnn) as u16)),
        ),
        Instr::Random(x, kk) => Ok(random_effect(s, x, kk, rnd)),
        Instr::Draw(x, y, n) => draw_effect(s, x, y, n),
        Instr::SkipKeyPressed(x) => skip_key_effect(s, x, true),
        Instr::SkipKeyNotPressed(x) => skip_key_effect(s, x, false),
        Instr::ReadDelay(x) => Ok(
            (s.with_reg(x as int, s.delay_timer), ProgramCounterAction::Advance),
        ),
        Instr::WaitKey(x) => Ok(wait_key_effect(s, x)),
        Instr::SetDelay(x) => Ok(
            (VmState { delay_timer: s.v[x as int], ..s }, ProgramCounterAction::Advance),
        ),
        Instr::SetSound(x) => Ok(
            (VmState { sound_timer: s.v[x as int], ..s }, ProgramCounterAction::Advance),
        ),
        Instr::AddIndex(x) => add_index_effect(s, x),
        Instr::FontAddr(x) => Ok(
            (VmState { i: s.v[x as int] * 5, ..s }, ProgramCounterAction::Advance),
        ),
        Instr::StoreBcd(x) => store_bcd_effect(s, x),
        Instr::StoreRegs(x) => store_regs_effect(s, x),
        Instr::LoadRegs(x) => load_regs_effect(s, x),
    }
}

/// Move the program counter as the action says.  A program counter from
/// which two bytes cannot be fetched is fatal; this is the bounds policy the
/// interpreter commits to in place of wraparound.
pub open spec fn apply_action(s: VmState, a: ProgramCounterAction) -> Result<VmState, VmError> {
    let target: int = match a {
        ProgramCounterAction::Advance => s.pc + 2,
        ProgramCounterAction::SkipNext => s.pc + 4,
        ProgramCounterAction::Jump(t) => t as int,
        ProgramCounterAction::WaitForKey => s.pc,
    };
    if target + 1 < MEM_SIZE {
        Ok(VmState { pc: target, ..s })
    } else {
        Err(VmError::OutOfBoundsAddress)
    }
}

/// The 16-bit instruction word at the program counter: the byte at `pc` is
/// the high byte, the byte at `pc + 1` the low byte.
pub open spec fn fetch(s: VmState) -> u16 {
    (s.mem[s.pc] * 256 + s.mem[s.pc + 1]) as u16
}

/// One timer tick: decrement, floored at zero.
pub open spec fn dec_timer(t: u8) -> u8 {
    if t > 0 {
        (t - 1) as u8
    } else {
        0u8
    }
}

/// The state at the start of a cycle: the key snapshot installed and the
/// redraw flag cleared.
pub open spec fn with_input(s: VmState, keys: Seq<bool>) -> VmState {
    VmState { keys: keys, redraw: false, ..s }
}

/// Decode and execute one instruction word and move the program counter.
pub open spec fn step_instr(s: VmState, instr: u16, rnd: u8) -> Result<VmState, VmError> {
    match decode(instr) {
        None => Err(VmError::DecodeError),
        Some(ins) => match instr_effect(s, ins, rnd) {
            Err(e) => Err(e),
            Ok((s1, a)) => apply_action(s1, a),
        },
    }
}

/// The state a failed `step_instr` leaves behind: unchanged for a decode or
/// execution error; for a program-counter bounds error, the instruction's
/// effects with the old program counter (the machine is dead either way).
pub open spec fn step_err_residue(s: VmState, instr: u16, rnd: u8) -> VmState {
    match decode(instr) {
        None => s,
        Some(ins) => match instr_effect(s, ins, rnd) {
            Err(_) => s,
            Ok((s1, _a)) => s1,
        },
    }
}

/// One whole cycle: install the key snapshot and clear the redraw flag,
/// fetch, decode, execute, move the program counter, tick both timers; yield
/// the new state, the redraw flag, and whether the sound timer still runs.
pub open spec fn spec_cycle(s: VmState, keys: Seq<bool>, rnd: u8) -> Result<
    (VmState, bool, bool),
    VmError,
> {
    let s0 = with_input(s, keys);
    match step_instr(s0, fetch(s0), rnd) {
        Err(e) => Err(e),
        Ok(s1) => {
            let s2 = VmState {
                delay_timer: dec_timer(s1.delay_timer),
                sound_timer: dec_timer(s1.sound_timer),
                ..s1
            };
            Ok((s2, s2.redraw, s2.sound_timer > 0))
        },
    }
}

/// The state a failed cycle leaves behind.
pub open spec fn cycle_err_residue(s: VmState, keys: Seq<bool>, rnd: u8) -> VmState {
    let s0 = with_input(s, keys);
    step_err_residue(s0, fetch(s0), rnd)
}

/// How an instruction execution from state `s` to state `s2` with outcome `r`
/// matches `step_instr` for the random byte `rnd`.
pub open spec fn step_matches(
    s: VmState,
    instr: u16,
    rnd: u8,
    s2: VmState,
    r: Result<(), VmError>,
) -> bool {
    match r {
        Ok(_u) => step_instr(s, instr, rnd) == Ok::<VmState, VmError>(s2),
        Err(e) => step_instr(s, instr, rnd) == Err::<VmState, VmError>(e) && s2 == step_err_residue(
            s,
            instr,
            rnd,
        ),
    }
}

/// How a cycle from state `s` to state `s2` with outcome `r` matches
/// `spec_cycle` for the random byte `rnd`.
pub open spec fn cycle_matches(
    s: VmState,
    keys: Seq<bool>,
    rnd: u8,
    s2: VmState,
    r: Result<(bool, bool), VmError>,
) -> bool {
    match r {
        Ok(flags) => spec_cycle(s, keys, rnd) == Ok::<(VmState, bool, bool), VmError>(
            (s2, flags.0, flags.1),
        ),
        Err(e) => spec_cycle(s, keys, rnd) == Err::<(VmState, bool, bool), VmError>(e)
            && s2 == cycle_err_residue(s, keys, rnd),
    }
}

/// Memory after a program image is copied in at the conventional load
/// address.
pub open spec fn load_image_mem(mem: Seq<u8>, image: Seq<u8>) -> Seq<u8> {
    Seq::new(
        MEM_SIZE as nat,
        |a: int|
            if PROGRAM_START <= a < PROGRAM_START + image.len() {
                image[a - PROGRAM_START]
            } else {
                mem[a]
            },
    )
}

} // verus!
