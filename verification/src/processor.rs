//! The interpreter: the executable machine state and the fetch / decode /
//! execute cycle, verified against the transition semantics of
//! [`crate::model`].

use vstd::prelude::*;

use crate::model::{
    decode, font_seq, initial_state, lemma_decode_operands_in_range, Instr, ProgramCounterAction,
    VmError, VmState, FB_SIZE, MEM_SIZE, PROGRAM_START,
};

verus! {

/// The interpreter state: one mutable aggregate, exclusively owned, mutated
/// in place once per cycle.
pub struct Processor {
    /// 4 KiB of memory; cells 0-79 permanently hold the built-in font.
    mem: [u8; 4096],
    /// The 16 general-purpose 8-bit registers.
    v: [u8; 16],
    /// The address register, a memory pointer for the indirect opcodes.
    i: usize,
    /// The call stack: 16 levels of return addresses.
    stack: [u16; 16],
    /// Delay countdown timer.
    delay_timer: u8,
    /// Sound countdown timer.
    sound_timer: u8,
    /// The program counter.
    pc: usize,
    /// The call stack depth.
    sp: usize,
    /// The framebuffer: 32 rows of 64 one-bit pixels, row-major, one byte
    /// (0 or 1) per pixel.
    vram: [u8; 2048],
    /// The pressed state of the 16 logical keys, replaced wholesale each cycle.
    pressed_keys: [bool; 16],
    /// Whether a draw instruction executed during the current cycle.
    redraw: bool,
}

impl View for Processor {
    type V = VmState;

    closed spec fn view(&self) -> VmState {
        VmState {
            mem: self.mem@,
            v: self.v@,
            i: self.i as int,
            stack: self.stack@,
            sp: self.sp as int,
            delay_timer: self.delay_timer,
            sound_timer: self.sound_timer,
            pc: self.pc as int,
            vram: self.vram@,
            keys: self.pressed_keys@,
            redraw: self.redraw,
        }
    }
}

/// The bit that drawing the first `jmax` bits of one sprite row byte at
/// column `x` of framebuffer row `row` XORs onto cell `p`.
spec fn row_cell_bit(x: int, row: int, data: u8, jmax: int, p: int) -> u8 {
    let j = ((p % 64) - x) % 64;
    if p / 64 == row && j < jmax {
        crate::model::sprite_bit(data, j)
    } else {
        0u8
    }
}

/// The framebuffer after the first `jmax` bits of one sprite row byte are
/// drawn at column `x` of row `row`.
spec fn row_fb(fb: Seq<u8>, x: int, row: int, data: u8, jmax: int) -> Seq<u8> {
    Seq::new(FB_SIZE as nat, |p: int| fb[p] ^ row_cell_bit(x, row, data, jmax, p))
}

/// Whether drawing the first `jmax` bits of one sprite row byte erases a set
/// cell.
spec fn row_collision(fb: Seq<u8>, x: int, row: int, data: u8, jmax: int) -> bool {
    exists|p: int|
        0 <= p < FB_SIZE && fb[p] == 1 && row_cell_bit(x, row, data, jmax, p) == 1
}

/// Relies on rand::random: one byte from the thread-local random generator.
/// Nothing is promised of the value; every caller must hold for every byte.
#[verifier::external_body]
fn random_byte() -> u8 {
    rand::random::<u8>()
}

impl Processor {
    /// A fresh machine: font pre-loaded, all else zeroed, program counter at
    /// the conventional load address.
    pub fn new() -> (r: Processor)
        ensures
            r@ == initial_state(),
            r@.wf(),
    {
        let mut p = Processor {
            mem: [0; 4096],
            v: [0; 16],
            i: 0,
            stack: [0; 16],
            delay_timer: 0,
            sound_timer: 0,
            pc: 0x200,
            sp: 0,
            vram: [0; 2048],
            pressed_keys: [false; 16],
            redraw: false,
        };
        let font: [u8; 80] = [
            0xF0, 0x90, 0x90, 0x90, 0xF0, // 0
            0x20, 0x60, 0x20, 0x20, 0x70, // 1
            0xF0, 0x10, 0xF0, 0x80, 0xF0, // 2
            0xF0, 0x10, 0xF0, 0x10, 0xF0, // 3
            0x90, 0x90, 0xF0, 0x10, 0x10, // 4
            0xF0, 0x80, 0xF0, 0x10, 0xF0, // 5
            0xF0, 0x80, 0xF0, 0x90, 0xF0, // 6
            0xF0, 0x10, 0x20, 0x40, 0x40, // 7
            0xF0, 0x90, 0xF0, 0x90, 0xF0, // 8
            0xF0, 0x90, 0xF0, 0x10, 0xF0, // 9
            0xF0, 0x90, 0xF0, 0x90, 0x90, // A
            0xE0, 0x90, 0xE0, 0x90, 0xE0, // B
            0xF0, 0x80, 0x80, 0x80, 0xF0, // C
            0xE0, 0x90, 0x90, 0x90, 0xE0, // D
            0xF0, 0x80, 0xF0, 0x80, 0xF0, // E
            0xF0, 0x80, 0xF0, 0x80, 0x80, // F
        ];
        assert(font@ =~= font_seq());
        let mut k: usize = 0;
        while k < 80
            invariant
                k <= 80,
                font@ == font_seq(),
                p.mem@.len() == 4096,
                forall|a: int| 0 <= a < k ==> p.mem@[a] == font_seq()[a],
                forall|a: int| k <= a < 4096 ==> p.mem@[a] == 0u8,
                p.v@ == Seq::new(16, |x: int| 0u8),
                p.i == 0,
                p.stack@ == Seq::new(16, |d: int| 0u16),
                p.sp == 0,
                p.delay_timer == 0,
                p.sound_timer == 0,
                p.pc == 0x200,
                p.vram@ == Seq::new(2048, |q: int| 0u8),
                p.pressed_keys@ == Seq::new(16, |q: int| false),
                p.redraw == false,
            decreases 80 - k,
        {
            p.mem[k] = font[k];
            k = k + 1;
        }
        proof {
            assert(p@.mem =~= initial_state().mem);
            assert(p@ =~= initial_state());
        }
        p
    }

    /// A read-only reference to the framebuffer, for the display sink.
    pub fn get_vram_ref(&self) -> (r: &[u8; 2048])
        ensures
            r@ == self@.vram,
    {
        &self.vram
    }

    /// Copy a program image into memory at the conventional load address.
    /// An image that would overflow the 4096-byte space is rejected whole.
    pub fn load_image(&mut self, image: &Vec<u8>) -> (r: Result<(), VmError>)
        requires
            old(self)@.wf(),
        ensures
            final(self)@.wf(),
            image@.len() <= MEM_SIZE - PROGRAM_START ==> r == Ok::<(), VmError>(())
                && final(self)@ == (VmState {
                mem: crate::model::load_image_mem(old(self)@.mem, image@),
                ..old(self)@
            }),
            image@.len() > MEM_SIZE - PROGRAM_START ==> r == Err::<(), VmError>(
                VmError::OutOfBoundsAddress,
            ) && final(self)@ == old(self)@,
    {
        if image.len() > 4096 - 512 {
            return Err(VmError::OutOfBoundsAddress);
        }
        let ghost s0 = self@;
        let mut k: usize = 0;
        while k < image.len()
            invariant
                k <= image@.len(),
                image@.len() <= 3584,
                s0.wf(),
                self@ == (VmState { mem: self@.mem, ..s0 }),
                self@.mem.len() == 4096,
                forall|a: int| 512 <= a < 512 + k ==> self@.mem[a] == image@[a - 512],
                forall|a: int|
                    0 <= a < 4096 && !(512 <= a < 512 + k) ==> self@.mem[a] == s0.mem[a],
            decreases image@.len() - k,
        {
            self.mem[512 + k] = image[k];
            k = k + 1;
        }
        proof {
            assert(self@.mem =~= crate::model::load_image_mem(s0.mem, image@));
            assert(self@ =~= (VmState { mem: crate::model::load_image_mem(s0.mem, image@), ..s0 }));
        }
        Ok(())
    }

    /// Execute one cycle: install the key snapshot, fetch, decode, execute,
    /// move the program counter and tick both timers.  Returns whether the
    /// framebuffer changed and whether the tone should sound, or the fatal
    /// error that stopped the machine.
    pub fn run_cycle(&mut self, pressed_keys: [bool; 16]) -> (r: Result<(bool, bool), VmError>)
        requires
            old(self)@.wf(),
        ensures
            final(self)@.wf(),
            exists|rnd: u8|
                crate::model::cycle_matches(old(self)@, pressed_keys@, rnd, final(self)@, r),
    {
        self.redraw = false;
        self.pressed_keys = pressed_keys;
        let ghost s_in = self@;
        proof {
            assert(s_in =~= crate::model::with_input(old(self)@, pressed_keys@));
        }
        let instr: u16 = (self.mem[self.pc] as u16) * 256 + (self.mem[self.pc + 1] as u16);
        assert(instr == crate::model::fetch(s_in));
        let res = self.run_instruction(instr);
        let ghost s_mid = self@;
        let ghost rnd = choose|rnd: u8|
            crate::model::step_matches(s_in, instr, rnd, s_mid, res);
        match res {
            Err(e) => {
                proof {
                    assert(crate::model::cycle_matches(
                        old(self)@,
                        pressed_keys@,
                        rnd,
                        self@,
                        Err::<(bool, bool), VmError>(e),
                    ));
                }
                Err(e)
            },
            Ok(_u) => {
                if self.delay_timer > 0 {
                    self.delay_timer = self.delay_timer - 1;
                }
                if self.sound_timer > 0 {
                    self.sound_timer = self.sound_timer - 1;
                }
                let beep = self.sound_timer > 0;
                let redraw = self.redraw;
                proof {
                    assert(self@ =~= (VmState {
                        delay_timer: crate::model::dec_timer(s_mid.delay_timer),
                        sound_timer: crate::model::dec_timer(s_mid.sound_timer),
                        ..s_mid
                    }));
                    assert(crate::model::cycle_matches(
                        old(self)@,
                        pressed_keys@,
                        rnd,
                        self@,
                        Ok::<(bool, bool), VmError>((redraw, beep)),
                    ));
                }
                Ok((redraw, beep))
            },
        }
    }

    /// Decode and execute one instruction word and move the program counter.
    fn run_instruction(&mut self, instr: u16) -> (r: Result<(), VmError>)
        requires
            old(self)@.wf(),
        ensures
            final(self)@.wf(),
            exists|rnd: u8|
                crate::model::step_matches(old(self)@, instr, rnd, final(self)@, r),
    {
        let ghost s0 = self@;
        proof {
            lemma_decode_operands_in_range(instr);
        }
        let ins = match Processor::decode_instr(instr) {
            None => {
                proof {
                    assert(crate::model::step_matches(
                        s0,
                        instr,
                        0u8,
                        self@,
                        Err::<(), VmError>(VmError::DecodeError),
                    ));
                }
                return Err(VmError::DecodeError);
            },
            Some(i) => i,
        };
        let ghost mut rnd_g: u8 = 0u8;
        let action_res: Result<ProgramCounterAction, VmError> = match ins {
            Instr::ClearScreen => Ok(self.op_00e0()),
            Instr::Return => self.op_00ee(),
            Instr::Jump(nnn) => Ok(self.op_1nnn(nnn)),
            Instr::Call(nnn) => self.op_2nnn(nnn),
            Instr::SkipEqByte(x, kk) => Ok(self.op_3xkk(x, kk)),
            Instr::SkipNeByte(x, kk) => Ok(self.op_4xkk(x, kk)),
            Instr::SkipEqReg(x, y) => Ok(self.op_5xy0(x, y)),
            Instr::LoadByte(x, kk) => Ok(self.op_6xkk(x, kk)),
            Instr::AddByte(x, kk) => Ok(self.op_7xkk(x, kk)),
            Instr::Assign(x, y) => Ok(self.op_8xy0(x, y)),
            Instr::Or(x, y) => Ok(self.op_8xy1(x, y)),
            Instr::And(x, y) => Ok(self.op_8xy2(x, y)),
            Instr::Xor(x, y) => Ok(self.op_8xy3(x, y)),
            Instr::AddCarry(x, y) => Ok(self.op_8xy4(x, y)),
            Instr::SubBorrow(x, y) => Ok(self.op_8xy5(x, y)),
            Instr::ShiftRight(x) => Ok(self.op_8xy6(x)),
            Instr::SubReverse(x, y) => Ok(self.op_8xy7(x, y)),
            Instr::ShiftLeft(x) => Ok(self.op_8xyE(x)),
            Instr::SkipNeReg(x, y) => Ok(self.op_9xy0(x, y)),
            Instr::SetIndex(nnn) => Ok(self.op_Annn(nnn)),
            Instr::JumpPlusV0(nnn) => Ok(self.op_Bnnn(nnn)),
            Instr::Random(x, kk) => {
                let b = random_byte();
                proof {
                    rnd_g = b;
                }
                Ok(self.op_Cxkk(x, kk, b))
            },
            Instr::Draw(x, y, n) => self.op_Dxyn(x, y, n),
            Instr::SkipKeyPressed(x) => self.op_Ex9E(x),
            Instr::SkipKeyNotPressed(x) => self.op_ExA1(x),
            Instr::ReadDelay(x) => Ok(self.op_Fx07(x)),
            Instr::WaitKey(x) => Ok(self.op_Fx0A(x)),
            Instr::SetDelay(x) => Ok(self.op_Fx15(x)),
            Instr::SetSound(x) => Ok(self.op_Fx18(x)),
            Instr::AddIndex(x) => self.op_Fx1E(x),
            Instr::FontAddr(x) => Ok(self.op_Fx29(x)),
            Instr::StoreBcd(x) => self.op_Fx33(x),
            Instr::StoreRegs(x) => self.op_Fx55(x),
            Instr::LoadRegs(x) => self.op_Fx65(x),
        };
        let action = match action_res {
            Err(e) => {
                proof {
                    assert(crate::model::step_matches(
                        s0,
                        instr,
                        rnd_g,
                        self@,
                        Err::<(), VmError>(e),
                    ));
                }
                return Err(e);
            },
            Ok(a) => a,
        };
        let res = self.apply_pc_action(action);
        proof {
            assert(crate::model::step_matches(s0, instr, rnd_g, self@, res));
        }
        res
    }

    // 00E0 - CLS
    // Clear the display.
    fn op_00e0(&mut self) -> (r: ProgramCounterAction)
        ensures
            (final(self)@, r) == crate::model::cls_effect(old(self)@),
    {
        self.vram = [0; 2048];
        self.redraw = true;
        proof {
            assert(self@.vram =~= Seq::new(FB_SIZE as nat, |p: int| 0u8));
            assert(self@ =~= crate::model::cls_effect(old(self)@).0);
        }
        ProgramCounterAction::Advance
    }

    // 00EE - RET
    // Return from a subroutine: pop the call stack into the program counter.
    fn op_00ee(&mut self) -> (r: Result<ProgramCounterAction, VmError>)
        requires
            old(self)@.wf(),
        ensures
            match crate::model::ret_effect(old(self)@) {
                Ok((s1, a)) => r == Ok::<ProgramCounterAction, VmError>(a) && final(self)@ == s1,
                Err(e) => r == Err::<ProgramCounterAction, VmError>(e) && final(self)@ == old(
                    self,
                )@,
            },
    {
        if self.sp == 0 {
            return Err(VmError::StackUnderflow);
        }
        self.sp = self.sp - 1;
        let addr = self.stack[self.sp];
        Ok(ProgramCounterAction::Jump(addr))
    }

    // 1nnn - JP addr
    // Jump to location nnn.
    fn op_1nnn(&mut self, nnn: u16) -> (r: ProgramCounterAction)
        ensures
            final(self)@ == old(self)@,
            r == ProgramCounterAction::Jump(nnn),
    {
        ProgramCounterAction::Jump(nnn)
    }

    // 2nnn - CALL addr
    // Push the address of the next instruction onto the call stack, then
    // jump to nnn.
    fn op_2nnn(&mut self, nnn: u16) -> (r: Result<ProgramCounterAction, VmError>)
        requires
            old(self)@.wf(),
        ensures
            match crate::model::call_effect(old(self)@, nnn) {
                Ok((s1, a)) => r == Ok::<ProgramCounterAction, VmError>(a) && final(self)@ == s1,
                Err(e) => r == Err::<ProgramCounterAction, VmError>(e) && final(self)@ == old(
                    self,
                )@,
            },
    {
        if self.sp >= 16 {
            return Err(VmError::StackOverflow);
        }
        self.stack[self.sp] = (self.pc + 2) as u16;
        self.sp = self.sp + 1;
        Ok(ProgramCounterAction::Jump(nnn))
    }

    // 3xkk - SE Vx, byte
    // Skip next instruction if Vx = kk.
    fn op_3xkk(&mut self, x: u8, kk: u8) -> (r: ProgramCounterAction)
        requires
            old(self)@.wf(),
            x < 16,
        ensures
            final(self)@ == old(self)@,
            r == crate::model::skip_action(old(self)@.v[x as int] == kk),
    {
        let vx = self.v[x as usize];
        ProgramCounterAction::skip_if(vx == kk)
    }

    // 4xkk - SNE Vx, byte
    // Skip next instruction if Vx != kk.
    fn op_4xkk(&mut self, x: u8, kk: u8) -> (r: ProgramCounterAction)
        requires
            old(self)@.wf(),
            x < 16,
        ensures
            final(self)@ == old(self)@,
            r == crate::model::skip_action(old(self)@.v[x as int] != kk),
    {
        let vx = self.v[x as usize];
        ProgramCounterAction::skip_if(vx != kk)
    }

    // 5xy0 - SE Vx, Vy
    // Skip next instruction if Vx = Vy.
    fn op_5xy0(&mut self, x: u8, y: u8) -> (r: ProgramCounterAction)
        requires
            old(self)@.wf(),
            x < 16,
            y < 16,
        ensures
            final(self)@ == old(self)@,
            r == crate::model::skip_action(old(self)@.v[x as int] == old(self)@.v[y as int]),
    {
        let vx = self.v[x as usize];
        let vy = self.v[y as usize];
        ProgramCounterAction::skip_if(vx == vy)
    }

    // 6xkk - LD Vx, byte
    // Set Vx = kk.
    fn op_6xkk(&mut self, x: u8, kk: u8) -> (r: ProgramCounterAction)
        requires
            old(self)@.wf(),
            x < 16,
        ensures
            final(self)@ == old(self)@.with_reg(x as int, kk),
            r == ProgramCounterAction::Advance,
    {
        self.v[x as usize] = kk;
        ProgramCounterAction::Advance
    }

    // 7xkk - ADD Vx, byte
    // Set Vx = Vx + kk, modulo 256, with no flag mutation.
    fn op_7xkk(&mut self, x: u8, kk: u8) -> (r: ProgramCounterAction)
        requires
            old(self)@.wf(),
            x < 16,
        ensures
            (final(self)@, r) == crate::model::add_byte_effect(old(self)@, x, kk),
    {
        let vx = self.v[x as usize];
        self.v[x as usize] = ((vx as u16 + kk as u16) % 256) as u8;
        ProgramCounterAction::Advance
    }

    // 8xy0 - LD Vx, Vy
    // Set Vx = Vy.
    fn op_8xy0(&mut self, x: u8, y: u8) -> (r: ProgramCounterAction)
        requires
            old(self)@.wf(),
            x < 16,
            y < 16,
        ensures
            final(self)@ == old(self)@.with_reg(x as int, old(self)@.v[y as int]),
            r == ProgramCounterAction::Advance,
    {
        self.v[x as usize] = self.v[y as usize];
        ProgramCounterAction::Advance
    }

    // 8xy1 - OR Vx, Vy
    // Set Vx = Vx OR Vy.
    fn op_8xy1(&mut self, x: u8, y: u8) -> (r: ProgramCounterAction)
        requires
            old(self)@.wf(),
            x < 16,
            y < 16,
        ensures
            final(self)@ == old(self)@.with_reg(
                x as int,
                old(self)@.v[x as int] | old(self)@.v[y as int],
            ),
            r == ProgramCounterAction::Advance,
    {
        self.v[x as usize] = self.v[x as usize] | self.v[y as usize];
        ProgramCounterAction::Advance
    }

    // 8xy2 - AND Vx, Vy
    // Set Vx = Vx AND Vy.
    fn op_8xy2(&mut self, x: u8, y: u8) -> (r: ProgramCounterAction)
        requires
            old(self)@.wf(),
            x < 16,
            y < 16,
        ensures
            final(self)@ == old(self)@.with_reg(
                x as int,
                old(self)@.v[x as int] & old(self)@.v[y as int],
            ),
            r == ProgramCounterAction::Advance,
    {
        self.v[x as usize] = self.v[x as usize] & self.v[y as usize];
        ProgramCounterAction::Advance
    }

    // 8xy3 - XOR Vx, Vy
    // Set Vx = Vx XOR Vy.
    fn op_8xy3(&mut self, x: u8, y: u8) -> (r: ProgramCounterAction)
        requires
            old(self)@.wf(),
            x < 16,
            y < 16,
        ensures
            final(self)@ == old(self)@.with_reg(
                x as int,
                old(self)@.v[x as int] ^ old(self)@.v[y as int],
            ),
            r == ProgramCounterAction::Advance,
    {
        self.v[x as usize] = self.v[x as usize] ^ self.v[y as usize];
        ProgramCounterAction::Advance
    }

    // 8xy4 - ADD Vx, Vy
    // Set Vx = Vx + Vy modulo 256, set VF = carry.
    fn op_8xy4(&mut self, x: u8, y: u8) -> (r: ProgramCounterAction)
        requires
            old(self)@.wf(),
            x < 16,
            y < 16,
        ensures
            (final(self)@, r) == crate::model::add_carry_effect(old(self)@, x, y),
    {
        let vx = self.v[x as usize] as u16;
        let vy = self.v[y as usize] as u16;
        self.v[x as usize] = ((vx + vy) % 0x100) as u8;
        if vx + vy > 255 {
            self.v[0x0F] = 1;
        } else {
            self.v[0x0F] = 0;
        }
        ProgramCounterAction::Advance
    }

    // 8xy5 - SUB Vx, Vy
    // Set Vx = Vx - Vy modulo 256, set VF = NOT borrow.
    fn op_8xy5(&mut self, x: u8, y: u8) -> (r: ProgramCounterAction)
        requires
            old(self)@.wf(),
            x < 16,
            y < 16,
        ensures
            (final(self)@, r) == crate::model::sub_borrow_effect(old(self)@, x, y),
    {
        let vx = self.v[x as usize];
        let vy = self.v[y as usize];
        self.v[x as usize] = ((vx as u16 + 256 - vy as u16) % 256) as u8;
        proof {
            vstd::arithmetic::div_mod::lemma_mod_multiples_vanish(1, vx - vy, 256);
        }
        if vx > vy {
            self.v[0x0F] = 1;
        } else {
            self.v[0x0F] = 0;
        }
        ProgramCounterAction::Advance
    }

    // 8xy6 - SHR Vx
    // Set Vx = Vx >> 1; VF captures the dropped low bit.
    fn op_8xy6(&mut self, x: u8) -> (r: ProgramCounterAction)
        requires
            old(self)@.wf(),
            x < 16,
        ensures
            (final(self)@, r) == crate::model::shift_right_effect(old(self)@, x),
    {
        let vx = self.v[x as usize];
        self.v[x as usize] = vx / 2;
        self.v[0x0F] = vx % 2;
        ProgramCounterAction::Advance
    }

    // 8xy7 - SUBN Vx, Vy
    // Set Vx = Vy - Vx modulo 256, set VF = NOT borrow.
    fn op_8xy7(&mut self, x: u8, y: u8) -> (r: ProgramCounterAction)
        requires
            old(self)@.wf(),
            x < 16,
            y < 16,
        ensures
            (final(self)@, r) == crate::model::sub_reverse_effect(old(self)@, x, y),
    {
        let vx = self.v[x as usize];
        let vy = self.v[y as usize];
        self.v[x as usize] = ((vy as u16 + 256 - vx as u16) % 256) as u8;
        proof {
            vstd::arithmetic::div_mod::lemma_mod_multiples_vanish(1, vy - vx, 256);
        }
        if vy > vx {
            self.v[0x0F] = 1;
        } else {
            self.v[0x0F] = 0;
        }
        ProgramCounterAction::Advance
    }

    // 8xyE - SHL Vx
    // Set Vx = Vx << 1 modulo 256; VF captures the dropped high bit.
    fn op_8xyE(&mut self, x: u8) -> (r: ProgramCounterAction)
        requires
            old(self)@.wf(),
            x < 16,
        ensures
            (final(self)@, r) == crate::model::shift_left_effect(old(self)@, x),
    {
        let vx = self.v[x as usize];
        self.v[x as usize] = ((vx as u16 * 2) % 256) as u8;
        self.v[0x0F] = vx / 128;
        ProgramCounterAction::Advance
    }

    // 9xy0 - SNE Vx, Vy
    // Skip next instruction if Vx != Vy.
    fn op_9xy0(&mut self, x: u8, y: u8) -> (r: ProgramCounterAction)
        requires
            old(self)@.wf(),
            x < 16,
            y < 16,
        ensures
            final(self)@ == old(self)@,
            r == crate::model::skip_action(old(self)@.v[x as int] != old(self)@.v[y as int]),
    {
        ProgramCounterAction::skip_if(self.v[x as usize] != self.v[y as usize])
    }

    // Annn - LD I, addr
    // Set I = nnn.
    fn op_Annn(&mut self, nnn: u16) -> (r: ProgramCounterAction)
        requires
            old(self)@.wf(),
            nnn < 4096,
        ensures
            final(self)@ == (VmState { i: nnn as int, ..old(self)@ }),
            r == ProgramCounterAction::Advance,
    {
        self.i = nnn as usize;
        ProgramCounterAction::Advance
    }

    // Bnnn - JP V0, addr
    // Jump to location nnn + V0.
    fn op_Bnnn(&mut self, nnn: u16) -> (r: ProgramCounterAction)
        requires
            old(self)@.wf(),
            nnn < 4096,
        ensures
            final(self)@ == old(self)@,
            r == ProgramCounterAction::Jump((old(self)@.v[0] + nnn) as u16),
    {
        ProgramCounterAction::Jump(self.v[0] as u16 + nnn)
    }

    // Cxkk - RND Vx, byte
    // Set Vx = rnd AND kk, where rnd is the byte the random source produced.
    fn op_Cxkk(&mut self, x: u8, kk: u8, rnd: u8) -> (r: ProgramCounterAction)
        requires
            old(self)@.wf(),
            x < 16,
        ensures
            (final(self)@, r) == crate::model::random_effect(old(self)@, x, kk, rnd),
    {
        self.v[x as usize] = rnd & kk;
        ProgramCounterAction::Advance
    }

    // Dxyn - DRW Vx, Vy, nibble
    // XOR the n-row sprite at memory location I onto the framebuffer at
    // (Vx, Vy), with row and column wraparound; VF = 1 exactly when a set
    // pixel is erased.  Raises the redraw flag.
    fn op_Dxyn(&mut self, x: u8, y: u8, n: u8) -> (r: Result<ProgramCounterAction, VmError>)
        requires
            old(self)@.wf(),
            x < 16,
            y < 16,
            n < 16,
        ensures
            final(self)@.wf(),
            match crate::model::draw_effect(old(self)@, x, y, n) {
                Ok((s1, a)) => r == Ok::<ProgramCounterAction, VmError>(a) && final(self)@ == s1,
                Err(e) => r == Err::<ProgramCounterAction, VmError>(e) && final(self)@ == old(
                    self,
                )@,
            },
    {
        let ghost s0 = self@;
        if self.i + n as usize > 4096 {
            return Err(VmError::OutOfBoundsAddress);
        }
        let px = self.v[x as usize] as usize;
        let py = self.v[y as usize] as usize;
        self.redraw = true;
        self.v[0x0F] = 0;
        proof {
            assert(self@.vram =~= crate::model::draw_fb(s0.vram, s0.mem, s0.i, px as int, py as int, 0))
                by {
                assert forall|p: int| 0 <= p < 2048 implies s0.vram[p] ^ crate::model::sprite_cell_bit(
                    s0.mem,
                    s0.i,
                    px as int,
                    py as int,
                    0,
                    p,
                ) == s0.vram[p] by {
                    vstd::arithmetic::div_mod::lemma_mod_division_less_than_divisor(
                        (p / 64) - py,
                        32,
                    );
                    crate::arith::lemma_xor_zero(s0.vram[p]);
                }
            }
            assert(!crate::model::draw_collision(s0.vram, s0.mem, s0.i, px as int, py as int, 0))
                by {
                assert forall|p: int| 0 <= p < 2048 implies crate::model::sprite_cell_bit(
                    s0.mem,
                    s0.i,
                    px as int,
                    py as int,
                    0,
                    p,
                ) != 1 by {
                    vstd::arithmetic::div_mod::lemma_mod_division_less_than_divisor(
                        (p / 64) - py,
                        32,
                    );
                }
            }
        }
        let mut k: usize = 0;
        while k < n as usize
            invariant
                k <= n as usize,
                n < 16,
                px < 256,
                py < 256,
                s0.wf(),
                s0.i + n <= 4096,
                self@.wf(),
                self@ == (VmState { vram: self@.vram, v: self@.v, redraw: true, ..s0 }),
                self@.vram == crate::model::draw_fb(
                    s0.vram,
                    s0.mem,
                    s0.i,
                    px as int,
                    py as int,
                    k as int,
                ),
                self@.v == s0.v.update(
                    15,
                    if crate::model::draw_collision(
                        s0.vram,
                        s0.mem,
                        s0.i,
                        px as int,
                        py as int,
                        k as int,
                    ) {
                        1u8
                    } else {
                        0u8
                    },
                ),
            decreases n as usize - k,
        {
            let ghost kk = k as int;
            let ghost fbk = self@.vram;
            let ghost vk = self@.v;
            let data = self.mem[self.i + k];
            let row = (py + k) % 32;
            proof {
                crate::arith::lemma_mod_window(py as int, kk, 32);
            }
            self.draw_line(px, row, data);
            proof {
                let xi = px as int;
                let yi = py as int;
                let rho = row as int;
                let coll_k = crate::model::draw_collision(s0.vram, s0.mem, s0.i, xi, yi, kk);
                let row_coll = row_collision(fbk, xi, rho, data, 8);
                assert(self@.vram =~= crate::model::draw_fb(s0.vram, s0.mem, s0.i, xi, yi, kk + 1))
                    by {
                    assert forall|p: int| 0 <= p < 2048 implies row_fb(fbk, xi, rho, data, 8)[p]
                        == s0.vram[p] ^ crate::model::sprite_cell_bit(
                        s0.mem,
                        s0.i,
                        xi,
                        yi,
                        kk + 1,
                        p,
                    ) by {
                        crate::arith::lemma_cell_split(p);
                        vstd::arithmetic::div_mod::lemma_mod_division_less_than_divisor(
                            (p % 64) - xi,
                            64,
                        );
                        vstd::arithmetic::div_mod::lemma_mod_division_less_than_divisor(
                            (p / 64) - yi,
                            32,
                        );
                        if p / 64 == rho {
                            // The target row is untouched by the first k sprite
                            // rows, and its window row offset is exactly k.
                            crate::arith::lemma_xor_zero(s0.vram[p]);
                        } else {
                            // Off the target row the offset is not k, so the
                            // wider window adds nothing.
                            crate::arith::lemma_mod_window_inverse(yi, p / 64, 32);
                            crate::arith::lemma_xor_zero(fbk[p]);
                        }
                    }
                }
                // The row's own collisions are exactly the new collisions.
                if row_coll {
                    let p = choose|p: int|
                        0 <= p < 2048 && fbk[p] == 1 && row_cell_bit(xi, rho, data, 8, p) == 1;
                    crate::arith::lemma_cell_split(p);
                    vstd::arithmetic::div_mod::lemma_mod_division_less_than_divisor(
                        (p / 64) - yi,
                        32,
                    );
                    crate::arith::lemma_xor_zero(s0.vram[p]);
                    assert(crate::model::sprite_cell_bit(s0.mem, s0.i, xi, yi, kk + 1, p) == 1);
                    assert(crate::model::draw_collision(s0.vram, s0.mem, s0.i, xi, yi, kk + 1));
                }
                if coll_k {
                    let p = choose|p: int|
                        0 <= p < 2048 && s0.vram[p] == 1 && crate::model::sprite_cell_bit(
                            s0.mem,
                            s0.i,
                            xi,
                            yi,
                            kk,
                            p,
                        ) == 1;
                    crate::arith::lemma_cell_split(p);
                    vstd::arithmetic::div_mod::lemma_mod_division_less_than_divisor(
                        (p / 64) - yi,
                        32,
                    );
                    assert(crate::model::sprite_cell_bit(s0.mem, s0.i, xi, yi, kk + 1, p) == 1);
                    assert(crate::model::draw_collision(s0.vram, s0.mem, s0.i, xi, yi, kk + 1));
                }
                if crate::model::draw_collision(s0.vram, s0.mem, s0.i, xi, yi, kk + 1) && !coll_k
                    && !row_coll {
                    let p = choose|p: int|
                        0 <= p < 2048 && s0.vram[p] == 1 && crate::model::sprite_cell_bit(
                            s0.mem,
                            s0.i,
                            xi,
                            yi,
                            kk + 1,
                            p,
                        ) == 1;
                    crate::arith::lemma_cell_split(p);
                    vstd::arithmetic::div_mod::lemma_mod_division_less_than_divisor(
                        (p / 64) - yi,
                        32,
                    );
                    if ((p / 64) - yi) % 32 == kk {
                        crate::arith::lemma_mod_window_inverse(yi, p / 64, 32);
                        assert(p / 64 == rho);
                        crate::arith::lemma_xor_zero(s0.vram[p]);
                        assert(fbk[p] == 1);
                        assert(row_cell_bit(xi, rho, data, 8, p) == 1);
                        assert(false);
                    } else {
                        assert(crate::model::sprite_cell_bit(s0.mem, s0.i, xi, yi, kk, p) == 1);
                        assert(false);
                    }
                }
                if row_coll {
                    assert(self@.v =~= s0.v.update(15, 1u8));
                } else {
                    assert(crate::model::draw_collision(s0.vram, s0.mem, s0.i, xi, yi, kk + 1)
                        == coll_k);
                }
            }
            k = k + 1;
        }
        proof {
            let eff = crate::model::draw_effect(s0, x, y, n);
            let (s1, _a) = eff->Ok_0;
            assert(self@ =~= s1);
        }
        Ok(ProgramCounterAction::Advance)
    }

    // Draw one sprite row byte at column x of framebuffer row y: the byte's
    // bits, highest first, are XORed onto the cells at columns (x + j) % 64,
    // and VF is set when a set cell is erased.
    fn draw_line(&mut self, x: usize, y: usize, data: u8)
        requires
            old(self)@.wf(),
            x < 256,
            y < 32,
        ensures
            final(self)@.wf(),
            final(self)@ == (VmState {
                vram: row_fb(old(self)@.vram, x as int, y as int, data, 8),
                v: if row_collision(old(self)@.vram, x as int, y as int, data, 8) {
                    old(self)@.v.update(15, 1u8)
                } else {
                    old(self)@.v
                },
                ..old(self)@
            }),
    {
        let ghost s0 = self@;
        proof {
            assert(self@.vram =~= row_fb(s0.vram, x as int, y as int, data, 0)) by {
                assert forall|p: int| 0 <= p < 2048 implies s0.vram[p] ^ row_cell_bit(
                    x as int,
                    y as int,
                    data,
                    0,
                    p,
                ) == s0.vram[p] by {
                    vstd::arithmetic::div_mod::lemma_mod_division_less_than_divisor(
                        (p % 64) - x,
                        64,
                    );
                    crate::arith::lemma_xor_zero(s0.vram[p]);
                }
            }
            assert(!row_collision(s0.vram, x as int, y as int, data, 0)) by {
                assert forall|p: int| 0 <= p < 2048 implies row_cell_bit(
                    x as int,
                    y as int,
                    data,
                    0,
                    p,
                ) != 1 by {
                    vstd::arithmetic::div_mod::lemma_mod_division_less_than_divisor(
                        (p % 64) - x,
                        64,
                    );
                }
            }
        }
        let mut j: usize = 0;
        while j < 8
            invariant
                j <= 8,
                x < 256,
                y < 32,
                s0.wf(),
                self@.wf(),
                self@ == (VmState { vram: self@.vram, v: self@.v, ..s0 }),
                self@.vram == row_fb(s0.vram, x as int, y as int, data, j as int),
                self@.v == if row_collision(s0.vram, x as int, y as int, data, j as int) {
                    s0.v.update(15, 1u8)
                } else {
                    s0.v
                },
            decreases 8 - j,
        {
            let ghost jj = j as int;
            let ghost fbk = self@.vram;
            let ghost vk = self@.v;
            let shift: u8 = (7 - j) as u8;
            let bit: u8 = (data >> shift) & 1;
            let col: usize = (x + j) % 64;
            proof {
                crate::arith::lemma_mod_window(x as int, jj, 64);
                crate::arith::lemma_cell_compose(y as int, col as int);
                crate::arith::lemma_sprite_bit_le_one(data, jj);
                assert(bit == crate::model::sprite_bit(data, jj));
            }
            let q: usize = y * 64 + col;
            let cur = self.vram[q];
            if cur == 1 && bit == 1 {
                self.v[0x0F] = 1;
            }
            self.vram[q] = cur ^ bit;
            proof {
                let xi = x as int;
                let yi = y as int;
                let qi = q as int;
                assert(row_cell_bit(xi, yi, data, jj, qi) == 0);
                crate::arith::lemma_xor_zero(s0.vram[qi]);
                assert(cur == s0.vram[qi]);
                crate::arith::lemma_xor_le_one(cur, bit);
                assert(row_cell_bit(xi, yi, data, jj + 1, qi) == crate::model::sprite_bit(
                    data,
                    jj,
                ));
                // Any other cell keeps its bit when the window widens to jj+1.
                assert forall|p: int|
                    0 <= p < 2048 && p != qi implies row_cell_bit(xi, yi, data, jj + 1, p)
                    == row_cell_bit(xi, yi, data, jj, p) by {
                    crate::arith::lemma_cell_split(p);
                    vstd::arithmetic::div_mod::lemma_mod_division_less_than_divisor(
                        (p % 64) - xi,
                        64,
                    );
                    if p / 64 == yi && ((p % 64) - xi) % 64 == jj {
                        crate::arith::lemma_mod_window_inverse(xi, p % 64, 64);
                        assert(p % 64 == col as int);
                        assert(p == qi);
                    }
                }
                assert(self@.vram =~= row_fb(s0.vram, xi, yi, data, jj + 1)) by {
                    assert forall|p: int| 0 <= p < 2048 implies self@.vram[p] == s0.vram[p]
                        ^ row_cell_bit(xi, yi, data, jj + 1, p) by {
                        if p != qi {
                            assert(self@.vram[p] == fbk[p]);
                        }
                    }
                }
                let coll_old = row_collision(s0.vram, xi, yi, data, jj);
                let coll_new = row_collision(s0.vram, xi, yi, data, jj + 1);
                if cur == 1 && bit == 1 {
                    assert(s0.vram[qi] == 1 && row_cell_bit(xi, yi, data, jj + 1, qi) == 1);
                    assert(coll_new);
                    assert(self@.v =~= s0.v.update(15, 1u8));
                } else {
                    if coll_old {
                        let p = choose|p: int|
                            0 <= p < 2048 && s0.vram[p] == 1 && row_cell_bit(
                                xi,
                                yi,
                                data,
                                jj,
                                p,
                            ) == 1;
                        assert(row_cell_bit(xi, yi, data, jj + 1, p) == 1);
                        assert(coll_new);
                    }
                    if coll_new && !coll_old {
                        let p = choose|p: int|
                            0 <= p < 2048 && s0.vram[p] == 1 && row_cell_bit(
                                xi,
                                yi,
                                data,
                                jj + 1,
                                p,
                            ) == 1;
                        assert(row_cell_bit(xi, yi, data, jj, p) != 1);
                        assert(p == qi);
                        assert(false);
                    }
                    assert(coll_new == coll_old);
                }
            }
            j = j + 1;
        }
        proof {
            assert(self@ =~= (VmState {
                vram: row_fb(s0.vram, x as int, y as int, data, 8),
                v: if row_collision(s0.vram, x as int, y as int, data, 8) {
                    s0.v.update(15, 1u8)
                } else {
                    s0.v
                },
                ..s0
            }));
        }
    }

    // Ex9E - SKP Vx
    // Skip next instruction if the key named by Vx is pressed.
    fn op_Ex9E(&mut self, x: u8) -> (r: Result<ProgramCounterAction, VmError>)
        requires
            old(self)@.wf(),
            x < 16,
        ensures
            match crate::model::skip_key_effect(old(self)@, x, true) {
                Ok((s1, a)) => r == Ok::<ProgramCounterAction, VmError>(a) && final(self)@ == s1,
                Err(e) => r == Err::<ProgramCounterAction, VmError>(e) && final(self)@ == old(
                    self,
                )@,
            },
    {
        let vx = self.v[x as usize];
        if vx >= 16 {
            return Err(VmError::OutOfBoundsAddress);
        }
        Ok(ProgramCounterAction::skip_if(self.pressed_keys[vx as usize] == true))
    }

    // ExA1 - SKNP Vx
    // Skip next instruction if the key named by Vx is not pressed.
    fn op_ExA1(&mut self, x: u8) -> (r: Result<ProgramCounterAction, VmError>)
        requires
            old(self)@.wf(),
            x < 16,
        ensures
            match crate::model::skip_key_effect(old(self)@, x, false) {
                Ok((s1, a)) => r == Ok::<ProgramCounterAction, VmError>(a) && final(self)@ == s1,
                Err(e) => r == Err::<ProgramCounterAction, VmError>(e) && final(self)@ == old(
                    self,
                )@,
            },
    {
        let vx = self.v[x as usize];
        if vx >= 16 {
            return Err(VmError::OutOfBoundsAddress);
        }
        Ok(ProgramCounterAction::skip_if(self.pressed_keys[vx as usize] == false))
    }

    // Fx07 - LD Vx, DT
    // Set Vx = delay timer value.
    fn op_Fx07(&mut self, x: u8) -> (r: ProgramCounterAction)
        requires
            old(self)@.wf(),
            x < 16,
        ensures
            final(self)@ == old(self)@.with_reg(x as int, old(self)@.delay_timer),
            r == ProgramCounterAction::Advance,
    {
        self.v[x as usize] = self.delay_timer;
        ProgramCounterAction::Advance
    }

    // Fx0A - LD Vx, K
    // Wait for a key press, store the lowest pressed key index in Vx.
    fn op_Fx0A(&mut self, x: u8) -> (r: ProgramCounterAction)
        requires
            old(self)@.wf(),
            x < 16,
        ensures
            (final(self)@, r) == crate::model::wait_key_effect(old(self)@, x),
    {
        match Processor::first_pressed_key(&self.pressed_keys) {
            Some(k) => {
                self.v[x as usize] = k;
                ProgramCounterAction::Advance
            },
            None => ProgramCounterAction::WaitForKey,
        }
    }

    /// The lowest pressed key index of a snapshot, if any key is pressed.
    fn first_pressed_key(keys: &[bool; 16]) -> (r: Option<u8>)
        ensures
            match r {
                Some(k) => k < 16 && crate::model::first_pressed(keys@) == Some(k as int),
                None => crate::model::first_pressed(keys@) is None,
            },
    {
        let mut k: usize = 0;
        while k < 16
            invariant
                k <= 16,
                crate::model::first_pressed(keys@) == crate::model::first_pressed_from(
                    keys@,
                    k as int,
                ),
            decreases 16 - k,
        {
            if keys[k] {
                return Some(k as u8);
            }
            k = k + 1;
        }
        None
    }

    // Fx15 - LD DT, Vx
    // Set delay timer = Vx.
    fn op_Fx15(&mut self, x: u8) -> (r: ProgramCounterAction)
        requires
            old(self)@.wf(),
            x < 16,
        ensures
            final(self)@ == (VmState { delay_timer: old(self)@.v[x as int], ..old(self)@ }),
            r == ProgramCounterAction::Advance,
    {
        self.delay_timer = self.v[x as usize];
        ProgramCounterAction::Advance
    }

    // Fx18 - LD ST, Vx
    // Set sound timer = Vx.
    fn op_Fx18(&mut self, x: u8) -> (r: ProgramCounterAction)
        requires
            old(self)@.wf(),
            x < 16,
        ensures
            final(self)@ == (VmState { sound_timer: old(self)@.v[x as int], ..old(self)@ }),
            r == ProgramCounterAction::Advance,
    {
        self.sound_timer = self.v[x as usize];
        ProgramCounterAction::Advance
    }

    // Fx1E - ADD I, Vx
    // Set I = I + Vx.
    fn op_Fx1E(&mut self, x: u8) -> (r: Result<ProgramCounterAction, VmError>)
        requires
            old(self)@.wf(),
            x < 16,
        ensures
            match crate::model::add_index_effect(old(self)@, x) {
                Ok((s1, a)) => r == Ok::<ProgramCounterAction, VmError>(a) && final(self)@ == s1,
                Err(e) => r == Err::<ProgramCounterAction, VmError>(e) && final(self)@ == old(
                    self,
                )@,
            },
    {
        let vx = self.v[x as usize];
        if self.i + vx as usize >= 4096 {
            return Err(VmError::OutOfBoundsAddress);
        }
        self.i = self.i + vx as usize;
        Ok(ProgramCounterAction::Advance)
    }

    // Fx29 - LD F, Vx
    // Set I = location of the built-in font glyph for digit Vx.
    fn op_Fx29(&mut self, x: u8) -> (r: ProgramCounterAction)
        requires
            old(self)@.wf(),
            x < 16,
        ensures
            final(self)@ == (VmState { i: old(self)@.v[x as int] * 5, ..old(self)@ }),
            r == ProgramCounterAction::Advance,
    {
        self.i = self.v[x as usize] as usize * 5;
        ProgramCounterAction::Advance
    }

    // Fx33 - LD B, Vx
    // Store the BCD representation of Vx at I, I+1 and I+2: hundreds digit
    // at I, tens digit at I+1, units digit at I+2.
    fn op_Fx33(&mut self, x: u8) -> (r: Result<ProgramCounterAction, VmError>)
        requires
            old(self)@.wf(),
            x < 16,
        ensures
            match crate::model::store_bcd_effect(old(self)@, x) {
                Ok((s1, a)) => r == Ok::<ProgramCounterAction, VmError>(a) && final(self)@ == s1,
                Err(e) => r == Err::<ProgramCounterAction, VmError>(e) && final(self)@ == old(
                    self,
                )@,
            },
    {
        if self.i + 2 >= 4096 {
            return Err(VmError::OutOfBoundsAddress);
        }
        let vx = self.v[x as usize];
        self.mem[self.i] = vx / 100 % 10;
        self.mem[self.i + 1] = vx / 10 % 10;
        self.mem[self.i + 2] = vx % 10;
        Ok(ProgramCounterAction::Advance)
    }

    // Fx55 - LD [I], Vx
    // Store registers V0 through Vx in memory starting at location I.
    fn op_Fx55(&mut self, x: u8) -> (r: Result<ProgramCounterAction, VmError>)
        requires
            old(self)@.wf(),
            x < 16,
        ensures
            match crate::model::store_regs_effect(old(self)@, x) {
                Ok((s1, a)) => r == Ok::<ProgramCounterAction, VmError>(a) && final(self)@ == s1,
                Err(e) => r == Err::<ProgramCounterAction, VmError>(e) && final(self)@ == old(
                    self,
                )@,
            },
    {
        if self.i + x as usize >= 4096 {
            return Err(VmError::OutOfBoundsAddress);
        }
        let ghost s0 = self@;
        let mut k: usize = 0;
        while k <= x as usize
            invariant
                k <= x as usize + 1,
                x < 16,
                s0.wf(),
                s0.i + x < 4096,
                self@ == (VmState { mem: self@.mem, ..s0 }),
                self@.mem.len() == 4096,
                forall|a: int|
                    s0.i <= a < s0.i + k ==> self@.mem[a] == s0.v[a - s0.i],
                forall|a: int|
                    0 <= a < 4096 && !(s0.i <= a < s0.i + k) ==> self@.mem[a] == s0.mem[a],
            decreases x as usize + 1 - k,
        {
            self.mem[self.i + k] = self.v[k];
            k = k + 1;
        }
        proof {
            let (s1, _a) = crate::model::store_regs_effect(s0, x)->Ok_0;
            assert(self@.mem =~= s1.mem);
            assert(self@ =~= s1);
        }
        Ok(ProgramCounterAction::Advance)
    }

    // Fx65 - LD Vx, [I]
    // Read registers V0 through Vx from memory starting at location I.
    fn op_Fx65(&mut self, x: u8) -> (r: Result<ProgramCounterAction, VmError>)
        requires
            old(self)@.wf(),
            x < 16,
        ensures
            match crate::model::load_regs_effect(old(self)@, x) {
                Ok((s1, a)) => r == Ok::<ProgramCounterAction, VmError>(a) && final(self)@ == s1,
                Err(e) => r == Err::<ProgramCounterAction, VmError>(e) && final(self)@ == old(
                    self,
                )@,
            },
    {
        if self.i + x as usize >= 4096 {
            return Err(VmError::OutOfBoundsAddress);
        }
        let ghost s0 = self@;
        let mut k: usize = 0;
        while k <= x as usize
            invariant
                k <= x as usize + 1,
                x < 16,
                s0.wf(),
                s0.i + x < 4096,
                self@ == (VmState { v: self@.v, ..s0 }),
                self@.v.len() == 16,
                forall|rr: int| 0 <= rr < k ==> self@.v[rr] == s0.mem[s0.i + rr],
                forall|rr: int| k <= rr < 16 ==> self@.v[rr] == s0.v[rr],
            decreases x as usize + 1 - k,
        {
            self.v[k] = self.mem[self.i + k];
            k = k + 1;
        }
        proof {
            let (s1, _a) = crate::model::load_regs_effect(s0, x)->Ok_0;
            assert(self@.v =~= s1.v);
            assert(self@ =~= s1);
        }
        Ok(ProgramCounterAction::Advance)
    }

    /// Move the program counter as the action says; a target from which two
    /// bytes cannot be fetched is fatal.
    fn apply_pc_action(&mut self, action: ProgramCounterAction) -> (r: Result<(), VmError>)
        requires
            old(self)@.wf(),
        ensures
            match crate::model::apply_action(old(self)@, action) {
                Ok(s1) => r == Ok::<(), VmError>(()) && final(self)@ == s1,
                Err(e) => r == Err::<(), VmError>(e) && final(self)@ == old(self)@,
            },
    {
        let target: usize = match action {
            ProgramCounterAction::Advance => self.pc + 2,
            ProgramCounterAction::SkipNext => self.pc + 4,
            ProgramCounterAction::Jump(t) => t as usize,
            ProgramCounterAction::WaitForKey => self.pc,
        };
        if target + 1 < 4096 {
            self.pc = target;
            Ok(())
        } else {
            Err(VmError::OutOfBoundsAddress)
        }
    }

    /// The current program counter.
    pub fn pc(&self) -> (r: usize)
        ensures
            r == self@.pc,
    {
        self.pc
    }

    /// The current value of one general-purpose register.
    pub fn register(&self, x: u8) -> (r: u8)
        requires
            x < 16,
            self@.wf(),
        ensures
            r == self@.v[x as int],
    {
        self.v[x as usize]
    }

    /// The current value of the address register.
    pub fn index_register(&self) -> (r: usize)
        ensures
            r == self@.i,
    {
        self.i
    }

    /// Overwrite one framebuffer pixel, for seeding a display state from
    /// outside the instruction set.
    pub fn set_pixel(&mut self, col: usize, row: usize, on: bool)
        requires
            old(self)@.wf(),
            col < 64,
            row < 32,
        ensures
            final(self)@.wf(),
            final(self)@ == (VmState {
                vram: old(self)@.vram.update(row * 64 + col, if on { 1u8 } else { 0u8 }),
                ..old(self)@
            }),
    {
        self.vram[row * 64 + col] = if on {
            1
        } else {
            0
        };
    }

    /// Decode a 16-bit instruction word into its nibble-pattern meaning.
    fn decode_instr(instr: u16) -> (r: Option<Instr>)
        ensures
            r == decode(instr),
    {
        let x = ((instr / 0x100) % 0x10) as u8;
        let y = ((instr / 0x10) % 0x10) as u8;
        let n = (instr % 0x10) as u8;
        let nnn = instr % 0x1000;
        let kk = (instr % 0x100) as u8;
        if instr == 0x00E0 {
            Some(Instr::ClearScreen)
        } else if instr == 0x00EE {
            Some(Instr::Return)
        } else if instr / 0x1000 == 0x1 {
            Some(Instr::Jump(nnn))
        } else if instr / 0x1000 == 0x2 {
            Some(Instr::Call(nnn))
        } else if instr / 0x1000 == 0x3 {
            Some(Instr::SkipEqByte(x, kk))
        } else if instr / 0x1000 == 0x4 {
            Some(Instr::SkipNeByte(x, kk))
        } else if instr / 0x1000 == 0x5 && n == 0x0 {
            Some(Instr::SkipEqReg(x, y))
        } else if instr / 0x1000 == 0x6 {
            Some(Instr::LoadByte(x, kk))
        } else if instr / 0x1000 == 0x7 {
            Some(Instr::AddByte(x, kk))
        } else if instr / 0x1000 == 0x8 && n == 0x0 {
            Some(Instr::Assign(x, y))
        } else if instr / 0x1000 == 0x8 && n == 0x1 {
            Some(Instr::Or(x, y))
        } else if instr / 0x1000 == 0x8 && n == 0x2 {
            Some(Instr::And(x, y))
        } else if instr / 0x1000 == 0x8 && n == 0x3 {
            Some(Instr::Xor(x, y))
        } else if instr / 0x1000 == 0x8 && n == 0x4 {
            Some(Instr::AddCarry(x, y))
        } else if instr / 0x1000 == 0x8 && n == 0x5 {
            Some(Instr::SubBorrow(x, y))
        } else if instr / 0x1000 == 0x8 && n == 0x6 {
            Some(Instr::ShiftRight(x))
        } else if instr / 0x1000 == 0x8 && n == 0x7 {
            Some(Instr::SubReverse(x, y))
        } else if instr / 0x1000 == 0x8 && n == 0xE {
            Some(Instr::ShiftLeft(x))
        } else if instr / 0x1000 == 0x9 && n == 0x0 {
            Some(Instr::SkipNeReg(x, y))
        } else if instr / 0x1000 == 0xA {
            Some(Instr::SetIndex(nnn))
        } else if instr / 0x1000 == 0xB {
            Some(Instr::JumpPlusV0(nnn))
        } else if instr / 0x1000 == 0xC {
            Some(Instr::Random(x, kk))
        } else if instr / 0x1000 == 0xD {
            Some(Instr::Draw(x, y, n))
        } else if instr / 0x1000 == 0xE && kk == 0x9E {
            Some(Instr::SkipKeyPressed(x))
        } else if instr / 0x1000 == 0xE && kk == 0xA1 {
            Some(Instr::SkipKeyNotPressed(x))
        } else if instr / 0x1000 == 0xF && kk == 0x07 {
            Some(Instr::ReadDelay(x))
        } else if instr / 0x1000 == 0xF && kk == 0x0A {
            Some(Instr::WaitKey(x))
        } else if instr / 0x1000 == 0xF && kk == 0x15 {
            Some(Instr::SetDelay(x))
        } else if instr / 0x1000 == 0xF && kk == 0x18 {
            Some(Instr::SetSound(x))
        } else if instr / 0x1000 == 0xF && kk == 0x1E {
            Some(Instr::AddIndex(x))
        } else if instr / 0x1000 == 0xF && kk == 0x29 {
            Some(Instr::FontAddr(x))
        } else if instr / 0x1000 == 0xF && kk == 0x33 {
            Some(Instr::StoreBcd(x))
        } else if instr / 0x1000 == 0xF && kk == 0x55 {
            Some(Instr::StoreRegs(x))
        } else if instr / 0x1000 == 0xF && kk == 0x65 {
            Some(Instr::LoadRegs(x))
        } else {
            None
        }
    }
}

} // verus!
