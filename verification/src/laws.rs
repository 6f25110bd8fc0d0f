//! Laws of the instruction set: properties that hold of the transition
//! semantics for all inputs, each proved once and for all.

use vstd::prelude::*;

use crate::arith::{lemma_mod_window, lemma_xor_involution, lemma_xor_zero};
use crate::model::{
    add_byte_effect, add_carry_effect, decode, draw_effect, draw_fb, fetch, first_pressed_from,
    shift_left_effect, shift_right_effect, spec_cycle, sprite_bit, sprite_cell_bit,
    sub_borrow_effect, sub_reverse_effect, with_input, Instr, ProgramCounterAction, VmState,
};

verus! {

/// The random byte only matters to the `Random` instruction: every other
/// cycle is deterministic in the machine state and key snapshot alone.
pub proof fn lemma_cycle_rnd_irrelevant(s: VmState, keys: Seq<bool>, rnd1: u8, rnd2: u8)
    requires
        !(decode(fetch(with_input(s, keys))) matches Some(Instr::Random(_x, _kk))),
    ensures
        spec_cycle(s, keys, rnd1) == spec_cycle(s, keys, rnd2),
        crate::model::cycle_err_residue(s, keys, rnd1) == crate::model::cycle_err_residue(
            s,
            keys,
            rnd2,
        ),
{
}

/// 7xkk computes `(Vx + kk) mod 256`, and mutates no flag: every register
/// other than the target, the flags register included, is unchanged, and so
/// is the rest of the machine.
pub proof fn lemma_add_byte_no_flag_mutation(s: VmState, x: u8, kk: u8)
    requires
        s.wf(),
        x < 16,
    ensures
        add_byte_effect(s, x, kk).0.v[x as int] == (s.v[x as int] + kk) % 256,
        forall|r: int| 0 <= r < 16 && r != x ==> add_byte_effect(s, x, kk).0.v[r] == s.v[r],
        add_byte_effect(s, x, kk).0 == (VmState { v: add_byte_effect(s, x, kk).0.v, ..s }),
        add_byte_effect(s, x, kk).1 == ProgramCounterAction::Advance,
{
}

/// 8xy4 sets the flags register to 1 exactly when `Vx + Vy` exceeds 255
/// before the add, else to 0; the stored result is `(Vx + Vy) mod 256`.
pub proof fn lemma_add_carry(s: VmState, x: u8, y: u8)
    requires
        s.wf(),
        x < 16,
        y < 16,
    ensures
        add_carry_effect(s, x, y).0.v[15] == (if s.v[x as int] + s.v[y as int] > 255 {
            1u8
        } else {
            0u8
        }),
        x != 15 ==> add_carry_effect(s, x, y).0.v[x as int] == (s.v[x as int] + s.v[y as int])
            % 256,
{
}

/// 8xy5 sets the flags register to 1 exactly when `Vx > Vy` (the not-borrow
/// convention), else to 0; the stored result is `(Vx - Vy) mod 256`.
pub proof fn lemma_sub_not_borrow(s: VmState, x: u8, y: u8)
    requires
        s.wf(),
        x < 16,
        y < 16,
    ensures
        sub_borrow_effect(s, x, y).0.v[15] == (if s.v[x as int] > s.v[y as int] {
            1u8
        } else {
            0u8
        }),
        x != 15 ==> sub_borrow_effect(s, x, y).0.v[x as int] == (s.v[x as int] - s.v[y as int])
            % 256,
{
}

/// 8xy7 sets the flags register to 1 exactly when `Vy > Vx`, else to 0; the
/// stored result is `(Vy - Vx) mod 256`.
pub proof fn lemma_sub_reverse_not_borrow(s: VmState, x: u8, y: u8)
    requires
        s.wf(),
        x < 16,
        y < 16,
    ensures
        sub_reverse_effect(s, x, y).0.v[15] == (if s.v[y as int] > s.v[x as int] {
            1u8
        } else {
            0u8
        }),
        x != 15 ==> sub_reverse_effect(s, x, y).0.v[x as int] == (s.v[y as int] - s.v[x as int])
            % 256,
{
}

/// 8xy6 and 8xyE capture the shifted-out bit in the flags register, taken
/// from the register value before the shift: the low bit for a right shift,
/// the high bit for a left shift.
pub proof fn lemma_shift_captures_dropped_bit(s: VmState, x: u8)
    requires
        s.wf(),
        x < 16,
    ensures
        shift_right_effect(s, x).0.v[15] == s.v[x as int] % 2,
        x != 15 ==> shift_right_effect(s, x).0.v[x as int] == s.v[x as int] / 2,
        shift_left_effect(s, x).0.v[15] == s.v[x as int] / 128,
        x != 15 ==> shift_left_effect(s, x).0.v[x as int] == (s.v[x as int] * 2) % 256,
{
}

/// Drawing the same sprite at the same position twice restores the
/// framebuffer exactly: XOR is an involution on every cell.
pub proof fn lemma_draw_twice_restores_fb(
    fb: Seq<u8>,
    mem: Seq<u8>,
    i: int,
    x: int,
    y: int,
    n: int,
)
    requires
        fb.len() == 2048,
    ensures
        draw_fb(draw_fb(fb, mem, i, x, y, n), mem, i, x, y, n) == fb,
{
    let once = draw_fb(fb, mem, i, x, y, n);
    assert(draw_fb(once, mem, i, x, y, n) =~= fb) by {
        assert forall|p: int| 0 <= p < 2048 implies draw_fb(once, mem, i, x, y, n)[p] == fb[p] by {
            lemma_xor_involution(fb[p], sprite_cell_bit(mem, i, x, y, n, p));
        }
    }
}

/// Two draw instructions in a row with the same operands restore the prior
/// framebuffer exactly (the flags register and the redraw flag may differ).
pub proof fn lemma_draw_twice_restores(s: VmState, x: u8, y: u8, n: u8)
    requires
        s.wf(),
        x < 16,
        y < 16,
        n < 16,
        x != 15,
        y != 15,
        s.i + n <= 4096,
    ensures
        draw_effect(s, x, y, n) is Ok,
        draw_effect(draw_effect(s, x, y, n)->Ok_0.0, x, y, n) is Ok,
        draw_effect(draw_effect(s, x, y, n)->Ok_0.0, x, y, n)->Ok_0.0.vram == s.vram,
{
    let s1 = draw_effect(s, x, y, n)->Ok_0.0;
    assert(s1.v[x as int] == s.v[x as int] && s1.v[y as int] == s.v[y as int]);
    lemma_draw_twice_restores_fb(
        s.vram,
        s.mem,
        s.i,
        s.v[x as int] as int,
        s.v[y as int] as int,
        n as int,
    );
}

/// Toroidal placement: bit `j` of sprite row `k` is XORed onto the
/// framebuffer cell at row `(y + k) % 32`, column `(x + j) % 64`.
pub proof fn lemma_draw_placement(
    fb: Seq<u8>,
    mem: Seq<u8>,
    i: int,
    x: int,
    y: int,
    n: int,
    k: int,
    j: int,
)
    requires
        fb.len() == 2048,
        0 <= k < n,
        n <= 32,
        0 <= j < 8,
    ensures
        0 <= ((y + k) % 32) * 64 + ((x + j) % 64) < 2048,
        draw_fb(fb, mem, i, x, y, n)[((y + k) % 32) * 64 + ((x + j) % 64)] == fb[((y + k) % 32)
            * 64 + ((x + j) % 64)] ^ sprite_bit(mem[i + k], j),
{
    lemma_mod_window(y, k, 32);
    lemma_mod_window(x, j, 64);
    crate::arith::lemma_cell_compose((y + k) % 32, (x + j) % 64);
}

/// A draw changes nothing outside its wraparound window: a cell whose row
/// offset from `y` (mod 32) reaches `n` or whose column offset from `x`
/// (mod 64) reaches 8 keeps its value.
pub proof fn lemma_draw_outside_window(
    fb: Seq<u8>,
    mem: Seq<u8>,
    i: int,
    x: int,
    y: int,
    n: int,
    p: int,
)
    requires
        fb.len() == 2048,
        0 <= p < 2048,
        !(((p / 64) - y) % 32 < n) || !(((p % 64) - x) % 64 < 8),
    ensures
        draw_fb(fb, mem, i, x, y, n)[p] == fb[p],
{
    lemma_xor_zero(fb[p]);
}

/// 2nnn followed immediately by 00EE restores the program counter to the
/// instruction after the call, whatever the key snapshots were.
pub proof fn lemma_call_then_return(
    s: VmState,
    keys1: Seq<bool>,
    keys2: Seq<bool>,
    rnd1: u8,
    rnd2: u8,
    nnn: u16,
)
    requires
        s.wf(),
        keys1.len() == 16,
        keys2.len() == 16,
        decode(fetch(s)) == Some(Instr::Call(nnn)),
        s.sp < 16,
        s.pc + 3 < 4096,
        nnn + 1 < 4096,
        s.mem[nnn as int] == 0x00,
        s.mem[nnn as int + 1] == 0xEE,
    ensures
        spec_cycle(s, keys1, rnd1) is Ok,
        spec_cycle(spec_cycle(s, keys1, rnd1)->Ok_0.0, keys2, rnd2) is Ok,
        spec_cycle(spec_cycle(s, keys1, rnd1)->Ok_0.0, keys2, rnd2)->Ok_0.0.pc == s.pc + 2,
{
    let s1 = spec_cycle(s, keys1, rnd1)->Ok_0.0;
    assert(s1.pc == nnn as int);
    assert(fetch(with_input(s1, keys2)) == 0x00EE) by {
        assert(s1.mem == s.mem);
    }
    assert(s1.stack[s.sp] == (s.pc + 2) as u16);
}

/// With every key up, `first_pressed_from` finds nothing.
proof fn lemma_first_pressed_none(keys: Seq<bool>, k: int)
    requires
        keys.len() == 16,
        0 <= k <= 16,
        forall|i: int| k <= i < 16 ==> !keys[i],
    ensures
        first_pressed_from(keys, k) is None,
    decreases 16 - k,
{
    if k < 16 {
        lemma_first_pressed_none(keys, k + 1);
    }
}

/// With key `k` down and every lower key up, `first_pressed_from` finds `k`.
proof fn lemma_first_pressed_finds(keys: Seq<bool>, j: int, k: int)
    requires
        keys.len() == 16,
        0 <= j <= k < 16,
        keys[k],
        forall|i: int| j <= i < k ==> !keys[i],
    ensures
        first_pressed_from(keys, j) == Some(k),
    decreases k - j,
{
    if j < k {
        lemma_first_pressed_finds(keys, j + 1, k);
    }
}

/// A wait-for-key instruction with no key pressed leaves the program
/// counter, the registers and the memory unchanged: the same instruction is
/// fetched again on every following cycle until a key appears.
pub proof fn lemma_wait_key_blocks(s: VmState, keys: Seq<bool>, rnd: u8, x: u8)
    requires
        s.wf(),
        keys.len() == 16,
        decode(fetch(s)) == Some(Instr::WaitKey(x)),
        forall|k: int| 0 <= k < 16 ==> !keys[k],
    ensures
        spec_cycle(s, keys, rnd) is Ok,
        spec_cycle(s, keys, rnd)->Ok_0.0.pc == s.pc,
        spec_cycle(s, keys, rnd)->Ok_0.0.v == s.v,
        spec_cycle(s, keys, rnd)->Ok_0.0.mem == s.mem,
{
    lemma_first_pressed_none(keys, 0);
}

/// The first cycle whose snapshot presses a key releases the wait: the
/// program counter advances and the target register receives the lowest
/// pressed key index.
pub proof fn lemma_wait_key_advances(s: VmState, keys: Seq<bool>, rnd: u8, x: u8, k: int)
    requires
        s.wf(),
        keys.len() == 16,
        x < 16,
        decode(fetch(s)) == Some(Instr::WaitKey(x)),
        0 <= k < 16,
        keys[k],
        forall|i: int| 0 <= i < k ==> !keys[i],
        s.pc + 3 < 4096,
    ensures
        spec_cycle(s, keys, rnd) is Ok,
        spec_cycle(s, keys, rnd)->Ok_0.0.pc == s.pc + 2,
        spec_cycle(s, keys, rnd)->Ok_0.0.v[x as int] == k as u8,
{
    lemma_first_pressed_finds(keys, 0, k);
}

} // verus!
