//! Small arithmetic and bit-level facts used by the sprite-draw proofs:
//! XOR on one-bit cells, and how toroidal (wraparound) window offsets relate
//! to absolute rows and columns.

use vstd::prelude::*;

use vstd::arithmetic::div_mod::{
    lemma_fundamental_div_mod, lemma_fundamental_div_mod_converse,
    lemma_mod_division_less_than_divisor, lemma_mod_multiples_vanish, lemma_small_mod,
};

use crate::model::sprite_bit;

verus! {

/// XOR with zero is the identity.
pub proof fn lemma_xor_zero(a: u8)
    ensures
        a ^ 0 == a,
{
    assert(a ^ 0 == a) by (bit_vector);
}

/// XOR with the same value twice restores the starting value.
pub proof fn lemma_xor_involution(a: u8, b: u8)
    ensures
        (a ^ b) ^ b == a,
{
    assert((a ^ b) ^ b == a) by (bit_vector);
}

/// XOR keeps one-bit cells one-bit.
pub proof fn lemma_xor_le_one(a: u8, b: u8)
    requires
        a <= 1,
        b <= 1,
    ensures
        a ^ b <= 1,
{
    assert(a <= 1 && b <= 1 ==> a ^ b <= 1) by (bit_vector);
}

/// An extracted sprite bit is 0 or 1.
pub proof fn lemma_sprite_bit_le_one(data: u8, j: int)
    requires
        0 <= j < 8,
    ensures
        sprite_bit(data, j) <= 1,
{
    let s = (7 - j) as u8;
    assert((data >> s) & 1 <= 1) by (bit_vector);
}

/// In a wraparound window of width `m` starting at `base`, offset `k` lands
/// on cell `(base + k) % m`, and taking the offset back out returns `k`.
pub proof fn lemma_mod_window(base: int, k: int, m: int)
    requires
        m > 0,
        0 <= k < m,
    ensures
        0 <= (base + k) % m < m,
        ((base + k) % m - base) % m == k,
{
    lemma_mod_division_less_than_divisor(base + k, m);
    let t = (base + k) % m;
    let q = (base + k) / m;
    lemma_fundamental_div_mod(base + k, m);
    assert(m * (-q) == -(m * q)) by (nonlinear_arith);
    assert(t - base == m * (-q) + k);
    lemma_mod_multiples_vanish(-q, k, m);
    lemma_small_mod(k as nat, m as nat);
}

/// Conversely, a cell `r` inside the window sits at offset `(r - base) % m`.
pub proof fn lemma_mod_window_inverse(base: int, r: int, m: int)
    requires
        m > 0,
        0 <= r < m,
    ensures
        0 <= (r - base) % m < m,
        r == (base + (r - base) % m) % m,
{
    lemma_mod_division_less_than_divisor(r - base, m);
    let k = (r - base) % m;
    let q = (r - base) / m;
    lemma_fundamental_div_mod(r - base, m);
    assert(m * (-q) == -(m * q)) by (nonlinear_arith);
    assert(base + k == m * (-q) + r);
    lemma_mod_multiples_vanish(-q, r, m);
    lemma_small_mod(r as nat, m as nat);
}

/// A framebuffer cell index composes from a row and a column, uniquely.
pub proof fn lemma_cell_compose(row: int, col: int)
    requires
        0 <= row < 32,
        0 <= col < 64,
    ensures
        (row * 64 + col) / 64 == row,
        (row * 64 + col) % 64 == col,
        0 <= row * 64 + col < 2048,
{
    lemma_fundamental_div_mod_converse(row * 64 + col, 64, row, col);
}

/// A framebuffer cell index decomposes into a row below 32 and a column
/// below 64.
pub proof fn lemma_cell_split(p: int)
    requires
        0 <= p < 2048,
    ensures
        p == (p / 64) * 64 + (p % 64),
        0 <= p / 64 < 32,
        0 <= p % 64 < 64,
{
    lemma_fundamental_div_mod(p, 64);
    lemma_mod_division_less_than_divisor(p, 64);
}

} // verus!
