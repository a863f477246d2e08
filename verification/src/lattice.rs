//! Hashes of the integer lattice on which the value noise is built.

use vstd::prelude::*;
use crate::hashing::{avalanche, lemma_avalanche_injective, spec_avalanche, GOLDEN_GAMMA};

verus! {

/// A lattice coordinate as the 64-bit word with the same two's-complement
/// value: the sign fills the upper half.
pub open spec fn cell_word(i: i32) -> u64 {
    i as u64
}

/// The two coordinates of a lattice point folded into one word: the bits
/// of `x` in the upper half, over `y` times `GOLDEN_GAMMA`, wrapping at 64
/// bits.
pub open spec fn cell_key(x: i32, y: i32) -> u64 {
    (cell_word(x) << 32) ^ cell_word(y).wrapping_mul(GOLDEN_GAMMA)
}

/// The 64-bit hash of the lattice point `(x, y)` under `seed`.
pub open spec fn spec_hash_word(x: i32, y: i32, seed: u64) -> u64 {
    spec_avalanche(seed ^ cell_key(x, y))
}

/// Bits 8 to 39 of the lattice point's hash, as a 32-bit number.
pub open spec fn spec_hash_bits(x: i32, y: i32, seed: u64) -> u32 {
    ((spec_hash_word(x, y, seed) >> 8) & 0xFFFF_FFFF) as u32
}

/// The coordinate one step up, where the step from the largest coordinate
/// leads to the smallest.
pub open spec fn next_cell(i: i32) -> i32 {
    if i == i32::MAX {
        i32::MIN
    } else {
        (i + 1) as i32
    }
}

/// The hash numbers at the four corners of one lattice cell. `v10` lies
/// one step along x from `v00`, `v01` one step along y, `v11` both.
#[derive(Clone, Copy, Debug, PartialEq, Eq)]
pub struct Corners {
    pub v00: u32,
    pub v10: u32,
    pub v01: u32,
    pub v11: u32,
}

/// What `lattice_corners` returns for the cell whose lower corner is
/// `(xi, yi)`.
pub open spec fn spec_lattice_corners(xi: i32, yi: i32, seed: u64) -> Corners {
    Corners {
        v00: spec_hash_bits(xi, yi, seed),
        v10: spec_hash_bits(next_cell(xi), yi, seed),
        v01: spec_hash_bits(xi, next_cell(yi), seed),
        v11: spec_hash_bits(next_cell(xi), next_cell(yi), seed),
    }
}

/// Hashes the lattice point `(x, y)` under `seed` to a 64-bit word.
pub fn hash_word(x: i32, y: i32, seed: u64) -> (out: u64)
    ensures
        out == spec_hash_word(x, y, seed),
{
    let high: u64 = (x as u64) << 32;
    let low: u64 = (y as u64).wrapping_mul(GOLDEN_GAMMA);
    assert(seed ^ high ^ low == seed ^ (high ^ low)) by (bit_vector);
    avalanche(seed ^ high ^ low)
}

/// Hashes the lattice point `(x, y)` under `seed` to the 32-bit number
/// whose quotient by the largest 32-bit number is the point's noise value.
pub fn hash_bits(x: i32, y: i32, seed: u64) -> (out: u32)
    ensures
        out == spec_hash_bits(x, y, seed),
{
    let word: u64 = hash_word(x, y, seed);
    let kept: u64 = (word >> 8) & 0xFFFF_FFFF;
    assert(kept <= 0xFFFF_FFFF) by (bit_vector)
        requires
            kept == (word >> 8) & 0xFFFF_FFFF,
    ;
    kept as u32
}

/// Hashes the four corners of the lattice cell whose lower corner is
/// `(xi, yi)`.
pub fn lattice_corners(xi: i32, yi: i32, seed: u64) -> (out: Corners)
    ensures
        out == spec_lattice_corners(xi, yi, seed),
{
    let xj: i32 = xi.wrapping_add(1);
    let yj: i32 = yi.wrapping_add(1);
    Corners {
        v00: hash_bits(xi, yi, seed),
        v10: hash_bits(xj, yi, seed),
        v01: hash_bits(xi, yj, seed),
        v11: hash_bits(xj, yj, seed),
    }
}

/// Different lattice points fold into different words.
pub proof fn lemma_cell_key_injective(xa: i32, ya: i32, xb: i32, yb: i32)
    requires
        cell_key(xa, ya) == cell_key(xb, yb),
    ensures
        xa == xb,
        ya == yb,
{
    assert(xa == xb && ya == yb) by (bit_vector)
        requires
            ((xa as u64) << 32) ^ (ya as u64).wrapping_mul(GOLDEN_GAMMA) == ((xb as u64) << 32) ^ (
            yb as u64).wrapping_mul(GOLDEN_GAMMA),
    ;
}

/// Under one seed, different lattice points have different 64-bit hashes.
pub proof fn lemma_hash_word_separates_cells(xa: i32, ya: i32, xb: i32, yb: i32, seed: u64)
    requires
        xa != xb || ya != yb,
    ensures
        spec_hash_word(xa, ya, seed) != spec_hash_word(xb, yb, seed),
{
    let key_a: u64 = cell_key(xa, ya);
    let key_b: u64 = cell_key(xb, yb);
    if spec_hash_word(xa, ya, seed) == spec_hash_word(xb, yb, seed) {
        lemma_avalanche_injective(seed ^ key_a, seed ^ key_b);
        assert(key_a == key_b) by (bit_vector)
            requires
                seed ^ key_a == seed ^ key_b,
        ;
        lemma_cell_key_injective(xa, ya, xb, yb);
    }
}

/// At one lattice point, different seeds give different 64-bit hashes.
pub proof fn lemma_hash_word_separates_seeds(x: i32, y: i32, seed_a: u64, seed_b: u64)
    requires
        seed_a != seed_b,
    ensures
        spec_hash_word(x, y, seed_a) != spec_hash_word(x, y, seed_b),
{
    let key: u64 = cell_key(x, y);
    if spec_hash_word(x, y, seed_a) == spec_hash_word(x, y, seed_b) {
        lemma_avalanche_injective(seed_a ^ key, seed_b ^ key);
        assert(seed_a == seed_b) by (bit_vector)
            requires
                seed_a ^ key == seed_b ^ key,
        ;
    }
}

} // verus!
