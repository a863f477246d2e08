//! The avalanche finalizer: a fixed permutation of the 64-bit words that
//! every seed and every lattice hash of this crate passes through.

use vstd::prelude::*;

verus! {

/// The odd 64-bit constant by which indices are spread before mixing.
pub const GOLDEN_GAMMA: u64 = 0x9E37_79B9_7F4A_7C15;

/// Multiplier of the first avalanche round.
pub const ROUND_ONE: u64 = 0xBF58_476D_1CE4_E5B9;

/// Multiplier of the second avalanche round.
pub const ROUND_TWO: u64 = 0x94D0_49BB_1331_11EB;

/// Inverse of `ROUND_ONE` modulo 2^64.
pub const ROUND_ONE_INVERSE: u64 = 0x96DE_1B17_3F11_9089;

/// Inverse of `ROUND_TWO` modulo 2^64.
pub const ROUND_TWO_INVERSE: u64 = 0x3196_42B2_D24D_8EC3;

/// `z` with its upper bits folded onto the lower ones, `k` places down.
pub open spec fn fold_down(z: u64, k: u64) -> u64 {
    z ^ (z >> k)
}

/// Undoes `fold_down` for a distance `k` of at least 22 places, where the
/// third shifted copy has already left the word.
pub open spec fn unfold_down(w: u64, k: u64) -> u64 {
    w ^ (w >> k) ^ (w >> (2 * k) as u64)
}

/// The avalanche finalizer: fold by 30, multiply, fold by 27, multiply,
/// fold by 31. Multiplications wrap at 64 bits.
pub open spec fn spec_avalanche(z: u64) -> u64 {
    let a: u64 = fold_down(z, 30).wrapping_mul(ROUND_ONE);
    let b: u64 = fold_down(a, 27).wrapping_mul(ROUND_TWO);
    fold_down(b, 31)
}

/// The finalizer run backwards, round by round.
pub open spec fn spec_avalanche_inverse(w: u64) -> u64 {
    let b: u64 = unfold_down(w, 31).wrapping_mul(ROUND_TWO_INVERSE);
    let a: u64 = unfold_down(b, 27).wrapping_mul(ROUND_ONE_INVERSE);
    unfold_down(a, 30)
}

/// Runs the avalanche finalizer on one word.
pub fn avalanche(z: u64) -> (out: u64)
    ensures
        out == spec_avalanche(z),
{
    let mut w: u64 = z;
    w = w ^ (w >> 30);
    w = w.wrapping_mul(ROUND_ONE);
    w = w ^ (w >> 27);
    w = w.wrapping_mul(ROUND_TWO);
    w ^ (w >> 31)
}

/// Folding down and unfolding cancel, in either order, for any distance
/// from 22 to 63 places.
pub proof fn lemma_fold_cancels(z: u64, k: u64)
    requires
        22 <= k < 64,
    ensures
        unfold_down(fold_down(z, k), k) == z,
        fold_down(unfold_down(z, k), k) == z,
{
    assert(unfold_down(fold_down(z, k), k) == z && fold_down(unfold_down(z, k), k) == z)
        by (bit_vector)
        requires
            22 <= k < 64,
    ;
}

/// Multiplying by a round's constant and by its inverse cancel, in either
/// order.
pub proof fn lemma_multipliers_cancel(z: u64)
    ensures
        z.wrapping_mul(ROUND_ONE).wrapping_mul(ROUND_ONE_INVERSE) == z,
        z.wrapping_mul(ROUND_ONE_INVERSE).wrapping_mul(ROUND_ONE) == z,
        z.wrapping_mul(ROUND_TWO).wrapping_mul(ROUND_TWO_INVERSE) == z,
        z.wrapping_mul(ROUND_TWO_INVERSE).wrapping_mul(ROUND_TWO) == z,
{
    assert(z.wrapping_mul(ROUND_ONE).wrapping_mul(ROUND_ONE_INVERSE) == z && z.wrapping_mul(
        ROUND_ONE_INVERSE,
    ).wrapping_mul(ROUND_ONE) == z) by (bit_vector);
    assert(z.wrapping_mul(ROUND_TWO).wrapping_mul(ROUND_TWO_INVERSE) == z && z.wrapping_mul(
        ROUND_TWO_INVERSE,
    ).wrapping_mul(ROUND_TWO) == z) by (bit_vector);
}

/// Running the finalizer and then its inverse gives the word back.
pub proof fn lemma_avalanche_undone(z: u64)
    ensures
        spec_avalanche_inverse(spec_avalanche(z)) == z,
{
    let f: u64 = fold_down(z, 30);
    let a: u64 = f.wrapping_mul(ROUND_ONE);
    let g: u64 = fold_down(a, 27);
    let b: u64 = g.wrapping_mul(ROUND_TWO);
    lemma_fold_cancels(b, 31);
    lemma_multipliers_cancel(g);
    lemma_fold_cancels(a, 27);
    lemma_multipliers_cancel(f);
    lemma_fold_cancels(z, 30);
}

/// Every word is the finalizer's output for some word: the one its inverse
/// names.
pub proof fn lemma_avalanche_reaches(w: u64)
    ensures
        spec_avalanche(spec_avalanche_inverse(w)) == w,
{
    let h: u64 = unfold_down(w, 31);
    let b: u64 = h.wrapping_mul(ROUND_TWO_INVERSE);
    let g: u64 = unfold_down(b, 27);
    let a: u64 = g.wrapping_mul(ROUND_ONE_INVERSE);
    lemma_fold_cancels(a, 30);
    lemma_multipliers_cancel(g);
    lemma_fold_cancels(b, 27);
    lemma_multipliers_cancel(h);
    lemma_fold_cancels(w, 31);
}

/// The finalizer sends different words to different words.
pub proof fn lemma_avalanche_injective(a: u64, b: u64)
    requires
        spec_avalanche(a) == spec_avalanche(b),
    ensures
        a == b,
{
    lemma_avalanche_undone(a);
    lemma_avalanche_undone(b);
}

} // verus!
