//! Seeds derived from the root seed and the frame number.

use vstd::prelude::*;
use crate::hashing::{avalanche, lemma_avalanche_injective, spec_avalanche, GOLDEN_GAMMA};

verus! {

/// A frame number as the 64-bit word with the same two's-complement bits.
pub open spec fn frame_word(frame: i64) -> u64 {
    frame as u64
}

/// The frame number spread over the word: its bits times `GOLDEN_GAMMA`,
/// wrapping at 64 bits.
pub open spec fn frame_offset(frame: i64) -> u64 {
    frame_word(frame).wrapping_mul(GOLDEN_GAMMA)
}

/// The seed of the stream that belongs to `frame` under the root `seed`.
pub open spec fn spec_mix_seed(seed: u64, frame: i64) -> u64 {
    spec_avalanche(seed ^ frame_offset(frame))
}

/// The seed of the warp noise of `frame` under the root `seed`: the root is
/// first moved by `GOLDEN_GAMMA`, then mixed with the frame.
pub open spec fn spec_warp_seed(seed: u64, frame: i64) -> u64 {
    spec_mix_seed(seed ^ GOLDEN_GAMMA, frame)
}

/// Mixes a root seed with a frame number into the seed of that frame's
/// stream of draws.
pub fn mix_seed(seed: u64, frame: i64) -> (out: u64)
    ensures
        out == spec_mix_seed(seed, frame),
{
    avalanche(seed ^ (frame as u64).wrapping_mul(GOLDEN_GAMMA))
}

/// The seed under which the warp noise of `frame` is evaluated.
pub fn warp_seed(seed: u64, frame: i64) -> (out: u64)
    ensures
        out == spec_warp_seed(seed, frame),
{
    mix_seed(seed ^ GOLDEN_GAMMA, frame)
}

/// Under one frame, different root seeds give different stream seeds.
pub proof fn lemma_mix_seed_separates_seeds(seed_a: u64, seed_b: u64, frame: i64)
    requires
        seed_a != seed_b,
    ensures
        spec_mix_seed(seed_a, frame) != spec_mix_seed(seed_b, frame),
{
    let offset: u64 = frame_offset(frame);
    if spec_mix_seed(seed_a, frame) == spec_mix_seed(seed_b, frame) {
        lemma_avalanche_injective(seed_a ^ offset, seed_b ^ offset);
        assert(seed_a == seed_b) by (bit_vector)
            requires
                seed_a ^ offset == seed_b ^ offset,
        ;
    }
}

/// Different frames are spread to different offsets.
pub proof fn lemma_frame_offset_injective(frame_a: i64, frame_b: i64)
    requires
        frame_offset(frame_a) == frame_offset(frame_b),
    ensures
        frame_a == frame_b,
{
    assert(frame_a == frame_b) by (bit_vector)
        requires
            (frame_a as u64).wrapping_mul(GOLDEN_GAMMA) == (frame_b as u64).wrapping_mul(
                GOLDEN_GAMMA,
            ),
    ;
}

/// Under one root seed, different frames give different stream seeds: no
/// two frames share a stream.
pub proof fn lemma_mix_seed_separates_frames(seed: u64, frame_a: i64, frame_b: i64)
    requires
        frame_a != frame_b,
    ensures
        spec_mix_seed(seed, frame_a) != spec_mix_seed(seed, frame_b),
{
    let offset_a: u64 = frame_offset(frame_a);
    let offset_b: u64 = frame_offset(frame_b);
    if spec_mix_seed(seed, frame_a) == spec_mix_seed(seed, frame_b) {
        lemma_avalanche_injective(seed ^ offset_a, seed ^ offset_b);
        assert(offset_a == offset_b) by (bit_vector)
            requires
                seed ^ offset_a == seed ^ offset_b,
        ;
        lemma_frame_offset_injective(frame_a, frame_b);
    }
}

/// The warp noise of a frame never runs under the seed of that frame's
/// stream of draws.
pub proof fn lemma_warp_seed_apart(seed: u64, frame: i64)
    ensures
        spec_warp_seed(seed, frame) != spec_mix_seed(seed, frame),
{
    assert(seed ^ GOLDEN_GAMMA != seed) by (bit_vector);
    lemma_mix_seed_separates_seeds(seed ^ GOLDEN_GAMMA, seed, frame);
}

} // verus!
