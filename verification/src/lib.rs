//! Verified integer core of a deterministic dot sampler.

pub mod batch;
pub mod hashing;
pub mod lattice;
pub mod seeds;

pub use seeds::mix_seed;
