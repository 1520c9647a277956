//! Seeds for a small, fast, non-cryptographic pseudo-random generator.
//!
//! A 128-bit reading (the wall clock in nanoseconds, or the address of a
//! local) is split into its sixteen big-endian bytes, the bytes are spread
//! over the seed by a fixed permutation, and the seed is handed to the
//! generator. Nothing here is fit for use where unpredictability matters.

pub mod bytes;
pub mod permutation;
pub mod prng;
pub mod seed;
pub mod sources;

pub use prng::{Prng, SeedType};
pub use seed::{Seed, SeedError};
