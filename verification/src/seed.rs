//! Capturing a seed from the wall clock or from an address.

use crate::bytes::{be_bytes, lemma_be_bytes_injective, split_be};
use crate::permutation::{lemma_permuted_injective, permute, permuted, spread};
use crate::sources::{clock_reading, reading_at, stack_address};
use std::time::SystemTime;
use vstd::prelude::*;

verus! {

/// Why no seed could be captured.
#[derive(Clone, Copy, Debug, PartialEq, Eq, Structural)]
pub enum SeedError {
    /// The wall clock stands before the Unix epoch.
    ClockUnavailable,
}

/// The seed that a 128-bit reading gives: its bytes, most significant
/// first, laid into seed order.
pub open spec fn seed_bytes(reading: u128) -> Seq<u8> {
    permuted(be_bytes(reading))
}

/// Whether `captured` is what a clock with this reading gives: the seed of
/// the nanoseconds it read, or the error where it read nothing.
pub open spec fn is_clock_capture(captured: Result<[u8; 16], SeedError>, reading: Option<u128>) -> bool {
    match reading {
        Some(nanos) => captured matches Ok(seed) && seed@ == seed_bytes(nanos),
        None => captured matches Err(e) && e == SeedError::ClockUnavailable,
    }
}

/// The captures. A seed is sixteen bytes, whatever it was captured from.
pub struct Seed {}

impl Seed {
    /// The seed of a reading.
    pub fn transmute(x: u128) -> (seed: [u8; 16])
        ensures
            seed@ == seed_bytes(x),
            seed@.len() == 16,
    {
        permute(split_be(x))
    }

    /// The seed of what the clock gave: `reading` is the count of
    /// nanoseconds since the Unix epoch, or `None` where the clock could
    /// not give one. A missing reading is an error; nothing stands in for
    /// it.
    pub fn from_clock(reading: Option<u128>) -> (captured: Result<[u8; 16], SeedError>)
        ensures
            reading matches Some(nanos) ==> (captured matches Ok(seed) && seed@.len() == 16
                && seed@ == seed_bytes(nanos)),
            reading is None ==> (captured matches Err(e) && e == SeedError::ClockUnavailable),
    {
        match reading {
            Some(nanos) => Ok(Self::transmute(nanos)),
            None => Err(SeedError::ClockUnavailable),
        }
    }

    /// Captures a seed from the wall clock: the nanoseconds since the Unix
    /// epoch, as [`Seed::from_clock`] turns them into a seed. The clock is
    /// read once, at a moment that only the call decides; the capture is
    /// the one that the reading of that moment gives, and fails just where
    /// that moment lies before the epoch. Calls that follow each other
    /// closely may read the same count where the clock is coarse.
    pub fn with_nanos() -> (captured: Result<[u8; 16], SeedError>)
        ensures
            exists|moment: SystemTime| is_clock_capture(captured, #[trigger] reading_at(moment)),
            captured matches Ok(seed) ==> seed@.len() == 16 && exists|nanos: u128|
                seed@ == #[trigger] seed_bytes(nanos),
            captured matches Err(e) ==> e == SeedError::ClockUnavailable,
    {
        let reading = clock_reading();
        let captured = Self::from_clock(reading);
        proof {
            let moment = choose|moment: SystemTime| reading == #[trigger] reading_at(moment);
            assert(is_clock_capture(captured, reading_at(moment)));
        }
        captured
    }

    /// Captures a seed from the address of a local. An address is no wider
    /// than `usize`, so the high bytes of the reading are zero; and it is
    /// never 0, so the seed is never the one whose bytes are all zero.
    ///
    /// Only the first capture of a process is worth anything: a later one
    /// tends to find its local where the earlier one did, and may well
    /// give the same seed.
    pub fn with_alloc_addr() -> (seed: [u8; 16])
        ensures
            seed@.len() == 16,
            exists|reading: u128|
                0 < reading <= usize::MAX && seed@ == #[trigger] seed_bytes(reading),
            seed@ != seed_bytes(0),
    {
        let address: usize = stack_address();
        let seed = Self::transmute(address as u128);
        proof {
            if seed@ == seed_bytes(0) {
                lemma_seed_bytes_injective(address as u128, 0);
            }
        }
        seed
    }
}

/// Every seed has sixteen bytes.
pub proof fn lemma_seed_bytes_len(reading: u128)
    ensures
        seed_bytes(reading).len() == 16,
{
}

/// Readings that differ give seeds that differ: two captures from a clock
/// that has moved on between them never collide.
pub proof fn lemma_seed_bytes_injective(a: u128, b: u128)
    requires
        seed_bytes(a) == seed_bytes(b),
    ensures
        a == b,
{
    lemma_permuted_injective(be_bytes(a), be_bytes(b));
    lemma_be_bytes_injective(a, b);
}

/// The reading 0, and no other, gives the seed whose bytes are all zero.
pub proof fn lemma_zero_seed(reading: u128)
    ensures
        seed_bytes(reading) == Seq::new(16, |i: int| 0u8) <==> reading == 0,
{
    assert forall|i: int| 0 <= i < 16 implies #[trigger] seed_bytes(0)[i] == 0 by {
        let shift: u128 = (120 - 8 * spread()[i]) as u128;
        assert(((0u128 >> shift) & 0xff) as u8 == 0) by (bit_vector);
    }
    assert(seed_bytes(0) =~= Seq::new(16, |i: int| 0u8));
    if seed_bytes(reading) == seed_bytes(0) {
        lemma_seed_bytes_injective(reading, 0);
    }
}

} // verus!
