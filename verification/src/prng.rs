//! Building a generator from a seed.

use crate::seed::{is_clock_capture, seed_bytes, Seed, SeedError};
use crate::sources::reading_at;
use rand::rngs::SmallRng;
use rand::SeedableRng;
use std::time::SystemTime;
use vstd::prelude::*;

verus! {

/// `rand::rngs::SmallRng`, the generator. Nothing is known of what a value
/// holds; it is built here and handed to the caller.
#[verifier::external_type_specification]
#[verifier::external_body]
pub struct ExSmallRng(rand::rngs::SmallRng);

/// The generator that `rand` builds from the sixteen bytes of a seed.
pub uninterp spec fn seeded_generator(seed: Seq<u8>) -> SmallRng;

/// Calls `rand::rngs::SmallRng::from_seed`. The claim is that the generator
/// depends on the bytes of the seed and on nothing else. In the version of
/// `rand` that this crate is built with, the generator is Xorshift on every
/// platform, and its state is the seed read as four little-endian words,
/// or a fixed state where all of them are zero.
#[verifier::external_body]
fn seed_small_rng(seed: [u8; 16]) -> (generator: SmallRng)
    ensures
        generator == seeded_generator(seed@),
{
    SmallRng::from_seed(seed)
}

/// What a seed is captured from.
#[derive(Clone, Copy, Debug, PartialEq, Eq, Structural)]
pub enum SeedType {
    /// The wall clock, in nanoseconds since the Unix epoch.
    Nanos,
    /// The address of a local.
    AllocAddr,
}

/// The generator that a reading leads to.
pub open spec fn generator_of(reading: u128) -> SmallRng {
    seeded_generator(seed_bytes(reading))
}

/// Whether a capture of this kind can give this reading: an address is
/// not 0 and no wider than `usize`, and of the clock nothing is known.
pub open spec fn may_read(seed_type: SeedType, reading: u128) -> bool {
    seed_type == SeedType::AllocAddr ==> 0 < reading <= usize::MAX
}

/// Whether `made` is what a clock with this reading leads to: the generator
/// of the nanoseconds it read, or the error where it read nothing.
pub open spec fn is_clock_made(made: Result<Box<SmallRng>, SeedError>, reading: Option<u128>) -> bool {
    match reading {
        Some(nanos) => made matches Ok(generator) && *generator == generator_of(nanos),
        None => made matches Err(e) && e == SeedError::ClockUnavailable,
    }
}

/// The factory. It keeps nothing: every generator it hands out is the
/// caller's own.
pub struct Prng {}

impl Prng {
    /// A generator seeded from the wall clock, as [`Prng::with`] makes it
    /// for [`SeedType::Nanos`]: the clock is read once, and what comes back
    /// is the generator of the reading of that moment, or the error where
    /// that moment lies before the Unix epoch.
    pub fn new() -> (made: Result<Box<SmallRng>, SeedError>)
        ensures
            exists|moment: SystemTime| is_clock_made(made, #[trigger] reading_at(moment)),
            made matches Ok(generator) ==> exists|reading: u128|
                may_read(SeedType::Nanos, reading) && *generator == #[trigger] generator_of(reading),
            made matches Err(e) ==> e == SeedError::ClockUnavailable,
    {
        Self::with(SeedType::Nanos)
    }

    /// A generator seeded from a fresh capture of the given kind. A capture
    /// from an address always succeeds; one from the clock gives the
    /// generator of the reading of one moment, and fails where that moment
    /// lies before the Unix epoch.
    pub fn with(seed_type: SeedType) -> (made: Result<Box<SmallRng>, SeedError>)
        ensures
            seed_type == SeedType::Nanos ==> exists|moment: SystemTime|
                is_clock_made(made, #[trigger] reading_at(moment)),
            made matches Ok(generator) ==> exists|reading: u128|
                may_read(seed_type, reading) && *generator == #[trigger] generator_of(reading),
            made matches Err(e) ==> seed_type == SeedType::Nanos && e
                == SeedError::ClockUnavailable,
    {
        match seed_type {
            SeedType::Nanos => {
                let captured = Seed::with_nanos();
                match captured {
                    Ok(seed) => {
                        let generator = Self::from_seed(seed);
                        proof {
                            let nanos = choose|nanos: u128| seed@ == #[trigger] seed_bytes(nanos);
                            assert(*generator == generator_of(nanos));
                            let moment = choose|moment: SystemTime|
                                is_clock_capture(captured, #[trigger] reading_at(moment));
                            assert(is_clock_made(Ok(generator), reading_at(moment)));
                        }
                        Ok(generator)
                    },
                    Err(e) => {
                        proof {
                            let moment = choose|moment: SystemTime|
                                is_clock_capture(captured, #[trigger] reading_at(moment));
                            assert(is_clock_made(Err(e), reading_at(moment)));
                        }
                        Err(e)
                    },
                }
            },
            SeedType::AllocAddr => {
                let seed = Seed::with_alloc_addr();
                let generator = Self::from_seed(seed);
                proof {
                    let address = choose|reading: u128|
                        0 < reading <= usize::MAX && seed@ == #[trigger] seed_bytes(reading);
                    assert(*generator == generator_of(address));
                }
                Ok(generator)
            },
        }
    }

    /// The generator of a given seed. Nothing but the seed goes into it.
    pub fn from_seed(seed: [u8; 16]) -> (generator: Box<SmallRng>)
        ensures
            *generator == seeded_generator(seed@),
    {
        Box::new(seed_small_rng(seed))
    }
}

/// Seeds with the same bytes give the same generator: nothing but the seed
/// goes into it, so whatever is drawn from the one is drawn from the other.
pub proof fn lemma_same_seed_same_generator(a: [u8; 16], b: [u8; 16])
    requires
        a@ == b@,
    ensures
        seeded_generator(a@) == seeded_generator(b@),
{
}

} // verus!
