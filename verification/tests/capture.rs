use seeded_prng::bytes::split_be;
use seeded_prng::permutation::{permute, unpermute};
use seeded_prng::{Seed, SeedError};
use std::time::{SystemTime, UNIX_EPOCH};

fn reading_of(seed: [u8; 16]) -> u128 {
    let mut reading: u128 = 0;
    for byte in unpermute(seed) {
        reading = (reading << 8) | byte as u128;
    }
    reading
}

fn nanos_now() -> u128 {
    SystemTime::now().duration_since(UNIX_EPOCH).unwrap().as_nanos()
}

#[test]
fn split_is_big_endian() {
    assert_eq!(
        split_be(0x0102030405060708090a0b0c0d0e0f10),
        [1, 2, 3, 4, 5, 6, 7, 8, 9, 10, 11, 12, 13, 14, 15, 16]
    );
    assert_eq!(split_be(0), [0; 16]);
    assert_eq!(split_be(1), [0, 0, 0, 0, 0, 0, 0, 0, 0, 0, 0, 0, 0, 0, 0, 1]);
    assert_eq!(split_be(1 << 120), [1, 0, 0, 0, 0, 0, 0, 0, 0, 0, 0, 0, 0, 0, 0, 0]);
    assert_eq!(split_be(u128::MAX), [255; 16]);
    assert_eq!(
        split_be(1_700_000_000_123_456_789),
        [0, 0, 0, 0, 0, 0, 0, 0, 23, 151, 156, 254, 61, 133, 205, 21]
    );
}

#[test]
fn split_agrees_with_std() {
    for reading in [0u128, 1, 255, 256, 0xdead_beef, u64::MAX as u128, u128::MAX - 1] {
        assert_eq!(split_be(reading), reading.to_be_bytes());
    }
}

#[test]
fn permutation_is_pinned() {
    assert_eq!(
        permute([0, 1, 2, 3, 4, 5, 6, 7, 8, 9, 10, 11, 12, 13, 14, 15]),
        [15, 0, 13, 2, 11, 4, 9, 6, 7, 8, 5, 10, 3, 12, 1, 14]
    );
    assert_eq!(
        unpermute([0, 1, 2, 3, 4, 5, 6, 7, 8, 9, 10, 11, 12, 13, 14, 15]),
        [1, 14, 3, 12, 5, 10, 7, 8, 9, 6, 11, 4, 13, 2, 15, 0]
    );
}

#[test]
fn permutation_holds_each_place_once() {
    let spread = permute([0, 1, 2, 3, 4, 5, 6, 7, 8, 9, 10, 11, 12, 13, 14, 15]);
    for place in 0..16u8 {
        assert_eq!(spread.iter().filter(|taken| **taken == place).count(), 1);
    }
}

#[test]
fn permutation_round_trips() {
    let bytes = [3, 1, 4, 1, 5, 9, 2, 6, 5, 3, 5, 8, 9, 7, 9, 3];
    assert_eq!(unpermute(permute(bytes)), bytes);
    assert_eq!(permute(unpermute(bytes)), bytes);
    assert_ne!(permute(bytes), bytes);
}

#[test]
fn low_bytes_stand_apart() {
    let spread = permute([0, 0, 0, 0, 0, 0, 0, 0, 1, 1, 1, 1, 1, 1, 1, 1]);
    assert_eq!(spread, [1, 0, 1, 0, 1, 0, 1, 0, 0, 1, 0, 1, 0, 1, 0, 1]);
}

#[test]
fn transmute_is_pinned() {
    assert_eq!(
        Seed::transmute(0x0102030405060708090a0b0c0d0e0f10),
        [16, 1, 14, 3, 12, 5, 10, 7, 8, 9, 6, 11, 4, 13, 2, 15]
    );
    assert_eq!(Seed::transmute(0), [0; 16]);
    assert_eq!(Seed::transmute(1), [1, 0, 0, 0, 0, 0, 0, 0, 0, 0, 0, 0, 0, 0, 0, 0]);
    assert_eq!(Seed::transmute(u128::MAX), [255; 16]);
    assert_eq!(
        Seed::transmute(1_700_000_000_123_456_789),
        [21, 0, 133, 0, 254, 0, 151, 0, 0, 23, 0, 156, 0, 61, 0, 205]
    );
}

#[test]
fn transmute_keeps_every_byte() {
    let reading: u128 = 0x00ff_0000_0000_0000_0000_0000_0000_0000;
    assert_eq!(Seed::transmute(reading), [0, 0, 0, 0, 0, 0, 0, 0, 0, 0, 0, 0, 0, 0, 255, 0]);
    for reading in [0u128, 1, 0xabcdef, u64::MAX as u128 + 1, u128::MAX] {
        assert_eq!(reading_of(Seed::transmute(reading)), reading);
    }
}

#[test]
fn readings_that_differ_give_seeds_that_differ() {
    let base: u128 = 1_700_000_000_000_000_000;
    for step in 1..1000u128 {
        assert_ne!(Seed::transmute(base), Seed::transmute(base + step));
    }
    assert_ne!(Seed::transmute(1), Seed::transmute(1 << 8));
    assert_ne!(Seed::transmute(1), Seed::transmute(1 << 120));
}

#[test]
fn a_clock_reading_gives_its_seed() {
    assert_eq!(
        Seed::from_clock(Some(1_700_000_000_123_456_789)),
        Ok([21, 0, 133, 0, 254, 0, 151, 0, 0, 23, 0, 156, 0, 61, 0, 205])
    );
    assert_eq!(Seed::from_clock(Some(0)), Ok([0; 16]));
}

#[test]
fn a_missing_clock_reading_is_an_error() {
    assert_eq!(Seed::from_clock(None), Err(SeedError::ClockUnavailable));
}

#[test]
fn every_capture_has_sixteen_bytes() {
    assert_eq!(Seed::with_nanos().unwrap().len(), 16);
    assert_eq!(Seed::with_alloc_addr().len(), 16);
    assert_eq!(Seed::transmute(42).len(), 16);
}

#[test]
fn the_clock_capture_holds_the_time() {
    let before = nanos_now();
    let seed = Seed::with_nanos().unwrap();
    let after = nanos_now();
    let reading = reading_of(seed);
    assert!(before <= reading && reading <= after);
    assert_eq!(Seed::transmute(reading), seed);
}

#[test]
fn clock_captures_apart_in_time_differ() {
    let mut seeds: Vec<[u8; 16]> = Vec::new();
    for _ in 0..200 {
        let taken = nanos_now();
        while nanos_now() == taken {}
        seeds.push(Seed::with_nanos().unwrap());
    }
    let mut collisions = 0;
    for i in 0..seeds.len() {
        for j in 0..i {
            if seeds[i] == seeds[j] {
                collisions += 1;
            }
        }
    }
    assert!(collisions <= 2);
}

#[test]
fn the_address_capture_holds_an_address() {
    let reading = reading_of(Seed::with_alloc_addr());
    assert!(reading != 0);
    assert!(reading <= usize::MAX as u128);
}

#[test]
fn an_address_capture_is_never_all_zero() {
    for _ in 0..100 {
        assert_ne!(Seed::with_alloc_addr(), [0u8; 16]);
    }
    assert_eq!(Seed::transmute(0), [0u8; 16]);
}

#[test]
fn address_captures_may_repeat() {
    let first = Seed::with_alloc_addr();
    let second = Seed::with_alloc_addr();
    assert_eq!(first.len(), second.len());
    assert_eq!(Seed::transmute(reading_of(first)), first);
    assert_eq!(Seed::transmute(reading_of(second)), second);
}
