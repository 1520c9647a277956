//! Where readings come from: the wall clock and the stack.
//!
//! Everything in this file but `clock_reading` is taken on trust: each is
//! one call into `std`. Of the moment that the clock gives nothing is
//! promised, and of the address only that it is not 0, since they depend on
//! the time and on the process. What is made of a moment once it is taken
//! depends on that moment alone, and has a name.

use std::time::{Duration, SystemTime, SystemTimeError, UNIX_EPOCH};
use vstd::prelude::*;

verus! {

/// `std::time::SystemTime`, a moment of the wall clock. Nothing is known
/// of what a value holds.
#[verifier::external_type_specification]
#[verifier::external_body]
pub struct ExSystemTime(std::time::SystemTime);

/// `std::time::SystemTimeError`, which says that one moment lies before
/// another. Nothing is known of what a value holds.
#[verifier::external_type_specification]
#[verifier::external_body]
pub struct ExSystemTimeError(std::time::SystemTimeError);

/// Calls `std::time::SystemTime::now`. Nothing is claimed of the moment
/// that comes back.
#[verifier::external_body]
fn wall_clock() -> (now: SystemTime) {
    SystemTime::now()
}

/// What `std::time::SystemTime::duration_since` returns for `moment` with
/// the Unix epoch as the earlier moment: the span between the two, or the
/// error where `moment` lies before the epoch.
pub uninterp spec fn span_since_epoch(moment: SystemTime) -> Result<Duration, SystemTimeError>;

/// What `std::time::Duration::as_nanos` returns for `span`: the whole count
/// of nanoseconds in it.
pub uninterp spec fn nanos_in(span: Duration) -> u128;

/// What a clock reads that stands at `moment`: the nanoseconds since the
/// Unix epoch, or nothing where the moment lies before it.
pub open spec fn reading_at(moment: SystemTime) -> Option<u128> {
    match span_since_epoch(moment) {
        Ok(span) => Some(nanos_in(span)),
        Err(_) => None,
    }
}

/// Calls `std::time::SystemTime::duration_since` with the Unix epoch as the
/// earlier moment. The claim is that the outcome depends on the moment
/// alone; which moments lie before the epoch is not said.
#[verifier::external_body]
fn since_unix_epoch(moment: &SystemTime) -> (span: Result<Duration, SystemTimeError>)
    ensures
        span == span_since_epoch(*moment),
{
    moment.duration_since(UNIX_EPOCH)
}

/// Calls `std::time::Duration::as_nanos`. The claim is that the count
/// depends on the span alone; how large it can be is not said.
#[verifier::external_body]
fn whole_nanos(span: &Duration) -> (nanos: u128)
    ensures
        nanos == nanos_in(*span),
{
    span.as_nanos()
}

/// Calls `std::ptr::from_ref` on a local of this function and gives the
/// pointer as a number. The claim is that the number is not 0, since a
/// reference is never null. Nothing else is claimed of it: it depends on
/// where the stack of this process lies.
#[verifier::external_body]
pub(crate) fn stack_address() -> (address: usize)
    ensures
        address != 0,
{
    let probe: bool = false;
    std::ptr::from_ref(&probe) as usize
}

/// Reads the wall clock once: the nanoseconds that have passed since the
/// Unix epoch, or `None` where the clock stands before it. Which moment the
/// clock stood at is not known beforehand, only that the reading is that
/// of one moment.
pub(crate) fn clock_reading() -> (reading: Option<u128>)
    ensures
        exists|moment: SystemTime| reading == #[trigger] reading_at(moment),
{
    let now = wall_clock();
    let reading = match since_unix_epoch(&now) {
        Ok(span) => Some(whole_nanos(&span)),
        Err(_) => None,
    };
    assert(reading == reading_at(now));
    reading
}

} // verus!
