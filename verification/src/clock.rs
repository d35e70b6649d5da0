//! Clock and randomness: the only sources of values that no argument fixes.
use std::hash::Hash;
use vstd::prelude::*;
use crate::json::hex_digit;

verus! {

/// Milliseconds since the Unix epoch by the system clock
/// (`SystemTime::now().duration_since(UNIX_EPOCH)`, 0 for a clock set before
/// the epoch). Nothing is promised of the value: it is the time of the call.
#[verifier::external_body]
pub(crate) fn unix_millis_now() -> u64 {
    std::time::SystemTime::now()
        .duration_since(std::time::UNIX_EPOCH)
        .unwrap_or_default()
        .as_millis() as u64
}

/// A point on the monotonic clock (`std::time::Instant`).
#[verifier::external_type_specification]
#[verifier::external_body]
pub struct ExInstant(std::time::Instant);

/// `Instant::now()`: the current point on the monotonic clock. Nothing is
/// promised of it.
#[verifier::external_body]
pub(crate) fn monotonic_now() -> std::time::Instant {
    std::time::Instant::now()
}

/// Whole milliseconds elapsed on the monotonic clock since `origin`
/// (`origin.elapsed().as_millis()`, truncated to 64 bits). Nothing is
/// promised of the value: it is the time of the call.
#[verifier::external_body]
pub(crate) fn millis_since(origin: &std::time::Instant) -> u64 {
    origin.elapsed().as_millis() as u64
}

/// What `Duration::as_millis` returns for `d`, truncated to 64 bits.
pub uninterp spec fn millis_of_duration(d: std::time::Duration) -> u64;

/// `Duration::as_millis`, truncated to 64 bits.
#[verifier::external_body]
pub(crate) fn duration_millis(d: &std::time::Duration) -> (ms: u64)
    ensures
        ms == millis_of_duration(*d),
{
    d.as_millis() as u64
}

/// What `Duration::from_millis` returns for `ms`.
pub uninterp spec fn duration_of_millis(ms: u64) -> std::time::Duration;

/// `Duration::from_millis`.
#[verifier::external_body]
pub(crate) fn duration_from_millis(ms: u64) -> (d: std::time::Duration)
    ensures
        d == duration_of_millis(ms),
{
    std::time::Duration::from_millis(ms)
}


/// The `DefaultHasher` hash of the current time in nanoseconds since the
/// Unix epoch: a pseudo-random number of which nothing is promised.
#[verifier::external_body]
pub(crate) fn time_hash() -> u64 {
    let mut hasher = std::collections::hash_map::DefaultHasher::new();
    std::time::SystemTime::now()
        .duration_since(std::time::UNIX_EPOCH)
        .unwrap_or_default()
        .as_nanos()
        .hash(&mut hasher);
    std::hash::Hasher::finish(&hasher)
}

/// `s` has the shape of a hyphenated lowercase UUID: 36 characters, with
/// hyphens at 8, 13, 18 and 23 and lowercase hexadecimal digits elsewhere.
pub open spec fn is_hyphenated_uuid(s: Seq<char>) -> bool {
    &&& s.len() == 36
    &&& forall|i: int| 0 <= i < 36 ==> if i == 8 || i == 13 || i == 18 || i == 23 {
        #[trigger] s[i] == '-'
    } else {
        exists|d: nat| d < 16 && s[i] == hex_digit(d)
    }
}

/// `Uuid::new_v4().to_string()`: a random UUID in its hyphenated lowercase
/// form. Which one comes out is not stated.
#[verifier::external_body]
pub(crate) fn new_uuid_v4() -> (s: String)
    ensures
        is_hyphenated_uuid(s@),
{
    uuid::Uuid::new_v4().to_string()
}

/// Milliseconds since the Unix epoch by the system clock, as a signed
/// timestamp: 0 for a clock set before the epoch, and the largest `i64`
/// for one beyond its range.
pub(crate) fn utc_now_millis() -> (ms: i64)
    ensures
        ms >= 0,
{
    let m = unix_millis_now();
    if m > i64::MAX as u64 {
        i64::MAX
    } else {
        m as i64
    }
}

} // verus!
