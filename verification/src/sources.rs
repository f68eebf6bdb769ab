//! What the machine takes from outside itself: the passing of time and a
//! random byte. Nothing is promised of either value; the interpreter is
//! verified for every value that may come back.

use vstd::prelude::*;
use std::time::Instant;

verus! {

/// `std::time::Instant`, a point on the monotonic clock. Nothing inside it is
/// visible to the verifier.
#[verifier::external_type_specification]
#[verifier::external_body]
pub struct ExInstant(std::time::Instant);

/// `std::time::Instant::now` reads the monotonic clock. Nothing is claimed of
/// the point in time it returns.
pub assume_specification[ std::time::Instant::now ]() -> (now: std::time::Instant)
;

/// `std::time::Instant::elapsed` measures the time since the instant was
/// taken. Nothing is claimed of the span it returns.
pub assume_specification[ std::time::Instant::elapsed ](start: &std::time::Instant) -> (span:
    core::time::Duration)
;

/// `core::time::Duration::as_nanos` gives a span in nanoseconds. Nothing is
/// claimed of the number it returns.
pub assume_specification[ core::time::Duration::as_nanos ](span: &core::time::Duration) -> (nanos:
    u128)
;

/// Draws a byte from `rand::random`, which samples the thread-local
/// generator. Nothing is claimed of the byte. The generator stops the program
/// if the operating system cannot seed it.
#[verifier::external_body]
pub(crate) fn random_byte() -> (byte: u8) {
    rand::random::<u8>()
}

/// Nanoseconds that have passed since `start`, as the clock gives them and
/// `held_nanos` holds them. Nothing is known of what the clock gives.
pub(crate) fn nanos_since(start: &Instant) -> (nanos: u64) {
    let span = start.elapsed();
    held_nanos(span.as_nanos())
}

/// A count of nanoseconds as a step takes it: the count itself, or the largest
/// value that fits where the count is greater.
pub open spec fn held(nanos: u128) -> u64 {
    if nanos > u64::MAX {
        u64::MAX
    } else {
        nanos as u64
    }
}

/// Holds a count of nanoseconds at the largest value that a step takes.
pub fn held_nanos(nanos: u128) -> (held_at: u64)
    ensures
        held_at == held(nanos),
{
    if nanos > 0xFFFF_FFFF_FFFF_FFFFu128 {
        0xFFFF_FFFF_FFFF_FFFFu64
    } else {
        nanos as u64
    }
}

} // verus!
