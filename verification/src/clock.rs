use vstd::prelude::*;
use std::time::Duration;
use std::time::Instant;

verus! {

#[verifier::external_type_specification]
#[verifier::external_body]
pub struct ExInstant(Instant);

/// Relies on `Instant::now`: a reading of the monotonic clock. When it is
/// taken depends on the machine, so nothing is promised of the result.
#[verifier::external_body]
pub(crate) fn clock_start() -> Instant {
    Instant::now()
}

/// Relies on `Instant::elapsed`: the time since `start` was taken. The
/// result depends on the clock, so nothing is promised of it.
#[verifier::external_body]
pub(crate) fn clock_elapsed(start: &Instant) -> Duration {
    start.elapsed()
}

/// Relies on `Duration::as_nanos`: the whole duration in nanoseconds. The
/// duration it reads is opaque here, so nothing is promised of the result.
#[verifier::external_body]
pub(crate) fn duration_as_nanos(d: &Duration) -> u128 {
    d.as_nanos()
}

/// Nanoseconds since `start`, saturated at `u64::MAX`.
pub(crate) fn elapsed_nanos(start: &Instant) -> u64 {
    let d = clock_elapsed(start);
    let n = duration_as_nanos(&d);
    if n > u64::MAX as u128 {
        u64::MAX
    } else {
        n as u64
    }
}

} // verus!
