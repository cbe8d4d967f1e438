//! The clocks: the monotonic one that rate limiters read, and wall time.
use vstd::prelude::*;

verus! {

#[verifier::external_type_specification]
#[verifier::external_body]
pub struct ExInstant(std::time::Instant);

/// Calls `Instant::now`. Nothing is promised of the instant it returns.
#[verifier::external_body]
pub(crate) fn instant_now() -> (r: std::time::Instant) {
    std::time::Instant::now()
}

/// Calls `Instant::elapsed` on `origin` and returns the whole nanoseconds
/// (`Duration::as_nanos`, cast to `u64`). The value depends on the time of
/// the call, so nothing is promised of it here.
#[verifier::external_body]
pub(crate) fn nanos_since(origin: &std::time::Instant) -> (r: u64) {
    origin.elapsed().as_nanos() as u64
}

/// Calls `chrono::Utc::now` and returns its Unix time in milliseconds
/// (`timestamp_millis`). The value depends on the time of the call, so
/// nothing is promised of it here.
#[verifier::external_body]
pub(crate) fn now_ms() -> (r: i64) {
    chrono::Utc::now().timestamp_millis()
}

} // verus!
