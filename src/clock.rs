//! Wall-clock readings, in whole milliseconds since a fixed origin.
use vstd::prelude::*;

use std::time::{Duration, Instant};

verus! {

/// Declares `std::time::Instant`, held opaquely as a player's clock origin.
#[verifier::external_type_specification]
#[verifier::external_body]
pub struct ExInstant(Instant);

/// Relies on `std::time::Instant::now`: a reading of the monotonic clock.
/// Nothing is known of the value it returns.
#[verifier::external_body]
pub(crate) fn instant_now() -> (r: Instant) {
    Instant::now()
}

/// Relies on `std::time::Instant::elapsed`: the time since `origin`, or zero
/// where `origin` is later than now. It depends on the time of the call, so
/// nothing is promised of the value.
#[verifier::external_body]
fn elapsed_since(origin: &Instant) -> (r: Duration) {
    origin.elapsed()
}

/// Relies on `std::time::Duration::as_millis`: the whole milliseconds of `d`,
/// truncated to 64 bits.
#[verifier::external_body]
fn whole_millis(d: &Duration) -> (r: u64) {
    d.as_millis() as u64
}

/// The whole milliseconds elapsed since `origin`.
pub(crate) fn millis_since(origin: &Instant) -> (r: u64) {
    let d = elapsed_since(origin);
    whole_millis(&d)
}

} // verus!
