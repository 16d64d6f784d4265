//! Monotonic time as plain numbers: nanoseconds counted from the moment a
//! clock was started.

use std::time::{Duration, Instant};
use vstd::prelude::*;

verus! {

/// `std::time::Instant`: a moment on the monotonic clock, carried as it is.
#[verifier::external_type_specification]
#[verifier::external_body]
pub struct ExInstant(Instant);

/// Calls `Instant::now`. Nothing is claimed of the moment it gives.
#[verifier::external_body]
fn present() -> (moment: Instant) {
    Instant::now()
}

/// Calls `Instant::elapsed`: the time since `origin`. It depends on when the
/// call is made, so nothing is claimed of it.
#[verifier::external_body]
fn time_since(origin: &Instant) -> (elapsed: Duration) {
    origin.elapsed()
}

/// Calls `Duration::as_nanos`: the whole of `span` in nanoseconds.
#[verifier::external_body]
fn nanos_of(span: Duration) -> (nanos: u128) {
    span.as_nanos()
}

/// A monotonic clock. Its readings are nanoseconds since it was started, so
/// two readings of one clock can be subtracted and compared as integers.
pub struct Clock {
    origin: Instant,
}

impl Clock {
    /// Starts a clock at the present moment.
    pub fn start() -> (clock: Clock) {
        Clock { origin: present() }
    }

    /// Nanoseconds since the clock was started.
    pub fn nanos(&self) -> (now: u128) {
        nanos_of(time_since(&self.origin))
    }
}

} // verus!
