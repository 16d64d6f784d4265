//! No pacing.

use crate::speed_controllers::{Limiter, Pause};
use vstd::prelude::*;

verus! {

/// The limiter that does not limit: the sender runs as fast as it can.
pub struct UnLimiter {}

impl UnLimiter {
    /// The limiter: it has nothing to set.
    pub fn new() -> Self {
        Self {  }
    }
}

impl Limiter for UnLimiter {
    /// Never a pause.
    open spec fn asked(before: &Self, after: &Self, pause: Pause) -> bool {
        pause.nanos == 0
    }

    fn sleep_interval(&mut self) -> (pause: Pause) {
        Pause::zero()
    }
}

} // verus!
