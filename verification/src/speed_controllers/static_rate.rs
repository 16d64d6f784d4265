//! One fixed pause after every frame.

use crate::speed_controllers::{frame_rate, frames_per_second, Limiter, Pause, MICROS_PER_SEC};
use vstd::prelude::*;

verus! {

/// The pause in microseconds that spaces the frames of `speed` kilobits per
/// second evenly over a second; none where `speed` is zero, which stands for
/// no limit.
pub open spec fn static_pause_micros(speed: u32, mtu: u16) -> nat
    recommends
        speed == 0 || (mtu > 0 && frames_per_second(speed, mtu) > 0),
{
    if speed == 0 {
        0
    } else {
        1_000_000nat / frames_per_second(speed, mtu)
    }
}

/// The limiter that pauses the same time after every frame. It relies on
/// the sender to sleep with precision.
pub struct StaticLimiter {
    dur: Pause,
}

impl StaticLimiter {
    /// The pause this limiter asks for, in nanoseconds.
    pub closed spec fn pause_nanos(&self) -> nat {
        self.dur.nanos as nat
    }

    #[verifier::type_invariant]
    spec fn inv(self) -> bool {
        self.dur.nanos <= 1_000_000_000
    }

    /// A limiter for `speed` kilobits per second with frames of `mtu`
    /// bytes. A speed of zero gives no pause whatever `mtu` is; any other
    /// speed must come to at least one frame per second.
    pub fn new(speed: u32, mtu: u16) -> (limiter: Self)
        requires
            speed == 0 || (mtu > 0 && frames_per_second(speed, mtu) > 0),
        ensures
            limiter.pause_nanos() == static_pause_micros(speed, mtu) * 1_000,
            speed == 0 ==> limiter.pause_nanos() == 0,
    {
        if speed == 0 {
            Self { dur: Pause::zero() }
        } else {
            let fps: u64 = frame_rate(speed, mtu);
            let micros: u64 = MICROS_PER_SEC / fps;
            assert(micros <= 1_000_000) by (nonlinear_arith)
                requires
                    micros == 1_000_000u64 / fps,
                    fps >= 1,
            ;
            Self { dur: Pause::from_micros(micros) }
        }
    }
}

impl Limiter for StaticLimiter {
    /// Always the pause fixed at construction, which is a second at most.
    open spec fn asked(before: &Self, after: &Self, pause: Pause) -> bool {
        &&& pause.nanos == before.pause_nanos()
        &&& pause.nanos <= 1_000_000_000
        &&& after.pause_nanos() == before.pause_nanos()
    }

    fn sleep_interval(&mut self) -> (pause: Pause) {
        proof {
            use_type_invariant(&*self);
        }
        self.dur
    }
}

} // verus!
