//! Pacing of a sender: strategies that say how long to pause before the
//! next frame so that the frames come to a target rate.

pub mod burst;
pub mod overtime;
pub mod static_rate;
pub mod unlimited;

pub use burst::BurstLimiter;
pub use overtime::OverTimeLimiter;
pub use static_rate::StaticLimiter;
pub use unlimited::UnLimiter;

use vstd::prelude::*;

verus! {

/// Nanoseconds in a microsecond.
pub const NANOS_PER_MICRO: u64 = 1_000;

/// Microseconds in a second.
pub const MICROS_PER_SEC: u64 = 1_000_000;

/// The longest pause that a limiter of this crate asks for: one second.
pub const MAX_PAUSE_NANOS: u64 = 1_000_000_000;

/// A length of time to pause before the next send.
#[derive(Clone, Copy, Debug, PartialEq, Eq, Structural)]
pub struct Pause {
    /// The length in nanoseconds.
    pub nanos: u64,
}

impl Pause {
    /// No pause at all.
    pub fn zero() -> (pause: Pause)
        ensures
            pause.nanos == 0,
    {
        Pause { nanos: 0 }
    }

    /// A pause of `micros` microseconds.
    pub fn from_micros(micros: u64) -> (pause: Pause)
        requires
            micros * 1_000 <= u64::MAX,
        ensures
            pause.nanos == micros * 1_000,
    {
        Pause { nanos: micros * NANOS_PER_MICRO }
    }

    /// Whether this is no pause at all.
    pub fn is_zero(&self) -> (zero: bool)
        ensures
            zero == (self.nanos == 0),
    {
        self.nanos == 0
    }
}

/// Frames per second that make `speed` kilobits per second with frames of
/// `mtu` bytes, in whole frames.
pub open spec fn frames_per_second(speed: u32, mtu: u16) -> nat
    recommends
        mtu > 0,
{
    (speed as nat * 1024 / 8) / (mtu as nat)
}

/// Computes `frames_per_second`.
pub fn frame_rate(speed: u32, mtu: u16) -> (fps: u64)
    requires
        mtu > 0,
    ensures
        fps == frames_per_second(speed, mtu),
{
    (speed as u64 * 1024 / 8) / (mtu as u64)
}

/// A pacing strategy. The sender asks it once per frame sent.
pub trait Limiter {
    /// What one call of `sleep_interval` does: how the limiter after the
    /// call and the pause it asked for relate to the limiter before it. Each
    /// strategy says this of itself.
    spec fn asked(before: &Self, after: &Self, pause: Pause) -> bool;

    /// The pause before the next send. The limiter does not wait itself.
    fn sleep_interval(&mut self) -> (pause: Pause)
        ensures
            Self::asked(&*old(self), &*final(self), pause),
    ;
}

} // verus!
