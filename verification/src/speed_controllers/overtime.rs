//! A rate that decays with time, for trying out how a receiver follows.

use crate::clock::Clock;
use crate::speed_controllers::{Limiter, Pause};
use vstd::prelude::*;

verus! {

/// Kilobits per second that the rate falls by with every second.
pub const DECAY_PER_SEC: u128 = 50;

/// Nanoseconds in a second.
pub const NANOS_PER_SEC: u128 = 1_000_000_000;

/// The rate that is left of `speed` after `secs` whole seconds: it falls in
/// a straight line and stays at zero.
pub open spec fn decayed_speed(speed: u32, secs: nat) -> nat {
    if secs * 50 >= speed {
        0
    } else {
        (speed - secs * 50) as nat
    }
}

/// The state of an `OverTimeLimiter`.
pub struct DecayState {
    /// The rate to start from, in kilobits per second.
    pub speed: u32,
    /// Bytes of a frame.
    pub mtu: u16,
    /// When the decay began, on the limiter's clock, in nanoseconds.
    pub since: nat,
}

impl DecayState {
    /// Frames per second that are left at `now`.
    pub open spec fn frame_rate_at(self, now: nat) -> nat
        recommends
            self.mtu > 0,
    {
        let elapsed = if now >= self.since {
            now - self.since
        } else {
            0
        };
        decayed_speed(self.speed, (elapsed / 1_000_000_000) as nat) * 1024 / 8 / (self.mtu as nat)
    }

    /// The state after a call at `now`: once no frame per second is left,
    /// the decay begins anew.
    pub open spec fn after(self, now: nat) -> DecayState {
        if self.frame_rate_at(now) == 0 {
            DecayState { since: now, ..self }
        } else {
            self
        }
    }

    /// The pause in nanoseconds that a call at `now` asks for: the frames
    /// that are left spaced evenly over a second, and a second where none is
    /// left.
    pub open spec fn pause_at(self, now: nat) -> nat {
        if self.frame_rate_at(now) == 0 {
            1_000_000_000
        } else {
            1_000_000nat / self.frame_rate_at(now) * 1_000
        }
    }
}

/// The limiter whose rate falls by 50 kilobits per second every second and
/// starts over when it has reached the bottom. It is a tool for tests.
pub struct OverTimeLimiter {
    clock: Clock,
    speed: u32,
    mtu: u16,
    time: u128,
}

impl View for OverTimeLimiter {
    type V = DecayState;

    closed spec fn view(&self) -> DecayState {
        DecayState { speed: self.speed, mtu: self.mtu, since: self.time as nat }
    }
}

impl OverTimeLimiter {
    #[verifier::type_invariant]
    spec fn inv(self) -> bool {
        self.mtu > 0
    }

    /// A limiter that starts from `speed` kilobits per second, with frames
    /// of `mtu` bytes. The decay begins now.
    pub fn new(speed: u32, mtu: u16) -> (limiter: Self)
        requires
            mtu > 0,
        ensures
            limiter@ == (DecayState { speed, mtu, since: 0 }),
    {
        Self { clock: Clock::start(), speed, mtu, time: 0 }
    }

    /// The pause before the next send, asked at `now`, a reading of the
    /// limiter's clock.
    pub fn sleep_interval_at(&mut self, now: u128) -> (pause: Pause)
        ensures
            final(self)@ == old(self)@.after(now as nat),
            pause.nanos == old(self)@.pause_at(now as nat),
            pause.nanos <= 1_000_000_000,
    {
        proof {
            use_type_invariant(&*self);
        }
        let elapsed: u128 = if now >= self.time {
            now - self.time
        } else {
            0
        };
        let secs: u128 = elapsed / NANOS_PER_SEC;
        let fallen: u128 = secs * DECAY_PER_SEC;
        let left: u64 = if fallen >= self.speed as u128 {
            0
        } else {
            self.speed as u64 - fallen as u64
        };
        let fps: u64 = left * 1024 / 8 / (self.mtu as u64);
        if fps == 0 {
            self.time = now;
            Pause::from_micros(1_000_000)
        } else {
            let micros: u64 = 1_000_000 / fps;
            assert(micros <= 1_000_000) by (nonlinear_arith)
                requires
                    micros == 1_000_000u64 / fps,
                    fps >= 1,
            ;
            Pause::from_micros(micros)
        }
    }
}

impl Limiter for OverTimeLimiter {
    /// The call is one of `sleep_interval_at`, at some reading of the
    /// limiter's clock. The pause is a second at most.
    open spec fn asked(before: &Self, after: &Self, pause: Pause) -> bool {
        &&& exists|now: nat|
            after@ == before@.after(now) && pause.nanos == before@.pause_at(now)
        &&& pause.nanos <= 1_000_000_000
    }

    /// The pause before the next send, asked at the present moment.
    fn sleep_interval(&mut self) -> (pause: Pause) {
        let now: u128 = self.clock.nanos();
        let pause: Pause = self.sleep_interval_at(now);
        assert(self@ == old(self)@.after(now as nat) && pause.nanos == old(self)@.pause_at(
            now as nat,
        ));
        pause
    }
}

} // verus!
