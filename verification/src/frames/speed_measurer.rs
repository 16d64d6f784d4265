//! Throughput and latency of the traffic that arrives, whatever it holds.

use crate::clock::Clock;
use vstd::prelude::*;

verus! {

/// Nanoseconds in a microsecond.
pub const NANOS_PER_MICRO: u128 = 1_000;

/// Nanoseconds in a millisecond.
pub const NANOS_PER_MILLI: u128 = 1_000_000;

/// Nanoseconds between two arrivals above which the later one opens a new
/// burst: 100 ms.
pub const BURST_GAP_NANOS: u128 = 100_000_000;

/// Nanoseconds a window has to last before the rate is computed from it.
pub const WINDOW_NANOS: u128 = 1_000_000_000;

/// The time from `earlier` to `later`, zero where `later` is not later.
pub open spec fn span(earlier: nat, later: nat) -> nat {
    if later >= earlier {
        (later - earlier) as nat
    } else {
        0
    }
}

/// Kilobits per second that `bytes` bytes in `millis` milliseconds come to,
/// in whole numbers: the bits, in units of 1024, over the seconds.
pub open spec fn kbps(bytes: nat, millis: nat) -> nat
    recommends
        millis > 0,
{
    bytes * 8 / 1024 * 1000 / millis
}

/// The sum of `samples`.
pub open spec fn total(samples: Seq<nat>) -> nat
    decreases samples.len(),
{
    if samples.len() == 0 {
        0
    } else {
        total(samples.drop_last()) + samples.last()
    }
}

/// The mean of `samples` in whole numbers, zero where there are none.
pub open spec fn mean(samples: Seq<nat>) -> nat {
    if samples.len() == 0 {
        0
    } else {
        total(samples) / samples.len()
    }
}

/// The state of a `SpeedMeasurer` as numbers. Times are nanoseconds on the
/// measurer's clock.
pub struct Gauge {
    /// When the first unit of the session arrived.
    pub session_start: Option<nat>,
    /// Bytes counted in the session.
    pub session_bytes: nat,
    /// When the current window began.
    pub window_start: Option<nat>,
    /// Bytes counted in the current window.
    pub window_bytes: nat,
    /// The rate computed from the last completed window, in kbps.
    pub rate: nat,
    /// Gaps between arrivals of the current burst, in microseconds.
    pub latencies: Seq<nat>,
    /// When the last unit arrived.
    pub last_arrival: Option<nat>,
}

impl Gauge {
    /// The state of a measurer that has seen nothing.
    pub open spec fn idle() -> Gauge {
        Gauge {
            session_start: None,
            session_bytes: 0,
            window_start: None,
            window_bytes: 0,
            rate: 0,
            latencies: Seq::empty(),
            last_arrival: None,
        }
    }

    /// The state at the start of a new session: the starts, the byte counts
    /// and the rate are those of an idle measurer; the latency samples and
    /// the last arrival stay.
    pub open spec fn restarted(self) -> Gauge {
        Gauge { latencies: self.latencies, last_arrival: self.last_arrival, ..Gauge::idle() }
    }

    /// The latency samples after an arrival at `now`: the gap to the arrival
    /// before is added in whole microseconds, unless it is over 100 ms,
    /// which opens a new burst and drops the samples. The first arrival adds
    /// none.
    pub open spec fn latencies_after(self, now: nat) -> Seq<nat> {
        match self.last_arrival {
            Some(prev) => {
                if span(prev, now) > 100_000_000 {
                    Seq::empty()
                } else {
                    self.latencies.push(span(prev, now) / 1_000)
                }
            },
            None => self.latencies,
        }
    }

    /// When the window that an arrival at `now` falls into began.
    pub open spec fn window_origin(self, now: nat) -> nat {
        match self.window_start {
            Some(start) => start,
            None => now,
        }
    }

    /// Whether an arrival at `now` completes the window.
    pub open spec fn window_complete(self, now: nat) -> bool {
        span(self.window_origin(now), now) >= 1_000_000_000
    }

    /// The state after `len` bytes arrived at `now`.
    pub open spec fn arrived(self, len: nat, now: nat) -> Gauge {
        let origin = self.window_origin(now);
        let bytes = self.window_bytes + len;
        Gauge {
            session_start: match self.session_start {
                Some(start) => Some(start),
                None => Some(now),
            },
            session_bytes: self.session_bytes + len,
            window_start: if self.window_complete(now) {
                Some(now)
            } else {
                Some(origin)
            },
            window_bytes: if self.window_complete(now) {
                0
            } else {
                bytes
            },
            rate: if self.window_complete(now) {
                kbps(bytes, span(origin, now) / 1_000_000)
            } else {
                self.rate
            },
            latencies: self.latencies_after(now),
            last_arrival: Some(now),
        }
    }

    /// The average rate of the session as seen at `now`, in kbps: zero
    /// before the first arrival, in the first millisecond after it, and
    /// where the number does not fit 64 bits.
    pub open spec fn session_rate(self, now: nat) -> nat {
        match self.session_start {
            Some(start) => {
                let millis = span(start, now) / 1_000_000;
                if millis == 0 || kbps(self.session_bytes, millis) > u64::MAX {
                    0
                } else {
                    kbps(self.session_bytes, millis)
                }
            },
            None => 0,
        }
    }

    /// The pair that `get_speeds` reports at `now`: the session's average
    /// and the rate of the last completed window, both zero before the first
    /// arrival.
    pub open spec fn speeds(self, now: nat) -> (nat, nat) {
        if self.session_start is None {
            (0, 0)
        } else {
            (self.session_rate(now), self.rate)
        }
    }
}

/// Measures the rate and the spacing of arrivals, driven by the length of
/// every unit received.
pub struct SpeedMeasurer {
    clock: Clock,
    session_start: Option<u128>,
    session_received: u64,
    measure_start: Option<u128>,
    measure_received: u64,
    measure_speed: u64,
    measure_latencies: Vec<u128>,
    prev_recv: Option<u128>,
}

/// The time of an arrival as a number, if there was one.
pub open spec fn moment(t: Option<u128>) -> Option<nat> {
    match t {
        Some(v) => Some(v as nat),
        None => None,
    }
}

impl View for SpeedMeasurer {
    type V = Gauge;

    closed spec fn view(&self) -> Gauge {
        Gauge {
            session_start: moment(self.session_start),
            session_bytes: self.session_received as nat,
            window_start: moment(self.measure_start),
            window_bytes: self.measure_received as nat,
            rate: self.measure_speed as nat,
            latencies: self.measure_latencies@.map_values(|v: u128| v as nat),
            last_arrival: moment(self.prev_recv),
        }
    }
}

impl SpeedMeasurer {
    #[verifier::type_invariant]
    spec fn inv(self) -> bool {
        &&& self.measure_received <= self.session_received
        &&& forall|i: int|
            0 <= i < self.measure_latencies@.len() ==> self.measure_latencies@[i] <= 100_000
    }

    /// A measurer that has seen nothing, with a clock of its own.
    pub fn new() -> (measurer: Self)
        ensures
            measurer@ == Gauge::idle(),
    {
        let measurer = Self {
            clock: Clock::start(),
            session_start: None,
            session_received: 0,
            measure_start: None,
            measure_received: 0,
            measure_speed: 0,
            measure_latencies: Vec::new(),
            prev_recv: None,
        };
        assert(measurer@.latencies =~= Seq::empty());
        measurer
    }

    /// A reading of the measurer's clock.
    pub fn now(&self) -> (now: u128) {
        self.clock.nanos()
    }

    /// Whether `len` more bytes can be counted.
    pub fn has_room(&self, len: usize) -> (room: bool)
        ensures
            room == (self@.session_bytes + len <= u64::MAX),
    {
        len as u64 <= u64::MAX - self.session_received
    }

    /// Records the arrival of `len` bytes at the present moment.
    pub fn handle(&mut self, len: usize)
        requires
            old(self)@.session_bytes + len <= u64::MAX,
        ensures
            exists|now: nat| final(self)@ == old(self)@.arrived(len as nat, now),
    {
        let now: u128 = self.clock.nanos();
        self.handle_at(len, now);
        assert(self@ == old(self)@.arrived(len as nat, now as nat));
    }

    /// Records the arrival of `len` bytes at `now`, a reading of the
    /// measurer's clock.
    pub fn handle_at(&mut self, len: usize, now: u128)
        requires
            old(self)@.session_bytes + len <= u64::MAX,
        ensures
            final(self)@ == old(self)@.arrived(len as nat, now as nat),
    {
        proof {
            use_type_invariant(&*self);
        }
        let ghost before = self@;
        if self.session_start.is_none() {
            self.session_start = Some(now);
        }
        self.session_received = self.session_received + len as u64;
        let origin: u128 = match self.measure_start {
            Some(start) => start,
            None => now,
        };
        match self.prev_recv {
            Some(prev) => {
                let gap: u128 = if now >= prev {
                    now - prev
                } else {
                    0
                };
                let mut samples: Vec<u128> = Vec::new();
                std::mem::swap(&mut samples, &mut self.measure_latencies);
                if gap > BURST_GAP_NANOS {
                    samples.clear();
                } else {
                    samples.push(gap / NANOS_PER_MICRO);
                }
                self.measure_latencies = samples;
            },
            None => {},
        }
        self.prev_recv = Some(now);
        let bytes: u64 = self.measure_received + len as u64;
        let elapsed: u128 = if now >= origin {
            now - origin
        } else {
            0
        };
        if elapsed >= WINDOW_NANOS {
            let millis: u128 = elapsed / NANOS_PER_MILLI;
            let scaled: u128 = bytes as u128 * 8 / 1024 * 1000;
            assert(scaled / millis <= scaled / 1000) by (nonlinear_arith)
                requires
                    millis >= 1000,
                    scaled >= 0,
            ;
            let rate: u128 = scaled / millis;
            self.measure_speed = rate as u64;
            self.measure_start = Some(now);
            self.measure_received = 0;
        } else {
            self.measure_start = Some(origin);
            self.measure_received = bytes;
        }
        assert(self@.latencies =~= before.latencies_after(now as nat));
    }

    /// The session's average rate and the rate of the last completed window,
    /// in kbps, at the present moment.
    pub fn get_speeds(&self) -> (speeds: (u64, u64))
        ensures
            exists|now: nat| (speeds.0 as nat, speeds.1 as nat) == self@.speeds(now),
    {
        let now: u128 = self.clock.nanos();
        let speeds = self.get_speeds_at(now);
        assert((speeds.0 as nat, speeds.1 as nat) == self@.speeds(now as nat));
        speeds
    }

    /// The session's average rate and the rate of the last completed window,
    /// in kbps, at `now`, a reading of the measurer's clock.
    pub fn get_speeds_at(&self, now: u128) -> (speeds: (u64, u64))
        ensures
            (speeds.0 as nat, speeds.1 as nat) == self@.speeds(now as nat),
    {
        match self.session_start {
            None => (0, 0),
            Some(start) => {
                let elapsed: u128 = if now >= start {
                    now - start
                } else {
                    0
                };
                let millis: u128 = elapsed / NANOS_PER_MILLI;
                if millis == 0 {
                    (0, self.measure_speed)
                } else {
                    let average: u128 = self.session_received as u128 * 8 / 1024 * 1000 / millis;
                    if average > u64::MAX as u128 {
                        (0, self.measure_speed)
                    } else {
                        (average as u64, self.measure_speed)
                    }
                }
            },
        }
    }

    /// Starts a new session: the starts, the byte counts and the rate go
    /// back to those of an idle measurer.
    pub fn reset(&mut self)
        ensures
            final(self)@ == old(self)@.restarted(),
    {
        proof {
            use_type_invariant(&*self);
        }
        self.session_start = None;
        self.measure_start = None;
        self.measure_received = 0;
        self.session_received = 0;
        self.measure_speed = 0;
    }

    /// The mean gap between arrivals of the current burst, in microseconds;
    /// zero where the burst has no sample.
    pub fn get_latency(&self) -> (latency: u128)
        ensures
            latency == mean(self@.latencies),
    {
        proof {
            use_type_invariant(self);
        }
        let n: usize = self.measure_latencies.len();
        if n == 0 {
            return 0;
        }
        let ghost samples = self@.latencies;
        let mut sum: u128 = 0;
        let mut i: usize = 0;
        while i < n
            invariant
                0 <= i <= n,
                n == self.measure_latencies@.len(),
                samples == self.measure_latencies@.map_values(|v: u128| v as nat),
                forall|j: int| 0 <= j < n ==> self.measure_latencies@[j] <= 100_000,
                sum == total(samples.take(i as int)),
                sum <= i * 100_000,
            decreases n - i,
        {
            assert(samples.take(i + 1).drop_last() =~= samples.take(i as int));
            sum = sum + self.measure_latencies[i];
            i += 1;
        }
        assert(samples.take(n as int) =~= samples);
        sum / (n as u128)
    }
}

} // verus!
