//! Frames in bursts: a batch goes out back to back, then the sender sleeps
//! out the rest of the window. This does not lean on short sleeps being
//! precise, which at high rates they are not.

use crate::clock::Clock;
use crate::speed_controllers::{frame_rate, frames_per_second, Limiter, Pause, MICROS_PER_SEC};
use vstd::prelude::*;

verus! {

/// The window in microseconds that is chosen by the frame rate: the more
/// frames per second, the shorter the window.
pub open spec fn adaptive_window_micros(fps: nat) -> nat {
    if fps == 0 {
        1
    } else if fps <= 99 {
        1_000_000
    } else if fps <= 999 {
        100_000
    } else if fps <= 9_999 {
        10_000
    } else if fps <= 99_999 {
        100
    } else {
        1
    }
}

/// The window in microseconds: the adaptive one, or a second.
pub open spec fn window_micros(fps: nat, dynamic_window: bool) -> nat {
    if dynamic_window {
        adaptive_window_micros(fps)
    } else {
        1_000_000
    }
}

/// Frames that go out in one window of `window` microseconds: the frames
/// per second over the windows per second.
pub open spec fn burst_size(fps: nat, window: nat) -> nat
    recommends
        0 < window <= 1_000_000,
{
    fps / (1_000_000nat / window)
}

/// A window under way.
pub struct Run {
    /// When the window began, on the limiter's clock, in nanoseconds.
    pub start: nat,
    /// Frames that may still go out in it without a pause.
    pub remaining: nat,
}

/// The state of a `BurstLimiter`.
pub struct BurstState {
    /// The length of a window in nanoseconds.
    pub window_nanos: nat,
    /// Frames that go out in one window without a pause.
    pub burst_count: nat,
    /// Whether the limiter lets everything through.
    pub disabled: bool,
    /// The window under way, if one is.
    pub running: Option<Run>,
}

impl BurstState {
    /// The state of a limiter made for `speed` kilobits per second and
    /// frames of `mtu` bytes. A speed of zero disables it.
    pub open spec fn configured(speed: u32, mtu: u16, dynamic_window: bool) -> BurstState
        recommends
            mtu > 0,
    {
        let fps = frames_per_second(speed, mtu);
        let window = window_micros(fps, dynamic_window);
        BurstState {
            window_nanos: window * 1_000,
            burst_count: burst_size(fps, window),
            disabled: speed == 0,
            running: None,
        }
    }

    /// The window that a call at `now` falls into: the one under way, or a
    /// new one that begins at `now` with the whole burst ahead.
    pub open spec fn run_at(self, now: nat) -> Run {
        match self.running {
            Some(run) => run,
            None => Run { start: now, remaining: self.burst_count },
        }
    }

    /// The state after a call at `now`. While frames of the burst remain,
    /// one is used up; once they are used up the window is over.
    pub open spec fn after(self, now: nat) -> BurstState {
        if self.disabled {
            self
        } else if self.run_at(now).remaining > 0 {
            BurstState {
                running: Some(
                    Run {
                        start: self.run_at(now).start,
                        remaining: (self.run_at(now).remaining - 1) as nat,
                    },
                ),
                ..self
            }
        } else {
            BurstState { running: None, ..self }
        }
    }

    /// The pause in nanoseconds that a call at `now` asks for: none while
    /// frames of the burst remain, then what is left of the window, which is
    /// nothing where the window has run out already.
    pub open spec fn pause_at(self, now: nat) -> nat {
        if self.disabled || self.run_at(now).remaining > 0 {
            0
        } else {
            let start = self.run_at(now).start;
            let elapsed = if now >= start {
                now - start
            } else {
                0
            };
            if elapsed >= self.window_nanos {
                0
            } else {
                (self.window_nanos - elapsed) as nat
            }
        }
    }
}

/// The state after calls at `times`, in their order.
pub open spec fn after_calls(state: BurstState, times: Seq<nat>) -> BurstState
    decreases times.len(),
{
    if times.len() == 0 {
        state
    } else {
        after_calls(state, times.drop_last()).after(times.last())
    }
}

/// Whether `times` are readings of a clock that does not run backwards.
pub open spec fn rising(times: Seq<nat>) -> bool {
    forall|i: int, j: int| 0 <= i <= j < times.len() ==> times[i] <= times[j]
}

/// Within a window, the calls so far have used up one frame of the burst
/// each, and the window counts from the first call.
proof fn lemma_burst_under_way(state: BurstState, times: Seq<nat>, n: int)
    requires
        !state.disabled,
        state.running is None,
        1 <= n <= state.burst_count,
        n <= times.len(),
    ensures
        after_calls(state, times.take(n)) == (BurstState {
            running: Some(Run { start: times[0], remaining: (state.burst_count - n) as nat }),
            ..state
        }),
    decreases n,
{
    assert(times.take(n).drop_last() =~= times.take(n - 1));
    assert(times.take(n).last() == times[n - 1]);
    if n > 1 {
        lemma_burst_under_way(state, times, n - 1);
    } else {
        assert(times.take(0) =~= Seq::<nat>::empty());
    }
}

/// One window from end to end. After a window has ended, a limiter that is
/// not disabled lets as many calls through without a pause as a burst has
/// frames. The call after them gets what is left of the window that began
/// with the first call, so that the next window cannot begin before this one
/// is over, and with that call the window has ended. One window thus takes
/// one frame more than the burst.
pub proof fn lemma_burst_window(state: BurstState, times: Seq<nat>)
    requires
        !state.disabled,
        state.running is None,
        times.len() == state.burst_count + 1,
        rising(times),
    ensures
        forall|i: int|
            0 <= i < state.burst_count ==> #[trigger] after_calls(state, times.take(i)).pause_at(
                times[i],
            ) == 0,
        ({
            let closing = after_calls(state, times.drop_last()).pause_at(times.last());
            let spent = times.last() - times[0];
            &&& closing == if spent >= state.window_nanos {
                0
            } else {
                state.window_nanos - spent
            }
            &&& times.last() + closing >= times[0] + state.window_nanos
        }),
        after_calls(state, times) == state,
{
    let n = state.burst_count as int;
    assert forall|i: int| 0 <= i < n implies #[trigger] after_calls(state, times.take(i)).pause_at(
        times[i],
    ) == 0 by {
        if i > 0 {
            lemma_burst_under_way(state, times, i);
        } else {
            assert(times.take(0) =~= Seq::<nat>::empty());
        }
    }
    assert(times.drop_last() =~= times.take(n));
    if n > 0 {
        lemma_burst_under_way(state, times, n);
    } else {
        assert(times.take(0) =~= Seq::<nat>::empty());
    }
}

/// The limiter and the clock after `n` turns of a sender that begins at
/// `start`, takes no time to send a frame, asks the limiter after every
/// frame and sleeps exactly as long as it is asked.
pub open spec fn paced(state: BurstState, start: nat, n: nat) -> (BurstState, nat)
    decreases n,
{
    if n == 0 {
        (state, start)
    } else {
        let before = paced(state, start, (n - 1) as nat);
        (before.0.after(before.1), before.1 + before.0.pause_at(before.1))
    }
}

/// Windows that fit in a second, for a window of `window` microseconds.
pub open spec fn windows_per_second(window: nat) -> nat
    recommends
        0 < window <= 1_000_000,
{
    1_000_000nat / window
}

/// Frames that such a sender delivers in a second with a limiter made for
/// `speed` kilobits per second and frames of `mtu` bytes: in every window
/// the burst and the one frame that is sent before the limiter asks for the
/// pause.
pub open spec fn delivered_per_second(speed: u32, mtu: u16, dynamic_window: bool) -> nat
    recommends
        mtu > 0,
{
    let fps = frames_per_second(speed, mtu);
    let window = window_micros(fps, dynamic_window);
    (burst_size(fps, window) + 1) * windows_per_second(window)
}

/// Turns can be taken in two goes.
proof fn lemma_paced_split(state: BurstState, start: nat, a: nat, b: nat)
    ensures
        paced(state, start, a + b) == paced(paced(state, start, a).0, paced(state, start, a).1, b),
    decreases b,
{
    if b > 0 {
        lemma_paced_split(state, start, a, (b - 1) as nat);
        assert(a + b - 1 == a + (b - 1));
    }
}

/// While frames of the burst remain the clock of such a sender stands
/// still.
proof fn lemma_paced_in_window(state: BurstState, start: nat, n: nat)
    requires
        !state.disabled,
        state.running is None,
        1 <= n <= state.burst_count,
    ensures
        paced(state, start, n) == (
            BurstState {
                running: Some(Run { start, remaining: (state.burst_count - n) as nat }),
                ..state
            },
            start,
        ),
    decreases n,
{
    if n > 1 {
        lemma_paced_in_window(state, start, (n - 1) as nat);
    } else {
        assert(paced(state, start, 0) == (state, start));
    }
}

/// One window of such a sender takes one frame more than the burst, and
/// exactly the length of the window.
proof fn lemma_paced_window(state: BurstState, start: nat)
    requires
        !state.disabled,
        state.running is None,
    ensures
        paced(state, start, state.burst_count + 1) == (state, start + state.window_nanos),
{
    if state.burst_count > 0 {
        lemma_paced_in_window(state, start, state.burst_count);
    } else {
        assert(paced(state, start, 0) == (state, start));
    }
}

/// A sustained run: to a sender that takes no time to send and sleeps
/// exactly as it is asked, `windows` windows take one frame more than the
/// burst each, and exactly their length, at whatever moment the run begins
/// and however long it lasts.
pub proof fn lemma_sustained_run(state: BurstState, start: nat, windows: nat)
    requires
        !state.disabled,
        state.running is None,
    ensures
        paced(state, start, windows * (state.burst_count + 1)) == (
            state,
            start + windows * state.window_nanos,
        ),
    decreases windows,
{
    let per = state.burst_count + 1;
    if windows > 0 {
        let done = ((windows - 1) as nat) * per;
        let then = start + ((windows - 1) as nat) * state.window_nanos;
        lemma_sustained_run(state, start, (windows - 1) as nat);
        assert(paced(state, start, done) == (state, then));
        assert(windows * per == done + per) by (nonlinear_arith)
            requires
                windows > 0,
                done == ((windows - 1) as nat) * per,
        ;
        assert(start + windows * state.window_nanos == then + state.window_nanos)
            by (nonlinear_arith)
            requires
                windows > 0,
                then == start + ((windows - 1) as nat) * state.window_nanos,
        ;
        lemma_paced_split(state, start, done, per);
        lemma_paced_window(state, then);
    } else {
        assert(windows * per == 0) by (nonlinear_arith)
            requires
                windows == 0,
        ;
        assert(windows * state.window_nanos == 0) by (nonlinear_arith)
            requires
                windows == 0,
        ;
    }
}

/// The rate that a burst limiter holds. With a limiter made for `speed`
/// kilobits per second and frames of `mtu` bytes, a sender that takes no
/// time to send and sleeps exactly as it is asked delivers the same number
/// of frames in every second. Their bits are never fewer than the target,
/// and more by at most one frame in every window. So the rate is within a
/// twentieth of the target wherever one frame per window weighs no more than
/// a twentieth of the target. Where it weighs more, as with few frames in a
/// window, the rate can be further above the target.
pub proof fn lemma_burst_rate(speed: u32, mtu: u16, dynamic_window: bool, start: nat)
    requires
        speed > 0,
        mtu > 0,
    ensures
        ({
            let state = BurstState::configured(speed, mtu, dynamic_window);
            let windows = windows_per_second(
                window_micros(frames_per_second(speed, mtu), dynamic_window),
            );
            let frames = delivered_per_second(speed, mtu, dynamic_window);
            &&& paced(state, start, frames) == (state, start + 1_000_000_000)
            &&& 128 * speed < frames * mtu <= 128 * speed + windows * mtu
            &&& 20 * windows * mtu <= 128 * speed ==> 20 * frames * mtu <= 21 * 128 * speed
        }),
{
    let state = BurstState::configured(speed, mtu, dynamic_window);
    let fps = frames_per_second(speed, mtu);
    let window = window_micros(fps, dynamic_window);
    let windows = windows_per_second(window);
    let burst = burst_size(fps, window);
    let frames = delivered_per_second(speed, mtu, dynamic_window);
    assert(window == 1 || window == 100 || window == 10_000 || window == 100_000 || window
        == 1_000_000);
    assert(windows * window == 1_000_000 && windows >= 1) by {
        assert(1_000_000nat / 1 == 1_000_000);
        assert(1_000_000nat / 100 == 10_000);
        assert(1_000_000nat / 10_000 == 100);
        assert(1_000_000nat / 100_000 == 10);
        assert(1_000_000nat / 1_000_000 == 1);
    }
    assert(windows * state.window_nanos == 1_000_000_000) by (nonlinear_arith)
        requires
            windows * window == 1_000_000,
            state.window_nanos == window * 1_000,
    ;
    assert(frames == windows * (state.burst_count + 1)) by (nonlinear_arith)
        requires
            frames == (burst + 1) * windows,
            state.burst_count == burst,
    ;
    lemma_sustained_run(state, start, windows);
    // the burst is the whole part of the frame rate over the windows
    assert(fps < (burst + 1) * windows <= fps + windows) by {
        vstd::arithmetic::div_mod::lemma_fundamental_div_mod(fps as int, windows as int);
        vstd::arithmetic::div_mod::lemma_mod_bound(fps as int, windows as int);
        assert((burst + 1) * windows == windows * burst + windows) by (nonlinear_arith);
    }
    // the frame rate is the whole part of the target over the frame
    assert(speed as nat * 1024 / 8 == 128 * speed);
    assert(fps * mtu <= 128 * speed < (fps + 1) * mtu) by {
        vstd::arithmetic::div_mod::lemma_fundamental_div_mod(128 * speed, mtu as int);
        vstd::arithmetic::div_mod::lemma_mod_bound(128 * speed, mtu as int);
        assert(fps * mtu == mtu * fps) by (nonlinear_arith);
        assert((fps + 1) * mtu == mtu * fps + mtu) by (nonlinear_arith);
    }
    assert(128 * speed < frames * mtu <= 128 * speed + windows * mtu) by (nonlinear_arith)
        requires
            fps < frames <= fps + windows,
            fps * mtu <= 128 * speed < (fps + 1) * mtu,
            mtu > 0,
    ;
    assert(20 * windows * mtu <= 128 * speed ==> 20 * frames * mtu <= 21 * 128 * speed)
        by (nonlinear_arith)
        requires
            frames * mtu <= 128 * speed + windows * mtu,
    ;
    assert(paced(state, start, frames) == (state, (start + 1_000_000_000) as nat));
}

/// The limiter that sends in bursts.
pub struct BurstLimiter {
    clock: Clock,
    window_nanos: u64,
    burst_count: u64,
    state: Option<(u128, u64)>,
    disabled: bool,
}

impl View for BurstLimiter {
    type V = BurstState;

    closed spec fn view(&self) -> BurstState {
        BurstState {
            window_nanos: self.window_nanos as nat,
            burst_count: self.burst_count as nat,
            disabled: self.disabled,
            running: match self.state {
                Some((start, remaining)) => Some(
                    Run { start: start as nat, remaining: remaining as nat },
                ),
                None => None,
            },
        }
    }
}

/// Computes `window_micros`.
pub fn choose_window(fps: u64, dynamic_window: bool) -> (window: u64)
    ensures
        window == window_micros(fps as nat, dynamic_window),
        0 < window <= 1_000_000,
{
    if !dynamic_window {
        1_000_000
    } else if fps == 0 {
        1
    } else if fps <= 99 {
        1_000_000
    } else if fps <= 999 {
        100_000
    } else if fps <= 9_999 {
        10_000
    } else if fps <= 99_999 {
        100
    } else {
        1
    }
}

impl BurstLimiter {
    #[verifier::type_invariant]
    spec fn inv(self) -> bool {
        self.window_nanos <= 1_000_000_000
    }

    /// A limiter for `speed` kilobits per second with frames of `mtu`
    /// bytes, with a window of a second or, with `dynamic_window`, one that
    /// fits the frame rate.
    pub fn new(speed: u32, mtu: u16, dynamic_window: bool) -> (limiter: Self)
        requires
            mtu > 0,
        ensures
            limiter@ == BurstState::configured(speed, mtu, dynamic_window),
    {
        let fps: u64 = frame_rate(speed, mtu);
        let window: u64 = choose_window(fps, dynamic_window);
        let windows_per_second: u64 = MICROS_PER_SEC / window;
        assert(windows_per_second >= 1) by (nonlinear_arith)
            requires
                windows_per_second == 1_000_000u64 / window,
                0 < window <= 1_000_000,
        ;
        Self {
            clock: Clock::start(),
            window_nanos: window * 1_000,
            burst_count: fps / windows_per_second,
            state: None,
            disabled: speed == 0,
        }
    }

    /// The pause before the next send, asked at `now`, a reading of the
    /// limiter's clock.
    pub fn sleep_interval_at(&mut self, now: u128) -> (pause: Pause)
        ensures
            final(self)@ == old(self)@.after(now as nat),
            pause.nanos == old(self)@.pause_at(now as nat),
            pause.nanos <= 1_000_000_000,
    {
        proof {
            use_type_invariant(&*self);
        }
        if self.disabled {
            return Pause::zero();
        }
        let (start, remaining): (u128, u64) = match self.state {
            Some(run) => run,
            None => (now, self.burst_count),
        };
        if remaining > 0 {
            self.state = Some((start, remaining - 1));
            Pause::zero()
        } else {
            self.state = None;
            let elapsed: u128 = if now >= start {
                now - start
            } else {
                0
            };
            if elapsed >= self.window_nanos as u128 {
                Pause::zero()
            } else {
                Pause { nanos: self.window_nanos - elapsed as u64 }
            }
        }
    }
}

impl Limiter for BurstLimiter {
    /// The call is one of `sleep_interval_at`, at some reading of the
    /// limiter's clock. The pause is a second at most.
    open spec fn asked(before: &Self, after: &Self, pause: Pause) -> bool {
        &&& exists|now: nat|
            after@ == before@.after(now) && pause.nanos == before@.pause_at(now)
        &&& pause.nanos <= 1_000_000_000
    }

    /// The pause before the next send, asked at the present moment.
    fn sleep_interval(&mut self) -> (pause: Pause) {
        let now: u128 = self.clock.nanos();
        let pause: Pause = self.sleep_interval_at(now);
        assert(self@ == old(self)@.after(now as nat) && pause.nanos == old(self)@.pause_at(
            now as nat,
        ));
        pause
    }
}

} // verus!
