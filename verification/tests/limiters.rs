use loss_tester_rs::speed_controllers::burst::choose_window;
use loss_tester_rs::speed_controllers::{
    frame_rate, BurstLimiter, Limiter, OverTimeLimiter, Pause, StaticLimiter, UnLimiter,
    MAX_PAUSE_NANOS,
};

const SEC: u128 = 1_000_000_000;

#[test]
fn pause_in_nanoseconds() {
    assert_eq!(Pause::zero(), Pause { nanos: 0 });
    assert!(Pause::zero().is_zero());
    assert_eq!(Pause::from_micros(11_764), Pause { nanos: 11_764_000 });
    assert!(!Pause::from_micros(1).is_zero());
    assert_eq!(Pause::from_micros(1_000_000).nanos, MAX_PAUSE_NANOS);
}

#[test]
fn frame_rate_in_whole_frames() {
    assert_eq!(frame_rate(1000, 1500), 85);
    assert_eq!(frame_rate(0, 1500), 0);
    assert_eq!(frame_rate(11, 1500), 0);
    assert_eq!(frame_rate(12, 1500), 1);
    assert_eq!(frame_rate(100, 128), 100);
    assert_eq!(frame_rate(u32::MAX, 1), 4_294_967_295 * 128);
}

#[test]
fn unlimiter_never_pauses() {
    let mut limiter = UnLimiter::new();
    for _ in 0..1000 {
        assert_eq!(limiter.sleep_interval(), Pause::zero());
    }
}

#[test]
fn static_limiter_spaces_frames_over_a_second() {
    let mut limiter = StaticLimiter::new(1000, 1500);
    // 85 frames a second: 11_764 microseconds apart
    assert_eq!(limiter.sleep_interval(), Pause { nanos: 11_764_000 });
    assert_eq!(limiter.sleep_interval(), Pause { nanos: 11_764_000 });
    let mut limiter = StaticLimiter::new(12, 1500);
    assert_eq!(limiter.sleep_interval(), Pause { nanos: 1_000_000_000 });
    let mut limiter = StaticLimiter::new(u32::MAX, 1);
    assert_eq!(limiter.sleep_interval(), Pause::zero());
    let mut limiter = StaticLimiter::new(7813, 1);
    // 1_000_064 frames a second leave no whole microsecond
    assert_eq!(limiter.sleep_interval(), Pause::zero());
    let mut limiter = StaticLimiter::new(7812, 1);
    assert_eq!(limiter.sleep_interval(), Pause { nanos: 1_000 });
}

#[test]
fn static_limiter_with_no_target_never_pauses() {
    for mtu in [0u16, 1, 1500, u16::MAX] {
        let mut limiter = StaticLimiter::new(0, mtu);
        for _ in 0..10 {
            assert_eq!(limiter.sleep_interval(), Pause::zero());
        }
    }
}

#[test]
fn window_by_frame_rate() {
    assert_eq!(choose_window(0, true), 1);
    assert_eq!(choose_window(1, true), 1_000_000);
    assert_eq!(choose_window(99, true), 1_000_000);
    assert_eq!(choose_window(100, true), 100_000);
    assert_eq!(choose_window(999, true), 100_000);
    assert_eq!(choose_window(1_000, true), 10_000);
    assert_eq!(choose_window(9_999, true), 10_000);
    assert_eq!(choose_window(10_000, true), 100);
    assert_eq!(choose_window(99_999, true), 100);
    assert_eq!(choose_window(100_000, true), 1);
    assert_eq!(choose_window(u64::MAX, true), 1);
}

#[test]
fn window_of_a_second_unless_adaptive() {
    for fps in [0u64, 1, 99, 100, 5_000, 100_000, u64::MAX] {
        assert_eq!(choose_window(fps, false), 1_000_000);
    }
}

/// Counts the calls that get no pause, up to the first pause, all at `at`.
fn burst_then_pause(limiter: &mut BurstLimiter, at: u128) -> (u64, Pause) {
    let mut free = 0;
    loop {
        let pause = limiter.sleep_interval_at(at);
        if !pause.is_zero() {
            return (free, pause);
        }
        free += 1;
        assert!(free < 10_000_000);
    }
}

#[test]
fn burst_of_a_second() {
    let mut limiter = BurstLimiter::new(1000, 1500, false);
    assert_eq!(burst_then_pause(&mut limiter, 0), (85, Pause { nanos: 1_000_000_000 }));
    assert_eq!(burst_then_pause(&mut limiter, SEC), (85, Pause { nanos: 1_000_000_000 }));
}

#[test]
fn burst_sizes_by_window() {
    // frames of 128 bytes: as many frames a second as kilobits
    let mut limiter = BurstLimiter::new(99, 128, true);
    assert_eq!(burst_then_pause(&mut limiter, 0), (99, Pause { nanos: 1_000_000_000 }));
    let mut limiter = BurstLimiter::new(100, 128, true);
    assert_eq!(burst_then_pause(&mut limiter, 0), (10, Pause { nanos: 100_000_000 }));
    let mut limiter = BurstLimiter::new(999, 128, true);
    assert_eq!(burst_then_pause(&mut limiter, 0), (99, Pause { nanos: 100_000_000 }));
    let mut limiter = BurstLimiter::new(1_000, 128, true);
    assert_eq!(burst_then_pause(&mut limiter, 0), (10, Pause { nanos: 10_000_000 }));
    let mut limiter = BurstLimiter::new(9_999, 128, true);
    assert_eq!(burst_then_pause(&mut limiter, 0), (99, Pause { nanos: 10_000_000 }));
    let mut limiter = BurstLimiter::new(10_000, 128, true);
    assert_eq!(burst_then_pause(&mut limiter, 0), (1, Pause { nanos: 100_000 }));
    let mut limiter = BurstLimiter::new(99_999, 128, true);
    assert_eq!(burst_then_pause(&mut limiter, 0), (9, Pause { nanos: 100_000 }));
    let mut limiter = BurstLimiter::new(100_000, 128, true);
    assert_eq!(burst_then_pause(&mut limiter, 0), (0, Pause { nanos: 1_000 }));
    let mut limiter = BurstLimiter::new(3_000_000, 128, true);
    assert_eq!(burst_then_pause(&mut limiter, 0), (3, Pause { nanos: 1_000 }));
}

#[test]
fn burst_of_a_second_at_any_rate() {
    let mut limiter = BurstLimiter::new(100_000, 128, false);
    assert_eq!(burst_then_pause(&mut limiter, 0), (100_000, Pause { nanos: 1_000_000_000 }));
}

#[test]
fn less_than_a_frame_a_second_pauses_every_time() {
    let mut limiter = BurstLimiter::new(1, 1500, true);
    assert_eq!(limiter.sleep_interval_at(0), Pause { nanos: 1_000 });
    assert_eq!(limiter.sleep_interval_at(10), Pause { nanos: 1_000 });
    let mut limiter = BurstLimiter::new(1, 1500, false);
    assert_eq!(limiter.sleep_interval_at(0), Pause { nanos: 1_000_000_000 });
}

#[test]
fn disabled_burst_limiter_never_pauses() {
    for dynamic_window in [true, false] {
        let mut limiter = BurstLimiter::new(0, 1500, dynamic_window);
        for i in 0..1000u128 {
            assert_eq!(limiter.sleep_interval_at(i * 1000), Pause::zero());
        }
        assert_eq!(limiter.sleep_interval(), Pause::zero());
    }
}

#[test]
fn pause_is_what_is_left_of_the_window() {
    let mut limiter = BurstLimiter::new(100, 128, true);
    // ten frames in a window of 100 ms that begins with the first call
    for i in 0..10u128 {
        assert_eq!(limiter.sleep_interval_at(5 * SEC + i * 1_000_000), Pause::zero());
    }
    assert_eq!(limiter.sleep_interval_at(5 * SEC + 30_000_000), Pause { nanos: 70_000_000 });
    // the next window begins with the next call
    for i in 0..10u128 {
        assert_eq!(limiter.sleep_interval_at(6 * SEC + i), Pause::zero());
    }
    assert_eq!(limiter.sleep_interval_at(6 * SEC + 99_999_999), Pause { nanos: 1 });
}

#[test]
fn no_pause_once_the_window_is_over() {
    let mut limiter = BurstLimiter::new(100, 128, true);
    for _ in 0..10 {
        assert_eq!(limiter.sleep_interval_at(0), Pause::zero());
    }
    assert_eq!(limiter.sleep_interval_at(100_000_000), Pause::zero());
    for _ in 0..10 {
        assert_eq!(limiter.sleep_interval_at(SEC), Pause::zero());
    }
    assert_eq!(limiter.sleep_interval_at(9 * SEC), Pause::zero());
    // a clock that stepped back counts as no time spent
    for _ in 0..10 {
        assert_eq!(limiter.sleep_interval_at(20 * SEC), Pause::zero());
    }
    assert_eq!(limiter.sleep_interval_at(19 * SEC), Pause { nanos: 100_000_000 });
}

#[test]
fn burst_limiter_holds_the_target_rate() {
    // 1000 kbit/s with frames of 1500 bytes, over ten minutes of a clock
    // that only moves while the sender sleeps
    for dynamic_window in [true, false] {
        let mut limiter = BurstLimiter::new(1000, 1500, dynamic_window);
        let mut now: u128 = 0;
        let mut frames: u128 = 0;
        while now < 600 * SEC {
            frames += 1;
            now += limiter.sleep_interval_at(now).nanos as u128;
        }
        let kbps = frames * 1500 * 8 / 1024 / 600;
        assert!(kbps >= 950 && kbps <= 1050, "{kbps}");
        assert_eq!(frames, 600 * 86);
    }
}

#[test]
fn burst_limiter_holds_a_high_target_rate() {
    // 100 Mbit/s: 8533 frames a second, in windows of 10 ms
    let mut limiter = BurstLimiter::new(100_000, 1500, true);
    let mut now: u128 = 0;
    let mut frames: u128 = 0;
    while now < 10 * SEC {
        frames += 1;
        // every send takes a microsecond
        now += 1_000;
        now += limiter.sleep_interval_at(now).nanos as u128;
    }
    let kbps = frames * 1500 * 8 / 1024 / 10;
    assert!(kbps >= 95_000 && kbps <= 105_000, "{kbps}");
}

#[test]
fn burst_limiter_on_the_real_clock() {
    let mut limiter = BurstLimiter::new(1000, 1500, true);
    for _ in 0..85 {
        assert_eq!(limiter.sleep_interval(), Pause::zero());
    }
    let pause = limiter.sleep_interval();
    assert!(pause.nanos > 0 && pause.nanos <= MAX_PAUSE_NANOS);
}

#[test]
fn overtime_limiter_decays() {
    let mut limiter = OverTimeLimiter::new(1000, 1500);
    // 85 frames a second at first
    assert_eq!(limiter.sleep_interval_at(0), Pause { nanos: 11_764_000 });
    assert_eq!(limiter.sleep_interval_at(SEC - 1), Pause { nanos: 11_764_000 });
    // 950 kbit/s after a second: 81 frames
    assert_eq!(limiter.sleep_interval_at(SEC), Pause { nanos: 12_345_000 });
    // 500 kbit/s after ten: 42 frames
    assert_eq!(limiter.sleep_interval_at(10 * SEC), Pause { nanos: 23_809_000 });
    // 50 kbit/s after nineteen: 4 frames
    assert_eq!(limiter.sleep_interval_at(19 * SEC), Pause { nanos: 250_000_000 });
}

#[test]
fn overtime_limiter_starts_over_at_the_bottom() {
    let mut limiter = OverTimeLimiter::new(1000, 1500);
    assert_eq!(limiter.sleep_interval_at(20 * SEC), Pause { nanos: 1_000_000_000 });
    assert_eq!(limiter.sleep_interval_at(21 * SEC - 1), Pause { nanos: 11_764_000 });
    assert_eq!(limiter.sleep_interval_at(21 * SEC), Pause { nanos: 12_345_000 });
}

#[test]
fn overtime_limiter_stays_at_the_bottom_when_it_is_late() {
    let mut limiter = OverTimeLimiter::new(1030, 1500);
    // 30 kbit/s are left after twenty seconds: two frames a second
    assert_eq!(limiter.sleep_interval_at(20 * SEC), Pause { nanos: 500_000_000 });
    // and nothing after twenty-one, or after an hour
    let mut late = OverTimeLimiter::new(1030, 1500);
    assert_eq!(late.sleep_interval_at(21 * SEC), Pause { nanos: 1_000_000_000 });
    let mut later = OverTimeLimiter::new(1030, 1500);
    assert_eq!(later.sleep_interval_at(3600 * SEC), Pause { nanos: 1_000_000_000 });
    assert_eq!(later.sleep_interval_at(3600 * SEC + 5), Pause { nanos: 11_494_000 });
    assert_eq!(later.sleep_interval_at(u128::MAX), Pause { nanos: 1_000_000_000 });
}

#[test]
fn overtime_limiter_with_less_than_a_frame_a_second() {
    let mut limiter = OverTimeLimiter::new(11, 1500);
    assert_eq!(limiter.sleep_interval_at(0), Pause { nanos: 1_000_000_000 });
    let mut limiter = OverTimeLimiter::new(0, 1);
    assert_eq!(limiter.sleep_interval_at(0), Pause { nanos: 1_000_000_000 });
    assert_eq!(limiter.sleep_interval(), Pause { nanos: 1_000_000_000 });
}

#[test]
fn overtime_limiter_on_the_real_clock() {
    let mut limiter = OverTimeLimiter::new(1000, 1500);
    assert_eq!(limiter.sleep_interval(), Pause { nanos: 11_764_000 });
}

#[test]
fn every_limiter_asks_for_a_second_at_most() {
    fn ask<L: Limiter>(limiter: &mut L) {
        for _ in 0..200 {
            assert!(limiter.sleep_interval().nanos <= MAX_PAUSE_NANOS);
        }
    }
    ask(&mut UnLimiter::new());
    ask(&mut StaticLimiter::new(12, 1500));
    ask(&mut OverTimeLimiter::new(1, 1500));
    ask(&mut BurstLimiter::new(1, 1500, false));
    ask(&mut BurstLimiter::new(1000, 1500, true));
}

/// Frames that go out in `secs` seconds of a clock that only moves while the
/// sender sleeps.
fn frames_in(limiter: &mut BurstLimiter, secs: u128) -> u128 {
    let mut now: u128 = 0;
    let mut frames: u128 = 0;
    while now < secs * SEC {
        frames += 1;
        now += limiter.sleep_interval_at(now).nanos as u128;
    }
    frames
}

#[test]
fn every_window_takes_one_frame_more_than_the_burst() {
    // 100 frames a second in ten windows of ten: eleven go out in each
    let mut limiter = BurstLimiter::new(100, 128, true);
    assert_eq!(frames_in(&mut limiter, 10), 10 * 110);
    // one frame a second in a window of a second: two go out
    let mut limiter = BurstLimiter::new(1, 128, false);
    assert_eq!(frames_in(&mut limiter, 10), 10 * 2);
    // 8533 frames a second in a hundred windows of 85: 86 go out in each
    let mut limiter = BurstLimiter::new(100_000, 1500, true);
    assert_eq!(frames_in(&mut limiter, 3), 3 * 8600);
}

#[test]
fn rate_is_within_a_twentieth_where_a_frame_per_window_is() {
    for (speed, mtu, dynamic_window) in [
        (1000u32, 1500u16, false),
        (1000, 1500, true),
        (2400, 1500, true),
        (100_000, 1500, true),
        (20, 128, false),
        (200, 128, true),
        (1_000_000, 9000, false),
        (300_000, 9000, true),
        (200_000, 1, true),
        (5_000_000, 64, false),
    ] {
        let windows = 1_000_000 / choose_window(frame_rate(speed, mtu), dynamic_window);
        assert!(20 * windows * mtu as u64 <= 128 * speed as u64);
        let mut limiter = BurstLimiter::new(speed, mtu, dynamic_window);
        let frames = frames_in(&mut limiter, 2) / 2;
        let bits = frames * mtu as u128 * 8;
        let target = speed as u128 * 1024;
        assert!(bits >= target && bits * 20 <= target * 21, "{speed} {mtu} {dynamic_window}");
    }
}
