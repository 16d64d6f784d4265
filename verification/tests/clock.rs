use loss_tester_rs::clock::Clock;
use loss_tester_rs::frames::{FrameBuilder, FrameHandler};

#[test]
fn clock_does_not_run_backwards() {
    let clock = Clock::start();
    let mut last = clock.nanos();
    for _ in 0..100_000 {
        let now = clock.nanos();
        assert!(now >= last);
        last = now;
    }
}

#[test]
fn clock_moves_on() {
    let clock = Clock::start();
    let first = clock.nanos();
    let mut turns = 0u64;
    while clock.nanos() < first + 1_000_000 {
        turns += 1;
        assert!(turns < 10_000_000_000, "the clock stands still");
    }
    assert!(clock.nanos() - first >= 1_000_000);
}

#[test]
fn clock_counts_from_its_own_start() {
    let early = Clock::start();
    while early.nanos() < 2_000_000 {}
    let late = Clock::start();
    let (a, b) = (early.nanos(), late.nanos());
    assert!(a >= 2_000_000);
    assert!(b < a);
}

#[test]
fn builder_and_handler_read_their_clocks() {
    let builder = FrameBuilder::new(100);
    let handler = FrameHandler::new();
    let (b0, h0) = (builder.elapsed(), handler.now());
    while builder.elapsed() < b0 + 1_000_000 {}
    assert!(builder.elapsed() >= b0 + 1_000_000);
    assert!(handler.now() > h0);
}
