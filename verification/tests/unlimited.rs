use std::time::Duration;

use loss_tester_rs::speed_controllers::{Limiter, UnLimiter};

#[test]
fn test_unlimiter() {
    let mut limiter = UnLimiter::new();
    assert_eq!(Duration::from_nanos(limiter.sleep_interval().nanos), Duration::ZERO);
}
