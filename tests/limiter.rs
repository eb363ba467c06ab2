use wlrs_relay::cfg::{Config, DEFAULT_RATE_LIMIT};
use wlrs_relay::limiter::RateLimiter;

#[test]
fn first_limit_attempts_admitted_then_refused_forever() {
    let mut l = RateLimiter::new(3);
    assert!(l.check(7));
    assert!(l.check(7));
    assert!(l.check(7));
    for _ in 0..300 {
        assert!(!l.check(7));
    }
}

#[test]
fn origins_are_counted_apart() {
    let mut l = RateLimiter::new(1);
    assert!(l.check(1));
    assert!(!l.check(1));
    assert!(l.check(2));
    assert!(!l.check(2));
}

#[test]
fn zero_limit_refuses_everything() {
    let mut l = RateLimiter::new(0);
    assert!(!l.check(42));
}

#[test]
fn largest_limit_admits_255_attempts() {
    let mut l = RateLimiter::new(255);
    for _ in 0..255 {
        assert!(l.check(u128::MAX));
    }
    assert!(!l.check(u128::MAX));
    assert!(!l.check(u128::MAX));
}

#[test]
fn default_config_limit_is_25() {
    assert_eq!(Config::default().rate_limit(), 25);
    assert_eq!(DEFAULT_RATE_LIMIT, 25);
    let mut l = RateLimiter::new(Config::default().rate_limit());
    for _ in 0..25 {
        assert!(l.check(0x7f00_0001));
    }
    assert!(!l.check(0x7f00_0001));
}

#[test]
fn config_keeps_given_limit() {
    assert_eq!(Config::new(4).rate_limit(), 4);
}
