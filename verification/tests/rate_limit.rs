use localforge::server::rate_limit::RateLimiter;

const MINUTE: u64 = 60_000_000_000;

#[test]
fn test_allows_under_limit() {
    let mut limiter = RateLimiter::new(5, MINUTE);
    for i in 0..5u64 {
        assert!(limiter.check("test-key", 1_000 + i).is_ok());
    }
}

#[test]
fn test_blocks_over_limit() {
    let mut limiter = RateLimiter::new(2, MINUTE);
    assert!(limiter.check("test-key", 1).is_ok());
    assert!(limiter.check("test-key", 2).is_ok());
    assert!(limiter.check("test-key", 3).is_err());
}

#[test]
fn test_different_keys_independent() {
    let mut limiter = RateLimiter::new(1, MINUTE);
    assert!(limiter.check("key-a", 1).is_ok());
    assert!(limiter.check("key-b", 1).is_ok());
    assert!(limiter.check("key-a", 2).is_err());
}

#[test]
fn test_usage_tracking() {
    let mut limiter = RateLimiter::new(10, MINUTE);
    assert_eq!(limiter.usage("key", 0), 0);
    limiter.check("key", 1).unwrap();
    limiter.check("key", 2).unwrap();
    assert_eq!(limiter.usage("key", 3), 2);
}

#[test]
fn remaining_counts_down_and_retry_after_is_exact() {
    let mut limiter = RateLimiter::new(3, 100);
    assert_eq!(limiter.check("k", 1000), Ok(2));
    assert_eq!(limiter.check("k", 1010), Ok(1));
    assert_eq!(limiter.check("k", 1020), Ok(0));
    // the oldest request (1000) leaves the window 100 after it was made
    assert_eq!(limiter.check("k", 1050), Err(50));
}

#[test]
fn requests_expire_after_the_window() {
    let mut limiter = RateLimiter::new(1, 100);
    assert!(limiter.check("k", 1000).is_ok());
    assert!(limiter.check("k", 1099).is_err());
    assert_eq!(limiter.usage("k", 1100), 0);
    assert!(limiter.check("k", 1100).is_ok());
}

#[test]
fn cleanup_forgets_idle_keys() {
    let mut limiter = RateLimiter::new(2, 100);
    limiter.check("a", 10).unwrap();
    limiter.check("b", 150).unwrap();
    limiter.cleanup(200);
    assert_eq!(limiter.usage("a", 200), 0);
    assert_eq!(limiter.usage("b", 200), 1);
}

#[test]
fn default_limits_are_sixty_per_minute() {
    let mut limiter = RateLimiter::default_limits();
    for i in 0..60u64 {
        assert!(limiter.check("k", i).is_ok());
    }
    assert!(limiter.check("k", 60).is_err());
}
