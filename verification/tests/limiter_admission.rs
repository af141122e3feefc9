//! Tests of the token-bucket rate limiter: burst capacity, refill
//! spacing, and key independence.

use sticker_export::limiter::Limiter;

#[test]
fn burst_admits_exactly_burst_requests_instantaneously() {
    let mut limiter = Limiter::new(20, 5);
    let t0: u64 = 1_700_000_000_000;
    for _ in 0..5 {
        assert!(limiter.check(7, t0));
    }
    assert!(!limiter.check(7, t0));
    assert!(!limiter.check(7, t0));
}

#[test]
fn refill_is_one_token_per_interval() {
    // 20 tokens per minute: one token every 3000 ms.
    let mut limiter = Limiter::new(20, 5);
    let t0: u64 = 1_700_000_000_000;
    for _ in 0..5 {
        assert!(limiter.check(1, t0));
    }
    assert!(!limiter.check(1, t0));
    // Not a full interval yet.
    assert!(!limiter.check(1, t0 + 2999));
    // One interval after exhaustion: exactly one token back.
    assert!(limiter.check(1, t0 + 3000));
    assert!(!limiter.check(1, t0 + 3000));
    // Two more intervals: two more tokens, not three.
    assert!(limiter.check(1, t0 + 9000));
    assert!(limiter.check(1, t0 + 9000));
    assert!(!limiter.check(1, t0 + 9000));
}

#[test]
fn keys_do_not_interfere() {
    let mut limiter = Limiter::new(20, 2);
    let t0: u64 = 42_000;
    assert!(limiter.check(1, t0));
    assert!(limiter.check(1, t0));
    assert!(!limiter.check(1, t0));
    // A different key still has its whole burst.
    assert!(limiter.check(2, t0));
    assert!(limiter.check(2, t0));
    assert!(!limiter.check(2, t0));
}

#[test]
fn an_idle_bucket_does_not_accumulate_beyond_burst() {
    let mut limiter = Limiter::new(60, 3);
    let t0: u64 = 10_000_000;
    assert!(limiter.check(5, t0));
    // A long idle stretch refills to the burst capacity, no further.
    let later = t0 + 3_600_000;
    for _ in 0..3 {
        assert!(limiter.check(5, later));
    }
    assert!(!limiter.check(5, later));
}
