use sms_scraper::ingestion::rate_limiter::{Admission, Limits, RateLimiter, TokenBucket};

#[test]
fn a_full_bucket_grants_until_empty_then_asks_to_wait() {
    let mut b = TokenBucket::full(2, 0);
    assert_eq!(b.take(1, 0), Admission::Granted);
    assert_eq!(b.take(1, 0), Admission::Granted);
    // two tokens a minute: one token refills in 30 000 ms
    assert_eq!(b.take(1, 0), Admission::Wait(30_000));
    assert_eq!(b.take(1, 29_999), Admission::Wait(1));
    assert_eq!(b.take(1, 30_000), Admission::Granted);
}

#[test]
fn waiting_the_time_asked_is_enough() {
    let mut b = TokenBucket::full(7, 1_000);
    for _ in 0..7 {
        assert_eq!(b.take(1, 1_000), Admission::Granted);
    }
    let mut now = 1_000;
    for _ in 0..5 {
        match b.take(1, now) {
            Admission::Wait(ms) => {
                now += ms;
                assert_eq!(b.take(1, now), Admission::Granted);
            },
            Admission::Granted => panic!("the bucket is empty"),
        }
    }
}

#[test]
fn the_bucket_never_holds_more_than_its_capacity() {
    let mut b = TokenBucket::full(3, 0);
    // an hour later the bucket still holds three tokens only
    assert_eq!(b.take(3, 3_600_000), Admission::Granted);
    assert_eq!(b.take(1, 3_600_000), Admission::Wait(20_000));
}

#[test]
fn requests_larger_than_the_capacity_wait() {
    let mut b = TokenBucket::full(10, 0);
    assert_eq!(b.take(11, 0), Admission::Wait(6_000));
}

#[test]
fn unlimited_limits_always_grant() {
    let mut r = RateLimiter::new(Limits { requests_per_min: None, bytes_per_min: Some(0), concurrency: Some(2) }, 0);
    for _ in 0..100 {
        assert_eq!(r.take_request(0), Admission::Granted);
        assert_eq!(r.take_bytes(1_000_000, 0), Admission::Granted);
    }
    assert_eq!(r.concurrency(), Some(2));
}

#[test]
fn limiter_counts_requests_and_bytes_separately() {
    let mut r = RateLimiter::new(Limits { requests_per_min: Some(1), bytes_per_min: Some(1_000), concurrency: None }, 0);
    assert_eq!(r.take_request(0), Admission::Granted);
    assert_eq!(r.take_request(0), Admission::Wait(60_000));
    assert_eq!(r.take_bytes(600, 0), Admission::Granted);
    // 200 bytes are missing; 1 000 bytes a minute refill one every 60 ms
    assert_eq!(r.take_bytes(600, 0), Admission::Wait(12_000));
    assert_eq!(r.take_bytes(600, 12_000), Admission::Granted);
}
