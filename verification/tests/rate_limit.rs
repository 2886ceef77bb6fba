use x_api_client::rate_limit::queue::ConcurrencyLimiter;
use x_api_client::rate_limit::tracker::{BucketState, GateDecision, RateLimitTracker};
use x_api_client::rate_limit::{RateLimitConfig, RateLimitConfigBuilder};
use x_api_client::error::Error;

#[test]
fn zero_global_limit_is_a_configuration_error() {
    match RateLimitConfig::custom().global_limit(0).build() {
        Err(Error::Config(msg)) => assert_eq!(
            msg,
            "Global concurrent request limit must be greater than zero"
        ),
        other => panic!("expected a configuration error, got {:?}", other),
    }
    assert!(RateLimitConfig::custom().global_limit(1).build().is_ok());
    assert!(RateLimitConfig::custom().build().is_ok());
}

#[test]
fn config_builder_keeps_what_was_set() {
    let config = RateLimitConfigBuilder::default()
        .auto_wait(false)
        .global_limit(7)
        .build()
        .unwrap();
    assert_eq!(config.global_limit(), Some(7));
    assert!(config.per_endpoint_tracking());
    assert!(!config.auto_wait());
    assert_eq!(RateLimitConfig::default(), RateLimitConfig::new());
    assert_eq!(RateLimitConfig::new().global_limit(), None);
    assert_eq!(RateLimitConfig::disabled().global_limit(), None);
}

#[test]
fn unknown_endpoint_proceeds() {
    let tracker = RateLimitTracker::new(true);
    assert_eq!(tracker.gate("/2/tweets", 0), GateDecision::Proceed);
    assert_eq!(tracker.bucket("/2/tweets"), None);
    assert_eq!(tracker.gate_now("/2/tweets"), GateDecision::Proceed);
}

#[test]
fn exhausted_bucket_waits_until_its_reset_time() {
    let reset_at = 1_700_000_060_000;
    let mut tracker = RateLimitTracker::new(true);
    tracker.observe("/2/tweets", 100, 0, reset_at);

    // While the reset time lies ahead the wait is positive and exact.
    assert_eq!(
        tracker.gate("/2/tweets", reset_at - 60_000),
        GateDecision::Wait(60_000)
    );
    assert_eq!(tracker.gate("/2/tweets", reset_at - 1), GateDecision::Wait(1));
    // From the reset time on the request proceeds.
    assert_eq!(tracker.gate("/2/tweets", reset_at), GateDecision::Proceed);
    assert_eq!(tracker.gate("/2/tweets", reset_at + 1), GateDecision::Proceed);
    // Other endpoints are not affected.
    assert_eq!(tracker.gate("/2/users", reset_at - 1), GateDecision::Proceed);
}

#[test]
fn bucket_with_requests_remaining_proceeds() {
    let mut tracker = RateLimitTracker::new(true);
    tracker.observe("/2/tweets", 100, 1, 5_000);
    assert_eq!(tracker.gate("/2/tweets", 0), GateDecision::Proceed);
}

#[test]
fn exhausted_bucket_recovers_with_fresh_headers() {
    let now = 1_700_000_000_000;
    let mut tracker = RateLimitTracker::new(true);
    tracker.observe("/2/users/:id/likes", 15, 0, now + 5_000);
    assert_eq!(
        tracker.gate("/2/users/:id/likes", now),
        GateDecision::Wait(5_000)
    );

    // Time passes beyond the reset, and a response brings a fresh window.
    let later = now + 6_000;
    assert_eq!(tracker.gate("/2/users/:id/likes", later), GateDecision::Proceed);
    tracker.observe("/2/users/:id/likes", 15, 14, later + 900_000);
    assert_eq!(tracker.gate("/2/users/:id/likes", later), GateDecision::Proceed);
    assert_eq!(
        tracker.bucket("/2/users/:id/likes"),
        Some(BucketState { limit: 15, remaining: 14, reset_at: later + 900_000 })
    );
}

#[test]
fn observation_is_merged_into_the_bucket() {
    let mut tracker = RateLimitTracker::new(true);
    tracker.observe("/a", 10, 5, 1_000);
    tracker.observe("/b", 20, 0, 2_000);

    // A later window replaces the bucket.
    tracker.observe("/a", 10, 9, 3_000);
    assert_eq!(
        tracker.bucket("/a"),
        Some(BucketState { limit: 10, remaining: 9, reset_at: 3_000 })
    );
    // The same window replaces it too.
    tracker.observe("/a", 10, 8, 3_000);
    assert_eq!(
        tracker.bucket("/a"),
        Some(BucketState { limit: 10, remaining: 8, reset_at: 3_000 })
    );
    // An earlier window is out of date: the reset time never moves back.
    tracker.observe("/a", 10, 0, 2_999);
    assert_eq!(
        tracker.bucket("/a"),
        Some(BucketState { limit: 10, remaining: 8, reset_at: 3_000 })
    );
    // The other bucket was never touched.
    assert_eq!(
        tracker.bucket("/b"),
        Some(BucketState { limit: 20, remaining: 0, reset_at: 2_000 })
    );
}

#[test]
fn remaining_never_exceeds_the_limit() {
    let mut tracker = RateLimitTracker::new(true);
    tracker.observe("/a", 10, 50, 1_000);
    assert_eq!(
        tracker.bucket("/a"),
        Some(BucketState { limit: 10, remaining: 10, reset_at: 1_000 })
    );
    tracker.observe("/z", 0, 3, 1_000);
    assert_eq!(
        tracker.bucket("/z"),
        Some(BucketState { limit: 0, remaining: 0, reset_at: 1_000 })
    );
    assert_eq!(tracker.gate("/z", 999), GateDecision::Wait(1));
}

#[test]
fn disabled_tracker_records_nothing_and_never_waits() {
    let mut tracker = RateLimitTracker::from_config(&RateLimitConfig::disabled());
    assert!(!tracker.is_enabled());
    tracker.observe("/2/tweets", 100, 0, i64::MAX);
    assert_eq!(tracker.bucket("/2/tweets"), None);
    assert_eq!(tracker.gate("/2/tweets", 0), GateDecision::Proceed);
    assert_eq!(tracker.gate_now("/2/tweets"), GateDecision::Proceed);

    let enabled = RateLimitTracker::from_config(&RateLimitConfig::new());
    assert!(enabled.is_enabled());
}

#[test]
fn gate_now_reads_the_clock() {
    let mut tracker = RateLimitTracker::new(true);
    // A window that ended long ago lets the request through.
    tracker.observe("/past", 10, 0, 1_000);
    assert_eq!(tracker.gate_now("/past"), GateDecision::Proceed);
    // A window that ends in an hour holds it back for about that long.
    let now = chrono::Utc::now().timestamp_millis();
    tracker.observe("/ahead", 10, 0, now + 3_600_000);
    match tracker.gate_now("/ahead") {
        GateDecision::Wait(wait) => assert!(wait > 3_500_000 && wait <= 3_600_000),
        GateDecision::Proceed => panic!("expected a wait"),
    }
}

#[test]
fn gate_wait_spans_the_whole_time_range() {
    let mut tracker = RateLimitTracker::new(true);
    tracker.observe("/far", 1, 0, i64::MAX);
    assert_eq!(tracker.gate("/far", i64::MIN), GateDecision::Wait(u64::MAX));
}

#[test]
fn limiter_admits_up_to_its_ceiling() {
    let mut limiter = ConcurrencyLimiter::new(Some(2));
    assert!(limiter.try_acquire());
    assert!(limiter.try_acquire());
    assert!(!limiter.try_acquire());
    assert_eq!(limiter.in_flight(), 2);
    limiter.release();
    assert_eq!(limiter.in_flight(), 1);
    assert!(limiter.try_acquire());
    limiter.release();
    limiter.release();
    limiter.release();
    assert_eq!(limiter.in_flight(), 0);
}

#[test]
fn limiter_without_ceiling_admits_everything() {
    let mut limiter = ConcurrencyLimiter::new(None);
    for _ in 0..1000 {
        assert!(limiter.try_acquire());
    }
    assert_eq!(limiter.in_flight(), 1000);
}

#[test]
fn limits_are_read_from_the_headers() {
    assert_eq!(
        BucketState::from_headers(Some("15"), Some("14"), Some("1700000000")),
        Some(BucketState { limit: 15, remaining: 14, reset_at: 1_700_000_000_000 })
    );
    assert_eq!(
        BucketState::from_headers(Some("4294967295"), Some("0"), Some("9223372036854775")),
        Some(BucketState { limit: u32::MAX, remaining: 0, reset_at: 9_223_372_036_854_775_000 })
    );
    // A missing header, or one that is no number within range, announces nothing.
    assert_eq!(BucketState::from_headers(None, Some("14"), Some("1700000000")), None);
    assert_eq!(BucketState::from_headers(Some("15"), None, Some("1700000000")), None);
    assert_eq!(BucketState::from_headers(Some("15"), Some("14"), None), None);
    assert_eq!(BucketState::from_headers(Some("15"), Some("x"), Some("1700000000")), None);
    assert_eq!(BucketState::from_headers(Some("-1"), Some("14"), Some("1700000000")), None);
    assert_eq!(BucketState::from_headers(Some("4294967296"), Some("1"), Some("1")), None);
    assert_eq!(BucketState::from_headers(Some("1"), Some("4294967296"), Some("1")), None);
    assert_eq!(
        BucketState::from_headers(Some("1"), Some("1"), Some("9223372036854776")),
        None
    );
    assert_eq!(BucketState::from_headers(Some(""), Some("1"), Some("1")), None);
}

#[test]
fn single_buckets_merge_and_admit_like_the_tracker() {
    let observed = BucketState { limit: 15, remaining: 20, reset_at: 5_000 };
    let first = BucketState::merge(None, observed);
    assert_eq!(first, BucketState { limit: 15, remaining: 15, reset_at: 5_000 });
    let stale = BucketState { limit: 15, remaining: 0, reset_at: 4_999 };
    assert_eq!(BucketState::merge(Some(first), stale), first);
    let fresh = BucketState { limit: 15, remaining: 0, reset_at: 5_000 };
    assert_eq!(BucketState::merge(Some(first), fresh), fresh);
    assert_eq!(BucketState::admission(true, Some(fresh), 4_000), GateDecision::Wait(1_000));
    assert_eq!(BucketState::admission(false, Some(fresh), 4_000), GateDecision::Proceed);
    assert_eq!(BucketState::admission(true, Some(first), 4_000), GateDecision::Proceed);
    assert_eq!(BucketState::admission(true, None, 4_000), GateDecision::Proceed);
}
