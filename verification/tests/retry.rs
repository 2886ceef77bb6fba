use x_api_client::error::{ApiErrorDetail, Error, ErrorKind};
use x_api_client::rate_limit::tracker::{BucketState, GateDecision, RateLimitTracker};
use x_api_client::retry::classifier::{Classification, ErrorClassifier};
use x_api_client::retry::executor::{
    DispatchResult, Outcome, RetryAction, RetryAttempt, RetryExecutor, RetryPhase, RetryState,
};
use x_api_client::retry::policy::{Multiplier, RetryPolicy, RetryPolicyBuilder};

fn policy(max_retries: u32, initial: u64, max: u64, multiplier: Multiplier) -> RetryPolicy {
    RetryPolicy::custom()
        .max_retries(max_retries)
        .initial_interval(initial)
        .max_interval(max)
        .multiplier(multiplier)
        .jitter(false)
        .build()
        .unwrap()
}

#[test]
fn presets_have_their_settings() {
    let default_policy = RetryPolicy::new();
    assert_eq!(default_policy.initial_interval(), 1_000);
    assert_eq!(default_policy.max_interval(), 60_000);
    assert_eq!(default_policy.multiplier(), Multiplier::whole(2));
    assert!(default_policy.jitter());
    assert_eq!(RetryPolicy::default(), default_policy);

    let none = RetryPolicy::none();
    assert_eq!(none.initial_interval(), 1_000);
    assert_eq!(none.max_interval(), 1_000);
    assert_eq!(none.multiplier(), Multiplier::new(1, 1));
    assert!(!none.jitter());

    let aggressive = RetryPolicy::aggressive();
    assert_eq!(aggressive.initial_interval(), 100);
    assert_eq!(aggressive.max_interval(), 30_000);
    assert!(aggressive.jitter());

    let built = RetryPolicyBuilder::default().build().unwrap();
    assert_eq!(built, default_policy);
}

#[test]
fn builder_errors_name_the_setting() {
    match RetryPolicy::custom().multiplier(Multiplier::whole(0)).build() {
        Err(Error::Config(msg)) => {
            assert_eq!(msg, "Retry multiplier must be positive and finite")
        }
        other => panic!("expected a configuration error, got {:?}", other),
    }
    match RetryPolicy::custom()
        .initial_interval(60_001)
        .max_interval(60_000)
        .build()
    {
        Err(Error::Config(msg)) => assert_eq!(msg, "Initial interval must be <= max interval"),
        other => panic!("expected a configuration error, got {:?}", other),
    }
    // The multiplier is looked at first.
    match RetryPolicy::custom()
        .multiplier(Multiplier::new(1, 0))
        .initial_interval(2)
        .max_interval(1)
        .build()
    {
        Err(Error::Config(msg)) => {
            assert_eq!(msg, "Retry multiplier must be positive and finite")
        }
        other => panic!("expected a configuration error, got {:?}", other),
    }
    // Equal intervals are fine.
    assert!(RetryPolicy::custom()
        .initial_interval(5)
        .max_interval(5)
        .build()
        .is_ok());
    assert!(Multiplier::new(3, 2).is_positive_finite());
    assert!(!Multiplier::new(-3, 2).is_positive_finite());
}

#[test]
fn delays_double_until_the_maximum() {
    let p = policy(10, 100, 1_000, Multiplier::whole(2));
    let delays: Vec<u64> = (0..7).map(|k| p.delay_for(k, 12345)).collect();
    assert_eq!(delays, vec![100, 200, 400, 800, 1_000, 1_000, 1_000]);
    assert_eq!(p.delay_for(u32::MAX, 0), 1_000);
}

#[test]
fn delays_never_exceed_the_maximum_and_never_decrease() {
    for multiplier in [
        Multiplier::whole(1),
        Multiplier::new(3, 2),
        Multiplier::whole(2),
        Multiplier::whole(10),
        Multiplier::new(1_000_001, 1_000_000),
    ] {
        let p = policy(5, 250, 60_000, multiplier);
        let mut previous = 0;
        for attempt in 0..40 {
            let delay = p.delay_for(attempt, 0);
            assert!(delay <= 60_000);
            assert!(delay >= previous);
            previous = delay;
        }
    }
}

#[test]
fn fractional_multiplier_rounds_up() {
    let p = policy(5, 1, 100, Multiplier::new(3, 2));
    let delays: Vec<u64> = (0..6).map(|k| p.base_delay(k)).collect();
    assert_eq!(delays, vec![1, 2, 3, 5, 8, 12]);
}

#[test]
fn multiplier_below_one_shrinks_the_delay() {
    let p = policy(5, 1_000, 1_000, Multiplier::new(1, 2));
    let delays: Vec<u64> = (0..4).map(|k| p.base_delay(k)).collect();
    assert_eq!(delays, vec![1_000, 500, 250, 125]);
    assert_eq!(p.base_delay(1_000_000), 1);
}

#[test]
fn large_intervals_do_not_overflow() {
    let p = policy(5, u64::MAX - 1, u64::MAX, Multiplier::whole(i64::MAX));
    assert_eq!(p.base_delay(0), u64::MAX - 1);
    assert_eq!(p.base_delay(1), u64::MAX);
    assert_eq!(p.delay_for(2, u64::MAX), u64::MAX);
}

#[test]
fn jitter_stays_within_the_base_delay() {
    let p = RetryPolicy::custom()
        .initial_interval(100)
        .max_interval(1_000)
        .multiplier(Multiplier::whole(2))
        .jitter(true)
        .build()
        .unwrap();
    assert_eq!(p.base_delay(2), 400);
    assert_eq!(p.delay_for(2, 0), 0);
    assert_eq!(p.delay_for(2, 400), 400);
    assert_eq!(p.delay_for(2, 401), 0);
    assert_eq!(p.delay_for(2, 1_000_003), 1_000_003 % 401);
    for entropy in [1u64, 77, 400, 401, 9_999, u64::MAX] {
        assert!(p.delay_for(2, entropy) <= 400);
        assert!(p.delay_for(30, entropy) <= 1_000);
    }
}

#[test]
fn every_failure_kind_has_one_verdict() {
    let now = 1_000;
    let retryable = Classification::Retryable { resume_after: None };
    let detail = |status: u16| Error::Api(ApiErrorDetail::new("C", "m").with_status(status));
    let cases = vec![
        (Error::Network("dns".to_string()), retryable),
        (detail(500), retryable),
        (detail(503), retryable),
        (detail(599), retryable),
        (detail(429), retryable),
        (Error::Timeout(30_000), retryable),
        (Error::StreamDisconnected("eof".to_string()), retryable),
        (Error::InvalidResponse("html".to_string()), retryable),
        (detail(400), Classification::Permanent),
        (detail(404), Classification::Permanent),
        (detail(600), Classification::Permanent),
        (detail(302), Classification::Permanent),
        (Error::Api(ApiErrorDetail::new("C", "m")), Classification::Permanent),
        (Error::Authentication("x".to_string()), Classification::Permanent),
        (Error::Authorization("x".to_string()), Classification::Permanent),
        (Error::InvalidRequest("x".to_string()), Classification::Permanent),
        (Error::NotFound("x".to_string()), Classification::Permanent),
        (Error::Config("x".to_string()), Classification::Permanent),
        (Error::Serialization("x".to_string()), Classification::Permanent),
        (Error::OAuth("x".to_string()), Classification::Permanent),
        (Error::Io("x".to_string()), Classification::Permanent),
        (Error::StreamConnection("x".to_string()), Classification::Permanent),
    ];
    for (failure, verdict) in cases {
        assert_eq!(ErrorClassifier::classify(&failure, now), verdict, "{:?}", failure);
        // The same failure at the same time gets the same verdict again.
        assert_eq!(ErrorClassifier::classify(&failure, now), verdict);
        // The verdict agrees with what the error says of itself.
        assert_eq!(
            failure.is_retryable(),
            matches!(verdict, Classification::Retryable { .. })
        );
    }
}

#[test]
fn rate_limit_verdict_carries_the_time_until_reset() {
    let failure = Error::RateLimitExceeded {
        reset_at: 10_000,
        endpoint: "/2/tweets".to_string(),
        remaining: 0,
        limit: 15,
    };
    assert_eq!(
        ErrorClassifier::classify(&failure, 4_000),
        Classification::Retryable { resume_after: Some(6_000) }
    );
    assert_eq!(
        ErrorClassifier::classify(&failure, 10_000),
        Classification::Retryable { resume_after: Some(0) }
    );
    assert_eq!(
        ErrorClassifier::classify(&failure, 99_000),
        Classification::Retryable { resume_after: Some(0) }
    );
}

#[test]
fn statuses_become_failures() {
    assert!(ErrorClassifier::failure_for_status(200, "/e", None).is_none());
    assert!(ErrorClassifier::failure_for_status(204, "/e", None).is_none());
    assert!(ErrorClassifier::failure_for_status(299, "/e", None).is_none());
    assert!(ErrorClassifier::failure_for_status(199, "/e", None).is_some());
    assert!(ErrorClassifier::failure_for_status(300, "/e", None).is_some());

    match ErrorClassifier::failure_for_status(401, "/e", None) {
        Some(Error::Authentication(msg)) => assert_eq!(msg, "HTTP 401 Unauthorized"),
        other => panic!("unexpected {:?}", other),
    }
    match ErrorClassifier::failure_for_status(403, "/e", None) {
        Some(Error::Authorization(msg)) => assert_eq!(msg, "HTTP 403 Forbidden"),
        other => panic!("unexpected {:?}", other),
    }
    match ErrorClassifier::failure_for_status(404, "/2/tweets/:id", None) {
        Some(Error::NotFound(msg)) => assert_eq!(msg, "/2/tweets/:id"),
        other => panic!("unexpected {:?}", other),
    }
    let limits = BucketState { limit: 15, remaining: 0, reset_at: 9_000 };
    match ErrorClassifier::failure_for_status(429, "/e", Some(limits)) {
        Some(Error::RateLimitExceeded { reset_at, endpoint, remaining, limit }) => {
            assert_eq!((reset_at, endpoint.as_str(), remaining, limit), (9_000, "/e", 0, 15))
        }
        other => panic!("unexpected {:?}", other),
    }
    match ErrorClassifier::failure_for_status(429, "/e", None) {
        Some(Error::Api(detail)) => assert_eq!(detail.status, Some(429)),
        other => panic!("unexpected {:?}", other),
    }
    match ErrorClassifier::failure_for_status(503, "/e", Some(limits)) {
        Some(Error::Api(detail)) => {
            assert_eq!(detail.status, Some(503));
            assert_eq!(detail.code, "HTTP_ERROR");
            assert_eq!(detail.message, "HTTP status 503");
            assert_eq!(detail.parameter, None);
        }
        other => panic!("unexpected {:?}", other),
    }
}

fn response(status: u16) -> DispatchResult {
    DispatchResult::Response { status, rate_limit: None }
}

#[test]
fn no_retries_returns_the_first_failure() {
    // A retryable failure is reported as exhausted after one dispatch.
    let mut tracker = RateLimitTracker::new(true);
    let mut executor = RetryExecutor::new(RetryPolicy::none(), "/2/tweets");
    assert!(matches!(executor.poll(&tracker, 0), RetryAction::Dispatch));
    match executor.record(&mut tracker, response(503), 0, 0) {
        RetryAction::Finish(Outcome::Exhausted(Error::Api(detail))) => {
            assert_eq!(detail.status, Some(503))
        }
        other => panic!("unexpected {:?}", other),
    }
    assert_eq!(
        executor.state(),
        RetryState { phase: RetryPhase::Finished, attempt: 0, dispatches: 1 }
    );
    assert!(executor.is_finished());

    // A permanent failure is reported as failed after one dispatch.
    let mut executor = RetryExecutor::new(RetryPolicy::none(), "/2/tweets");
    assert!(matches!(executor.poll(&tracker, 0), RetryAction::Dispatch));
    match executor.record(&mut tracker, response(400), 0, 0) {
        RetryAction::Finish(Outcome::Failed(Error::Api(detail))) => {
            assert_eq!(detail.status, Some(400))
        }
        other => panic!("unexpected {:?}", other),
    }
    assert_eq!(executor.state().dispatches, 1);
}

#[test]
fn permanently_failing_dispatcher_is_tried_once_more_than_retries() {
    for max_retries in [0u32, 1, 3, 7] {
        let p = policy(max_retries, 10, 1_000, Multiplier::whole(2));
        let mut tracker = RateLimitTracker::new(true);
        let mut executor = RetryExecutor::new(p, "/2/tweets");
        let mut dispatches = 0u32;
        let mut backoffs = 0u32;
        let outcome = loop {
            match executor.poll(&tracker, 0) {
                RetryAction::Dispatch => dispatches += 1,
                other => panic!("unexpected {:?}", other),
            }
            let failure = DispatchResult::Failure(Error::Network("refused".to_string()));
            match executor.record(&mut tracker, failure, 0, 0) {
                RetryAction::Backoff(_) => backoffs += 1,
                RetryAction::Finish(outcome) => break outcome,
                other => panic!("unexpected {:?}", other),
            }
        };
        assert!(matches!(outcome, Outcome::Exhausted(Error::Network(_))));
        assert_eq!(dispatches, max_retries + 1);
        assert_eq!(backoffs, max_retries);
        assert_eq!(executor.state().dispatches, max_retries as u64 + 1);
        assert_eq!(executor.state().attempt, max_retries);
    }
}

#[test]
fn three_server_errors_then_success() {
    let p = policy(3, 100, 60_000, Multiplier::whole(2));
    let mut tracker = RateLimitTracker::new(true);
    let mut executor = RetryExecutor::new(p, "/2/tweets");
    let mut delays = Vec::new();
    let mut dispatches = 0;
    let statuses = [503u16, 503, 503, 200];
    let outcome = loop {
        assert!(matches!(executor.poll(&tracker, 0), RetryAction::Dispatch));
        let status = statuses[dispatches];
        dispatches += 1;
        match executor.record(&mut tracker, response(status), 0, 42) {
            RetryAction::Backoff(attempt) => delays.push(attempt),
            RetryAction::Finish(outcome) => break outcome,
            other => panic!("unexpected {:?}", other),
        }
    };
    assert!(matches!(outcome, Outcome::Success));
    assert_eq!(dispatches, 4);
    assert_eq!(
        delays,
        vec![
            RetryAttempt { attempt_number: 0, next_delay: 100, cause: ErrorKind::Api },
            RetryAttempt { attempt_number: 1, next_delay: 200, cause: ErrorKind::Api },
            RetryAttempt { attempt_number: 2, next_delay: 400, cause: ErrorKind::Api },
        ]
    );
}

#[test]
fn unauthorized_ends_on_the_first_attempt() {
    for max_retries in [0u32, 3, 100] {
        let p = policy(max_retries, 100, 60_000, Multiplier::whole(2));
        let mut tracker = RateLimitTracker::new(true);
        let mut executor = RetryExecutor::new(p, "/2/tweets");
        assert!(matches!(executor.poll(&tracker, 0), RetryAction::Dispatch));
        match executor.record(&mut tracker, response(401), 0, 0) {
            RetryAction::Finish(Outcome::Failed(Error::Authentication(_))) => {}
            other => panic!("unexpected {:?}", other),
        }
        assert_eq!(executor.state().dispatches, 1);
    }
}

#[test]
fn closed_gate_makes_the_executor_wait() {
    let mut tracker = RateLimitTracker::new(true);
    tracker.observe("/2/tweets", 15, 0, 5_000);
    let mut executor = RetryExecutor::new(RetryPolicy::new(), "/2/tweets");
    match executor.poll(&tracker, 1_000) {
        RetryAction::GateWait(wait) => assert_eq!(wait, 4_000),
        other => panic!("unexpected {:?}", other),
    }
    assert_eq!(executor.state(), RetryState { phase: RetryPhase::Gate, attempt: 0, dispatches: 0 });
    // After the wait the executor polls again and the request goes through.
    assert!(matches!(executor.poll(&tracker, 5_000), RetryAction::Dispatch));
    assert_eq!(executor.state().phase, RetryPhase::InFlight);
}

#[test]
fn response_headers_reach_the_tracker() {
    let mut tracker = RateLimitTracker::new(true);
    let mut executor = RetryExecutor::new(RetryPolicy::new(), "/2/tweets");
    assert!(matches!(executor.poll(&tracker, 0), RetryAction::Dispatch));
    let limits = BucketState { limit: 15, remaining: 0, reset_at: 9_000 };
    let result = DispatchResult::Response { status: 429, rate_limit: Some(limits) };
    // The rate limit itself says when to resume: that, not the backoff, is the delay.
    match executor.record(&mut tracker, result, 1_000, 0) {
        RetryAction::Backoff(attempt) => assert_eq!(
            attempt,
            RetryAttempt {
                attempt_number: 0,
                next_delay: 8_000,
                cause: ErrorKind::RateLimitExceeded
            }
        ),
        other => panic!("unexpected {:?}", other),
    }
    assert_eq!(tracker.bucket("/2/tweets"), Some(limits));
    // Another request to the same endpoint sees the closed gate at once.
    let mut peer = RetryExecutor::new(RetryPolicy::new(), "/2/tweets");
    assert!(matches!(peer.poll(&tracker, 2_000), RetryAction::GateWait(7_000)));
    assert_eq!(tracker.gate("/2/tweets", 9_000), GateDecision::Proceed);
}

#[test]
fn calls_out_of_turn_change_nothing() {
    let mut tracker = RateLimitTracker::new(true);
    let mut executor = RetryExecutor::new(RetryPolicy::new(), "/2/tweets");
    // Nothing is in flight yet.
    let limits = BucketState { limit: 15, remaining: 0, reset_at: 9_000 };
    let early = DispatchResult::Response { status: 200, rate_limit: Some(limits) };
    assert!(matches!(
        executor.record(&mut tracker, early, 0, 0),
        RetryAction::OutOfTurn
    ));
    assert_eq!(tracker.bucket("/2/tweets"), None);
    assert!(matches!(
        executor.record_failure(Error::Timeout(1), 0, 0),
        RetryAction::OutOfTurn
    ));
    assert_eq!(executor.state(), RetryState { phase: RetryPhase::Gate, attempt: 0, dispatches: 0 });

    assert!(matches!(executor.poll(&tracker, 0), RetryAction::Dispatch));
    // A dispatch is in flight: polling again is out of turn.
    assert!(matches!(executor.poll(&tracker, 0), RetryAction::OutOfTurn));
    assert!(matches!(
        executor.record(&mut tracker, response(200), 0, 0),
        RetryAction::Finish(Outcome::Success)
    ));
    // The request is over.
    assert!(matches!(executor.poll(&tracker, 0), RetryAction::OutOfTurn));
    assert!(matches!(
        executor.record(&mut tracker, response(200), 0, 0),
        RetryAction::OutOfTurn
    ));
    assert_eq!(executor.policy(), RetryPolicy::new());
}

#[test]
fn attempt_timeout_consumes_one_retry() {
    let p = policy(1, 50, 1_000, Multiplier::whole(2));
    let mut tracker = RateLimitTracker::new(true);
    let mut executor = RetryExecutor::new(p, "/2/tweets");
    assert!(matches!(executor.poll(&tracker, 0), RetryAction::Dispatch));
    match executor.record(&mut tracker, DispatchResult::Failure(Error::Timeout(30_000)), 0, 0) {
        RetryAction::Backoff(attempt) => assert_eq!(
            attempt,
            RetryAttempt { attempt_number: 0, next_delay: 50, cause: ErrorKind::Timeout }
        ),
        other => panic!("unexpected {:?}", other),
    }
    assert!(matches!(executor.poll(&tracker, 0), RetryAction::Dispatch));
    assert!(matches!(
        executor.record(&mut tracker, DispatchResult::Failure(Error::Timeout(30_000)), 0, 0),
        RetryAction::Finish(Outcome::Exhausted(Error::Timeout(30_000)))
    ));
}

#[test]
fn executor_runs_without_a_tracker_of_its_own() {
    let p = policy(2, 100, 1_000, Multiplier::whole(3));
    let mut executor = RetryExecutor::new(p, "/2/tweets");
    assert!(matches!(
        executor.poll_with(GateDecision::Wait(250)),
        RetryAction::GateWait(250)
    ));
    assert!(matches!(executor.poll_with(GateDecision::Proceed), RetryAction::Dispatch));
    match executor.record_status(500, None, 0, 0) {
        RetryAction::Backoff(attempt) => assert_eq!(attempt.next_delay, 100),
        other => panic!("unexpected {:?}", other),
    }
    assert!(matches!(executor.poll_with(GateDecision::Proceed), RetryAction::Dispatch));
    match executor.record_status(502, None, 0, 0) {
        RetryAction::Backoff(attempt) => assert_eq!(attempt.next_delay, 300),
        other => panic!("unexpected {:?}", other),
    }
    assert!(matches!(executor.poll_with(GateDecision::Proceed), RetryAction::Dispatch));
    assert!(matches!(
        executor.record_status(204, None, 0, 0),
        RetryAction::Finish(Outcome::Success)
    ));
    assert!(matches!(executor.record_status(204, None, 0, 0), RetryAction::OutOfTurn));
}
