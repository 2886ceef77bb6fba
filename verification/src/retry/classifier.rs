//! Classification of failures: worth another attempt, or permanent.
//!
//! The rules, the first that applies deciding:
//! - an exhausted rate limit is retryable once the limit resets, so the wait
//!   until then comes with the verdict;
//! - a transport failure is retryable;
//! - an API error with a server status (500 to 599) is retryable, and so is
//!   status 429 that came without a reset time;
//! - a timeout is retryable;
//! - a broken stream and an unreadable response are retryable;
//! - everything else is permanent: rejected credentials, malformed requests,
//!   missing resources, local configuration, serialization and I/O errors,
//!   and a stream that could not be established.
//! Only the exhausted rate limit names a wait of its own; for every other
//! retryable failure the backoff policy decides.

use crate::error::{time_until, ApiErrorDetail, Error, is_server_status, millis_until};
use crate::rate_limit::tracker::BucketState;
use crate::util::text::{concat2, decimal_text, u64_to_decimal};
use vstd::prelude::*;

verus! {

/// The verdict on a failure.
#[derive(Debug, Clone, Copy, PartialEq, Eq, Structural)]
pub enum Classification {
    /// Another attempt may succeed. `resume_after` is the wait in
    /// milliseconds that the failure itself asks for, if it names one.
    Retryable { resume_after: Option<u64> },
    /// Another attempt would fail in the same way.
    Permanent,
}

/// The verdict on `failure` when the clock shows `now`.
pub open spec fn classification(failure: Error, now: i64) -> Classification {
    match failure {
        Error::RateLimitExceeded { reset_at, .. } => Classification::Retryable {
            resume_after: Some(time_until(reset_at as int, now as int) as u64),
        },
        Error::Network(_) => Classification::Retryable { resume_after: None },
        Error::Api(detail) => match detail.status {
            Some(status) => if is_server_status(status) || status == 429 {
                Classification::Retryable { resume_after: None }
            } else {
                Classification::Permanent
            },
            None => Classification::Permanent,
        },
        Error::Timeout(_) => Classification::Retryable { resume_after: None },
        Error::StreamDisconnected(_) => Classification::Retryable { resume_after: None },
        Error::InvalidResponse(_) => Classification::Retryable { resume_after: None },
        Error::Authentication(_) => Classification::Permanent,
        Error::Authorization(_) => Classification::Permanent,
        Error::InvalidRequest(_) => Classification::Permanent,
        Error::NotFound(_) => Classification::Permanent,
        Error::Config(_) => Classification::Permanent,
        Error::Serialization(_) => Classification::Permanent,
        Error::OAuth(_) => Classification::Permanent,
        Error::Io(_) => Classification::Permanent,
        Error::StreamConnection(_) => Classification::Permanent,
    }
}

/// Whether `status` is a success (200 to 299).
pub open spec fn is_success_status(status: u16) -> bool {
    200 <= status < 300
}

/// Whether `failure` is the failure that stands for a response with the
/// given status from `endpoint`, which announced the limits `rate_limit`:
/// - 429 with limits: the exhausted rate limit with those limits;
/// - 401: rejected credentials; 403: missing permission;
/// - 404: the endpoint as the missing resource;
/// - every other status: an API error that carries the status.
pub open spec fn is_status_failure(
    failure: Error,
    status: u16,
    endpoint: Seq<char>,
    rate_limit: Option<BucketState>,
) -> bool {
    if status == 429 && rate_limit is Some {
        &&& failure matches Error::RateLimitExceeded { reset_at, endpoint: e, remaining, limit }
        &&& reset_at == rate_limit->0.reset_at
        &&& e@ == endpoint
        &&& remaining == rate_limit->0.remaining
        &&& limit == rate_limit->0.limit
    } else if status == 401 {
        failure matches Error::Authentication(m) && m@ == "HTTP 401 Unauthorized"@
    } else if status == 403 {
        failure matches Error::Authorization(m) && m@ == "HTTP 403 Forbidden"@
    } else if status == 404 {
        failure matches Error::NotFound(m) && m@ == endpoint
    } else {
        &&& failure matches Error::Api(detail)
        &&& detail.status == Some(status)
        &&& detail.code@ == "HTTP_ERROR"@
        &&& detail.message@ == "HTTP status "@ + decimal_text(status as nat)
        &&& detail.parameter is None
        &&& detail.value is None
        &&& detail.type_uri is None
    }
}

/// The classifier of failures.
#[derive(Debug, Clone, Copy)]
pub struct ErrorClassifier {}

impl ErrorClassifier {
    /// The verdict on `failure` when the clock shows `now`. Every failure
    /// gets exactly one verdict, and the same failure at the same time
    /// always the same.
    pub fn classify(failure: &Error, now: i64) -> (verdict: Classification)
        ensures
            verdict == classification(*failure, now),
    {
        match failure {
            Error::RateLimitExceeded { reset_at, .. } => Classification::Retryable {
                resume_after: Some(millis_until(*reset_at, now)),
            },
            Error::Network(_) => Classification::Retryable { resume_after: None },
            Error::Api(detail) => {
                if let Some(status) = detail.status {
                    if (500 <= status && status < 600) || status == 429 {
                        Classification::Retryable { resume_after: None }
                    } else {
                        Classification::Permanent
                    }
                } else {
                    Classification::Permanent
                }
            },
            Error::Timeout(_) => Classification::Retryable { resume_after: None },
            Error::StreamDisconnected(_) => Classification::Retryable { resume_after: None },
            Error::InvalidResponse(_) => Classification::Retryable { resume_after: None },
            Error::Authentication(_)
            | Error::Authorization(_)
            | Error::InvalidRequest(_)
            | Error::NotFound(_)
            | Error::Config(_)
            | Error::Serialization(_)
            | Error::OAuth(_)
            | Error::Io(_)
            | Error::StreamConnection(_) => Classification::Permanent,
        }
    }

    /// The failure that stands for a response with the given status, or
    /// `None` if the status is a success.
    pub fn failure_for_status(status: u16, endpoint: &str, rate_limit: Option<BucketState>) -> (failure:
        Option<Error>)
        ensures
            failure is None <==> is_success_status(status),
            failure matches Some(f) ==> is_status_failure(f, status, endpoint@, rate_limit),
    {
        if 200 <= status && status < 300 {
            return None;
        }
        if status == 429 {
            if let Some(limits) = rate_limit {
                return Some(
                    Error::RateLimitExceeded {
                        reset_at: limits.reset_at,
                        endpoint: endpoint.to_owned(),
                        remaining: limits.remaining,
                        limit: limits.limit,
                    },
                );
            }
        }
        if status == 401 {
            Some(Error::Authentication("HTTP 401 Unauthorized".to_owned()))
        } else if status == 403 {
            Some(Error::Authorization("HTTP 403 Forbidden".to_owned()))
        } else if status == 404 {
            Some(Error::NotFound(endpoint.to_owned()))
        } else {
            let number = u64_to_decimal(status as u64);
            let message = concat2("HTTP status ", number.as_str());
            Some(Error::Api(ApiErrorDetail::new("HTTP_ERROR", message.as_str()).with_status(status)))
        }
    }
}

/// Every failure is either retryable or permanent and never both; whether it
/// is retryable does not depend on the time, and agrees with
/// [`Error::spec_is_retryable`]; the wait that comes with the verdict is the
/// one the failure asks for, which only an exhausted rate limit does.
pub proof fn lemma_classification_total(failure: Error, now: i64, other_time: i64)
    ensures
        classification(failure, now) is Retryable <==> !(classification(failure, now) is Permanent),
        classification(failure, now) is Retryable <==> failure.spec_is_retryable(),
        classification(failure, now) is Retryable <==> classification(failure, other_time)
            is Retryable,
        classification(failure, now) matches Classification::Retryable { resume_after }
            ==> resume_after == failure.spec_retry_after(now),
        failure.spec_retry_after(now) is Some <==> failure is RateLimitExceeded,
{
}

/// The same failure at the same time gets the same verdict.
pub proof fn lemma_classification_deterministic(first: Error, second: Error, now: i64)
    requires
        first == second,
    ensures
        classification(first, now) == classification(second, now),
{
}

/// The wait that comes with an exhausted rate limit is the time until the
/// limit resets, and zero once it has.
pub proof fn lemma_rate_limit_resume_time(failure: Error, now: i64)
    requires
        failure is RateLimitExceeded,
    ensures
        classification(failure, now) == (Classification::Retryable {
            resume_after: Some(time_until(failure->reset_at as int, now as int) as u64),
        }),
        now >= failure->reset_at ==> classification(failure, now) == (Classification::Retryable {
            resume_after: Some(0u64),
        }),
{
}

/// What the statuses of a response lead to: a server error is retryable;
/// rejected credentials, missing permission, a missing resource and every
/// other client error but 429 are permanent, whatever the time.
pub proof fn lemma_status_verdicts(
    failure: Error,
    status: u16,
    endpoint: Seq<char>,
    rate_limit: Option<BucketState>,
    now: i64,
)
    requires
        is_status_failure(failure, status, endpoint, rate_limit),
    ensures
        is_server_status(status) ==> classification(failure, now) == (Classification::Retryable {
            resume_after: None,
        }),
        status == 429 ==> classification(failure, now) is Retryable,
        400 <= status < 500 && status != 429 ==> classification(failure, now) is Permanent,
        status == 401 ==> failure is Authentication && classification(failure, now) is Permanent,
{
}

} // verus!
