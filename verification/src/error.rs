//! Error types of the client.
//!
//! [`Error`] is the taxonomy of everything that can go wrong while talking to
//! the API; [`ApiErrorDetail`] carries what the API itself reported. Times are
//! milliseconds since the Unix epoch, durations are milliseconds.

use crate::util::clock::utc_now_millis;
use crate::util::text::{concat2, concat3, decimal_text, i64_to_decimal, signed_decimal_text, u64_to_decimal};
use vstd::prelude::*;
use vstd::std_specs::convert::FromSpecImpl;
use vstd::string::*;

verus! {

/// The error type of `std::io`, carried through as an opaque value.
#[verifier::external_type_specification]
#[verifier::external_body]
pub struct ExIoError(std::io::Error);

/// What the API reported about a failed request.
#[derive(Debug, Clone)]
pub struct ApiErrorDetail {
    /// CAPS_CASE error code from the API.
    pub code: String,
    /// Human-readable error message.
    pub message: String,
    /// The offending parameter, if the API named one.
    pub parameter: Option<String>,
    /// The offending value, if the API named one.
    pub value: Option<String>,
    /// Problem type URI, if provided.
    pub type_uri: Option<String>,
    /// HTTP status code of the response.
    pub status: Option<u16>,
}

/// Everything that can go wrong while talking to the API.
#[derive(Debug, Clone)]
pub enum Error {
    /// The HTTP request failed below the protocol level (connection, DNS, TLS).
    Network(String),
    /// A JSON value could not be written or read.
    Serialization(String),
    /// The API answered with an error response.
    Api(ApiErrorDetail),
    /// The credentials were not accepted.
    Authentication(String),
    /// The credentials are valid but do not permit the operation.
    Authorization(String),
    /// The endpoint's rate limit is used up until `reset_at`.
    RateLimitExceeded {
        /// When the limit resets.
        reset_at: i64,
        /// The endpoint that was limited.
        endpoint: String,
        /// Requests left in the window (usually 0).
        remaining: u32,
        /// Requests allowed per window.
        limit: u32,
    },
    /// The request was malformed.
    InvalidRequest(String),
    /// The resource does not exist.
    NotFound(String),
    /// A streaming connection could not be established.
    StreamConnection(String),
    /// An established stream broke off.
    StreamDisconnected(String),
    /// The response could not be understood.
    InvalidResponse(String),
    /// The OAuth machinery failed.
    OAuth(String),
    /// A local I/O operation failed.
    Io(String),
    /// The request did not finish within the given number of milliseconds.
    Timeout(u64),
    /// The client is configured inconsistently.
    Config(String),
}

/// The kind of an [`Error`], without its payload.
#[derive(Debug, Clone, Copy, PartialEq, Eq, Structural)]
pub enum ErrorKind {
    Network,
    Serialization,
    Api,
    Authentication,
    Authorization,
    RateLimitExceeded,
    InvalidRequest,
    NotFound,
    StreamConnection,
    StreamDisconnected,
    InvalidResponse,
    OAuth,
    Io,
    Timeout,
    Config,
}

/// How long remains until `reset_at` when the clock shows `now`: their
/// difference, and zero once the reset time has passed.
pub open spec fn time_until(reset_at: int, now: int) -> nat {
    if reset_at > now {
        (reset_at - now) as nat
    } else {
        0
    }
}

/// The milliseconds from `now` until `reset_at`, zero if that time has passed.
pub fn millis_until(reset_at: i64, now: i64) -> (wait: u64)
    ensures
        wait == time_until(reset_at as int, now as int),
{
    if reset_at > now {
        ((reset_at as i128) - (now as i128)) as u64
    } else {
        0
    }
}

/// Whether `status` is a server error (500 to 599).
pub open spec fn is_server_status(status: u16) -> bool {
    500 <= status < 600
}

/// Whether `status` is a client error (400 to 499).
pub open spec fn is_client_status(status: u16) -> bool {
    400 <= status < 500
}

/// The text that an I/O error shows.
///
/// Trusted: wraps the `Display` of `std::io::Error` (`to_string`). The error
/// is opaque here, so nothing is promised of the text.
#[verifier::external_body]
fn io_error_text(error: &std::io::Error) -> (text: String) {
    error.to_string()
}

impl From<ApiErrorDetail> for Error {
    /// The API error with the given detail.
    fn from(detail: ApiErrorDetail) -> (error: Error) {
        Error::Api(detail)
    }
}

impl FromSpecImpl<ApiErrorDetail> for Error {
    open spec fn obeys_from_spec() -> bool {
        true
    }

    open spec fn from_spec(detail: ApiErrorDetail) -> Error {
        Error::Api(detail)
    }
}

impl From<std::io::Error> for Error {
    /// The I/O error that shows what the error of the standard library
    /// shows.
    fn from(error: std::io::Error) -> (converted: Error)
        ensures
            converted is Io,
    {
        Error::Io(io_error_text(&error))
    }
}

impl FromSpecImpl<std::io::Error> for Error {
    open spec fn obeys_from_spec() -> bool {
        false
    }

    open spec fn from_spec(error: std::io::Error) -> Error {
        arbitrary()
    }
}

impl ApiErrorDetail {
    /// The text shown for this detail: the message, then the code in
    /// parentheses.
    pub open spec fn spec_to_string(&self) -> Seq<char> {
        self.message@ + " (code: "@ + self.code@ + ")"@
    }

    /// A detail with the given code and message and nothing else.
    pub fn new(code: &str, message: &str) -> (detail: Self)
        ensures
            detail.code@ == code@,
            detail.message@ == message@,
            detail.parameter is None,
            detail.value is None,
            detail.type_uri is None,
            detail.status is None,
    {
        Self {
            code: code.to_owned(),
            message: message.to_owned(),
            parameter: None,
            value: None,
            type_uri: None,
            status: None,
        }
    }

    /// The same detail with the HTTP status set.
    pub fn with_status(self, status: u16) -> (detail: Self)
        ensures
            detail == (Self { status: Some(status), ..self }),
    {
        let mut detail = self;
        detail.status = Some(status);
        detail
    }

    /// The same detail with the offending parameter set.
    pub fn with_parameter(self, parameter: &str) -> (detail: Self)
        ensures
            detail.parameter matches Some(p) && p@ == parameter@,
            detail.code == self.code,
            detail.message == self.message,
            detail.value == self.value,
            detail.type_uri == self.type_uri,
            detail.status == self.status,
    {
        let mut detail = self;
        detail.parameter = Some(parameter.to_owned());
        detail
    }

    /// The same detail with the offending value set.
    pub fn with_value(self, value: &str) -> (detail: Self)
        ensures
            detail.value matches Some(v) && v@ == value@,
            detail.code == self.code,
            detail.message == self.message,
            detail.parameter == self.parameter,
            detail.type_uri == self.type_uri,
            detail.status == self.status,
    {
        let mut detail = self;
        detail.value = Some(value.to_owned());
        detail
    }

    /// The same detail with the problem type URI set.
    pub fn with_type_uri(self, type_uri: &str) -> (detail: Self)
        ensures
            detail.type_uri matches Some(t) && t@ == type_uri@,
            detail.code == self.code,
            detail.message == self.message,
            detail.parameter == self.parameter,
            detail.value == self.value,
            detail.status == self.status,
    {
        let mut detail = self;
        detail.type_uri = Some(type_uri.to_owned());
        detail
    }

    /// The text shown for this detail.
    pub fn to_string(&self) -> (text: String)
        ensures
            text@ == self.spec_to_string(),
    {
        let mut text = concat3(self.message.as_str(), " (code: ", self.code.as_str());
        text.append(")");
        text
    }
}

impl Error {
    /// The kind of this error.
    pub open spec fn spec_kind(&self) -> ErrorKind {
        match self {
            Error::Network(_) => ErrorKind::Network,
            Error::Serialization(_) => ErrorKind::Serialization,
            Error::Api(_) => ErrorKind::Api,
            Error::Authentication(_) => ErrorKind::Authentication,
            Error::Authorization(_) => ErrorKind::Authorization,
            Error::RateLimitExceeded { .. } => ErrorKind::RateLimitExceeded,
            Error::InvalidRequest(_) => ErrorKind::InvalidRequest,
            Error::NotFound(_) => ErrorKind::NotFound,
            Error::StreamConnection(_) => ErrorKind::StreamConnection,
            Error::StreamDisconnected(_) => ErrorKind::StreamDisconnected,
            Error::InvalidResponse(_) => ErrorKind::InvalidResponse,
            Error::OAuth(_) => ErrorKind::OAuth,
            Error::Io(_) => ErrorKind::Io,
            Error::Timeout(_) => ErrorKind::Timeout,
            Error::Config(_) => ErrorKind::Config,
        }
    }

    /// Whether a retry may succeed: transport failures, exhausted rate limits,
    /// broken streams, timeouts, unreadable responses, and API errors with a
    /// server status or status 429. Everything else is permanent.
    pub open spec fn spec_is_retryable(&self) -> bool {
        match self {
            Error::Network(_) => true,
            Error::RateLimitExceeded { .. } => true,
            Error::StreamDisconnected(_) => true,
            Error::Timeout(_) => true,
            Error::InvalidResponse(_) => true,
            Error::Api(detail) => match detail.status {
                Some(status) => is_server_status(status) || status == 429,
                None => false,
            },
            _ => false,
        }
    }

    /// The wait that the error itself asks for when the clock shows `now`:
    /// for an exhausted rate limit the time until it resets, for every other
    /// error none.
    pub open spec fn spec_retry_after(&self, now: i64) -> Option<u64> {
        match self {
            Error::RateLimitExceeded { reset_at, .. } => Some(
                time_until(*reset_at as int, now as int) as u64,
            ),
            _ => None,
        }
    }

    /// Whether this is an exhausted rate limit.
    pub open spec fn spec_is_rate_limit(&self) -> bool {
        self is RateLimitExceeded
    }

    /// Whether the credentials were the problem.
    pub open spec fn spec_is_auth_error(&self) -> bool {
        self is Authentication || self is Authorization || self is OAuth
    }

    /// Whether the request itself was at fault (HTTP 4xx).
    pub open spec fn spec_is_client_error(&self) -> bool {
        match self {
            Error::Api(detail) => match detail.status {
                Some(status) => is_client_status(status),
                None => false,
            },
            Error::InvalidRequest(_) | Error::NotFound(_) => true,
            _ => false,
        }
    }

    /// Whether the server was at fault (HTTP 5xx).
    pub open spec fn spec_is_server_error(&self) -> bool {
        match self {
            Error::Api(detail) => match detail.status {
                Some(status) => is_server_status(status),
                None => false,
            },
            _ => false,
        }
    }

    /// The text shown for this error.
    pub open spec fn spec_to_string(&self) -> Seq<char> {
        match self {
            Error::Network(m) => "HTTP request failed: "@ + m@,
            Error::Serialization(m) => "JSON serialization error: "@ + m@,
            Error::Api(detail) => "API error: "@ + detail.spec_to_string(),
            Error::Authentication(m) => "Authentication failed: "@ + m@,
            Error::Authorization(m) => "Authorization failed: "@ + m@,
            Error::RateLimitExceeded { reset_at, endpoint, .. } =>
                "Rate limit exceeded for endpoint '"@ + endpoint@ + "', resets at "@
                    + signed_decimal_text(*reset_at as int),
            Error::InvalidRequest(m) => "Invalid request: "@ + m@,
            Error::NotFound(m) => "Resource not found: "@ + m@,
            Error::StreamConnection(m) => "Streaming connection error: "@ + m@,
            Error::StreamDisconnected(m) => "Stream disconnected: "@ + m@,
            Error::InvalidResponse(m) => "Invalid response format: "@ + m@,
            Error::OAuth(m) => "OAuth error: "@ + m@,
            Error::Io(m) => "I/O error: "@ + m@,
            Error::Timeout(millis) => "Request timeout after "@ + decimal_text(*millis as nat)
                + "ms"@,
            Error::Config(m) => "Configuration error: "@ + m@,
        }
    }

    /// The kind of this error.
    pub fn kind(&self) -> (kind: ErrorKind)
        ensures
            kind == self.spec_kind(),
    {
        match self {
            Error::Network(_) => ErrorKind::Network,
            Error::Serialization(_) => ErrorKind::Serialization,
            Error::Api(_) => ErrorKind::Api,
            Error::Authentication(_) => ErrorKind::Authentication,
            Error::Authorization(_) => ErrorKind::Authorization,
            Error::RateLimitExceeded { .. } => ErrorKind::RateLimitExceeded,
            Error::InvalidRequest(_) => ErrorKind::InvalidRequest,
            Error::NotFound(_) => ErrorKind::NotFound,
            Error::StreamConnection(_) => ErrorKind::StreamConnection,
            Error::StreamDisconnected(_) => ErrorKind::StreamDisconnected,
            Error::InvalidResponse(_) => ErrorKind::InvalidResponse,
            Error::OAuth(_) => ErrorKind::OAuth,
            Error::Io(_) => ErrorKind::Io,
            Error::Timeout(_) => ErrorKind::Timeout,
            Error::Config(_) => ErrorKind::Config,
        }
    }

    /// Whether a retry may succeed.
    pub fn is_retryable(&self) -> (retryable: bool)
        ensures
            retryable == self.spec_is_retryable(),
    {
        match self {
            Error::Network(_) => true,
            Error::RateLimitExceeded { .. } => true,
            Error::StreamDisconnected(_) => true,
            Error::Timeout(_) => true,
            Error::InvalidResponse(_) => true,
            Error::Api(detail) => {
                if let Some(status) = detail.status {
                    (500 <= status && status < 600) || status == 429
                } else {
                    false
                }
            },
            Error::Authentication(_)
            | Error::Authorization(_)
            | Error::InvalidRequest(_)
            | Error::NotFound(_)
            | Error::OAuth(_)
            | Error::Config(_)
            | Error::Serialization(_)
            | Error::StreamConnection(_)
            | Error::Io(_) => false,
        }
    }

    /// The wait that the error asks for when the clock shows `now`.
    pub fn retry_after_at(&self, now: i64) -> (wait: Option<u64>)
        ensures
            wait == self.spec_retry_after(now),
    {
        match self {
            Error::RateLimitExceeded { reset_at, .. } => Some(millis_until(*reset_at, now)),
            _ => None,
        }
    }

    /// The wait that the error asks for, measured from the current time.
    ///
    /// The clock is read once; the result is [`Error::retry_after_at`] at
    /// whatever it showed.
    pub fn retry_after(&self) -> (wait: Option<u64>)
        ensures
            wait is Some <==> self is RateLimitExceeded,
            exists|now: i64| wait == self.spec_retry_after(now),
    {
        let now = utc_now_millis();
        self.retry_after_at(now)
    }

    /// Whether this is an exhausted rate limit.
    pub fn is_rate_limit(&self) -> (r: bool)
        ensures
            r == self.spec_is_rate_limit(),
    {
        matches!(self, Error::RateLimitExceeded { .. })
    }

    /// Whether the credentials were the problem.
    pub fn is_auth_error(&self) -> (r: bool)
        ensures
            r == self.spec_is_auth_error(),
    {
        matches!(self, Error::Authentication(_) | Error::Authorization(_) | Error::OAuth(_))
    }

    /// Whether the request itself was at fault (HTTP 4xx).
    pub fn is_client_error(&self) -> (r: bool)
        ensures
            r == self.spec_is_client_error(),
    {
        match self {
            Error::Api(detail) => {
                if let Some(status) = detail.status {
                    400 <= status && status < 500
                } else {
                    false
                }
            },
            Error::InvalidRequest(_) | Error::NotFound(_) => true,
            _ => false,
        }
    }

    /// Whether the server was at fault (HTTP 5xx).
    pub fn is_server_error(&self) -> (r: bool)
        ensures
            r == self.spec_is_server_error(),
    {
        match self {
            Error::Api(detail) => {
                if let Some(status) = detail.status {
                    500 <= status && status < 600
                } else {
                    false
                }
            },
            _ => false,
        }
    }

    /// The text shown for this error.
    pub fn to_string(&self) -> (text: String)
        ensures
            text@ == self.spec_to_string(),
    {
        match self {
            Error::Network(m) => concat2("HTTP request failed: ", m.as_str()),
            Error::Serialization(m) => concat2("JSON serialization error: ", m.as_str()),
            Error::Api(detail) => {
                let inner = detail.to_string();
                concat2("API error: ", inner.as_str())
            },
            Error::Authentication(m) => concat2("Authentication failed: ", m.as_str()),
            Error::Authorization(m) => concat2("Authorization failed: ", m.as_str()),
            Error::RateLimitExceeded { reset_at, endpoint, .. } => {
                let when = i64_to_decimal(*reset_at);
                let mut text = concat3(
                    "Rate limit exceeded for endpoint '",
                    endpoint.as_str(),
                    "', resets at ",
                );
                text.append(when.as_str());
                text
            },
            Error::InvalidRequest(m) => concat2("Invalid request: ", m.as_str()),
            Error::NotFound(m) => concat2("Resource not found: ", m.as_str()),
            Error::StreamConnection(m) => concat2("Streaming connection error: ", m.as_str()),
            Error::StreamDisconnected(m) => concat2("Stream disconnected: ", m.as_str()),
            Error::InvalidResponse(m) => concat2("Invalid response format: ", m.as_str()),
            Error::OAuth(m) => concat2("OAuth error: ", m.as_str()),
            Error::Io(m) => concat2("I/O error: ", m.as_str()),
            Error::Timeout(millis) => {
                let amount = u64_to_decimal(*millis);
                concat3("Request timeout after ", amount.as_str(), "ms")
            },
            Error::Config(m) => concat2("Configuration error: ", m.as_str()),
        }
    }
}

} // verus!
