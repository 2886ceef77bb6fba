//! OAuth 1.0a authentication for user-context endpoints.
//!
//! OAuth 1.0a is what the API asks for where a request acts on behalf of a
//! user: posting and deleting tweets, likes, follows, lists, direct
//! messages. The signature itself (HMAC-SHA1 over method, URL and
//! credentials, with a fresh nonce and the current time) is computed by the
//! `oauth1-request` crate.

use crate::auth::{AuthProvider, HttpMethod, RequestHead};
use crate::error::Error;
use crate::util::text::{concat3, contains_char, same_text, starts_with};
use vstd::prelude::*;

verus! {

/// Provider of OAuth 1.0a `Authorization` headers.
#[derive(Debug, Clone)]
pub struct OAuth1Provider {
    consumer_key: String,
    consumer_secret: String,
    access_token: String,
    access_token_secret: String,
}

/// Whether `endpoint` belongs to the app-only endpoints, which OAuth 1.0a
/// must not be used for: tweet search, sample stream, tweet counts,
/// compliance jobs and the OpenAPI document.
pub open spec fn is_app_only(endpoint: Seq<char>) -> bool {
    ||| "/2/tweets/search"@.is_prefix_of(endpoint)
    ||| "/2/tweets/sample"@.is_prefix_of(endpoint)
    ||| "/2/tweets/count"@.is_prefix_of(endpoint)
    ||| "/2/compliance/jobs"@.is_prefix_of(endpoint)
    ||| "/2/openapi.json"@.is_prefix_of(endpoint)
}

/// Whether `endpoint` is one of the user-context collections themselves.
pub open spec fn is_user_collection(endpoint: Seq<char>) -> bool {
    ||| endpoint == "/2/tweets"@
    ||| endpoint == "/2/dm_conversations"@
    ||| endpoint == "/2/dm_events"@
    ||| endpoint == "/2/lists"@
}

/// Whether `endpoint` lies below one of the user-context collections.
pub open spec fn is_below_user_collection(endpoint: Seq<char>) -> bool {
    ||| "/2/tweets/"@.is_prefix_of(endpoint)
    ||| "/2/users/"@.is_prefix_of(endpoint)
    ||| "/2/dm_conversations/"@.is_prefix_of(endpoint)
    ||| "/2/dm_events/"@.is_prefix_of(endpoint)
    ||| "/2/lists/"@.is_prefix_of(endpoint)
}

/// Whether `endpoint` is a user-context endpoint: not app-only, and a
/// user-context collection or something below one.
pub open spec fn is_user_context(endpoint: Seq<char>) -> bool {
    !is_app_only(endpoint) && (is_user_collection(endpoint) || is_below_user_collection(endpoint))
}

/// Whether OAuth 1.0a headers are made for the method: GET, POST, PUT and
/// DELETE only.
pub open spec fn is_signable_method(method: HttpMethod) -> bool {
    !(method is Other)
}

/// The message for an endpoint that OAuth 1.0a is not used for.
pub open spec fn unsupported_endpoint_message(path: Seq<char>) -> Seq<char> {
    "Endpoint '"@ + path + "' does not support OAuth 1.0a authentication"@
}

/// The message for a method that no OAuth 1.0a header is made for.
pub open spec fn unsupported_method_message(name: Seq<char>) -> Seq<char> {
    "HTTP method '"@ + name + "' is not supported for OAuth 1.0a"@
}

/// Whether `result` is what authenticating `request` with OAuth 1.0a gives.
/// Refused, in this order: a path that is no user-context endpoint; a method
/// other than GET, POST, PUT and DELETE; a URL with a query part. Every other
/// request comes back unchanged but for its `Authorization` header, whose
/// value begins with `OAuth `.
pub open spec fn is_authenticated_from(
    result: Result<RequestHead, Error>,
    request: RequestHead,
) -> bool {
    if !is_user_context(request.path@) {
        result matches Err(Error::Authentication(m)) && m@ == unsupported_endpoint_message(
            request.path@,
        )
    } else if !is_signable_method(request.method) {
        result matches Err(Error::Authentication(m)) && m@ == unsupported_method_message(
            request.method.spec_name(),
        )
    } else if request.url@.contains('?') {
        result matches Err(Error::OAuth(m)) && m@ == "URL to sign must not contain a query part"@
    } else {
        &&& result matches Ok(signed)
        &&& signed.method == request.method
        &&& signed.url == request.url
        &&& signed.path == request.path
        &&& signed.authorization matches Some(header)
        &&& "OAuth "@.is_prefix_of(header@)
    }
}

/// Computes the `Authorization` header value of a request.
///
/// Trusted: wraps `oauth1_request::authorize` with the HMAC-SHA1 signature
/// method, empty request parameters and a token made of the four
/// credentials by `Token::from_parts`. The value depends on a random nonce
/// and on the clock, so only what holds of every outcome is stated: it
/// begins with `OAuth `. In debug builds the outside function panics on a
/// URL that contains `?`, which the precondition leaves out.
#[verifier::external_body]
fn sign_request(
    method: &str,
    url: &str,
    consumer_key: &str,
    consumer_secret: &str,
    access_token: &str,
    access_token_secret: &str,
) -> (header: String)
    requires
        !url@.contains('?'),
    ensures
        "OAuth "@.is_prefix_of(header@),
{
    let token = oauth1_request::Token::from_parts(
        consumer_key,
        consumer_secret,
        access_token,
        access_token_secret,
    );
    oauth1_request::authorize(method, url, &(), &token, oauth1_request::HMAC_SHA1)
}

impl OAuth1Provider {
    /// The consumer key (API key) of the application.
    pub closed spec fn spec_consumer_key(&self) -> Seq<char> {
        self.consumer_key@
    }

    /// The consumer secret (API secret) of the application.
    pub closed spec fn spec_consumer_secret(&self) -> Seq<char> {
        self.consumer_secret@
    }

    /// The access token of the user.
    pub closed spec fn spec_access_token(&self) -> Seq<char> {
        self.access_token@
    }

    /// The access token secret of the user.
    pub closed spec fn spec_access_token_secret(&self) -> Seq<char> {
        self.access_token_secret@
    }

    /// A provider with the given credentials.
    pub fn new(
        consumer_key: &str,
        consumer_secret: &str,
        access_token: &str,
        access_token_secret: &str,
    ) -> (provider: Self)
        ensures
            provider.spec_consumer_key() == consumer_key@,
            provider.spec_consumer_secret() == consumer_secret@,
            provider.spec_access_token() == access_token@,
            provider.spec_access_token_secret() == access_token_secret@,
    {
        Self {
            consumer_key: consumer_key.to_owned(),
            consumer_secret: consumer_secret.to_owned(),
            access_token: access_token.to_owned(),
            access_token_secret: access_token_secret.to_owned(),
        }
    }

    /// The consumer key (API key) of the application.
    pub fn consumer_key(&self) -> (key: &str)
        ensures
            key@ == self.spec_consumer_key(),
    {
        self.consumer_key.as_str()
    }

    /// The access token of the user.
    pub fn access_token(&self) -> (token: &str)
        ensures
            token@ == self.spec_access_token(),
    {
        self.access_token.as_str()
    }

    /// Whether `endpoint` is a user-context endpoint, for which OAuth 1.0a
    /// is used. The app-only endpoints are excluded first, so
    /// `/2/tweets/search/recent` is none although it lies below `/2/tweets/`.
    pub fn is_user_context_endpoint(endpoint: &str) -> (user_context: bool)
        ensures
            user_context == is_user_context(endpoint@),
    {
        if starts_with(endpoint, "/2/tweets/search") || starts_with(endpoint, "/2/tweets/sample")
            || starts_with(endpoint, "/2/tweets/count") || starts_with(
            endpoint,
            "/2/compliance/jobs",
        ) || starts_with(endpoint, "/2/openapi.json") {
            return false;
        }
        if same_text(endpoint, "/2/tweets") || same_text(endpoint, "/2/dm_conversations")
            || same_text(endpoint, "/2/dm_events") || same_text(endpoint, "/2/lists") {
            return true;
        }
        starts_with(endpoint, "/2/tweets/") || starts_with(endpoint, "/2/users/") || starts_with(
            endpoint,
            "/2/dm_conversations/",
        ) || starts_with(endpoint, "/2/dm_events/") || starts_with(endpoint, "/2/lists/")
    }

    /// Whether this provider authenticates requests to `endpoint`.
    pub fn supports(&self, endpoint: &str) -> (supported: bool)
        ensures
            supported == is_user_context(endpoint@),
    {
        Self::is_user_context_endpoint(endpoint)
    }

    /// The request with its OAuth 1.0a `Authorization` header.
    ///
    /// Refused, in this order: a path that is no user-context endpoint; a
    /// method other than GET, POST, PUT and DELETE; a URL with a query part,
    /// which cannot be signed as it stands. Every other request is returned
    /// unchanged but for the header, whose value begins with `OAuth `.
    pub fn sign(&self, request: RequestHead) -> (result: Result<RequestHead, Error>)
        ensures
            !is_user_context(request.path@) ==> (result matches Err(Error::Authentication(m))
                && m@ == unsupported_endpoint_message(request.path@)),
            is_user_context(request.path@) && !is_signable_method(request.method) ==> (
            result matches Err(Error::Authentication(m)) && m@ == unsupported_method_message(
                request.method.spec_name(),
            )),
            is_user_context(request.path@) && is_signable_method(request.method)
                && request.url@.contains('?') ==> (result matches Err(Error::OAuth(m)) && m@
                == "URL to sign must not contain a query part"@),
            is_user_context(request.path@) && is_signable_method(request.method)
                && !request.url@.contains('?') ==> (result matches Ok(signed) && signed.method
                == request.method && signed.url == request.url && signed.path == request.path && (
            signed.authorization matches Some(header) && "OAuth "@.is_prefix_of(header@))),
    {
        if !Self::is_user_context_endpoint(request.path.as_str()) {
            return Err(
                Error::Authentication(
                    concat3(
                        "Endpoint '",
                        request.path.as_str(),
                        "' does not support OAuth 1.0a authentication",
                    ),
                ),
            );
        }
        if let HttpMethod::Other(name) = &request.method {
            return Err(
                Error::Authentication(
                    concat3("HTTP method '", name.as_str(), "' is not supported for OAuth 1.0a"),
                ),
            );
        }
        if contains_char(request.url.as_str(), '?') {
            return Err(Error::OAuth("URL to sign must not contain a query part".to_owned()));
        }
        let header = sign_request(
            request.method.name(),
            request.url.as_str(),
            self.consumer_key.as_str(),
            self.consumer_secret.as_str(),
            self.access_token.as_str(),
            self.access_token_secret.as_str(),
        );
        Ok(
            RequestHead {
                method: request.method,
                url: request.url,
                path: request.path,
                authorization: Some(header),
            },
        )
    }
}

impl AuthProvider for OAuth1Provider {
    /// The request with its OAuth 1.0a `Authorization` header, or the reason
    /// why it is refused: exactly what [`OAuth1Provider::sign`] gives.
    fn authenticate(&self, request: RequestHead) -> (result: Result<RequestHead, Error>)
        ensures
            is_authenticated_from(result, request),
    {
        self.sign(request)
    }

    /// Whether `endpoint` is a user-context endpoint, which are the ones
    /// that OAuth 1.0a is used for.
    fn supports_endpoint(&self, endpoint: &str) -> (supported: bool)
        ensures
            supported == is_user_context(endpoint@),
    {
        self.supports(endpoint)
    }
}

} // verus!
