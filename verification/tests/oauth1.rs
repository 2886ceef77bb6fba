use x_api_client::auth::oauth1::OAuth1Provider;
use x_api_client::auth::{AuthProvider, HttpMethod, RequestHead};
use x_api_client::error::Error;

#[test]
fn test_auth_provider_send_sync() {
    // Verify AuthProvider is Send + Sync
    fn assert_send_sync<T: Send + Sync>() {}
    assert_send_sync::<Box<dyn AuthProvider>>();
}

#[test]
fn test_oauth1_provider_creation() {
    let provider = OAuth1Provider::new(
        "test_consumer_key",
        "test_consumer_secret",
        "test_access_token",
        "test_access_token_secret",
    );

    // Verify provider is created successfully
    assert!(!provider.consumer_key().is_empty());
}

#[test]
fn test_oauth1_provider_clone() {
    let provider = OAuth1Provider::new(
        "test_consumer_key",
        "test_consumer_secret",
        "test_access_token",
        "test_access_token_secret",
    );

    let cloned = provider.clone();
    // Both should have the same credentials
    assert_eq!(provider.consumer_key(), cloned.consumer_key());
}

#[test]
fn test_supports_user_context_endpoints() {
    let provider = OAuth1Provider::new("ck", "cs", "at", "ats");

    // User-context endpoints (should support)
    assert!(provider.supports_endpoint("/2/tweets"));
    assert!(provider.supports_endpoint("/2/tweets/123"));
    assert!(provider.supports_endpoint("/2/users/123/likes"));
    assert!(provider.supports_endpoint("/2/users/456/following"));
    assert!(provider.supports_endpoint("/2/dm_conversations"));
    assert!(provider.supports_endpoint("/2/dm_events"));
    assert!(provider.supports_endpoint("/2/lists"));
    assert!(provider.supports_endpoint("/2/lists/123/members"));
}

#[test]
fn test_does_not_support_app_only_endpoints() {
    let provider = OAuth1Provider::new("ck", "cs", "at", "ats");

    // App-only endpoints (should NOT support)
    assert!(!provider.supports_endpoint("/2/tweets/search/recent"));
    assert!(!provider.supports_endpoint("/2/compliance/jobs"));
    assert!(!provider.supports_endpoint("/2/openapi.json"));
}

#[test]
fn test_auth_provider_trait_object() {
    let provider: Box<dyn AuthProvider> = Box::new(OAuth1Provider::new("ck", "cs", "at", "ats"));

    // Verify trait object works
    assert!(provider.supports_endpoint("/2/tweets"));
    assert!(!provider.supports_endpoint("/2/tweets/search/recent"));
}

#[test]
fn endpoints_at_the_edges_of_the_patterns() {
    let user = OAuth1Provider::is_user_context_endpoint;
    assert!(!user(""));
    assert!(!user("/2"));
    assert!(!user("/2/users"));
    assert!(user("/2/users/"));
    assert!(!user("/2/tweet"));
    assert!(!user("/2/tweetsx"));
    assert!(user("/2/tweets/"));
    assert!(!user("/2/tweets/sample/stream"));
    assert!(!user("/2/tweets/counts/recent"));
    assert!(!user("/2/tweets/search"));
    assert!(user("/2/tweets/searc"));
    assert!(user("/2/dm_events/1"));
    assert!(user("/2/dm_conversations/1/messages"));
    assert!(!user("/2/spaces"));
    assert!(!user("/1.1/statuses/update.json"));
}

fn signed(method: HttpMethod, url: &str, path: &str) -> Result<RequestHead, Error> {
    let provider = OAuth1Provider::new(
        "test_consumer_key",
        "test_consumer_secret",
        "test_access_token",
        "test_access_token_secret",
    );
    provider.sign(RequestHead::new(method, url, path))
}

#[test]
fn signing_a_post_request_gives_an_oauth_header() {
    let request = signed(
        HttpMethod::Post,
        "https://api.twitter.com/2/tweets",
        "/2/tweets",
    )
    .unwrap();
    assert_eq!(request.url, "https://api.twitter.com/2/tweets");
    assert_eq!(request.path, "/2/tweets");
    let header = request.authorization.unwrap();
    assert!(header.starts_with("OAuth "));
    assert!(header.contains("oauth_consumer_key=\"test_consumer_key\""));
    assert!(header.contains("oauth_token=\"test_access_token\""));
    assert!(header.contains("oauth_signature_method=\"HMAC-SHA1\""));
    assert!(header.contains("oauth_nonce="));
    assert!(header.contains("oauth_timestamp="));
    assert!(header.contains("oauth_signature="));
}

#[test]
fn signing_works_for_get_put_and_delete() {
    for (method, url, path) in [
        (
            HttpMethod::Get,
            "https://api.twitter.com/2/users/123/likes",
            "/2/users/123/likes",
        ),
        (
            HttpMethod::Put,
            "https://api.twitter.com/2/lists/123",
            "/2/lists/123",
        ),
        (
            HttpMethod::Delete,
            "https://api.twitter.com/2/tweets/123",
            "/2/tweets/123",
        ),
    ] {
        let request = signed(method, url, path).unwrap();
        let header = request.authorization.unwrap();
        assert!(header.starts_with("OAuth "));
        assert!(header.contains("oauth_signature="));
    }
}

#[test]
fn signatures_of_two_requests_differ() {
    let first = signed(
        HttpMethod::Post,
        "https://api.twitter.com/2/tweets",
        "/2/tweets",
    )
    .unwrap();
    let second = signed(
        HttpMethod::Post,
        "https://api.twitter.com/2/tweets",
        "/2/tweets",
    )
    .unwrap();
    assert_ne!(first.authorization, second.authorization);
}

#[test]
fn signing_refuses_an_app_only_endpoint() {
    match signed(
        HttpMethod::Get,
        "https://api.twitter.com/2/tweets/search/recent",
        "/2/tweets/search/recent",
    ) {
        Err(Error::Authentication(msg)) => assert_eq!(
            msg,
            "Endpoint '/2/tweets/search/recent' does not support OAuth 1.0a authentication"
        ),
        other => panic!("expected an authentication error, got {:?}", other),
    }
}

#[test]
fn signing_refuses_an_unsupported_method() {
    match signed(
        HttpMethod::Other("PATCH".to_string()),
        "https://api.twitter.com/2/tweets",
        "/2/tweets",
    ) {
        Err(Error::Authentication(msg)) => {
            assert!(msg.contains("PATCH"));
            assert!(msg.contains("not supported"));
            assert_eq!(msg, "HTTP method 'PATCH' is not supported for OAuth 1.0a");
        }
        other => panic!("expected an authentication error, got {:?}", other),
    }
}

#[test]
fn signing_refuses_a_url_with_a_query() {
    match signed(
        HttpMethod::Get,
        "https://api.twitter.com/2/users/1/likes?max_results=5",
        "/2/users/1/likes",
    ) {
        Err(Error::OAuth(msg)) => assert_eq!(msg, "URL to sign must not contain a query part"),
        other => panic!("expected an OAuth error, got {:?}", other),
    }
}

#[test]
fn trait_and_inherent_methods_agree() {
    let provider = OAuth1Provider::new("ck", "cs", "at", "ats");
    let head = RequestHead::new(
        HttpMethod::Post,
        "https://api.twitter.com/2/tweets",
        "/2/tweets",
    );
    let through_trait = provider.authenticate(head).unwrap();
    assert!(through_trait.authorization.unwrap().starts_with("OAuth "));
    assert_eq!(HttpMethod::Get.name(), "GET");
    assert_eq!(HttpMethod::Delete.name(), "DELETE");
    assert_eq!(HttpMethod::Other("HEAD".to_string()).name(), "HEAD");
}
