//! The client and its builder.
//!
//! The client holds what was decided about a connection to the API: which
//! HTTP client carries the requests, who authenticates them, how rate limits
//! and retries are handled, and the base URL. The HTTP client itself and a
//! custom authentication provider live with the application; here they are
//! choices. Timeouts are milliseconds.

use crate::auth::oauth1::OAuth1Provider;
use crate::error::Error;
use crate::rate_limit::RateLimitConfig;
use crate::retry::policy::{default_settings, RetryPolicy};
use vstd::prelude::*;

verus! {

/// The HTTP client that carries the requests.
#[derive(Debug, Clone, Copy, PartialEq, Eq, Structural)]
pub enum HttpChoice {
    /// The stock client with its timeout of 30 seconds.
    Standard,
    /// The stock client with the given timeout.
    WithTimeout(u64),
    /// A client that the application brings along.
    Custom,
}

/// Who authenticates the requests.
#[derive(Debug, Clone)]
pub enum AuthChoice {
    /// OAuth 1.0a with the credentials of the provider.
    OAuth1(OAuth1Provider),
    /// A provider that the application brings along.
    Custom,
}

/// The client: everything that was decided about a connection to the API.
#[derive(Debug, Clone)]
pub struct Client {
    http: HttpChoice,
    auth: AuthChoice,
    rate_limit_config: RateLimitConfig,
    retry_policy: RetryPolicy,
    base_url: String,
}

/// Collects the settings of a [`Client`].
#[derive(Debug)]
pub struct ClientBuilder {
    http: Option<HttpChoice>,
    auth: Option<AuthChoice>,
    rate_limit_config: Option<RateLimitConfig>,
    retry_policy: Option<RetryPolicy>,
    base_url: Option<String>,
    timeout: Option<u64>,
}

/// What a builder has collected.
pub struct ClientSettings {
    pub http: Option<HttpChoice>,
    pub auth: Option<AuthChoice>,
    pub rate_limit_config: Option<RateLimitConfig>,
    pub retry_policy: Option<RetryPolicy>,
    pub base_url: Option<String>,
    pub timeout: Option<u64>,
}

/// The base URL used where none is set.
pub open spec fn default_base_url() -> Seq<char> {
    "https://api.twitter.com"@
}

/// The settings with nothing in them.
pub open spec fn no_settings() -> ClientSettings {
    ClientSettings {
        http: None,
        auth: None,
        rate_limit_config: None,
        retry_policy: None,
        base_url: None,
        timeout: None,
    }
}

/// The HTTP client that the settings lead to: the one that was set, else
/// the stock client with the timeout that was set, else the stock client.
pub open spec fn chosen_http(settings: ClientSettings) -> HttpChoice {
    match settings.http {
        Some(http) => http,
        None => match settings.timeout {
            Some(timeout) => HttpChoice::WithTimeout(timeout),
            None => HttpChoice::Standard,
        },
    }
}

/// Whether `result` is what building `settings` gives:
/// - without authentication, a configuration error;
/// - with both an HTTP client and a timeout, a configuration error, since
///   the timeout belongs on the client that was brought;
/// - otherwise the client with the chosen HTTP client, the authentication,
///   and for everything else what was set or else the default.
pub open spec fn is_client_of(result: Result<Client, Error>, settings: ClientSettings) -> bool {
    match settings.auth {
        None => result matches Err(Error::Config(m)) && m@
            == "No authentication provider configured. Use .oauth1() or .auth()"@,
        Some(auth) => if settings.http is Some && settings.timeout is Some {
            result matches Err(Error::Config(m)) && m@
                == "Cannot set both custom HTTP client and timeout. Configure timeout on your custom client instead."@
        } else {
            &&& result matches Ok(client)
            &&& client.spec_http() == chosen_http(settings)
            &&& client.spec_auth() == auth
            &&& match settings.rate_limit_config {
                Some(config) => client.spec_rate_limit_config() == config,
                None => client.spec_rate_limit_config().is_default(),
            }
            &&& match settings.retry_policy {
                Some(policy) => client.spec_retry_policy() == policy,
                None => client.spec_retry_policy().settings() == default_settings(),
            }
            &&& match settings.base_url {
                Some(url) => client.spec_base_url() == url@,
                None => client.spec_base_url() == default_base_url(),
            }
        },
    }
}

impl Client {
    /// The HTTP client that carries the requests.
    pub closed spec fn spec_http(&self) -> HttpChoice {
        self.http
    }

    /// Who authenticates the requests.
    pub closed spec fn spec_auth(&self) -> AuthChoice {
        self.auth
    }

    /// How rate limits are handled.
    pub closed spec fn spec_rate_limit_config(&self) -> RateLimitConfig {
        self.rate_limit_config
    }

    /// How failed requests are retried.
    pub closed spec fn spec_retry_policy(&self) -> RetryPolicy {
        self.retry_policy
    }

    /// The base URL of the API.
    pub closed spec fn spec_base_url(&self) -> Seq<char> {
        self.base_url@
    }

    /// A client with OAuth 1.0a authentication and defaults for everything
    /// else. This always succeeds.
    pub fn new(
        consumer_key: &str,
        consumer_secret: &str,
        access_token: &str,
        access_token_secret: &str,
    ) -> (result: Result<Self, Error>)
        ensures
            result matches Ok(client) && client.spec_http() == HttpChoice::Standard && (
            client.spec_auth() matches AuthChoice::OAuth1(provider) && provider.spec_consumer_key()
                == consumer_key@ && provider.spec_consumer_secret() == consumer_secret@
                && provider.spec_access_token() == access_token@
                && provider.spec_access_token_secret() == access_token_secret@)
                && client.spec_rate_limit_config().is_default()
                && client.spec_retry_policy().settings() == default_settings()
                && client.spec_base_url() == default_base_url(),
    {
        let auth = OAuth1Provider::new(
            consumer_key,
            consumer_secret,
            access_token,
            access_token_secret,
        );
        Ok(
            Self {
                http: HttpChoice::Standard,
                auth: AuthChoice::OAuth1(auth),
                rate_limit_config: RateLimitConfig::new(),
                retry_policy: RetryPolicy::new(),
                base_url: "https://api.twitter.com".to_owned(),
            },
        )
    }

    /// A builder that has collected nothing yet.
    pub fn builder() -> (builder: ClientBuilder)
        ensures
            builder.settings() == no_settings(),
    {
        ClientBuilder::new()
    }

    /// The HTTP client that carries the requests.
    pub fn http_client(&self) -> (http: &HttpChoice)
        ensures
            *http == self.spec_http(),
    {
        &self.http
    }

    /// Who authenticates the requests.
    pub fn auth_provider(&self) -> (auth: &AuthChoice)
        ensures
            *auth == self.spec_auth(),
    {
        &self.auth
    }

    /// The base URL of the API.
    pub fn base_url(&self) -> (url: &str)
        ensures
            url@ == self.spec_base_url(),
    {
        self.base_url.as_str()
    }

    /// How rate limits are handled.
    pub fn rate_limit_config(&self) -> (config: &RateLimitConfig)
        ensures
            *config == self.spec_rate_limit_config(),
    {
        &self.rate_limit_config
    }

    /// How failed requests are retried.
    pub fn retry_policy(&self) -> (policy: &RetryPolicy)
        ensures
            *policy == self.spec_retry_policy(),
    {
        &self.retry_policy
    }
}

impl Default for ClientBuilder {
    fn default() -> (builder: Self)
        ensures
            builder.settings() == no_settings(),
    {
        ClientBuilder::new()
    }
}

impl ClientBuilder {
    /// What the builder has collected.
    pub closed spec fn settings(&self) -> ClientSettings {
        ClientSettings {
            http: self.http,
            auth: self.auth,
            rate_limit_config: self.rate_limit_config,
            retry_policy: self.retry_policy,
            base_url: self.base_url,
            timeout: self.timeout,
        }
    }

    /// A builder that has collected nothing yet.
    pub fn new() -> (builder: Self)
        ensures
            builder.settings() == no_settings(),
    {
        Self {
            http: None,
            auth: None,
            rate_limit_config: None,
            retry_policy: None,
            base_url: None,
            timeout: None,
        }
    }

    /// Authenticates with OAuth 1.0a and the given credentials.
    pub fn oauth1(
        self,
        consumer_key: &str,
        consumer_secret: &str,
        access_token: &str,
        access_token_secret: &str,
    ) -> (builder: Self)
        ensures
            builder.settings().auth matches Some(AuthChoice::OAuth1(provider))
                && provider.spec_consumer_key() == consumer_key@ && provider.spec_consumer_secret()
                == consumer_secret@ && provider.spec_access_token() == access_token@
                && provider.spec_access_token_secret() == access_token_secret@,
            builder.settings() == (ClientSettings {
                auth: builder.settings().auth,
                ..self.settings()
            }),
    {
        let mut builder = self;
        builder.auth = Some(
            AuthChoice::OAuth1(
                OAuth1Provider::new(
                    consumer_key,
                    consumer_secret,
                    access_token,
                    access_token_secret,
                ),
            ),
        );
        builder
    }

    /// Authenticates with the given choice.
    pub fn auth(self, auth: AuthChoice) -> (builder: Self)
        ensures
            builder.settings() == (ClientSettings { auth: Some(auth), ..self.settings() }),
    {
        let mut builder = self;
        builder.auth = Some(auth);
        builder
    }

    /// Sets the base URL of the API.
    pub fn base_url(self, url: &str) -> (builder: Self)
        ensures
            builder.settings().base_url matches Some(u) && u@ == url@,
            builder.settings() == (ClientSettings {
                base_url: builder.settings().base_url,
                ..self.settings()
            }),
    {
        let mut builder = self;
        builder.base_url = Some(url.to_owned());
        builder
    }

    /// Sets how rate limits are handled.
    pub fn rate_limit(self, config: RateLimitConfig) -> (builder: Self)
        ensures
            builder.settings() == (ClientSettings {
                rate_limit_config: Some(config),
                ..self.settings()
            }),
    {
        let mut builder = self;
        builder.rate_limit_config = Some(config);
        builder
    }

    /// Sets how failed requests are retried.
    pub fn retry_policy(self, policy: RetryPolicy) -> (builder: Self)
        ensures
            builder.settings() == (ClientSettings { retry_policy: Some(policy), ..self.settings() }),
    {
        let mut builder = self;
        builder.retry_policy = Some(policy);
        builder
    }

    /// Sets the HTTP client. A timeout belongs on a client that is brought
    /// along: with both set, `build` fails.
    pub fn http_client(self, http: HttpChoice) -> (builder: Self)
        ensures
            builder.settings() == (ClientSettings { http: Some(http), ..self.settings() }),
    {
        let mut builder = self;
        builder.http = Some(http);
        builder
    }

    /// Sets the timeout of the stock HTTP client, in milliseconds.
    pub fn timeout(self, timeout: u64) -> (builder: Self)
        ensures
            builder.settings() == (ClientSettings { timeout: Some(timeout), ..self.settings() }),
    {
        let mut builder = self;
        builder.timeout = Some(timeout);
        builder
    }

    /// The client with the settings collected so far.
    ///
    /// Authentication is required, and an HTTP client and a timeout exclude
    /// each other; everything else has a default.
    pub fn build(self) -> (result: Result<Client, Error>)
        ensures
            is_client_of(result, self.settings()),
    {
        let auth = match self.auth {
            Some(auth) => auth,
            None => {
                return Err(
                    Error::Config(
                        "No authentication provider configured. Use .oauth1() or .auth()".to_owned(),
                    ),
                );
            },
        };
        if self.http.is_some() && self.timeout.is_some() {
            return Err(
                Error::Config(
                    "Cannot set both custom HTTP client and timeout. Configure timeout on your custom client instead.".to_owned(),
                ),
            );
        }
        let http = match self.http {
            Some(http) => http,
            None => match self.timeout {
                Some(timeout) => HttpChoice::WithTimeout(timeout),
                None => HttpChoice::Standard,
            },
        };
        let rate_limit_config = match self.rate_limit_config {
            Some(config) => config,
            None => RateLimitConfig::new(),
        };
        let retry_policy = match self.retry_policy {
            Some(policy) => policy,
            None => RetryPolicy::new(),
        };
        let base_url = match self.base_url {
            Some(url) => url,
            None => "https://api.twitter.com".to_owned(),
        };
        Ok(Client { http, auth, rate_limit_config, retry_policy, base_url })
    }
}

} // verus!
