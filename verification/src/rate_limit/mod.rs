//! Rate limit management.
//!
//! [`RateLimitConfig`] says how the client reacts to the limits the API
//! announces; [`tracker::RateLimitTracker`] keeps the per-endpoint state read
//! from response headers; [`queue::ConcurrencyLimiter`] bounds the number of
//! requests in flight.

pub mod queue;
pub mod tracker;

use crate::error::Error;
use vstd::prelude::*;

verus! {

/// How the client handles rate limiting.
#[derive(Debug, Clone, PartialEq)]
pub struct RateLimitConfig {
    /// Ceiling on concurrently running requests, if any.
    global_limit: Option<u32>,
    /// Whether limits are tracked per endpoint.
    per_endpoint_tracking: bool,
    /// Whether the client waits by itself when a limit is reached.
    auto_wait: bool,
}

/// Collects the settings of a [`RateLimitConfig`].
#[derive(Debug)]
pub struct RateLimitConfigBuilder {
    global_limit: Option<u32>,
    per_endpoint_tracking: bool,
    auto_wait: bool,
}

impl RateLimitConfig {
    /// The ceiling on concurrently running requests.
    pub closed spec fn spec_global_limit(&self) -> Option<u32> {
        self.global_limit
    }

    /// Whether per-endpoint tracking is on.
    pub closed spec fn spec_per_endpoint_tracking(&self) -> bool {
        self.per_endpoint_tracking
    }

    /// Whether waiting is automatic.
    pub closed spec fn spec_auto_wait(&self) -> bool {
        self.auto_wait
    }

    /// The default configuration: no global ceiling, tracking and waiting on.
    pub open spec fn is_default(&self) -> bool {
        &&& self.spec_global_limit() is None
        &&& self.spec_per_endpoint_tracking()
        &&& self.spec_auto_wait()
    }

    /// The default configuration.
    pub fn new() -> (config: Self)
        ensures
            config.is_default(),
    {
        Self { global_limit: None, per_endpoint_tracking: true, auto_wait: true }
    }

    /// The configuration with tracking and waiting switched off.
    pub fn disabled() -> (config: Self)
        ensures
            config.spec_global_limit() is None,
            !config.spec_per_endpoint_tracking(),
            !config.spec_auto_wait(),
    {
        Self { global_limit: None, per_endpoint_tracking: false, auto_wait: false }
    }

    /// The ceiling on concurrently running requests.
    pub fn global_limit(&self) -> (limit: Option<u32>)
        ensures
            limit == self.spec_global_limit(),
    {
        self.global_limit
    }

    /// Whether per-endpoint tracking is on.
    pub fn per_endpoint_tracking(&self) -> (enabled: bool)
        ensures
            enabled == self.spec_per_endpoint_tracking(),
    {
        self.per_endpoint_tracking
    }

    /// Whether waiting is automatic.
    pub fn auto_wait(&self) -> (enabled: bool)
        ensures
            enabled == self.spec_auto_wait(),
    {
        self.auto_wait
    }

    /// A builder that starts from the default configuration.
    pub fn custom() -> (builder: RateLimitConfigBuilder)
        ensures
            builder.spec_global_limit() is None,
            builder.spec_per_endpoint_tracking(),
            builder.spec_auto_wait(),
    {
        RateLimitConfigBuilder { global_limit: None, per_endpoint_tracking: true, auto_wait: true }
    }
}

impl Default for RateLimitConfig {
    fn default() -> (config: Self)
        ensures
            config.is_default(),
    {
        Self { global_limit: None, per_endpoint_tracking: true, auto_wait: true }
    }
}

impl Default for RateLimitConfigBuilder {
    fn default() -> (builder: Self)
        ensures
            builder.spec_global_limit() is None,
            builder.spec_per_endpoint_tracking(),
            builder.spec_auto_wait(),
    {
        Self { global_limit: None, per_endpoint_tracking: true, auto_wait: true }
    }
}

impl RateLimitConfigBuilder {
    /// The ceiling collected so far.
    pub closed spec fn spec_global_limit(&self) -> Option<u32> {
        self.global_limit
    }

    /// The tracking switch collected so far.
    pub closed spec fn spec_per_endpoint_tracking(&self) -> bool {
        self.per_endpoint_tracking
    }

    /// The waiting switch collected so far.
    pub closed spec fn spec_auto_wait(&self) -> bool {
        self.auto_wait
    }

    /// Sets the ceiling on concurrently running requests.
    pub fn global_limit(self, limit: u32) -> (builder: Self)
        ensures
            builder.spec_global_limit() == Some(limit),
            builder.spec_per_endpoint_tracking() == self.spec_per_endpoint_tracking(),
            builder.spec_auto_wait() == self.spec_auto_wait(),
    {
        let mut builder = self;
        builder.global_limit = Some(limit);
        builder
    }

    /// Switches per-endpoint tracking on or off.
    pub fn per_endpoint_tracking(self, enabled: bool) -> (builder: Self)
        ensures
            builder.spec_per_endpoint_tracking() == enabled,
            builder.spec_global_limit() == self.spec_global_limit(),
            builder.spec_auto_wait() == self.spec_auto_wait(),
    {
        let mut builder = self;
        builder.per_endpoint_tracking = enabled;
        builder
    }

    /// Switches automatic waiting on or off.
    pub fn auto_wait(self, enabled: bool) -> (builder: Self)
        ensures
            builder.spec_auto_wait() == enabled,
            builder.spec_global_limit() == self.spec_global_limit(),
            builder.spec_per_endpoint_tracking() == self.spec_per_endpoint_tracking(),
    {
        let mut builder = self;
        builder.auto_wait = enabled;
        builder
    }

    /// The configuration collected so far. A ceiling of zero would admit no
    /// request at all and is rejected as a configuration error; everything
    /// else is accepted as it is.
    pub fn build(self) -> (result: Result<RateLimitConfig, Error>)
        ensures
            result is Err <==> self.spec_global_limit() == Some(0u32),
            result matches Ok(config) ==> {
                &&& config.spec_global_limit() == self.spec_global_limit()
                &&& config.spec_per_endpoint_tracking() == self.spec_per_endpoint_tracking()
                &&& config.spec_auto_wait() == self.spec_auto_wait()
            },
            result matches Err(e) ==> e matches Error::Config(m) && m@
                == "Global concurrent request limit must be greater than zero"@,
    {
        if let Some(limit) = self.global_limit {
            if limit == 0 {
                return Err(
                    Error::Config(
                        "Global concurrent request limit must be greater than zero".to_owned(),
                    ),
                );
            }
        }
        Ok(
            RateLimitConfig {
                global_limit: self.global_limit,
                per_endpoint_tracking: self.per_endpoint_tracking,
                auto_wait: self.auto_wait,
            },
        )
    }
}

} // verus!
