//! Resilience layer of an X API v2 client: rate-limit gating, failure
//! classification, retry with exponential backoff, and the lifecycle of a
//! long-lived streaming connection.

pub mod auth;
pub mod builder;
pub mod client;
pub mod error;
pub mod models;
pub mod rate_limit;
pub mod retry;
pub mod streaming;
pub mod util;

pub use client::Client;
pub use error::Error;
