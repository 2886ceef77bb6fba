//! Builders for requests.

pub mod request;
