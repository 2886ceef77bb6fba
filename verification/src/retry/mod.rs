//! Automatic retry: which failures are worth another attempt
//! ([`classifier`]), how long to wait before it ([`policy`]), and the loop
//! that ties both to the rate-limit gate ([`executor`]).

pub mod classifier;
pub mod executor;
pub mod policy;
