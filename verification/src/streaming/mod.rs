//! Streaming support: the lifecycle of one long-lived connection.
//!
//! [`reconnect::StreamConnectionManager`] owns the state machine;
//! [`heartbeat`] detects a connection that has gone silent, [`backfill`]
//! bounds the data requested again after a gap, [`rules`] brings the
//! server-side filter rules in line with the desired ones, and [`framing`]
//! cuts the byte stream into frames.

pub mod backfill;
pub mod framing;
pub mod heartbeat;
pub mod reconnect;
pub mod rules;
