//! Data structures of the X API v2 that consist of plain values.

pub mod common;
pub mod media;
pub mod space;
pub mod tweet;
pub mod user;
