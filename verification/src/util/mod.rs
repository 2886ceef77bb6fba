//! Small helpers shared by the rest of the library.

pub mod clock;
pub mod number;
pub mod serde_helpers;
pub mod text;
