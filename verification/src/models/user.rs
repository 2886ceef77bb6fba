//! User data structures.

use crate::models::tweet::UrlEntity;
use vstd::prelude::*;

verus! {

/// The URLs of a user's profile link.
#[derive(Debug, Clone)]
pub struct UserUrlEntity {
    pub urls: Vec<UrlEntity>,
}

/// The kind of verification of a user.
#[derive(Debug, Clone, Copy, PartialEq, Eq, Structural)]
#[non_exhaustive]
pub enum VerifiedType {
    Blue,
    Government,
    Business,
    /// Not verified; `none` on the wire.
    Unverified,
}

impl VerifiedType {
    /// The name of the kind on the wire.
    pub open spec fn spec_wire_name(&self) -> Seq<char> {
        match self {
            VerifiedType::Blue => "blue"@,
            VerifiedType::Government => "government"@,
            VerifiedType::Business => "business"@,
            VerifiedType::Unverified => "none"@,
        }
    }

    /// The name of the kind on the wire.
    pub fn wire_name(&self) -> (name: &'static str)
        ensures
            name@ == self.spec_wire_name(),
    {
        match self {
            VerifiedType::Blue => "blue",
            VerifiedType::Government => "government",
            VerifiedType::Business => "business",
            VerifiedType::Unverified => "none",
        }
    }
}

} // verus!
