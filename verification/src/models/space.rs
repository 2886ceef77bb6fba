//! Space objects.

use vstd::prelude::*;

verus! {

/// The state of a Space.
#[derive(Debug, Clone, Copy, PartialEq, Eq, Structural)]
#[non_exhaustive]
pub enum SpaceState {
    Live,
    Scheduled,
    Ended,
}

impl SpaceState {
    /// The name of the state on the wire.
    pub open spec fn spec_wire_name(&self) -> Seq<char> {
        match self {
            SpaceState::Live => "Live"@,
            SpaceState::Scheduled => "Scheduled"@,
            SpaceState::Ended => "Ended"@,
        }
    }

    /// The name of the state on the wire.
    pub fn wire_name(&self) -> (name: &'static str)
        ensures
            name@ == self.spec_wire_name(),
    {
        match self {
            SpaceState::Live => "Live",
            SpaceState::Scheduled => "Scheduled",
            SpaceState::Ended => "Ended",
        }
    }
}

} // verus!
