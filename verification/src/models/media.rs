//! Media objects.

use vstd::prelude::*;

verus! {

/// The kind of a media attachment.
#[derive(Debug, Clone, Copy, PartialEq, Eq, Structural)]
#[non_exhaustive]
pub enum MediaType {
    Photo,
    Video,
    AnimatedGif,
}

/// One encoding of a video.
#[derive(Debug, Clone)]
pub struct MediaVariant {
    pub bit_rate: Option<u64>,
    pub content_type: String,
    pub url: String,
}

impl MediaType {
    /// The name of the kind on the wire.
    pub open spec fn spec_wire_name(&self) -> Seq<char> {
        match self {
            MediaType::Photo => "photo"@,
            MediaType::Video => "video"@,
            MediaType::AnimatedGif => "animated_gif"@,
        }
    }

    /// The name of the kind on the wire.
    pub fn wire_name(&self) -> (name: &'static str)
        ensures
            name@ == self.spec_wire_name(),
    {
        match self {
            MediaType::Photo => "photo",
            MediaType::Video => "video",
            MediaType::AnimatedGif => "animated_gif",
        }
    }
}

} // verus!
