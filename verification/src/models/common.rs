//! Types shared across the models.

use vstd::prelude::*;

verus! {

/// Identifier of a Tweet (a 64-bit integer written as a string).
pub type TweetId = String;

/// Identifier of a User (a 64-bit integer written as a string).
pub type UserId = String;

/// Identifier of a Media attachment.
pub type MediaId = String;

/// Identifier of a Space.
pub type SpaceId = String;

/// Identifier of a List.
pub type ListId = String;

/// Identifier of a filtered-stream rule.
pub type RuleId = String;

/// Identifier of a conversation thread.
pub type ConversationId = String;

/// One option of a poll.
#[derive(Debug, Clone)]
pub struct PollOption {
    pub position: u32,
    pub label: String,
    pub votes: u32,
}

/// Who may reply to a tweet.
#[derive(Debug, Clone, Copy, PartialEq, Eq, Structural)]
#[non_exhaustive]
pub enum ReplySettings {
    Everyone,
    MentionedUsers,
    Following,
}

impl ReplySettings {
    /// The name of the setting on the wire.
    pub open spec fn spec_wire_name(&self) -> Seq<char> {
        match self {
            ReplySettings::Everyone => "everyone"@,
            ReplySettings::MentionedUsers => "mentioned_users"@,
            ReplySettings::Following => "following"@,
        }
    }

    /// The name of the setting on the wire.
    pub fn wire_name(&self) -> (name: &'static str)
        ensures
            name@ == self.spec_wire_name(),
    {
        match self {
            ReplySettings::Everyone => "everyone",
            ReplySettings::MentionedUsers => "mentioned_users",
            ReplySettings::Following => "following",
        }
    }
}

} // verus!
