//! Tweet data structures.

use crate::models::common::{TweetId, UserId};
use vstd::prelude::*;

verus! {

/// A URL in the text of a tweet.
#[derive(Debug, Clone)]
pub struct UrlEntity {
    pub start: usize,
    pub end: usize,
    pub url: String,
    pub expanded_url: Option<String>,
    pub display_url: Option<String>,
    pub unwound_url: Option<String>,
}

/// A hashtag in the text of a tweet.
#[derive(Debug, Clone)]
pub struct HashtagEntity {
    pub start: usize,
    pub end: usize,
    pub tag: String,
}

/// A mention in the text of a tweet.
#[derive(Debug, Clone)]
pub struct MentionEntity {
    pub start: usize,
    pub end: usize,
    pub username: String,
    pub id: Option<UserId>,
}

/// A cashtag in the text of a tweet.
#[derive(Debug, Clone)]
pub struct CashtagEntity {
    pub start: usize,
    pub end: usize,
    pub tag: String,
}

/// A tweet that another tweet refers to.
#[derive(Debug, Clone)]
pub struct ReferencedTweet {
    pub id: TweetId,
    pub reference_type: ReferenceType,
}

/// How a tweet refers to another.
#[derive(Debug, Clone, Copy, PartialEq, Eq, Structural)]
#[non_exhaustive]
pub enum ReferenceType {
    Retweeted,
    Quoted,
    RepliedTo,
}

/// A context annotation: a domain and an entity within it.
#[derive(Debug, Clone)]
pub struct ContextAnnotation {
    pub domain: ContextDomain,
    pub entity: ContextEntity,
}

/// The domain of a context annotation.
#[derive(Debug, Clone)]
pub struct ContextDomain {
    pub id: String,
    pub name: Option<String>,
    pub description: Option<String>,
}

/// The entity of a context annotation.
#[derive(Debug, Clone)]
pub struct ContextEntity {
    pub id: String,
    pub name: Option<String>,
    pub description: Option<String>,
}

impl ReferenceType {
    /// The name of the reference on the wire.
    pub open spec fn spec_wire_name(&self) -> Seq<char> {
        match self {
            ReferenceType::Retweeted => "retweeted"@,
            ReferenceType::Quoted => "quoted"@,
            ReferenceType::RepliedTo => "replied_to"@,
        }
    }

    /// The name of the reference on the wire.
    pub fn wire_name(&self) -> (name: &'static str)
        ensures
            name@ == self.spec_wire_name(),
    {
        match self {
            ReferenceType::Retweeted => "retweeted",
            ReferenceType::Quoted => "quoted",
            ReferenceType::RepliedTo => "replied_to",
        }
    }
}

} // verus!
