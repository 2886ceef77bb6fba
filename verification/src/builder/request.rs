//! Request builders for X API endpoints.

use crate::error::Error;
use crate::models::common::{ReplySettings, TweetId};
use crate::util::text::{concat3, decimal_text, u64_to_decimal};
use vstd::prelude::*;
use vstd::string::*;

verus! {

/// The longest tweet text, in characters.
pub const MAX_TWEET_CHARS: usize = 280;

/// The tweet that a new tweet replies to.
#[derive(Debug, Clone)]
pub struct Reply {
    /// ID of the tweet being replied to.
    pub in_reply_to_tweet_id: TweetId,
}

/// Request to create a new tweet.
#[derive(Debug, Clone)]
pub struct TweetRequest {
    /// The text of the tweet.
    pub text: String,
    /// The tweet replied to, if any.
    pub reply: Option<Reply>,
    /// Who can reply to this tweet.
    pub reply_settings: Option<ReplySettings>,
    /// Direct message deep link.
    pub direct_message_deep_link: Option<String>,
    /// Whether this tweet is for super followers only.
    pub for_super_followers_only: Option<bool>,
    /// Media attachment IDs.
    pub media_ids: Option<Vec<String>>,
    /// ID of the tweet being quoted.
    pub quote_tweet_id: Option<TweetId>,
}

/// Collects the parts of a [`TweetRequest`].
#[derive(Debug)]
pub struct TweetRequestBuilder {
    text: Option<String>,
    reply_to_tweet_id: Option<TweetId>,
    reply_settings: Option<ReplySettings>,
    direct_message_deep_link: Option<String>,
    for_super_followers_only: Option<bool>,
    media_ids: Option<Vec<String>>,
    quote_tweet_id: Option<TweetId>,
}

/// What a builder has collected.
pub struct TweetDraft {
    pub text: Option<String>,
    pub reply_to_tweet_id: Option<TweetId>,
    pub reply_settings: Option<ReplySettings>,
    pub direct_message_deep_link: Option<String>,
    pub for_super_followers_only: Option<bool>,
    pub media_ids: Option<Vec<String>>,
    pub quote_tweet_id: Option<TweetId>,
}

/// Whether the optional string holds exactly `text`.
pub open spec fn holds_text(value: Option<String>, text: Seq<char>) -> bool {
    value matches Some(s) && s@ == text
}

/// The message for a tweet text of `count` characters, which is too long.
pub open spec fn too_long_message(count: nat) -> Seq<char> {
    "Tweet text too long: "@ + decimal_text(count) + " characters (max 280)"@
}

/// Whether `result` is what building `draft` gives:
/// - without a text, a configuration error;
/// - with an empty text, or one of more than 280 characters, an
///   invalid-request error that says so;
/// - otherwise the request with the collected parts.
pub open spec fn is_built_from(result: Result<TweetRequest, Error>, draft: TweetDraft) -> bool {
    match draft.text {
        None => result matches Err(Error::Config(m)) && m@ == "Tweet text is required"@,
        Some(text) => if text@.len() == 0 {
            result matches Err(Error::InvalidRequest(m)) && m@ == "Tweet text cannot be empty"@
        } else if text@.len() > 280 {
            result matches Err(Error::InvalidRequest(m)) && m@ == too_long_message(text@.len())
        } else {
            &&& result matches Ok(request)
            &&& request.text == text
            &&& request.reply == match draft.reply_to_tweet_id {
                Some(id) => Some(Reply { in_reply_to_tweet_id: id }),
                None => None,
            }
            &&& request.reply_settings == draft.reply_settings
            &&& request.direct_message_deep_link == draft.direct_message_deep_link
            &&& request.for_super_followers_only == draft.for_super_followers_only
            &&& request.media_ids == draft.media_ids
            &&& request.quote_tweet_id == draft.quote_tweet_id
        },
    }
}

impl TweetRequest {
    /// A request with the given text and nothing else.
    pub fn new(text: &str) -> (request: Self)
        ensures
            request.text@ == text@,
            request.reply is None,
            request.reply_settings is None,
            request.direct_message_deep_link is None,
            request.for_super_followers_only is None,
            request.media_ids is None,
            request.quote_tweet_id is None,
    {
        Self {
            text: text.to_owned(),
            reply: None,
            reply_settings: None,
            direct_message_deep_link: None,
            for_super_followers_only: None,
            media_ids: None,
            quote_tweet_id: None,
        }
    }

    /// A builder that has collected nothing yet.
    pub fn builder() -> (builder: TweetRequestBuilder)
        ensures
            builder.draft() == TweetRequestBuilder::empty_draft(),
    {
        TweetRequestBuilder {
            text: None,
            reply_to_tweet_id: None,
            reply_settings: None,
            direct_message_deep_link: None,
            for_super_followers_only: None,
            media_ids: None,
            quote_tweet_id: None,
        }
    }
}

impl Default for TweetRequestBuilder {
    fn default() -> (builder: Self)
        ensures
            builder.draft() == TweetRequestBuilder::empty_draft(),
    {
        TweetRequest::builder()
    }
}

impl TweetRequestBuilder {
    /// What the builder has collected.
    pub closed spec fn draft(&self) -> TweetDraft {
        TweetDraft {
            text: self.text,
            reply_to_tweet_id: self.reply_to_tweet_id,
            reply_settings: self.reply_settings,
            direct_message_deep_link: self.direct_message_deep_link,
            for_super_followers_only: self.for_super_followers_only,
            media_ids: self.media_ids,
            quote_tweet_id: self.quote_tweet_id,
        }
    }

    /// The draft with nothing in it.
    pub open spec fn empty_draft() -> TweetDraft {
        TweetDraft {
            text: None,
            reply_to_tweet_id: None,
            reply_settings: None,
            direct_message_deep_link: None,
            for_super_followers_only: None,
            media_ids: None,
            quote_tweet_id: None,
        }
    }

    /// Sets the text of the tweet (required).
    pub fn text(self, text: &str) -> (builder: Self)
        ensures
            holds_text(builder.draft().text, text@),
            builder.draft() == (TweetDraft { text: builder.draft().text, ..self.draft() }),
    {
        let mut builder = self;
        builder.text = Some(text.to_owned());
        builder
    }

    /// Sets who can reply.
    pub fn reply_settings(self, settings: ReplySettings) -> (builder: Self)
        ensures
            builder.draft() == (TweetDraft { reply_settings: Some(settings), ..self.draft() }),
    {
        let mut builder = self;
        builder.reply_settings = Some(settings);
        builder
    }

    /// Makes the tweet a reply to another tweet.
    pub fn reply_to(self, tweet_id: &str) -> (builder: Self)
        ensures
            holds_text(builder.draft().reply_to_tweet_id, tweet_id@),
            builder.draft() == (TweetDraft {
                reply_to_tweet_id: builder.draft().reply_to_tweet_id,
                ..self.draft()
            }),
    {
        let mut builder = self;
        builder.reply_to_tweet_id = Some(tweet_id.to_owned());
        builder
    }

    /// Quotes another tweet.
    pub fn quote(self, tweet_id: &str) -> (builder: Self)
        ensures
            holds_text(builder.draft().quote_tweet_id, tweet_id@),
            builder.draft() == (TweetDraft {
                quote_tweet_id: builder.draft().quote_tweet_id,
                ..self.draft()
            }),
    {
        let mut builder = self;
        builder.quote_tweet_id = Some(tweet_id.to_owned());
        builder
    }

    /// Attaches media.
    pub fn media(self, media_ids: Vec<String>) -> (builder: Self)
        ensures
            builder.draft() == (TweetDraft { media_ids: Some(media_ids), ..self.draft() }),
    {
        let mut builder = self;
        builder.media_ids = Some(media_ids);
        builder
    }

    /// Marks the tweet as for super followers only.
    pub fn super_followers_only(self) -> (builder: Self)
        ensures
            builder.draft() == (TweetDraft {
                for_super_followers_only: Some(true),
                ..self.draft()
            }),
    {
        let mut builder = self;
        builder.for_super_followers_only = Some(true);
        builder
    }

    /// Sets the direct message deep link.
    pub fn direct_message_deep_link(self, link: &str) -> (builder: Self)
        ensures
            holds_text(builder.draft().direct_message_deep_link, link@),
            builder.draft() == (TweetDraft {
                direct_message_deep_link: builder.draft().direct_message_deep_link,
                ..self.draft()
            }),
    {
        let mut builder = self;
        builder.direct_message_deep_link = Some(link.to_owned());
        builder
    }

    /// The request with the parts collected so far.
    ///
    /// A text is required and must have between 1 and 280 characters;
    /// anything else is an error.
    pub fn build(self) -> (result: Result<TweetRequest, Error>)
        ensures
            is_built_from(result, self.draft()),
    {
        let text = match self.text {
            Some(text) => text,
            None => {
                return Err(Error::Config("Tweet text is required".to_owned()));
            },
        };
        let char_count = text.as_str().unicode_len();
        if char_count == 0 {
            return Err(Error::InvalidRequest("Tweet text cannot be empty".to_owned()));
        }
        if char_count > MAX_TWEET_CHARS {
            let count = u64_to_decimal(char_count as u64);
            return Err(
                Error::InvalidRequest(
                    concat3("Tweet text too long: ", count.as_str(), " characters (max 280)"),
                ),
            );
        }
        let reply = match self.reply_to_tweet_id {
            Some(id) => Some(Reply { in_reply_to_tweet_id: id }),
            None => None,
        };
        Ok(
            TweetRequest {
                text,
                reply,
                reply_settings: self.reply_settings,
                direct_message_deep_link: self.direct_message_deep_link,
                for_super_followers_only: self.for_super_followers_only,
                media_ids: self.media_ids,
                quote_tweet_id: self.quote_tweet_id,
            },
        )
    }
}

} // verus!
