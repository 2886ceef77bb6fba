//! The lifecycle of one streaming connection.
//!
//! A stream is `Disconnected` until a connect is requested, `Connecting`
//! while the first connect is tried, `Connected` while frames arrive,
//! `Reconnecting` after the connection was lost, and `Closed` for good after
//! an explicit close or when the connect attempts have run out. The manager
//! decides and its caller acts: the caller reports what happened, and the
//! manager answers with the next thing to do.
//!
//! Before every connect attempt the caller asks for the
//! [`StreamConnectionManager::connect_plan`]: the rule changes to issue first
//! and the backfill window to request.

use crate::error::{Error, ErrorKind};
use crate::retry::classifier::{classification, Classification, ErrorClassifier};
use crate::retry::executor::{Outcome, RetryAttempt};
use crate::retry::policy::RetryPolicy;
use crate::streaming::backfill::{advanced_to, backfill_window, BackfillCursor};
use crate::streaming::framing::{is_keepalive, is_keepalive_frame};
use crate::streaming::heartbeat::HeartbeatState;
use crate::streaming::rules::{copy_texts, missing, missing_from, texts};
use vstd::prelude::*;

verus! {

/// The state of a stream.
#[derive(Debug, Clone, Copy, PartialEq, Eq, Structural)]
pub enum StreamState {
    /// No connection was requested yet.
    Disconnected,
    /// The first connection is being established.
    Connecting,
    /// Frames are arriving.
    Connected,
    /// The connection was lost and is being established again.
    Reconnecting,
    /// The stream is over; a new handle is needed to connect again.
    Closed,
}

/// What can happen to a stream.
#[derive(Debug, Clone, Copy, PartialEq, Eq, Structural)]
pub enum StreamEvent {
    /// The caller asked for a connection.
    ConnectRequested,
    /// A connect attempt succeeded.
    ConnectSucceeded,
    /// A connect attempt failed and another one will be made.
    ConnectFailed,
    /// A connect attempt failed and no other will be made.
    ConnectExhausted,
    /// No frame arrived for longer than the heartbeat timeout.
    HeartbeatTimeout,
    /// Reading from the connection failed.
    ReadError,
    /// The caller asked to close the stream, or cancelled it.
    CloseRequested,
}

/// The state that follows `state` on `event`. Pairs that are not listed
/// leave the state as it is; nothing leads out of `Closed`.
pub open spec fn next_state(state: StreamState, event: StreamEvent) -> StreamState {
    match (state, event) {
        (StreamState::Closed, _) => StreamState::Closed,
        (_, StreamEvent::CloseRequested) => StreamState::Closed,
        (StreamState::Disconnected, StreamEvent::ConnectRequested) => StreamState::Connecting,
        (StreamState::Connecting, StreamEvent::ConnectSucceeded) => StreamState::Connected,
        (StreamState::Connecting, StreamEvent::ConnectFailed) => StreamState::Connecting,
        (StreamState::Connecting, StreamEvent::ConnectExhausted) => StreamState::Closed,
        (StreamState::Connected, StreamEvent::HeartbeatTimeout) => StreamState::Reconnecting,
        (StreamState::Connected, StreamEvent::ReadError) => StreamState::Reconnecting,
        (StreamState::Reconnecting, StreamEvent::ConnectSucceeded) => StreamState::Connected,
        (StreamState::Reconnecting, StreamEvent::ConnectFailed) => StreamState::Reconnecting,
        (StreamState::Reconnecting, StreamEvent::ConnectExhausted) => StreamState::Closed,
        (s, _) => s,
    }
}

impl StreamState {
    /// Whether a connect attempt is under way.
    pub open spec fn is_establishing(&self) -> bool {
        self is Connecting || self is Reconnecting
    }

    /// The state that follows this one on `event`.
    pub fn on_event(self, event: StreamEvent) -> (next: StreamState)
        ensures
            next == next_state(self, event),
    {
        match (self, event) {
            (StreamState::Closed, _) => StreamState::Closed,
            (_, StreamEvent::CloseRequested) => StreamState::Closed,
            (StreamState::Disconnected, StreamEvent::ConnectRequested) => StreamState::Connecting,
            (StreamState::Connecting, StreamEvent::ConnectSucceeded) => StreamState::Connected,
            (StreamState::Connecting, StreamEvent::ConnectFailed) => StreamState::Connecting,
            (StreamState::Connecting, StreamEvent::ConnectExhausted) => StreamState::Closed,
            (StreamState::Connected, StreamEvent::HeartbeatTimeout) => StreamState::Reconnecting,
            (StreamState::Connected, StreamEvent::ReadError) => StreamState::Reconnecting,
            (StreamState::Reconnecting, StreamEvent::ConnectSucceeded) => StreamState::Connected,
            (StreamState::Reconnecting, StreamEvent::ConnectFailed) => StreamState::Reconnecting,
            (StreamState::Reconnecting, StreamEvent::ConnectExhausted) => StreamState::Closed,
            (s, _) => s,
        }
    }

    /// Whether the stream is over.
    pub fn is_terminal(self) -> (terminal: bool)
        ensures
            terminal == (self is Closed),
    {
        matches!(self, StreamState::Closed)
    }
}

/// The settings of a stream.
#[derive(Debug, Clone, Copy)]
pub struct StreamConfig {
    /// The longest tolerated silence, in milliseconds.
    pub heartbeat_timeout: u64,
    /// The longest backfill window, in minutes.
    pub max_backfill_minutes: u32,
    /// The policy for retrying a failed connect.
    pub policy: RetryPolicy,
}

/// What the caller has to do next.
#[derive(Debug)]
pub enum StreamEffect {
    /// Nothing: the report changed nothing, or asks for nothing.
    Nothing,
    /// Ask for the connect plan, apply it and connect.
    Connect,
    /// The connection was lost: tell the consumer that the stream is
    /// reconnecting, then ask for the connect plan, apply it and connect.
    Reconnect,
    /// The connect attempt failed: wait for the delay of the attempt, then
    /// ask for the connect plan, apply it and connect again.
    RetryAfter(RetryAttempt),
    /// The stream is closed for good; the outcome says why.
    GiveUp(Outcome),
}

/// What a frame was.
#[derive(Debug, Clone, Copy, PartialEq, Eq, Structural)]
pub enum FrameKind {
    /// A sign of life without payload; not for the data layer.
    Keepalive,
    /// A frame with payload, to be handed to the data layer.
    Payload,
    /// The stream is not connected; the frame was not counted.
    Ignored,
}

/// What to do before and with the next connect attempt.
#[derive(Debug)]
pub struct ConnectPlan {
    /// Rules to add on the server before connecting.
    pub add_rules: Vec<String>,
    /// Rules to remove on the server before connecting.
    pub remove_rules: Vec<String>,
    /// The backfill window to request, in minutes, if any.
    pub backfill_minutes: Option<u32>,
}

/// Everything the manager knows, as plain values.
pub struct StreamView {
    pub state: StreamState,
    /// The number of connect retries scheduled since the connect sequence
    /// began.
    pub connect_attempt: u32,
    pub heartbeat: HeartbeatState,
    pub last_seen_id: Option<Seq<char>>,
    pub last_seen_at: Option<i64>,
    pub max_backfill_minutes: u32,
    pub desired_rules: Seq<Seq<char>>,
    pub applied_rules: Seq<Seq<char>>,
    pub policy: RetryPolicy,
}

/// The manager of a fresh stream with the given settings.
pub open spec fn fresh(config: StreamConfig) -> StreamView {
    StreamView {
        state: StreamState::Disconnected,
        connect_attempt: 0,
        heartbeat: HeartbeatState { last_frame_at: 0, timeout: config.heartbeat_timeout },
        last_seen_id: None,
        last_seen_at: None,
        max_backfill_minutes: config.max_backfill_minutes,
        desired_rules: Seq::empty(),
        applied_rules: Seq::empty(),
        policy: config.policy,
    }
}

/// After a connect was requested: a disconnected stream starts its connect
/// sequence, every other stream stays as it is.
pub open spec fn after_connect_request(v: StreamView) -> (StreamView, StreamEffect) {
    if v.state is Disconnected {
        (
            StreamView { state: StreamState::Connecting, connect_attempt: 0, ..v },
            StreamEffect::Connect,
        )
    } else {
        (v, StreamEffect::Nothing)
    }
}

/// After a connect attempt succeeded at `now`: a stream that was
/// establishing its connection is connected, its heartbeat starts at `now`,
/// and the rules that were desired count as applied. Every other stream
/// stays as it is.
pub open spec fn after_connected(v: StreamView, now: i64) -> StreamView {
    if v.state.is_establishing() {
        StreamView {
            state: StreamState::Connected,
            connect_attempt: 0,
            heartbeat: HeartbeatState { last_frame_at: now, timeout: v.heartbeat.timeout },
            applied_rules: v.desired_rules,
            ..v
        }
    } else {
        v
    }
}

/// After a connect attempt failed with `failure`: while retries remain a
/// retryable failure schedules the next attempt and leaves the state; a
/// permanent failure, or a retryable one after the last retry, closes the
/// stream. A stream that was not establishing a connection stays as it is.
pub open spec fn after_connect_failure(v: StreamView, failure: Error, now: i64, entropy: u64) -> (
    StreamView,
    StreamEffect,
) {
    if v.state.is_establishing() {
        match classification(failure, now) {
            Classification::Permanent => (
                StreamView { state: StreamState::Closed, ..v },
                StreamEffect::GiveUp(Outcome::Failed(failure)),
            ),
            Classification::Retryable { resume_after } => if v.connect_attempt
                >= v.policy.settings().max_retries {
                (
                    StreamView { state: StreamState::Closed, ..v },
                    StreamEffect::GiveUp(Outcome::Exhausted(failure)),
                )
            } else {
                (
                    StreamView { connect_attempt: (v.connect_attempt + 1) as u32, ..v },
                    StreamEffect::RetryAfter(
                        RetryAttempt {
                            attempt_number: v.connect_attempt,
                            next_delay: match resume_after {
                                Some(wait) => wait,
                                None => v.policy.spec_delay_for(v.connect_attempt as nat, entropy)
                                    as u64,
                            },
                            cause: failure.spec_kind(),
                        },
                    ),
                )
            },
        }
    } else {
        (v, StreamEffect::Nothing)
    }
}

/// After a frame arrived at `now`: on a connected stream the heartbeat is
/// reset, whatever the frame holds; a frame of padding only is a keepalive.
/// A stream that is not connected ignores the frame.
pub open spec fn after_frame(v: StreamView, frame: Seq<u8>, now: i64) -> (StreamView, FrameKind) {
    if v.state is Connected {
        (
            StreamView {
                heartbeat: HeartbeatState { last_frame_at: now, timeout: v.heartbeat.timeout },
                ..v
            },
            if is_keepalive_frame(frame) {
                FrameKind::Keepalive
            } else {
                FrameKind::Payload
            },
        )
    } else {
        (v, FrameKind::Ignored)
    }
}

/// After the watchdog looked at `now`: a connected stream that has been
/// silent for longer than the timeout starts to reconnect; every other
/// stream stays as it is.
pub open spec fn after_heartbeat_check(v: StreamView, now: i64) -> (StreamView, StreamEffect) {
    if v.state is Connected && v.heartbeat.spec_expired(now) {
        (
            StreamView { state: StreamState::Reconnecting, connect_attempt: 0, ..v },
            StreamEffect::Reconnect,
        )
    } else {
        (v, StreamEffect::Nothing)
    }
}

/// After reading failed: a connected stream starts to reconnect, exactly as
/// after a heartbeat timeout; every other stream stays as it is.
pub open spec fn after_read_error(v: StreamView) -> (StreamView, StreamEffect) {
    if v.state is Connected {
        (
            StreamView { state: StreamState::Reconnecting, connect_attempt: 0, ..v },
            StreamEffect::Reconnect,
        )
    } else {
        (v, StreamEffect::Nothing)
    }
}

/// After an item was processed: the cursor points at it, and its time has
/// not moved back.
pub open spec fn after_item(v: StreamView, id: Seq<char>, at: i64) -> StreamView {
    StreamView {
        last_seen_id: Some(id),
        last_seen_at: Some(advanced_to(v.last_seen_at, at)),
        ..v
    }
}

/// Whether `plan` is the plan for the next connect attempt of `v` at `now`:
/// it adds the desired rules that are not applied, removes the applied rules
/// that are not desired, and requests the backfill window of the cursor.
pub open spec fn is_connect_plan(plan: ConnectPlan, v: StreamView, now: i64) -> bool {
    &&& texts(plan.add_rules@) == missing_from(v.desired_rules, v.applied_rules)
    &&& texts(plan.remove_rules@) == missing_from(v.applied_rules, v.desired_rules)
    &&& plan.backfill_minutes == backfill_window(v.last_seen_at, now, v.max_backfill_minutes)
}

/// The text of an optional string.
pub open spec fn optional_text(s: Option<String>) -> Option<Seq<char>> {
    match s {
        Some(t) => Some(t@),
        None => None,
    }
}

/// Nothing leads out of `Closed`.
pub proof fn lemma_closed_is_terminal(event: StreamEvent)
    ensures
        next_state(StreamState::Closed, event) == StreamState::Closed,
{
}

/// The state changes only along the arrows of the state machine: a connect
/// request leaves `Disconnected`; success and exhaustion leave `Connecting`
/// and `Reconnecting`; a heartbeat timeout and a read error leave
/// `Connected`; a close request leaves every state but `Closed`.
pub proof fn lemma_state_changes_only_by_arrows(state: StreamState, event: StreamEvent)
    requires
        next_state(state, event) != state,
    ensures
        match (state, event) {
            (StreamState::Disconnected, StreamEvent::ConnectRequested) => next_state(state, event)
                is Connecting,
            (StreamState::Connecting, StreamEvent::ConnectSucceeded) => next_state(state, event)
                is Connected,
            (StreamState::Reconnecting, StreamEvent::ConnectSucceeded) => next_state(state, event)
                is Connected,
            (StreamState::Connecting, StreamEvent::ConnectExhausted) => next_state(state, event)
                is Closed,
            (StreamState::Reconnecting, StreamEvent::ConnectExhausted) => next_state(state, event)
                is Closed,
            (StreamState::Connected, StreamEvent::HeartbeatTimeout) => next_state(state, event)
                is Reconnecting,
            (StreamState::Connected, StreamEvent::ReadError) => next_state(state, event)
                is Reconnecting,
            (_, StreamEvent::CloseRequested) => !(state is Closed) && next_state(state, event)
                is Closed,
            _ => false,
        },
{
}

/// The manager moves along the state machine: each report changes the state
/// as the corresponding event does.
pub proof fn lemma_manager_follows_state_machine(
    v: StreamView,
    failure: Error,
    frame: Seq<u8>,
    now: i64,
    entropy: u64,
)
    ensures
        after_connect_request(v).0.state == next_state(v.state, StreamEvent::ConnectRequested),
        after_connected(v, now).state == next_state(v.state, StreamEvent::ConnectSucceeded),
        after_connect_failure(v, failure, now, entropy).0.state == next_state(
            v.state,
            if after_connect_failure(v, failure, now, entropy).1 is GiveUp {
                StreamEvent::ConnectExhausted
            } else {
                StreamEvent::ConnectFailed
            },
        ),
        after_heartbeat_check(v, now).0.state == (if v.heartbeat.spec_expired(now) {
            next_state(v.state, StreamEvent::HeartbeatTimeout)
        } else {
            v.state
        }),
        after_read_error(v).0.state == next_state(v.state, StreamEvent::ReadError),
        after_frame(v, frame, now).0.state == v.state,
{
}

/// A heartbeat timeout on a connected stream leads to `Reconnecting`, and
/// the next successful connect leads back to `Connected` with the desired
/// rules unchanged and applied.
pub proof fn lemma_timeout_then_reconnect(v: StreamView, checked_at: i64, connected_at: i64)
    requires
        v.state is Connected,
        v.heartbeat.spec_expired(checked_at),
    ensures
        after_heartbeat_check(v, checked_at).0.state is Reconnecting,
        after_heartbeat_check(v, checked_at).1 is Reconnect,
        after_heartbeat_check(v, checked_at).0.desired_rules == v.desired_rules,
        after_connected(after_heartbeat_check(v, checked_at).0, connected_at).state is Connected,
        after_connected(after_heartbeat_check(v, checked_at).0, connected_at).desired_rules
            == v.desired_rules,
        after_connected(after_heartbeat_check(v, checked_at).0, connected_at).applied_rules
            == v.desired_rules,
        !after_connected(after_heartbeat_check(v, checked_at).0, connected_at).heartbeat.spec_expired(
            connected_at,
        ),
{
}

/// However long the gap since the last processed item, a lost connection is
/// re-established in the same way, and the plan asks for no more than the
/// maximum window: a gap beyond it is clamped to it.
pub proof fn lemma_reconnect_clamps_backfill(v: StreamView, plan: ConnectPlan, seen: i64, now: i64)
    requires
        v.state is Connected,
        v.last_seen_at == Some(seen),
        v.max_backfill_minutes > 0,
        now - seen > v.max_backfill_minutes * 60000,
        is_connect_plan(plan, after_read_error(v).0, now),
    ensures
        after_read_error(v).0.state is Reconnecting,
        plan.backfill_minutes == Some(v.max_backfill_minutes),
        after_connected(after_read_error(v).0, now).state is Connected,
{
}

/// A frame on a connected stream, keepalive or not, postpones the heartbeat
/// timeout: right after it the watchdog finds nothing.
pub proof fn lemma_frame_postpones_timeout(v: StreamView, frame: Seq<u8>, now: i64)
    requires
        v.state is Connected,
    ensures
        after_heartbeat_check(after_frame(v, frame, now).0, now) == (
            after_frame(v, frame, now).0,
            StreamEffect::Nothing,
        ),
{
}

/// Owns the lifecycle of one streaming connection.
#[derive(Debug)]
pub struct StreamConnectionManager {
    state: StreamState,
    connect_attempt: u32,
    heartbeat: HeartbeatState,
    cursor: BackfillCursor,
    max_backfill_minutes: u32,
    desired_rules: Vec<String>,
    applied_rules: Vec<String>,
    policy: RetryPolicy,
}

impl StreamConfig {
    /// The default settings: a heartbeat timeout of 90 seconds, a backfill
    /// window of at most 5 minutes, and the default retry policy.
    pub fn new() -> (config: Self)
        ensures
            config.heartbeat_timeout == 90000,
            config.max_backfill_minutes == 5,
            config.policy.settings() == crate::retry::policy::default_settings(),
    {
        StreamConfig {
            heartbeat_timeout: 90000,
            max_backfill_minutes: 5,
            policy: RetryPolicy::new(),
        }
    }
}

impl View for StreamConnectionManager {
    type V = StreamView;

    closed spec fn view(&self) -> StreamView {
        StreamView {
            state: self.state,
            connect_attempt: self.connect_attempt,
            heartbeat: self.heartbeat,
            last_seen_id: optional_text(self.cursor.last_seen_id),
            last_seen_at: self.cursor.last_seen_at,
            max_backfill_minutes: self.max_backfill_minutes,
            desired_rules: texts(self.desired_rules@),
            applied_rules: texts(self.applied_rules@),
            policy: self.policy,
        }
    }
}

impl StreamConnectionManager {
    /// The manager of a fresh stream: disconnected, without rules, with
    /// nothing seen.
    pub fn new(config: StreamConfig) -> (manager: Self)
        ensures
            manager@ == fresh(config),
    {
        let manager = Self {
            state: StreamState::Disconnected,
            connect_attempt: 0,
            heartbeat: HeartbeatState { last_frame_at: 0, timeout: config.heartbeat_timeout },
            cursor: BackfillCursor::new(),
            max_backfill_minutes: config.max_backfill_minutes,
            desired_rules: Vec::new(),
            applied_rules: Vec::new(),
            policy: config.policy,
        };
        assert(texts(manager.desired_rules@) =~= Seq::<Seq<char>>::empty());
        assert(texts(manager.applied_rules@) =~= Seq::<Seq<char>>::empty());
        manager
    }

    /// The state of the stream.
    pub fn state(&self) -> (state: StreamState)
        ensures
            state == self@.state,
    {
        self.state
    }

    /// The heartbeat of the stream.
    pub fn heartbeat(&self) -> (heartbeat: HeartbeatState)
        ensures
            heartbeat == self@.heartbeat,
    {
        self.heartbeat
    }

    /// The interval at which the watchdog should look: half the heartbeat
    /// timeout.
    pub fn watchdog_interval(&self) -> (millis: u64)
        ensures
            millis == self@.heartbeat.timeout / 2,
    {
        self.heartbeat.timeout / 2
    }

    /// When the last processed item was seen, if any was.
    pub fn last_seen_at(&self) -> (at: Option<i64>)
        ensures
            at == self@.last_seen_at,
    {
        self.cursor.last_seen_at
    }

    /// The number of connect retries scheduled since the connect sequence
    /// began.
    pub fn connect_attempt(&self) -> (attempt: u32)
        ensures
            attempt == self@.connect_attempt,
    {
        self.connect_attempt
    }

    /// A copy of the rules that the stream should filter by.
    pub fn desired_rules(&self) -> (rules: Vec<String>)
        ensures
            texts(rules@) == self@.desired_rules,
    {
        copy_texts(&self.desired_rules)
    }

    /// A copy of the rules that were applied with the last successful
    /// connect.
    pub fn applied_rules(&self) -> (rules: Vec<String>)
        ensures
            texts(rules@) == self@.applied_rules,
    {
        copy_texts(&self.applied_rules)
    }

    /// Replaces the rules that the stream should filter by. They are applied
    /// with the next connect.
    pub fn set_desired_rules(&mut self, rules: Vec<String>)
        ensures
            final(self)@ == (StreamView { desired_rules: texts(rules@), ..old(self)@ }),
    {
        self.desired_rules = rules;
    }

    /// What to do before and with the next connect attempt at `now`: the
    /// rule changes that turn the applied rules into the desired ones, and
    /// the backfill window, which never exceeds the configured maximum.
    pub fn connect_plan(&self, now: i64) -> (plan: ConnectPlan)
        ensures
            is_connect_plan(plan, self@, now),
    {
        ConnectPlan {
            add_rules: missing(&self.desired_rules, &self.applied_rules),
            remove_rules: missing(&self.applied_rules, &self.desired_rules),
            backfill_minutes: self.cursor.window(now, self.max_backfill_minutes),
        }
    }

    /// Requests the connection.
    pub fn connect(&mut self) -> (effect: StreamEffect)
        ensures
            (final(self)@, effect) == after_connect_request(old(self)@),
    {
        if matches!(self.state, StreamState::Disconnected) {
            self.state = StreamState::Connecting;
            self.connect_attempt = 0;
            StreamEffect::Connect
        } else {
            StreamEffect::Nothing
        }
    }

    /// Reports that a connect attempt succeeded at `now`.
    pub fn on_connected(&mut self, now: i64)
        ensures
            final(self)@ == after_connected(old(self)@, now),
    {
        if matches!(self.state, StreamState::Connecting | StreamState::Reconnecting) {
            self.state = StreamState::Connected;
            self.connect_attempt = 0;
            self.heartbeat = HeartbeatState { last_frame_at: now, timeout: self.heartbeat.timeout };
            self.applied_rules = copy_texts(&self.desired_rules);
        }
    }

    /// Reports that a connect attempt failed with `failure` at `now`.
    /// `entropy` selects the jitter of the delay where the policy asks for
    /// jitter.
    pub fn on_connect_failed(&mut self, failure: Error, now: i64, entropy: u64) -> (effect:
        StreamEffect)
        ensures
            (final(self)@, effect) == after_connect_failure(old(self)@, failure, now, entropy),
    {
        if !matches!(self.state, StreamState::Connecting | StreamState::Reconnecting) {
            return StreamEffect::Nothing;
        }
        match ErrorClassifier::classify(&failure, now) {
            Classification::Permanent => {
                self.state = StreamState::Closed;
                StreamEffect::GiveUp(Outcome::Failed(failure))
            },
            Classification::Retryable { resume_after } => {
                let attempt = self.connect_attempt;
                if attempt >= self.policy.max_retries() {
                    self.state = StreamState::Closed;
                    StreamEffect::GiveUp(Outcome::Exhausted(failure))
                } else {
                    let next_delay = match resume_after {
                        Some(wait) => wait,
                        None => self.policy.delay_for(attempt, entropy),
                    };
                    self.connect_attempt = attempt + 1;
                    StreamEffect::RetryAfter(
                        RetryAttempt { attempt_number: attempt, next_delay, cause: failure.kind() },
                    )
                }
            },
        }
    }

    /// Reports a frame that arrived at `now` and says what it was. Every
    /// frame on a connected stream resets the heartbeat; a keepalive is not
    /// for the data layer.
    pub fn on_frame(&mut self, frame: &[u8], now: i64) -> (kind: FrameKind)
        ensures
            (final(self)@, kind) == after_frame(old(self)@, frame@, now),
    {
        if !matches!(self.state, StreamState::Connected) {
            return FrameKind::Ignored;
        }
        self.heartbeat = HeartbeatState { last_frame_at: now, timeout: self.heartbeat.timeout };
        if is_keepalive(frame) {
            FrameKind::Keepalive
        } else {
            FrameKind::Payload
        }
    }

    /// Reports that the item `id` was processed at `at`. The cursor is never
    /// rewound.
    pub fn on_item_processed(&mut self, id: &str, at: i64)
        ensures
            final(self)@ == after_item(old(self)@, id@, at),
    {
        let at = match self.cursor.last_seen_at {
            Some(seen) => if seen > at {
                seen
            } else {
                at
            },
            None => at,
        };
        self.cursor = BackfillCursor { last_seen_id: Some(id.to_owned()), last_seen_at: Some(at) };
    }

    /// Lets the watchdog look at the heartbeat at `now`.
    pub fn check_heartbeat(&mut self, now: i64) -> (effect: StreamEffect)
        ensures
            (final(self)@, effect) == after_heartbeat_check(old(self)@, now),
    {
        if matches!(self.state, StreamState::Connected) && self.heartbeat.expired(now) {
            self.state = StreamState::Reconnecting;
            self.connect_attempt = 0;
            StreamEffect::Reconnect
        } else {
            StreamEffect::Nothing
        }
    }

    /// Reports that reading from the connection failed.
    pub fn on_read_error(&mut self) -> (effect: StreamEffect)
        ensures
            (final(self)@, effect) == after_read_error(old(self)@),
    {
        if matches!(self.state, StreamState::Connected) {
            self.state = StreamState::Reconnecting;
            self.connect_attempt = 0;
            StreamEffect::Reconnect
        } else {
            StreamEffect::Nothing
        }
    }

    /// Closes the stream, on request or on cancellation. From whatever state,
    /// the stream is `Closed` afterwards, and nothing else has changed.
    pub fn close(&mut self)
        ensures
            final(self)@ == (StreamView { state: StreamState::Closed, ..old(self)@ }),
            final(self)@.state == next_state(old(self)@.state, StreamEvent::CloseRequested),
    {
        self.state = StreamState::Closed;
    }
}

} // verus!
