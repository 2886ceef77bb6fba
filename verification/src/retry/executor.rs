//! The retry loop, as a state machine.
//!
//! The executor decides; its caller acts. For one logical request the caller
//! asks [`RetryExecutor::poll`] what to do, which consults the rate-limit
//! gate: wait and ask again, or dispatch. After a dispatch the caller hands
//! the result to [`RetryExecutor::record`], which feeds the announced limits
//! to the tracker and answers: finished, or back off for so long and poll
//! again. The executor never sleeps and never sends anything itself.
//!
//! Where the rate-limit state is shared between tasks and kept elsewhere,
//! [`RetryExecutor::poll_with`] takes the admission decision itself, and
//! [`RetryExecutor::record_status`] and [`RetryExecutor::record_failure`]
//! take the result without touching any tracker.

use crate::error::{Error, ErrorKind};
use crate::rate_limit::tracker::{
    gate_decision,
    lookup,
    merged,
    BucketState,
    GateDecision,
    RateLimitTracker,
};
use crate::retry::classifier::{
    classification,
    is_status_failure,
    is_success_status,
    Classification,
    ErrorClassifier,
};
use crate::retry::policy::RetryPolicy;
use vstd::prelude::*;

verus! {

/// Where the executor stands.
#[derive(Debug, Clone, Copy, PartialEq, Eq, Structural)]
pub enum RetryPhase {
    /// The next dispatch has to pass the rate-limit gate.
    Gate,
    /// A dispatch is under way; its result is awaited.
    InFlight,
    /// The request has succeeded, failed for good or run out of retries.
    Finished,
}

/// The progress of one logical request.
#[derive(Debug, Clone, Copy, PartialEq, Eq, Structural)]
pub struct RetryState {
    /// Where the executor stands.
    pub phase: RetryPhase,
    /// The number of retries scheduled so far.
    pub attempt: u32,
    /// The number of dispatches ordered so far.
    pub dispatches: u64,
}

/// One scheduled retry: which attempt failed (counted from zero), why, and
/// how long to wait before the next one.
#[derive(Debug, Clone, Copy, PartialEq, Eq, Structural)]
pub struct RetryAttempt {
    /// The number of the attempt that failed.
    pub attempt_number: u32,
    /// The wait before the next attempt, in milliseconds.
    pub next_delay: u64,
    /// The kind of failure that caused the retry.
    pub cause: ErrorKind,
}

/// How a logical request ended.
#[derive(Debug)]
pub enum Outcome {
    /// A response with a success status arrived.
    Success,
    /// A permanent failure, surfaced at once.
    Failed(Error),
    /// A retryable failure after the last permitted retry; the failure of the
    /// last attempt is attached.
    Exhausted(Error),
}

/// What the caller has to do next.
#[derive(Debug)]
pub enum RetryAction {
    /// Send the request, then call `record` with the result.
    Dispatch,
    /// The rate-limit gate is closed: wait for so many milliseconds, then
    /// call `poll` again.
    GateWait(u64),
    /// The attempt failed and is retried: wait for the delay, then call
    /// `poll` again.
    Backoff(RetryAttempt),
    /// The request is over.
    Finish(Outcome),
    /// The call did not fit the executor's phase; nothing has changed.
    OutOfTurn,
}

/// What a dispatch produced.
#[derive(Debug)]
pub enum DispatchResult {
    /// A response arrived, with this status and these announced limits.
    Response { status: u16, rate_limit: Option<BucketState> },
    /// No response arrived.
    Failure(Error),
}

/// Drives one logical request through gate, dispatch and retries.
#[derive(Debug)]
pub struct RetryExecutor {
    policy: RetryPolicy,
    gate_key: String,
    state: RetryState,
}

impl RetryState {
    /// The state before anything has happened.
    pub open spec fn initial() -> RetryState {
        RetryState { phase: RetryPhase::Gate, attempt: 0, dispatches: 0 }
    }

    /// Whether the counters fit the phase under a limit of `max_retries`: no
    /// more retries than permitted, one dispatch per attempt, and the last
    /// one ordered exactly when the executor is past its gate phase.
    pub open spec fn consistent(&self, max_retries: u32) -> bool {
        &&& self.attempt <= max_retries
        &&& self.dispatches == if self.phase is Gate {
            self.attempt as int
        } else {
            self.attempt + 1
        }
    }
}

/// The step taken on a poll: in the `Gate` phase a closed gate means waiting
/// without any change, an open gate orders a dispatch; in every other phase
/// the call is out of turn.
pub open spec fn poll_step(state: RetryState, gate: GateDecision) -> (RetryState, RetryAction) {
    if state.phase is Gate {
        match gate {
            GateDecision::Wait(millis) => (state, RetryAction::GateWait(millis)),
            GateDecision::Proceed => (
                RetryState {
                    phase: RetryPhase::InFlight,
                    attempt: state.attempt,
                    dispatches: (state.dispatches + 1) as u64,
                },
                RetryAction::Dispatch,
            ),
        }
    } else {
        (state, RetryAction::OutOfTurn)
    }
}

/// The state once the request is over.
pub open spec fn finished(state: RetryState) -> RetryState {
    RetryState { phase: RetryPhase::Finished, ..state }
}

/// The step taken when the dispatch under way has failed with `failure`:
/// - a permanent failure ends the request at once;
/// - a retryable failure after the last permitted retry ends it as
///   exhausted;
/// - otherwise a retry is scheduled after the wait that the failure asks
///   for, or else after the policy's delay for this attempt.
/// In every phase but `InFlight` the call is out of turn.
pub open spec fn failure_step(
    policy: RetryPolicy,
    state: RetryState,
    failure: Error,
    now: i64,
    entropy: u64,
) -> (RetryState, RetryAction) {
    if state.phase is InFlight {
        match classification(failure, now) {
            Classification::Permanent => (
                finished(state),
                RetryAction::Finish(Outcome::Failed(failure)),
            ),
            Classification::Retryable { resume_after } => if state.attempt
                >= policy.settings().max_retries {
                (finished(state), RetryAction::Finish(Outcome::Exhausted(failure)))
            } else {
                (
                    RetryState {
                        phase: RetryPhase::Gate,
                        attempt: (state.attempt + 1) as u32,
                        dispatches: state.dispatches,
                    },
                    RetryAction::Backoff(
                        RetryAttempt {
                            attempt_number: state.attempt,
                            next_delay: match resume_after {
                                Some(wait) => wait,
                                None => policy.spec_delay_for(state.attempt as nat, entropy) as u64,
                            },
                            cause: failure.spec_kind(),
                        },
                    ),
                )
            },
        }
    } else {
        (state, RetryAction::OutOfTurn)
    }
}

/// One round of a request whose gate is open: the dispatch is ordered and
/// fails with `failure`.
pub open spec fn failed_round(
    policy: RetryPolicy,
    state: RetryState,
    failure: Error,
    now: i64,
    entropy: u64,
) -> (RetryState, RetryAction) {
    failure_step(policy, poll_step(state, GateDecision::Proceed).0, failure, now, entropy)
}

/// The state after the first `rounds` dispatches of a request have failed
/// with the given failures, at the given times and with the given entropy.
pub open spec fn after_failed_rounds(
    policy: RetryPolicy,
    failures: Seq<Error>,
    times: Seq<i64>,
    entropy: Seq<u64>,
    rounds: nat,
) -> RetryState
    decreases rounds,
{
    if rounds == 0 {
        RetryState::initial()
    } else {
        let k = (rounds - 1) as nat;
        failed_round(
            policy,
            after_failed_rounds(policy, failures, times, entropy, k),
            failures[k as int],
            times[k as int],
            entropy[k as int],
        ).0
    }
}

/// A request whose every dispatch fails in a retryable way is retried until
/// the policy's limit: with a limit of `N` retries, each of the first `N`
/// failed dispatches schedules a retry, and the dispatch after them, which is
/// number `N + 1`, ends the request as exhausted with the last failure
/// attached. So exactly `N + 1` dispatches are made.
pub proof fn lemma_retries_until_exhausted(
    policy: RetryPolicy,
    failures: Seq<Error>,
    times: Seq<i64>,
    entropy: Seq<u64>,
    rounds: nat,
)
    requires
        rounds <= policy.settings().max_retries,
        failures.len() > rounds,
        times.len() > rounds,
        entropy.len() > rounds,
        forall|i: int| 0 <= i <= rounds ==> (#[trigger] failures[i]).spec_is_retryable(),
    ensures
        after_failed_rounds(policy, failures, times, entropy, rounds) == (RetryState {
            phase: RetryPhase::Gate,
            attempt: rounds as u32,
            dispatches: rounds as u64,
        }),
        rounds < policy.settings().max_retries ==> failed_round(
            policy,
            after_failed_rounds(policy, failures, times, entropy, rounds),
            failures[rounds as int],
            times[rounds as int],
            entropy[rounds as int],
        ).1 is Backoff,
        rounds == policy.settings().max_retries ==> failed_round(
            policy,
            after_failed_rounds(policy, failures, times, entropy, rounds),
            failures[rounds as int],
            times[rounds as int],
            entropy[rounds as int],
        ) == (
            RetryState {
                phase: RetryPhase::Finished,
                attempt: rounds as u32,
                dispatches: (rounds + 1) as u64,
            },
            RetryAction::Finish(Outcome::Exhausted(failures[rounds as int])),
        ),
    decreases rounds,
{
    if rounds > 0 {
        lemma_retries_until_exhausted(policy, failures, times, entropy, (rounds - 1) as nat);
    }
    assert(failures[rounds as int].spec_is_retryable());
}

/// Without retries the first failure ends the request: a permanent one as
/// failed, a retryable one as exhausted. No backoff is ever scheduled and no
/// second dispatch is made.
pub proof fn lemma_no_retries_ends_at_once(
    policy: RetryPolicy,
    failure: Error,
    now: i64,
    entropy: u64,
)
    requires
        policy.settings().max_retries == 0,
    ensures
        failed_round(policy, RetryState::initial(), failure, now, entropy).0 == (RetryState {
            phase: RetryPhase::Finished,
            attempt: 0,
            dispatches: 1,
        }),
        failed_round(policy, RetryState::initial(), failure, now, entropy).1 == (
        if classification(failure, now) is Permanent {
            RetryAction::Finish(Outcome::Failed(failure))
        } else {
            RetryAction::Finish(Outcome::Exhausted(failure))
        }),
{
}

/// A permanent failure ends the request on the attempt on which it occurs,
/// whatever the policy permits.
pub proof fn lemma_permanent_failure_ends_at_once(
    policy: RetryPolicy,
    state: RetryState,
    failure: Error,
    now: i64,
    entropy: u64,
)
    requires
        state.phase is InFlight,
        classification(failure, now) is Permanent,
    ensures
        failure_step(policy, state, failure, now, entropy) == (
            finished(state),
            RetryAction::Finish(Outcome::Failed(failure)),
        ),
{
}

/// A response with status 401 is a permanent failure: the first such
/// response ends the request as failed after a single dispatch, whatever
/// number of retries the policy permits.
pub proof fn lemma_unauthorized_ends_at_once(
    policy: RetryPolicy,
    failure: Error,
    endpoint: Seq<char>,
    rate_limit: Option<BucketState>,
    now: i64,
    entropy: u64,
)
    requires
        is_status_failure(failure, 401, endpoint, rate_limit),
    ensures
        failed_round(policy, RetryState::initial(), failure, now, entropy) == (
            RetryState { phase: RetryPhase::Finished, attempt: 0, dispatches: 1 },
            RetryAction::Finish(Outcome::Failed(failure)),
        ),
{
}

/// The steps keep the counters consistent with the phase.
pub proof fn lemma_steps_keep_consistency(
    policy: RetryPolicy,
    state: RetryState,
    gate: GateDecision,
    failure: Error,
    now: i64,
    entropy: u64,
)
    requires
        state.consistent(policy.settings().max_retries),
    ensures
        poll_step(state, gate).0.consistent(policy.settings().max_retries),
        failure_step(policy, state, failure, now, entropy).0.consistent(
            policy.settings().max_retries,
        ),
        finished(state).phase is Finished,
{
}

impl View for RetryExecutor {
    type V = RetryState;

    /// The progress of the request.
    closed spec fn view(&self) -> RetryState {
        self.state
    }
}

impl RetryExecutor {
    #[verifier::type_invariant]
    spec fn well_formed(&self) -> bool {
        self.state.consistent(self.policy.settings().max_retries)
    }

    /// The policy that governs the retries.
    pub closed spec fn spec_policy(&self) -> RetryPolicy {
        self.policy
    }

    /// The endpoint key under which the rate-limit gate is consulted.
    pub closed spec fn spec_gate_key(&self) -> Seq<char> {
        self.gate_key@
    }

    /// An executor for one logical request to the endpoint `gate_key`.
    pub fn new(policy: RetryPolicy, gate_key: &str) -> (executor: Self)
        ensures
            executor@ == RetryState::initial(),
            executor.spec_policy() == policy,
            executor.spec_gate_key() == gate_key@,
    {
        Self {
            policy,
            gate_key: gate_key.to_owned(),
            state: RetryState { phase: RetryPhase::Gate, attempt: 0, dispatches: 0 },
        }
    }

    /// The progress of the request, whose counters always fit its phase.
    pub fn state(&self) -> (state: RetryState)
        ensures
            state == self@,
            state.consistent(self.spec_policy().settings().max_retries),
    {
        proof {
            use_type_invariant(self);
        }
        self.state
    }

    /// The policy that governs the retries.
    pub fn policy(&self) -> (policy: RetryPolicy)
        ensures
            policy == self.spec_policy(),
    {
        self.policy
    }

    /// Whether the request is over.
    pub fn is_finished(&self) -> (over: bool)
        ensures
            over == (self@.phase is Finished),
    {
        self.state.phase == RetryPhase::Finished
    }

    /// Takes the admission decision for the endpoint and says what to do:
    /// wait and poll again, or dispatch. Only an open gate changes the state.
    pub fn poll_with(&mut self, gate: GateDecision) -> (action: RetryAction)
        ensures
            (final(self)@, action) == poll_step(old(self)@, gate),
            final(self).spec_policy() == old(self).spec_policy(),
            final(self).spec_gate_key() == old(self).spec_gate_key(),
    {
        proof {
            use_type_invariant(&*self);
        }
        if self.state.phase != RetryPhase::Gate {
            return RetryAction::OutOfTurn;
        }
        match gate {
            GateDecision::Wait(millis) => RetryAction::GateWait(millis),
            GateDecision::Proceed => {
                self.state = RetryState {
                    phase: RetryPhase::InFlight,
                    attempt: self.state.attempt,
                    dispatches: self.state.dispatches + 1,
                };
                RetryAction::Dispatch
            },
        }
    }

    /// Consults the rate-limit gate of the tracker when the clock shows
    /// `now` and says what to do: wait and poll again, or dispatch.
    pub fn poll(&mut self, tracker: &RateLimitTracker, now: i64) -> (action: RetryAction)
        ensures
            (final(self)@, action) == poll_step(
                old(self)@,
                gate_decision(tracker.spec_enabled(), lookup(tracker@, old(self).spec_gate_key()), now),
            ),
            final(self).spec_policy() == old(self).spec_policy(),
            final(self).spec_gate_key() == old(self).spec_gate_key(),
    {
        let gate = tracker.gate(self.gate_key.as_str(), now);
        self.poll_with(gate)
    }

    /// Takes the failure of the dispatch under way and says what to do:
    /// finish, or back off and poll again. `entropy` selects the jitter of
    /// the delay where the policy asks for jitter.
    pub fn record_failure(&mut self, failure: Error, now: i64, entropy: u64) -> (action:
        RetryAction)
        ensures
            (final(self)@, action) == failure_step(
                old(self).spec_policy(),
                old(self)@,
                failure,
                now,
                entropy,
            ),
            final(self).spec_policy() == old(self).spec_policy(),
            final(self).spec_gate_key() == old(self).spec_gate_key(),
    {
        proof {
            use_type_invariant(&*self);
        }
        if self.state.phase != RetryPhase::InFlight {
            return RetryAction::OutOfTurn;
        }
        match ErrorClassifier::classify(&failure, now) {
            Classification::Permanent => {
                self.state = RetryState { phase: RetryPhase::Finished, ..self.state };
                RetryAction::Finish(Outcome::Failed(failure))
            },
            Classification::Retryable { resume_after } => {
                let attempt = self.state.attempt;
                if attempt >= self.policy.max_retries() {
                    self.state = RetryState { phase: RetryPhase::Finished, ..self.state };
                    RetryAction::Finish(Outcome::Exhausted(failure))
                } else {
                    let next_delay = match resume_after {
                        Some(wait) => wait,
                        None => self.policy.delay_for(attempt, entropy),
                    };
                    self.state = RetryState {
                        phase: RetryPhase::Gate,
                        attempt: attempt + 1,
                        dispatches: self.state.dispatches,
                    };
                    RetryAction::Backoff(
                        RetryAttempt { attempt_number: attempt, next_delay, cause: failure.kind() },
                    )
                }
            },
        }
    }

    /// Takes the status of the response to the dispatch under way, with the
    /// limits that the response announced, and says what to do.
    ///
    /// A success status ends the request. Any other status is turned into
    /// the failure that stands for it and handled as
    /// [`RetryExecutor::record_failure`] handles it.
    pub fn record_status(
        &mut self,
        status: u16,
        rate_limit: Option<BucketState>,
        now: i64,
        entropy: u64,
    ) -> (action: RetryAction)
        ensures
            final(self).spec_policy() == old(self).spec_policy(),
            final(self).spec_gate_key() == old(self).spec_gate_key(),
            !(old(self)@.phase is InFlight) ==> action is OutOfTurn && final(self)@ == old(self)@,
            old(self)@.phase is InFlight && is_success_status(status) ==> action
                == RetryAction::Finish(Outcome::Success) && final(self)@ == finished(old(self)@),
            old(self)@.phase is InFlight && !is_success_status(status) ==> exists|failure: Error|
                #![auto]
                is_status_failure(failure, status, old(self).spec_gate_key(), rate_limit) && (
                    final(self)@,
                    action,
                ) == failure_step(old(self).spec_policy(), old(self)@, failure, now, entropy),
    {
        proof {
            use_type_invariant(&*self);
        }
        if self.state.phase != RetryPhase::InFlight {
            return RetryAction::OutOfTurn;
        }
        match ErrorClassifier::failure_for_status(status, self.gate_key.as_str(), rate_limit) {
            None => {
                self.state = RetryState { phase: RetryPhase::Finished, ..self.state };
                RetryAction::Finish(Outcome::Success)
            },
            Some(failure) => self.record_failure(failure, now, entropy),
        }
    }

    /// Takes the response of the dispatch under way and says what to do.
    ///
    /// The limits that the response announced are recorded in the tracker
    /// first, whatever the status; then the status is handled as
    /// [`RetryExecutor::record_status`] handles it. Out of turn nothing
    /// changes, the tracker included.
    pub fn record_response(
        &mut self,
        tracker: &mut RateLimitTracker,
        status: u16,
        rate_limit: Option<BucketState>,
        now: i64,
        entropy: u64,
    ) -> (action: RetryAction)
        ensures
            final(self).spec_policy() == old(self).spec_policy(),
            final(self).spec_gate_key() == old(self).spec_gate_key(),
            final(tracker).spec_enabled() == old(tracker).spec_enabled(),
            !(old(self)@.phase is InFlight) ==> action is OutOfTurn && final(self)@ == old(self)@
                && final(tracker)@ == old(tracker)@,
            old(self)@.phase is InFlight ==> final(tracker)@ == (match rate_limit {
                Some(limits) if old(tracker).spec_enabled() => old(tracker)@.insert(
                    old(self).spec_gate_key(),
                    merged(lookup(old(tracker)@, old(self).spec_gate_key()), limits),
                ),
                _ => old(tracker)@,
            }),
            old(self)@.phase is InFlight && is_success_status(status) ==> action
                == RetryAction::Finish(Outcome::Success) && final(self)@ == finished(old(self)@),
            old(self)@.phase is InFlight && !is_success_status(status) ==> exists|failure: Error|
                #![auto]
                is_status_failure(failure, status, old(self).spec_gate_key(), rate_limit) && (
                    final(self)@,
                    action,
                ) == failure_step(old(self).spec_policy(), old(self)@, failure, now, entropy),
    {
        if self.state.phase != RetryPhase::InFlight {
            return RetryAction::OutOfTurn;
        }
        if let Some(limits) = rate_limit {
            tracker.observe(self.gate_key.as_str(), limits.limit, limits.remaining, limits.reset_at);
        }
        self.record_status(status, rate_limit, now, entropy)
    }

    /// Takes the result of the dispatch under way, a response or a failure,
    /// and says what to do. See [`RetryExecutor::record_response`] and
    /// [`RetryExecutor::record_failure`].
    pub fn record(
        &mut self,
        tracker: &mut RateLimitTracker,
        result: DispatchResult,
        now: i64,
        entropy: u64,
    ) -> (action: RetryAction)
        ensures
            final(self).spec_policy() == old(self).spec_policy(),
            final(self).spec_gate_key() == old(self).spec_gate_key(),
            final(tracker).spec_enabled() == old(tracker).spec_enabled(),
            !(old(self)@.phase is InFlight) ==> action is OutOfTurn && final(self)@ == old(self)@
                && final(tracker)@ == old(tracker)@,
            result matches DispatchResult::Failure(failure) ==> final(tracker)@ == old(tracker)@ && (
                final(self)@,
                action,
            ) == failure_step(old(self).spec_policy(), old(self)@, failure, now, entropy),
            result matches DispatchResult::Response { status, rate_limit } ==> {
                &&& old(self)@.phase is InFlight ==> final(tracker)@ == (match rate_limit {
                    Some(limits) if old(tracker).spec_enabled() => old(tracker)@.insert(
                        old(self).spec_gate_key(),
                        merged(lookup(old(tracker)@, old(self).spec_gate_key()), limits),
                    ),
                    _ => old(tracker)@,
                })
                &&& old(self)@.phase is InFlight && is_success_status(status) ==> action
                    == RetryAction::Finish(Outcome::Success) && final(self)@ == finished(
                    old(self)@,
                )
                &&& old(self)@.phase is InFlight && !is_success_status(status) ==> exists|
                    failure: Error,
                |
                    #![auto]
                    is_status_failure(failure, status, old(self).spec_gate_key(), rate_limit) && (
                        final(self)@,
                        action,
                    ) == failure_step(old(self).spec_policy(), old(self)@, failure, now, entropy)
            },
    {
        match result {
            DispatchResult::Failure(failure) => self.record_failure(failure, now, entropy),
            DispatchResult::Response { status, rate_limit } => self.record_response(
                tracker,
                status,
                rate_limit,
                now,
                entropy,
            ),
        }
    }
}

} // verus!
