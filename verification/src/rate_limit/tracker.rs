//! Per-endpoint rate-limit state, read from response headers.
//!
//! The tracker keeps one bucket per endpoint template. A bucket is created by
//! the first observation for its endpoint, replaced by every later observation
//! that is not older than what is stored, and never removed. The tracker never
//! sleeps: [`RateLimitTracker::gate`] only says whether and how long the caller
//! has to wait. Times are milliseconds since the Unix epoch.

use crate::error::{millis_until, time_until};
use crate::rate_limit::RateLimitConfig;
use crate::util::clock::utc_now_millis;
use crate::util::number::{parse_u64, parsed_u64, ParsedNumber};
use crate::util::text::same_text;
use vstd::prelude::*;

verus! {

/// The limits of one endpoint as last observed.
#[derive(Debug, Clone, Copy, PartialEq, Eq, Structural)]
pub struct BucketState {
    /// Requests allowed per window.
    pub limit: u32,
    /// Requests left in the current window.
    pub remaining: u32,
    /// When the current window ends.
    pub reset_at: i64,
}

/// One bucket of the tracker: an endpoint template and its limits.
#[derive(Debug)]
pub struct RateLimitBucket {
    /// The endpoint template the bucket belongs to.
    pub endpoint_key: String,
    /// Requests allowed per window.
    pub limit: u32,
    /// Requests left in the current window.
    pub remaining: u32,
    /// When the current window ends.
    pub reset_at: i64,
}

/// The admission decision: send now, or wait for so many milliseconds and ask
/// again.
#[derive(Debug, Clone, Copy, PartialEq, Eq, Structural)]
pub enum GateDecision {
    /// The request may be sent.
    Proceed,
    /// The request has to wait for the given number of milliseconds.
    Wait(u64),
}

/// Rate-limit state of all endpoints seen so far.
#[derive(Debug)]
pub struct RateLimitTracker {
    enabled: bool,
    buckets: Vec<RateLimitBucket>,
}

/// The limits that the three rate-limit headers of a response announce: the
/// request limit, the remaining count and the reset time in seconds since
/// the Unix epoch. All three have to be decimal numbers, the first two
/// within 32 bits and the reset time, in milliseconds, within the range of
/// the clock; otherwise the response announces nothing.
pub open spec fn announced_limits(limit: Seq<char>, remaining: Seq<char>, reset: Seq<char>)
    -> Option<BucketState> {
    match (parsed_u64(limit), parsed_u64(remaining), parsed_u64(reset)) {
        (ParsedNumber::Value(l), ParsedNumber::Value(r), ParsedNumber::Value(t)) => if l
            <= u32::MAX && r <= u32::MAX && t * 1000 <= i64::MAX {
            Some(BucketState { limit: l as u32, remaining: r as u32, reset_at: (t * 1000) as i64 })
        } else {
            None
        },
        _ => None,
    }
}

impl BucketState {
    /// Reads the limits from the values of the rate-limit headers of a
    /// response. A missing header, like one that is no number, means that
    /// nothing is known.
    pub fn from_headers(limit: Option<&str>, remaining: Option<&str>, reset: Option<&str>) -> (state:
        Option<BucketState>)
        ensures
            state == match (limit, remaining, reset) {
                (Some(l), Some(r), Some(t)) => announced_limits(l@, r@, t@),
                _ => None,
            },
    {
        match (limit, remaining, reset) {
            (Some(l), Some(r), Some(t)) => {
                match (parse_u64(l), parse_u64(r), parse_u64(t)) {
                    (
                        ParsedNumber::Value(limit),
                        ParsedNumber::Value(remaining),
                        ParsedNumber::Value(seconds),
                    ) => {
                        if limit <= 0xffff_ffff && remaining <= 0xffff_ffff && seconds
                            <= 9_223_372_036_854_775 {
                            Some(
                                BucketState {
                                    limit: limit as u32,
                                    remaining: remaining as u32,
                                    reset_at: (seconds * 1000) as i64,
                                },
                            )
                        } else {
                            None
                        }
                    },
                    _ => None,
                }
            },
            _ => None,
        }
    }

    /// What a bucket holds after an observation: see [`merged`].
    pub fn merge(previous: Option<BucketState>, observed: BucketState) -> (state: BucketState)
        ensures
            state == merged(previous, observed),
    {
        let kept = if observed.remaining <= observed.limit {
            observed.remaining
        } else {
            observed.limit
        };
        let fresh = BucketState { limit: observed.limit, remaining: kept, reset_at: observed.reset_at };
        match previous {
            Some(p) => if observed.reset_at < p.reset_at {
                p
            } else {
                fresh
            },
            None => fresh,
        }
    }

    /// The admission decision for one bucket when the clock shows `now`: see
    /// [`gate_decision`].
    pub fn admission(enabled: bool, bucket: Option<BucketState>, now: i64) -> (decision:
        GateDecision)
        ensures
            decision == gate_decision(enabled, bucket, now),
    {
        match bucket {
            Some(b) => {
                if enabled && b.remaining == 0 && b.reset_at > now {
                    GateDecision::Wait(millis_until(b.reset_at, now))
                } else {
                    GateDecision::Proceed
                }
            },
            None => GateDecision::Proceed,
        }
    }
}

impl RateLimitBucket {
    /// The limits held by the bucket.
    pub open spec fn state(&self) -> BucketState {
        BucketState { limit: self.limit, remaining: self.remaining, reset_at: self.reset_at }
    }
}

/// An observation with its remaining count cut down to its limit.
pub open spec fn clamped(observed: BucketState) -> BucketState {
    BucketState {
        limit: observed.limit,
        remaining: if observed.remaining <= observed.limit {
            observed.remaining
        } else {
            observed.limit
        },
        reset_at: observed.reset_at,
    }
}

/// What a bucket holds after an observation: the observation, clamped, unless
/// the bucket already knows a later reset time, in which case the observation
/// is out of date and the bucket is kept.
pub open spec fn merged(previous: Option<BucketState>, observed: BucketState) -> BucketState {
    match previous {
        Some(p) => if observed.reset_at < p.reset_at {
            p
        } else {
            clamped(observed)
        },
        None => clamped(observed),
    }
}

/// The admission decision for a bucket when the clock shows `now`: wait until the
/// reset time if tracking is on, the bucket is known, nothing remains and the
/// reset time lies ahead; proceed otherwise.
pub open spec fn gate_decision(enabled: bool, bucket: Option<BucketState>, now: i64)
    -> GateDecision {
    match bucket {
        Some(b) => if enabled && b.remaining == 0 && b.reset_at > now {
            GateDecision::Wait(time_until(b.reset_at as int, now as int) as u64)
        } else {
            GateDecision::Proceed
        },
        None => GateDecision::Proceed,
    }
}

/// Whether every bucket of the map has at most as many requests remaining as
/// its limit allows.
pub open spec fn within_limits(buckets: Map<Seq<char>, BucketState>) -> bool {
    forall|k: Seq<char>| #[trigger] buckets.dom().contains(k) ==> buckets[k].remaining <= buckets[k].limit
}

/// The bucket stored under `key`, if any.
pub open spec fn lookup(buckets: Map<Seq<char>, BucketState>, key: Seq<char>) -> Option<
    BucketState,
> {
    if buckets.dom().contains(key) {
        Some(buckets[key])
    } else {
        None
    }
}

spec fn has_key(buckets: Seq<RateLimitBucket>, key: Seq<char>, i: int) -> bool {
    0 <= i < buckets.len() && buckets[i].endpoint_key@ == key
}

spec fn distinct_keys(buckets: Seq<RateLimitBucket>) -> bool {
    forall|i: int, j: int|
        0 <= i < j < buckets.len() ==> buckets[i].endpoint_key@ != buckets[j].endpoint_key@
}

spec fn all_within_limit(buckets: Seq<RateLimitBucket>) -> bool {
    forall|i: int| 0 <= i < buckets.len() ==> (#[trigger] buckets[i]).remaining <= buckets[i].limit
}

spec fn as_map(buckets: Seq<RateLimitBucket>) -> Map<Seq<char>, BucketState> {
    Map::new(
        |k: Seq<char>| exists|i: int| has_key(buckets, k, i),
        |k: Seq<char>| buckets[choose|i: int| has_key(buckets, k, i)].state(),
    )
}

proof fn lemma_as_map_at(buckets: Seq<RateLimitBucket>, i: int)
    requires
        distinct_keys(buckets),
        0 <= i < buckets.len(),
    ensures
        as_map(buckets).dom().contains(buckets[i].endpoint_key@),
        as_map(buckets)[buckets[i].endpoint_key@] == buckets[i].state(),
{
    let key = buckets[i].endpoint_key@;
    assert(has_key(buckets, key, i));
    let j = choose|j: int| has_key(buckets, key, j);
    assert(has_key(buckets, key, j));
    assert(j == i);
}

proof fn lemma_as_map_absent(buckets: Seq<RateLimitBucket>, key: Seq<char>)
    requires
        forall|i: int| 0 <= i < buckets.len() ==> buckets[i].endpoint_key@ != key,
    ensures
        !as_map(buckets).dom().contains(key),
{
    assert(forall|i: int| !has_key(buckets, key, i));
}

proof fn lemma_as_map_within_limits(buckets: Seq<RateLimitBucket>)
    requires
        distinct_keys(buckets),
        all_within_limit(buckets),
    ensures
        within_limits(as_map(buckets)),
{
    assert forall|k: Seq<char>| #[trigger] as_map(buckets).dom().contains(k) implies as_map(
        buckets,
    )[k].remaining <= as_map(buckets)[k].limit by {
        let i = choose|i: int| has_key(buckets, k, i);
        assert(has_key(buckets, k, i));
        assert(buckets[i].remaining <= buckets[i].limit);
    }
}

proof fn lemma_as_map_push(buckets: Seq<RateLimitBucket>, bucket: RateLimitBucket)
    requires
        distinct_keys(buckets),
        forall|i: int| 0 <= i < buckets.len() ==> buckets[i].endpoint_key@ != bucket.endpoint_key@,
    ensures
        distinct_keys(buckets.push(bucket)),
        as_map(buckets.push(bucket)) == as_map(buckets).insert(
            bucket.endpoint_key@,
            bucket.state(),
        ),
{
    let after = buckets.push(bucket);
    let n = buckets.len() as int;
    assert(distinct_keys(after));
    assert forall|k: Seq<char>| as_map(after).dom().contains(k) <==> as_map(buckets).insert(
        bucket.endpoint_key@,
        bucket.state(),
    ).dom().contains(k) by {
        if as_map(after).dom().contains(k) {
            let i = choose|i: int| has_key(after, k, i);
            assert(has_key(after, k, i));
            if i < n {
                assert(has_key(buckets, k, i));
            }
        }
        if as_map(buckets).dom().contains(k) {
            let i = choose|i: int| has_key(buckets, k, i);
            assert(has_key(buckets, k, i));
            assert(has_key(after, k, i));
        }
        if k == bucket.endpoint_key@ {
            assert(has_key(after, k, n));
        }
    }
    assert forall|k: Seq<char>| as_map(after).dom().contains(k) implies as_map(after)[k]
        == as_map(buckets).insert(bucket.endpoint_key@, bucket.state())[k] by {
        let i = choose|i: int| has_key(after, k, i);
        assert(has_key(after, k, i));
        lemma_as_map_at(after, i);
        if i < n {
            lemma_as_map_at(buckets, i);
        }
    }
    assert(as_map(after) =~= as_map(buckets).insert(bucket.endpoint_key@, bucket.state()));
}

proof fn lemma_as_map_update(buckets: Seq<RateLimitBucket>, at: int, bucket: RateLimitBucket)
    requires
        distinct_keys(buckets),
        0 <= at < buckets.len(),
        buckets[at].endpoint_key@ == bucket.endpoint_key@,
    ensures
        distinct_keys(buckets.update(at, bucket)),
        as_map(buckets.update(at, bucket)) == as_map(buckets).insert(
            bucket.endpoint_key@,
            bucket.state(),
        ),
{
    let after = buckets.update(at, bucket);
    assert(distinct_keys(after)) by {
        assert forall|i: int, j: int| 0 <= i < j < after.len() implies after[i].endpoint_key@
            != after[j].endpoint_key@ by {
            assert(after[i].endpoint_key@ == buckets[i].endpoint_key@);
            assert(after[j].endpoint_key@ == buckets[j].endpoint_key@);
        }
    }
    assert forall|k: Seq<char>| as_map(after).dom().contains(k) <==> as_map(buckets).insert(
        bucket.endpoint_key@,
        bucket.state(),
    ).dom().contains(k) by {
        if as_map(after).dom().contains(k) {
            let i = choose|i: int| has_key(after, k, i);
            assert(has_key(after, k, i));
            assert(has_key(buckets, k, i));
        }
        if as_map(buckets).dom().contains(k) {
            let i = choose|i: int| has_key(buckets, k, i);
            assert(has_key(buckets, k, i));
            assert(has_key(after, k, i));
        }
        if k == bucket.endpoint_key@ {
            assert(has_key(after, k, at));
        }
    }
    assert forall|k: Seq<char>| as_map(after).dom().contains(k) implies as_map(after)[k]
        == as_map(buckets).insert(bucket.endpoint_key@, bucket.state())[k] by {
        let i = choose|i: int| has_key(after, k, i);
        assert(has_key(after, k, i));
        lemma_as_map_at(after, i);
        if i != at {
            lemma_as_map_at(buckets, i);
        }
    }
    assert(as_map(after) =~= as_map(buckets).insert(bucket.endpoint_key@, bucket.state()));
}

impl View for RateLimitTracker {
    type V = Map<Seq<char>, BucketState>;

    /// The buckets by endpoint key.
    closed spec fn view(&self) -> Map<Seq<char>, BucketState> {
        as_map(self.buckets@)
    }
}

impl RateLimitTracker {
    #[verifier::type_invariant]
    spec fn well_formed(&self) -> bool {
        distinct_keys(self.buckets@) && all_within_limit(self.buckets@)
    }

    /// Whether per-endpoint tracking is on.
    pub closed spec fn spec_enabled(&self) -> bool {
        self.enabled
    }

    /// The number of buckets.
    pub closed spec fn spec_len(&self) -> nat {
        self.buckets@.len()
    }

    /// A tracker without buckets. With `enabled` false it records nothing and
    /// its gate always lets requests through.
    pub fn new(enabled: bool) -> (tracker: Self)
        ensures
            tracker.spec_enabled() == enabled,
            tracker@ == Map::<Seq<char>, BucketState>::empty(),
    {
        let tracker = Self { enabled, buckets: Vec::new() };
        proof {
            assert(forall|k: Seq<char>, i: int| !has_key(tracker.buckets@, k, i));
            assert(tracker@ =~= Map::<Seq<char>, BucketState>::empty());
        }
        tracker
    }

    /// A tracker without buckets that tracks if the configuration says so.
    pub fn from_config(config: &RateLimitConfig) -> (tracker: Self)
        ensures
            tracker.spec_enabled() == config.spec_per_endpoint_tracking(),
            tracker@ == Map::<Seq<char>, BucketState>::empty(),
    {
        Self::new(config.per_endpoint_tracking())
    }

    /// Whether per-endpoint tracking is on.
    pub fn is_enabled(&self) -> (enabled: bool)
        ensures
            enabled == self.spec_enabled(),
    {
        self.enabled
    }

    fn position(&self, endpoint_key: &str) -> (found: Option<usize>)
        ensures
            found matches Some(i) ==> has_key(self.buckets@, endpoint_key@, i as int),
            found is None ==> forall|i: int|
                0 <= i < self.buckets@.len() ==> self.buckets@[i].endpoint_key@ != endpoint_key@,
    {
        let mut i: usize = 0;
        while i < self.buckets.len()
            invariant
                i <= self.buckets@.len(),
                forall|j: int| 0 <= j < i ==> self.buckets@[j].endpoint_key@ != endpoint_key@,
            decreases self.buckets@.len() - i,
        {
            if same_text(self.buckets[i].endpoint_key.as_str(), endpoint_key) {
                return Some(i);
            }
            i += 1;
        }
        None
    }

    /// The limits stored for `endpoint_key`, if the endpoint was ever
    /// observed. A stored bucket never has more remaining than its limit.
    pub fn bucket(&self, endpoint_key: &str) -> (state: Option<BucketState>)
        ensures
            state == lookup(self@, endpoint_key@),
            within_limits(self@),
    {
        proof {
            use_type_invariant(self);
            lemma_as_map_within_limits(self.buckets@);
        }
        match self.position(endpoint_key) {
            Some(i) => {
                proof {
                    lemma_as_map_at(self.buckets@, i as int);
                }
                let b = &self.buckets[i];
                Some(BucketState { limit: b.limit, remaining: b.remaining, reset_at: b.reset_at })
            },
            None => {
                proof {
                    lemma_as_map_absent(self.buckets@, endpoint_key@);
                }
                None
            },
        }
    }

    /// Records the limits that a response announced for `endpoint_key`.
    ///
    /// With tracking off nothing changes. Otherwise the bucket of the endpoint
    /// becomes [`merged`] of what it held and the observation, and all other
    /// buckets stay as they are. So no bucket is ever removed, a bucket's
    /// reset time never moves back, and no bucket ever has more remaining
    /// than its limit.
    pub fn observe(&mut self, endpoint_key: &str, limit: u32, remaining: u32, reset_at: i64)
        ensures
            final(self).spec_enabled() == old(self).spec_enabled(),
            !old(self).spec_enabled() ==> final(self)@ == old(self)@,
            old(self).spec_enabled() ==> final(self)@ == old(self)@.insert(
                endpoint_key@,
                merged(
                    lookup(old(self)@, endpoint_key@),
                    BucketState { limit, remaining, reset_at },
                ),
            ),
            within_limits(final(self)@),
            forall|k: Seq<char>|
                old(self)@.dom().contains(k) ==> #[trigger] final(self)@.dom().contains(k),
            lookup(old(self)@, endpoint_key@) matches Some(before) ==> (lookup(
                final(self)@,
                endpoint_key@,
            ) matches Some(after) && after.reset_at >= before.reset_at),
    {
        proof {
            use_type_invariant(&*self);
            lemma_as_map_within_limits(self.buckets@);
        }
        if !self.enabled {
            return ;
        }
        let found = self.position(endpoint_key);
        let previous = match found {
            Some(i) => {
                proof {
                    lemma_as_map_at(self.buckets@, i as int);
                }
                let b = &self.buckets[i];
                Some(BucketState { limit: b.limit, remaining: b.remaining, reset_at: b.reset_at })
            },
            None => {
                proof {
                    lemma_as_map_absent(self.buckets@, endpoint_key@);
                }
                None
            },
        };
        let state = BucketState::merge(previous, BucketState { limit, remaining, reset_at });
        let bucket = RateLimitBucket {
            endpoint_key: endpoint_key.to_owned(),
            limit: state.limit,
            remaining: state.remaining,
            reset_at: state.reset_at,
        };
        let ghost before = self.buckets@;
        let mut buckets: Vec<RateLimitBucket> = Vec::new();
        core::mem::swap(&mut self.buckets, &mut buckets);
        match found {
            Some(i) => {
                proof {
                    lemma_as_map_update(before, i as int, bucket);
                }
                buckets.set(i, bucket);
            },
            None => {
                proof {
                    lemma_as_map_push(before, bucket);
                }
                buckets.push(bucket);
            },
        }
        proof {
            lemma_as_map_within_limits(buckets@);
        }
        core::mem::swap(&mut self.buckets, &mut buckets);
    }

    /// Whether a request to `endpoint_key` may be sent when the clock shows
    /// `now`, or how long it has to wait. The answer is `Wait` only for a
    /// known bucket with nothing remaining whose reset time lies ahead, and
    /// the wait is then the time until the reset. The tracker is not changed
    /// and nothing sleeps: after waiting, the caller asks again.
    pub fn gate(&self, endpoint_key: &str, now: i64) -> (decision: GateDecision)
        ensures
            decision == gate_decision(self.spec_enabled(), lookup(self@, endpoint_key@), now),
    {
        let bucket = self.bucket(endpoint_key);
        BucketState::admission(self.enabled, bucket, now)
    }

    /// [`RateLimitTracker::gate`] at the current time. The clock is read
    /// once; whatever it shows, an unknown endpoint, a bucket with requests
    /// remaining and a tracker that is switched off let the request through.
    pub fn gate_now(&self, endpoint_key: &str) -> (decision: GateDecision)
        ensures
            exists|now: i64|
                decision == gate_decision(self.spec_enabled(), lookup(self@, endpoint_key@), now),
            decision is Wait ==> self.spec_enabled() && (lookup(self@, endpoint_key@) matches Some(
                b,
            ) && b.remaining == 0),
    {
        let now = utc_now_millis();
        self.gate(endpoint_key, now)
    }
}

/// While the reset time of an exhausted bucket lies ahead `gate` answers
/// `Wait` with a positive wait, and from the reset time on it answers
/// `Proceed`. This is the state right after an observation with nothing
/// remaining that was not older than what the tracker held.
pub proof fn lemma_gate_follows_reset_time(
    previous: Option<BucketState>,
    limit: u32,
    reset_at: i64,
    now: i64,
)
    requires
        previous matches Some(p) ==> p.reset_at <= reset_at,
    ensures
        now < reset_at ==> (gate_decision(
            true,
            Some(merged(previous, BucketState { limit, remaining: 0, reset_at })),
            now,
        ) matches GateDecision::Wait(d) && d > 0 && d == reset_at - now),
        now >= reset_at ==> gate_decision(
            true,
            Some(merged(previous, BucketState { limit, remaining: 0, reset_at })),
            now,
        ) == GateDecision::Proceed,
{
}

/// No request to an endpoint that was not observed yet is held back, nor
/// any request while tracking is off; and a wait is never zero.
pub proof fn lemma_gate_is_optimistic(enabled: bool, bucket: Option<BucketState>, now: i64)
    ensures
        bucket is None ==> gate_decision(enabled, bucket, now) == GateDecision::Proceed,
        !enabled ==> gate_decision(enabled, bucket, now) == GateDecision::Proceed,
        gate_decision(enabled, bucket, now) matches GateDecision::Wait(d) ==> d > 0,
{
}

/// Merging keeps a bucket within its limit and never moves its reset time
/// back.
pub proof fn lemma_merge_keeps_invariants(previous: Option<BucketState>, observed: BucketState)
    requires
        previous matches Some(p) ==> p.remaining <= p.limit,
    ensures
        merged(previous, observed).remaining <= merged(previous, observed).limit,
        previous matches Some(p) ==> merged(previous, observed).reset_at >= p.reset_at,
        merged(previous, observed).reset_at >= observed.reset_at,
{
}

} // verus!
