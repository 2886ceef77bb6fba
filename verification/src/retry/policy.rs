//! Retry policies: how often a failed request is tried again and how long to
//! wait before each retry.
//!
//! Intervals are milliseconds. The backoff multiplier is a ratio of two
//! integers, so that the delays are computed exactly: the delay before the
//! first retry is the initial interval, each further delay is the one before
//! it times the multiplier, rounded up to a whole millisecond, and no delay
//! exceeds the maximum interval.

use crate::error::Error;
use vstd::arithmetic::power::pow;
use vstd::prelude::*;

verus! {

/// A backoff multiplier: the ratio `numerator / denominator`. A zero
/// denominator stands for a value that is not finite.
#[derive(Debug, Clone, Copy, PartialEq, Eq, Structural)]
pub struct Multiplier {
    /// The dividend of the ratio.
    pub numerator: i64,
    /// The divisor of the ratio; zero if the value is not finite.
    pub denominator: u64,
}

/// When and how often failed requests are retried.
#[derive(Debug, Clone, Copy, PartialEq)]
pub struct RetryPolicy {
    max_retries: u32,
    initial_interval: u64,
    max_interval: u64,
    multiplier: Multiplier,
    jitter: bool,
}

/// Collects the settings of a [`RetryPolicy`] and validates them.
#[derive(Debug)]
pub struct RetryPolicyBuilder {
    max_retries: u32,
    initial_interval: u64,
    max_interval: u64,
    multiplier: Multiplier,
    jitter: bool,
}

/// The settings of a policy or of a builder, as plain values.
pub struct PolicySettings {
    pub max_retries: u32,
    pub initial_interval: u64,
    pub max_interval: u64,
    pub multiplier: Multiplier,
    pub jitter: bool,
}

/// `v` times `numerator / denominator`, rounded up to a whole number.
pub open spec fn scaled(v: nat, numerator: nat, denominator: nat) -> nat
    recommends
        denominator > 0,
{
    ((v * numerator + denominator - 1) / (denominator as int)) as nat
}

/// The smaller of two numbers.
pub open spec fn at_most(a: nat, b: nat) -> nat {
    if a <= b {
        a
    } else {
        b
    }
}

/// The delay before retry number `attempt` (counted from zero), before any
/// jitter: the initial interval for the first retry, then each time the
/// previous delay scaled by the multiplier, and never more than `max`.
pub open spec fn backoff_base(
    initial: nat,
    max: nat,
    numerator: nat,
    denominator: nat,
    attempt: nat,
) -> nat
    decreases attempt,
{
    if attempt == 0 {
        at_most(initial, max)
    } else {
        at_most(
            scaled(
                backoff_base(initial, max, numerator, denominator, (attempt - 1) as nat),
                numerator,
                denominator,
            ),
            max,
        )
    }
}

/// The delay that is returned for a base delay: with jitter a value between
/// zero and the base that `entropy` selects, without jitter the base itself.
pub open spec fn jittered(base: nat, jitter: bool, entropy: u64) -> nat {
    if jitter {
        entropy as nat % (base + 1)
    } else {
        base
    }
}

/// Whether the settings describe a policy: the multiplier is finite and
/// positive, and the initial interval does not exceed the maximum.
pub open spec fn settings_valid(s: PolicySettings) -> bool {
    s.multiplier.is_valid() && s.initial_interval <= s.max_interval
}

/// The default settings: 3 retries, from 1 second up to 60 seconds, doubling,
/// with jitter.
pub open spec fn default_settings() -> PolicySettings {
    PolicySettings {
        max_retries: 3,
        initial_interval: 1000,
        max_interval: 60000,
        multiplier: Multiplier { numerator: 2, denominator: 1 },
        jitter: true,
    }
}

/// No delay exceeds the maximum interval.
pub proof fn lemma_backoff_bounded(
    initial: nat,
    max: nat,
    numerator: nat,
    denominator: nat,
    attempt: nat,
)
    ensures
        backoff_base(initial, max, numerator, denominator, attempt) <= max,
{
}

/// Scaling by a ratio of at least one never shrinks a value.
pub proof fn lemma_scaled_grows(v: nat, numerator: nat, denominator: nat)
    requires
        numerator >= denominator > 0,
    ensures
        scaled(v, numerator, denominator) >= v,
{
    let d = denominator as int;
    assert(v * numerator >= v * denominator) by (nonlinear_arith)
        requires
            numerator >= denominator,
    ;
    assert((v * d + d - 1) / d == v) by (nonlinear_arith)
        requires
            d > 0,
            v >= 0,
    ;
    assert((v * numerator + d - 1) / d >= (v * d + d - 1) / d) by (nonlinear_arith)
        requires
            d > 0,
            v * numerator >= v * d,
    ;
}

/// With a multiplier of at least one the delays never decrease from one
/// attempt to a later one.
pub proof fn lemma_backoff_monotone(
    initial: nat,
    max: nat,
    numerator: nat,
    denominator: nat,
    earlier: nat,
    later: nat,
)
    requires
        numerator >= denominator > 0,
        earlier <= later,
    ensures
        backoff_base(initial, max, numerator, denominator, earlier) <= backoff_base(
            initial,
            max,
            numerator,
            denominator,
            later,
        ),
    decreases later,
{
    if earlier < later {
        let previous = backoff_base(initial, max, numerator, denominator, (later - 1) as nat);
        lemma_backoff_monotone(initial, max, numerator, denominator, earlier, (later - 1) as nat);
        lemma_backoff_bounded(initial, max, numerator, denominator, (later - 1) as nat);
        lemma_scaled_grows(previous, numerator, denominator);
    }
}

/// With a multiplier of at least one, a delay that has reached the maximum
/// interval stays there for all later attempts.
pub proof fn lemma_backoff_saturates(
    initial: nat,
    max: nat,
    numerator: nat,
    denominator: nat,
    earlier: nat,
    later: nat,
)
    requires
        numerator >= denominator > 0,
        earlier <= later,
        backoff_base(initial, max, numerator, denominator, earlier) == max,
    ensures
        backoff_base(initial, max, numerator, denominator, later) == max,
{
    lemma_backoff_monotone(initial, max, numerator, denominator, earlier, later);
    lemma_backoff_bounded(initial, max, numerator, denominator, later);
}

/// Once one delay equals the one before it, all later delays are the same.
pub proof fn lemma_backoff_settles(
    initial: nat,
    max: nat,
    numerator: nat,
    denominator: nat,
    settled: nat,
    later: nat,
)
    requires
        settled <= later,
        backoff_base(initial, max, numerator, denominator, settled + 1) == backoff_base(
            initial,
            max,
            numerator,
            denominator,
            settled,
        ),
    ensures
        backoff_base(initial, max, numerator, denominator, later) == backoff_base(
            initial,
            max,
            numerator,
            denominator,
            settled,
        ),
    decreases later,
{
    if settled < later {
        lemma_backoff_settles(initial, max, numerator, denominator, settled, (later - 1) as nat);
    }
}

/// With a whole multiplier `m` the delay before retry `attempt` is exactly
/// the initial interval times `m` to the power `attempt`, capped at the
/// maximum interval.
pub proof fn lemma_backoff_whole_multiplier(initial: nat, max: nat, m: nat, attempt: nat)
    requires
        m >= 1,
    ensures
        backoff_base(initial, max, m, 1, attempt) == at_most(
            (initial * pow(m as int, attempt)) as nat,
            max,
        ),
        initial * pow(m as int, attempt) >= 0,
    decreases attempt,
{
    reveal(pow);
    if attempt == 0 {
        assert(pow(m as int, 0) == 1);
        assert(initial * 1 == initial);
    } else {
        let k = (attempt - 1) as nat;
        lemma_backoff_whole_multiplier(initial, max, m, k);
        let exact_before = initial * pow(m as int, k);
        let before = backoff_base(initial, max, m, 1, k);
        assert(pow(m as int, attempt) == m * pow(m as int, k));
        assert(initial * pow(m as int, attempt) == exact_before * m) by (nonlinear_arith)
            requires
                pow(m as int, attempt) == m * pow(m as int, k),
                exact_before == initial * pow(m as int, k),
        ;
        assert(scaled(before, m, 1) == before * m);
        if exact_before <= max {
            assert(before == exact_before);
        } else {
            assert(before == max);
            assert(max * m >= max) by (nonlinear_arith)
                requires
                    m >= 1,
                    max >= 0,
            ;
            assert(exact_before * m >= exact_before) by (nonlinear_arith)
                requires
                    m >= 1,
                    exact_before >= 0,
            ;
        }
    }
}

proof fn lemma_pow_base_ordered(a: nat, b: nat, e: nat)
    requires
        a <= b,
    ensures
        0 <= pow(a as int, e) <= pow(b as int, e),
    decreases e,
{
    reveal(pow);
    if e > 0 {
        lemma_pow_base_ordered(a, b, (e - 1) as nat);
        let x = pow(a as int, (e - 1) as nat);
        let y = pow(b as int, (e - 1) as nat);
        assert(0 <= a * x <= b * y) by (nonlinear_arith)
            requires
                0 <= a <= b,
                0 <= x <= y,
        ;
    }
}

/// Rounding up never loses anything: a scaled value times the denominator
/// is at least the value times the numerator.
pub proof fn lemma_scaled_covers(v: nat, numerator: nat, denominator: nat)
    requires
        denominator > 0,
    ensures
        scaled(v, numerator, denominator) * denominator >= v * numerator,
{
    let d = denominator as int;
    let x = v * numerator + d - 1;
    assert(v * numerator >= 0) by (nonlinear_arith)
        requires
            v >= 0,
            numerator >= 0,
    ;
    assert((x / d) * d >= x - (d - 1) && x / d >= 0) by (nonlinear_arith)
        requires
            d > 0,
            x >= 0,
    ;
}

/// Unless it is capped at the maximum interval, a delay is never shorter
/// than the exact exponential that the multiplier describes: with the
/// multiplier `n / d`, the delay before retry `k` times `d` to the power `k`
/// is at least the initial interval times `n` to the power `k`.
pub proof fn lemma_backoff_at_least_exponential(
    initial: nat,
    max: nat,
    numerator: nat,
    denominator: nat,
    attempt: nat,
)
    requires
        denominator > 0,
        initial <= max,
    ensures
        backoff_base(initial, max, numerator, denominator, attempt) == max || backoff_base(
            initial,
            max,
            numerator,
            denominator,
            attempt,
        ) * pow(denominator as int, attempt) >= initial * pow(numerator as int, attempt),
    decreases attempt,
{
    reveal(pow);
    if attempt == 0 {
        assert(pow(denominator as int, 0) == 1);
        assert(pow(numerator as int, 0) == 1);
    } else {
        let k = (attempt - 1) as nat;
        lemma_backoff_at_least_exponential(initial, max, numerator, denominator, k);
        lemma_backoff_bounded(initial, max, numerator, denominator, k);
        let b = backoff_base(initial, max, numerator, denominator, k) as int;
        let c = scaled(b as nat, numerator, denominator) as int;
        let dk = pow(denominator as int, k);
        let nk = pow(numerator as int, k);
        let n = numerator as int;
        let d = denominator as int;
        lemma_pow_base_ordered(0, numerator, k);
        lemma_pow_base_ordered(0, denominator, k);
        lemma_scaled_covers(b as nat, numerator, denominator);
        assert(pow(d, attempt) == d * dk);
        assert(pow(n, attempt) == n * nk);
        if backoff_base(initial, max, numerator, denominator, attempt) != max {
            assert(backoff_base(initial, max, numerator, denominator, attempt) == c);
            assert(c < max);
            if b * dk >= initial * nk {
                assert(c * (d * dk) >= initial * (n * nk)) by (nonlinear_arith)
                    requires
                        c * d >= b * n,
                        b * dk >= initial * nk,
                        dk >= 0,
                        n >= 0,
                ;
            } else {
                assert(b == max);
                if numerator >= denominator {
                    lemma_scaled_grows(b as nat, numerator, denominator);
                } else {
                    lemma_pow_base_ordered(numerator, denominator, k);
                    assert(initial * nk <= max * dk) by (nonlinear_arith)
                        requires
                            0 <= initial <= max,
                            0 <= nk <= dk,
                    ;
                }
            }
        }
    }
}

/// A jittered delay never exceeds its base, and without jitter equals it.
pub proof fn lemma_jitter_bounded(base: nat, jitter: bool, entropy: u64)
    ensures
        jittered(base, jitter, entropy) <= base,
        !jitter ==> jittered(base, jitter, entropy) == base,
{
}

/// Jitter reaches the whole range from zero to the base: every delay in it
/// is selected by some entropy, namely by the delay itself.
pub proof fn lemma_jitter_covers_range(base: nat, delay: u64)
    requires
        delay <= base,
    ensures
        jittered(base, true, delay) == delay,
{
    vstd::arithmetic::div_mod::lemma_small_mod(delay as nat, (base + 1) as nat);
}

impl Multiplier {
    /// Whether the multiplier is finite and greater than zero.
    pub open spec fn is_valid(&self) -> bool {
        self.numerator > 0 && self.denominator > 0
    }

    /// The ratio `numerator / denominator`.
    pub fn new(numerator: i64, denominator: u64) -> (m: Self)
        ensures
            m.numerator == numerator,
            m.denominator == denominator,
    {
        Self { numerator, denominator }
    }

    /// The whole number `value` as a multiplier.
    pub fn whole(value: i64) -> (m: Self)
        ensures
            m.numerator == value,
            m.denominator == 1,
    {
        Self { numerator: value, denominator: 1 }
    }

    /// Whether the multiplier is finite and greater than zero.
    pub fn is_positive_finite(&self) -> (valid: bool)
        ensures
            valid == self.is_valid(),
    {
        self.numerator > 0 && self.denominator > 0
    }
}

fn scale_capped(v: u64, multiplier: Multiplier, max: u64) -> (r: u64)
    requires
        multiplier.is_valid(),
    ensures
        r == at_most(
            scaled(v as nat, multiplier.numerator as nat, multiplier.denominator as nat),
            max as nat,
        ),
{
    let numerator: u128 = multiplier.numerator as u128;
    let denominator: u128 = multiplier.denominator as u128;
    assert(v as u128 * numerator <= 0x7fff_ffff_ffff_ffff_0000_0000_0000_0000) by (nonlinear_arith)
        requires
            v <= 0xffff_ffff_ffff_ffff,
            numerator <= 0x7fff_ffff_ffff_ffff,
    ;
    let product: u128 = v as u128 * numerator;
    let rounded: u128 = (product + (denominator - 1)) / denominator;
    if rounded >= max as u128 {
        max
    } else {
        rounded as u64
    }
}

impl RetryPolicy {
    #[verifier::type_invariant]
    spec fn well_formed(&self) -> bool {
        settings_valid(self.settings())
    }

    /// The settings of the policy.
    pub closed spec fn settings(&self) -> PolicySettings {
        PolicySettings {
            max_retries: self.max_retries,
            initial_interval: self.initial_interval,
            max_interval: self.max_interval,
            multiplier: self.multiplier,
            jitter: self.jitter,
        }
    }

    /// The delay before retry number `attempt`, before any jitter.
    pub open spec fn spec_base_delay(&self, attempt: nat) -> nat {
        backoff_base(
            self.settings().initial_interval as nat,
            self.settings().max_interval as nat,
            self.settings().multiplier.numerator as nat,
            self.settings().multiplier.denominator as nat,
            attempt,
        )
    }

    /// The delay before retry number `attempt` when `entropy` selects the
    /// jitter.
    pub open spec fn spec_delay_for(&self, attempt: nat, entropy: u64) -> nat {
        jittered(self.spec_base_delay(attempt), self.settings().jitter, entropy)
    }

    /// The default policy: 3 retries, from 1 second up to 60 seconds,
    /// doubling, with jitter.
    pub fn new() -> (policy: Self)
        ensures
            policy.settings() == default_settings(),
    {
        Self {
            max_retries: 3,
            initial_interval: 1000,
            max_interval: 60000,
            multiplier: Multiplier { numerator: 2, denominator: 1 },
            jitter: true,
        }
    }

    /// The policy that never retries.
    pub fn none() -> (policy: Self)
        ensures
            policy.settings() == (PolicySettings {
                max_retries: 0,
                initial_interval: 1000,
                max_interval: 1000,
                multiplier: Multiplier { numerator: 1, denominator: 1 },
                jitter: false,
            }),
    {
        Self {
            max_retries: 0,
            initial_interval: 1000,
            max_interval: 1000,
            multiplier: Multiplier { numerator: 1, denominator: 1 },
            jitter: false,
        }
    }

    /// A policy that retries early and often: 5 retries, from 100
    /// milliseconds up to 30 seconds, doubling, with jitter.
    pub fn aggressive() -> (policy: Self)
        ensures
            policy.settings() == (PolicySettings {
                max_retries: 5,
                initial_interval: 100,
                max_interval: 30000,
                multiplier: Multiplier { numerator: 2, denominator: 1 },
                jitter: true,
            }),
    {
        Self {
            max_retries: 5,
            initial_interval: 100,
            max_interval: 30000,
            multiplier: Multiplier { numerator: 2, denominator: 1 },
            jitter: true,
        }
    }

    /// The number of retries after the first attempt.
    pub fn max_retries(&self) -> (n: u32)
        ensures
            n == self.settings().max_retries,
    {
        self.max_retries
    }

    /// The delay before the first retry, which never exceeds the maximum
    /// interval.
    pub fn initial_interval(&self) -> (millis: u64)
        ensures
            millis == self.settings().initial_interval,
            millis <= self.settings().max_interval,
    {
        proof {
            use_type_invariant(self);
        }
        self.initial_interval
    }

    /// The longest delay between two attempts.
    pub fn max_interval(&self) -> (millis: u64)
        ensures
            millis == self.settings().max_interval,
    {
        self.max_interval
    }

    /// The factor by which the delay grows from one retry to the next, which
    /// is finite and positive.
    pub fn multiplier(&self) -> (m: Multiplier)
        ensures
            m == self.settings().multiplier,
            m.is_valid(),
    {
        proof {
            use_type_invariant(self);
        }
        self.multiplier
    }

    /// Whether the delays are randomised.
    pub fn jitter(&self) -> (enabled: bool)
        ensures
            enabled == self.settings().jitter,
    {
        self.jitter
    }

    /// A builder that starts from the default settings.
    pub fn custom() -> (builder: RetryPolicyBuilder)
        ensures
            builder.settings() == default_settings(),
    {
        RetryPolicyBuilder {
            max_retries: 3,
            initial_interval: 1000,
            max_interval: 60000,
            multiplier: Multiplier { numerator: 2, denominator: 1 },
            jitter: true,
        }
    }

    /// The delay before retry number `attempt` (zero for the first retry),
    /// before any jitter. It never exceeds the maximum interval.
    pub fn base_delay(&self, attempt: u32) -> (millis: u64)
        ensures
            millis == self.spec_base_delay(attempt as nat),
            millis <= self.settings().max_interval,
    {
        proof {
            use_type_invariant(self);
        }
        let ghost initial = self.initial_interval as nat;
        let ghost max = self.max_interval as nat;
        let ghost numerator = self.multiplier.numerator as nat;
        let ghost denominator = self.multiplier.denominator as nat;
        let mut current: u64 = self.initial_interval;
        let mut done: u32 = 0;
        let mut settled = false;
        while done < attempt && !settled
            invariant
                self.well_formed(),
                initial == self.initial_interval,
                max == self.max_interval,
                numerator == self.multiplier.numerator,
                denominator == self.multiplier.denominator,
                done <= attempt,
                !settled ==> current == backoff_base(
                    initial,
                    max,
                    numerator,
                    denominator,
                    done as nat,
                ),
                settled ==> current == backoff_base(
                    initial,
                    max,
                    numerator,
                    denominator,
                    attempt as nat,
                ),
            decreases attempt - done, (if settled { 0int } else { 1int }),
        {
            let next = scale_capped(current, self.multiplier, self.max_interval);
            if next == current {
                proof {
                    lemma_backoff_settles(
                        initial,
                        max,
                        numerator,
                        denominator,
                        done as nat,
                        attempt as nat,
                    );
                }
                settled = true;
            } else {
                current = next;
                done = done + 1;
            }
        }
        proof {
            lemma_backoff_bounded(initial, max, numerator, denominator, attempt as nat);
        }
        current
    }

    /// The delay before retry number `attempt` (zero for the first retry).
    ///
    /// Without jitter this is the base delay. With jitter it is a value
    /// between zero and the base delay, selected by `entropy`: the remainder
    /// of `entropy` by the base delay plus one, so that uniformly drawn
    /// entropy spreads the delays over the whole range. Either way it never
    /// exceeds the maximum interval.
    pub fn delay_for(&self, attempt: u32, entropy: u64) -> (millis: u64)
        ensures
            millis == self.spec_delay_for(attempt as nat, entropy),
            millis <= self.spec_base_delay(attempt as nat),
            millis <= self.settings().max_interval,
    {
        let base = self.base_delay(attempt);
        if self.jitter {
            let modulus: u128 = base as u128 + 1;
            ((entropy as u128) % modulus) as u64
        } else {
            base
        }
    }
}

/// Whatever the attempt and the entropy, the delay of a policy never exceeds
/// its maximum interval, and the delay before the first retry of a policy
/// without jitter is its initial interval.
pub proof fn lemma_delay_within_maximum(policy: RetryPolicy, attempt: nat, entropy: u64)
    requires
        settings_valid(policy.settings()),
    ensures
        policy.spec_delay_for(attempt, entropy) <= policy.settings().max_interval,
        !policy.settings().jitter ==> policy.spec_delay_for(0, entropy)
            == policy.settings().initial_interval,
{
    let s = policy.settings();
    lemma_backoff_bounded(
        s.initial_interval as nat,
        s.max_interval as nat,
        s.multiplier.numerator as nat,
        s.multiplier.denominator as nat,
        attempt,
    );
}

/// Without jitter and with a multiplier of at least one, the delays of a
/// policy never decrease from one attempt to a later one, and once a delay
/// has reached the maximum interval all later delays equal it.
pub proof fn lemma_delay_grows_until_maximum(
    policy: RetryPolicy,
    earlier: nat,
    later: nat,
    entropy: u64,
)
    requires
        settings_valid(policy.settings()),
        !policy.settings().jitter,
        policy.settings().multiplier.numerator >= policy.settings().multiplier.denominator,
        earlier <= later,
    ensures
        policy.spec_delay_for(earlier, entropy) <= policy.spec_delay_for(later, entropy),
        policy.spec_delay_for(earlier, entropy) == policy.settings().max_interval
            ==> policy.spec_delay_for(later, entropy) == policy.settings().max_interval,
{
    let s = policy.settings();
    lemma_backoff_monotone(
        s.initial_interval as nat,
        s.max_interval as nat,
        s.multiplier.numerator as nat,
        s.multiplier.denominator as nat,
        earlier,
        later,
    );
    lemma_backoff_bounded(
        s.initial_interval as nat,
        s.max_interval as nat,
        s.multiplier.numerator as nat,
        s.multiplier.denominator as nat,
        later,
    );
}

impl Default for RetryPolicy {
    fn default() -> (policy: Self)
        ensures
            policy.settings() == default_settings(),
    {
        RetryPolicy::new()
    }
}

impl Default for RetryPolicyBuilder {
    fn default() -> (builder: Self)
        ensures
            builder.settings() == default_settings(),
    {
        RetryPolicy::custom()
    }
}

impl RetryPolicyBuilder {
    /// The settings collected so far.
    pub closed spec fn settings(&self) -> PolicySettings {
        PolicySettings {
            max_retries: self.max_retries,
            initial_interval: self.initial_interval,
            max_interval: self.max_interval,
            multiplier: self.multiplier,
            jitter: self.jitter,
        }
    }

    /// Sets the number of retries after the first attempt.
    pub fn max_retries(self, max: u32) -> (builder: Self)
        ensures
            builder.settings() == (PolicySettings { max_retries: max, ..self.settings() }),
    {
        let mut builder = self;
        builder.max_retries = max;
        builder
    }

    /// Sets the delay before the first retry, in milliseconds.
    pub fn initial_interval(self, interval: u64) -> (builder: Self)
        ensures
            builder.settings() == (PolicySettings { initial_interval: interval, ..self.settings() }),
    {
        let mut builder = self;
        builder.initial_interval = interval;
        builder
    }

    /// Sets the longest delay between two attempts, in milliseconds.
    pub fn max_interval(self, interval: u64) -> (builder: Self)
        ensures
            builder.settings() == (PolicySettings { max_interval: interval, ..self.settings() }),
    {
        let mut builder = self;
        builder.max_interval = interval;
        builder
    }

    /// Sets the factor by which the delay grows from one retry to the next.
    pub fn multiplier(self, multiplier: Multiplier) -> (builder: Self)
        ensures
            builder.settings() == (PolicySettings { multiplier, ..self.settings() }),
    {
        let mut builder = self;
        builder.multiplier = multiplier;
        builder
    }

    /// Switches the randomisation of delays on or off.
    pub fn jitter(self, enabled: bool) -> (builder: Self)
        ensures
            builder.settings() == (PolicySettings { jitter: enabled, ..self.settings() }),
    {
        let mut builder = self;
        builder.jitter = enabled;
        builder
    }

    /// The policy with the settings collected so far.
    ///
    /// A multiplier that is not finite or not positive is rejected, and then
    /// an initial interval above the maximum interval, each as a
    /// configuration error. All other settings give a policy.
    pub fn build(self) -> (result: Result<RetryPolicy, Error>)
        ensures
            result is Ok <==> settings_valid(self.settings()),
            result matches Ok(policy) ==> policy.settings() == self.settings(),
            !self.settings().multiplier.is_valid() ==> (result matches Err(Error::Config(m)) && m@
                == "Retry multiplier must be positive and finite"@),
            self.settings().multiplier.is_valid() && self.settings().initial_interval
                > self.settings().max_interval ==> (result matches Err(Error::Config(m)) && m@
                == "Initial interval must be <= max interval"@),
    {
        if !self.multiplier.is_positive_finite() {
            return Err(Error::Config("Retry multiplier must be positive and finite".to_owned()));
        }
        if self.initial_interval > self.max_interval {
            return Err(Error::Config("Initial interval must be <= max interval".to_owned()));
        }
        Ok(
            RetryPolicy {
                max_retries: self.max_retries,
                initial_interval: self.initial_interval,
                max_interval: self.max_interval,
                multiplier: self.multiplier,
                jitter: self.jitter,
            },
        )
    }
}

} // verus!
