//! The exponential backoff schedule that spaces the retries of a rate-limited
//! call. Times are nanoseconds.
use vstd::prelude::*;

verus! {

/// The first retry interval of the standard policy.
pub const INITIAL_INTERVAL_NS: u64 = 4000000000;

/// The growth of the retry interval in the standard policy, in percent.
pub const MULTIPLIER_PERCENT: u64 = 200;

/// The largest retry interval of the standard policy.
pub const MAX_INTERVAL_NS: u64 = 20000000000;

/// How retries are spaced: the first interval, its growth from one retry to
/// the next in percent (200 doubles it), the ceiling of the interval, and the
/// time since the first attempt after which no retry is made.
#[derive(Clone, Copy, Debug, PartialEq, Eq, Structural)]
pub struct BackoffPolicy {
    pub initial_interval_ns: u64,
    pub multiplier_percent: u64,
    pub max_interval_ns: u64,
    pub max_elapsed_ns: u128,
}

impl BackoffPolicy {
    /// A policy whose intervals never shrink and start under the ceiling.
    pub open spec fn well_formed(self) -> bool {
        &&& self.initial_interval_ns <= self.max_interval_ns
        &&& self.multiplier_percent >= 100
    }

    /// The interval that follows `interval`: grown by the multiplier, rounded
    /// down to a nanosecond, and cut at the ceiling.
    pub open spec fn grown(self, interval: nat) -> nat {
        let scaled = interval * self.multiplier_percent / 100;
        if scaled >= self.max_interval_ns {
            self.max_interval_ns as nat
        } else {
            scaled as nat
        }
    }

    /// The wait before retry number `retry`, counted from 0.
    pub open spec fn delay(self, retry: nat) -> nat
        decreases retry,
    {
        if retry == 0 {
            self.initial_interval_ns as nat
        } else {
            self.grown(self.delay((retry - 1) as nat))
        }
    }

    /// Whether a rate-limited attempt that ended `elapsed` nanoseconds after
    /// the first attempt began is retried.
    pub open spec fn allows_retry(self, elapsed: nat) -> bool {
        elapsed <= self.max_elapsed_ns
    }

    /// The standard policy for a caller who waits at most `timeout_ns`:
    /// 4 s at first, doubling, at most 20 s, and no retry once `timeout_ns`
    /// have passed.
    pub open spec fn spec_standard(timeout_ns: u128) -> BackoffPolicy {
        BackoffPolicy {
            initial_interval_ns: INITIAL_INTERVAL_NS,
            multiplier_percent: MULTIPLIER_PERCENT,
            max_interval_ns: MAX_INTERVAL_NS,
            max_elapsed_ns: timeout_ns,
        }
    }

    /// The standard policy for a caller who waits at most `timeout_ns`.
    pub fn standard(timeout_ns: u128) -> (r: BackoffPolicy)
        ensures
            r == Self::spec_standard(timeout_ns),
            r.well_formed(),
    {
        BackoffPolicy {
            initial_interval_ns: INITIAL_INTERVAL_NS,
            multiplier_percent: MULTIPLIER_PERCENT,
            max_interval_ns: MAX_INTERVAL_NS,
            max_elapsed_ns: timeout_ns,
        }
    }

    /// The interval that follows `interval_ns`.
    pub fn grow(&self, interval_ns: u64) -> (r: u64)
        ensures
            r == self.grown(interval_ns as nat),
    {
        let wide: u128 = interval_ns as u128;
        let factor: u128 = self.multiplier_percent as u128;
        assert(wide * factor <= 0xffff_ffff_ffff_ffff * 0xffff_ffff_ffff_ffff) by (nonlinear_arith)
            requires
                0 <= wide <= 0xffff_ffff_ffff_ffff,
                0 <= factor <= 0xffff_ffff_ffff_ffff,
        ;
        let scaled: u128 = wide * factor / 100;
        if scaled >= self.max_interval_ns as u128 {
            self.max_interval_ns
        } else {
            scaled as u64
        }
    }

    /// Whether a rate-limited attempt that ended `elapsed_ns` after the first
    /// attempt began is retried.
    pub fn may_retry(&self, elapsed_ns: u128) -> (r: bool)
        ensures
            r == self.allows_retry(elapsed_ns as nat),
    {
        elapsed_ns <= self.max_elapsed_ns
    }

    /// The wait before retry number `retry`, counted from 0.
    pub fn delay_ns(&self, retry: u64) -> (r: u64)
        ensures
            r == self.delay(retry as nat),
    {
        let mut interval: u64 = self.initial_interval_ns;
        let mut done: u64 = 0;
        while done < retry
            invariant
                done <= retry,
                interval == self.delay(done as nat),
            decreases retry - done,
        {
            interval = self.grow(interval);
            done = done + 1;
        }
        interval
    }
}

/// No wait of a well-formed policy is longer than its ceiling.
pub proof fn lemma_delay_bounded(policy: BackoffPolicy, retry: nat)
    requires
        policy.well_formed(),
    ensures
        policy.delay(retry) <= policy.max_interval_ns,
    decreases retry,
{
    if retry > 0 {
        lemma_delay_bounded(policy, (retry - 1) as nat);
    }
}

/// The waits of a well-formed policy never shrink from one retry to the next.
pub proof fn lemma_delay_monotone(policy: BackoffPolicy, retry: nat)
    requires
        policy.well_formed(),
    ensures
        policy.delay(retry) <= policy.delay(retry + 1),
{
    lemma_delay_bounded(policy, retry);
    let interval = policy.delay(retry);
    let percent = policy.multiplier_percent as nat;
    assert(interval * percent >= interval * 100) by (nonlinear_arith)
        requires
            percent >= 100,
    ;
    assert(policy.delay(retry + 1) == policy.grown(interval));
}

/// Once a wait has reached the ceiling, every later wait is the ceiling.
pub proof fn lemma_delay_stays_at_ceiling(policy: BackoffPolicy, reached: nat, later: nat)
    requires
        policy.well_formed(),
        policy.delay(reached) == policy.max_interval_ns,
        reached <= later,
    ensures
        policy.delay(later) == policy.max_interval_ns,
    decreases later,
{
    if later > reached {
        lemma_delay_stays_at_ceiling(policy, reached, (later - 1) as nat);
        let ceiling = policy.max_interval_ns as nat;
        let percent = policy.multiplier_percent as nat;
        assert(ceiling * percent >= ceiling * 100) by (nonlinear_arith)
            requires
                percent >= 100,
        ;
    }
}

/// The standard policy waits 4 s, 8 s, 16 s, and 20 s from then on.
pub proof fn lemma_standard_schedule(timeout_ns: u128, retry: nat)
    ensures
        BackoffPolicy::spec_standard(timeout_ns).delay(retry) == (if retry == 0 {
            4000000000nat
        } else if retry == 1 {
            8000000000nat
        } else if retry == 2 {
            16000000000nat
        } else {
            20000000000nat
        }),
    decreases retry,
{
    let policy = BackoffPolicy::spec_standard(timeout_ns);
    reveal_with_fuel(BackoffPolicy::delay, 5);
    if retry > 3 {
        lemma_standard_schedule(timeout_ns, 3);
        lemma_delay_stays_at_ceiling(policy, 3, retry);
    }
}

} // verus!
