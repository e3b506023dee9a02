//! Bounded reconnection to the audio backend.
//!
//! A lost backend is tried again a limited number of times, with a wait before
//! each try that doubles up to a ceiling. Both the number of tries and the
//! total time are bounded.

use vstd::arithmetic::power2::{lemma_pow2_pos, pow2};
use vstd::prelude::*;

use crate::duration::Duration;

verus! {

/// Tries per session.
pub const PRODUCTION_MAX_ATTEMPTS: u32 = 3;

/// Wait before the first try, in milliseconds.
pub const PRODUCTION_INITIAL_BACKOFF_MS: u64 = 250;

/// Longest wait, in milliseconds.
pub const PRODUCTION_MAX_BACKOFF_MS: u64 = 1000;

/// How often and how patiently a lost backend is tried again.
#[derive(Debug, Clone, Copy, PartialEq, Eq)]
pub struct ReconnectPolicy {
    /// Tries per session; zero means none.
    pub max_attempts: u32,
    /// Wait before the first try.
    pub initial_backoff: Duration,
    /// Longest wait.
    pub max_backoff: Duration,
    /// Whether the backend is tried again at all.
    pub enabled: bool,
}

/// The smaller of two numbers.
pub open spec fn min_int(a: int, b: int) -> int {
    if a <= b {
        a
    } else {
        b
    }
}

impl ReconnectPolicy {
    /// The wait before try `attempt`, in nanoseconds: the initial wait doubled
    /// for each earlier try, at most the longest wait.
    pub open spec fn backoff(self, attempt: int) -> int {
        let doublings = if attempt <= 1 {
            0
        } else {
            attempt - 1
        };
        min_int(self.initial_backoff@ as int * pow2(doublings as nat), self.max_backoff@ as int)
    }

    /// The sum of the waits before the first `n` tries, in nanoseconds.
    pub open spec fn backoff_sum(self, n: nat) -> int
        decreases n,
    {
        if n == 0 {
            0
        } else {
            self.backoff_sum((n - 1) as nat) + self.backoff(n as int)
        }
    }

    /// Whether a lost backend is never tried again.
    pub open spec fn is_disabled_spec(self) -> bool {
        !self.enabled || self.max_attempts == 0
    }

    /// The default: three tries, waiting 250, 500 and 1000 milliseconds.
    pub fn production() -> (r: Self)
        ensures
            r.max_attempts == PRODUCTION_MAX_ATTEMPTS,
            r.initial_backoff@ == PRODUCTION_INITIAL_BACKOFF_MS * 1_000_000,
            r.max_backoff@ == PRODUCTION_MAX_BACKOFF_MS * 1_000_000,
            r.enabled,
    {
        ReconnectPolicy {
            max_attempts: PRODUCTION_MAX_ATTEMPTS,
            initial_backoff: Duration::from_millis(PRODUCTION_INITIAL_BACKOFF_MS),
            max_backoff: Duration::from_millis(PRODUCTION_MAX_BACKOFF_MS),
            enabled: true,
        }
    }

    /// No second try.
    pub fn fail_fast() -> (r: Self)
        ensures
            r.max_attempts == 0,
            r.initial_backoff@ == 0,
            r.max_backoff@ == 0,
            !r.enabled,
    {
        ReconnectPolicy {
            max_attempts: 0,
            initial_backoff: Duration::zero(),
            max_backoff: Duration::zero(),
            enabled: false,
        }
    }

    /// The policy for a session: `fail_fast` asks for no second try.
    pub fn for_session(fail_fast: bool) -> (r: Self)
        ensures
            r.is_disabled_spec() == fail_fast,
            !fail_fast ==> r.max_attempts == PRODUCTION_MAX_ATTEMPTS && r.initial_backoff@
                == PRODUCTION_INITIAL_BACKOFF_MS * 1_000_000 && r.max_backoff@
                == PRODUCTION_MAX_BACKOFF_MS * 1_000_000,
            fail_fast ==> r.max_attempts == 0 && r.initial_backoff@ == 0 && r.max_backoff@ == 0
                && !r.enabled,
    {
        if fail_fast {
            ReconnectPolicy::fail_fast()
        } else {
            ReconnectPolicy::production()
        }
    }

    /// Whether a lost backend is never tried again.
    pub fn is_disabled(&self) -> (r: bool)
        ensures
            r == self.is_disabled_spec(),
    {
        !self.enabled || self.max_attempts == 0
    }

    /// The wait before try `attempt`, counted from one.
    pub fn backoff_for_attempt(&self, attempt: u32) -> (r: Duration)
        ensures
            r@ == self.backoff(attempt as int),
    {
        let initial: u128 = self.initial_backoff.as_nanos();
        let max: u128 = self.max_backoff.as_nanos();
        let mut left: u32 = if attempt == 0 {
            0
        } else {
            attempt - 1
        };
        let ghost doublings = left as nat;
        let mut wait: u128 = if initial < max {
            initial
        } else {
            max
        };
        proof {
            vstd::arithmetic::power2::lemma2_to64();
            assert(pow2((doublings - left) as nat) == 1);
            assert(initial * 1 == initial);
        }
        while left > 0 && 0 < wait && wait < max
            invariant
                left <= doublings,
                wait == min_int(initial * pow2((doublings - left) as nat), max as int),
            decreases left,
        {
            proof {
                doubling_is_capped(initial as int, max as int, (doublings - left) as nat);
            }
            wait = if wait > max / 2 {
                max
            } else {
                wait * 2
            };
            left = left - 1;
        }
        proof {
            cap_stays(initial as int, max as int, (doublings - left) as nat, doublings);
        }
        Duration::from_nanos(wait)
    }

    /// The sum of all waits of a session: the time ceiling of reconnection.
    pub fn total_backoff_budget(&self) -> (r: Duration)
        ensures
            r@ == min_int(self.backoff_sum(self.max_attempts as nat), u128::MAX as int),
    {
        let mut total: u128 = 0;
        let mut made: u32 = 0;
        while made < self.max_attempts
            invariant
                made <= self.max_attempts,
                total == min_int(self.backoff_sum(made as nat), u128::MAX as int),
            decreases self.max_attempts - made,
        {
            let wait: u128 = self.backoff_for_attempt(made + 1).as_nanos();
            proof {
                total_wait_is_bounded(*self, made as nat);
            }
            total = if total > u128::MAX - wait {
                u128::MAX
            } else {
                total + wait
            };
            made = made + 1;
        }
        Duration::from_nanos(total)
    }
}

impl Default for ReconnectPolicy {
    fn default() -> (r: Self)
        ensures
            r.max_attempts == PRODUCTION_MAX_ATTEMPTS,
            r.initial_backoff@ == PRODUCTION_INITIAL_BACKOFF_MS * 1_000_000,
            r.max_backoff@ == PRODUCTION_MAX_BACKOFF_MS * 1_000_000,
            r.enabled,
    {
        ReconnectPolicy::production()
    }
}

proof fn doubling_is_capped(start: int, max: int, n: nat)
    requires
        0 <= start,
        0 <= max,
    ensures
        ({
            let now = min_int(start * pow2(n), max);
            let next = min_int(start * pow2(n + 1), max);
            next == if now > max / 2 { max } else { now * 2 }
        }),
{
    lemma_pow2_pos(n);
    vstd::arithmetic::power2::lemma_pow2_unfold(n + 1);
    let p = pow2(n) as int;
    assert(start * (2 * p) == 2 * (start * p)) by (nonlinear_arith);
    assert(start * p >= 0) by (nonlinear_arith)
        requires
            start >= 0,
            p > 0,
    ;
}

proof fn doubling_grows(start: int, few: nat, more: nat)
    requires
        0 <= start,
        few <= more,
    ensures
        0 <= start * pow2(few) <= start * pow2(more),
{
    lemma_pow2_pos(few);
    if few < more {
        vstd::arithmetic::power2::lemma_pow2_strictly_increases(few, more);
    }
    let p = pow2(few) as int;
    let q = pow2(more) as int;
    assert(0 <= start * p <= start * q) by (nonlinear_arith)
        requires
            start >= 0,
            0 < p <= q,
    ;
}

proof fn cap_stays(start: int, max: int, few: nat, more: nat)
    requires
        0 <= start,
        0 <= max,
        few <= more,
        few == more || min_int(start * pow2(few), max) == 0 || min_int(start * pow2(few), max)
            == max,
    ensures
        min_int(start * pow2(few), max) == min_int(start * pow2(more), max),
{
    doubling_grows(start, few, more);
    if start * pow2(few) == 0 {
        lemma_pow2_pos(few);
        let p = pow2(few) as int;
        assert(start == 0) by (nonlinear_arith)
            requires
                start * p == 0,
                p > 0,
        ;
        assert(start * pow2(more) == 0);
    }
}

/// No wait is longer than the ceiling, and none is negative.
pub proof fn backoff_is_bounded(policy: ReconnectPolicy, attempt: int)
    ensures
        0 <= policy.backoff(attempt) <= policy.max_backoff@,
{
    let doublings = if attempt <= 1 { 0 } else { attempt - 1 };
    doubling_grows(policy.initial_backoff@ as int, doublings as nat, doublings as nat);
}

/// Later waits are never shorter.
pub proof fn backoff_never_shrinks(policy: ReconnectPolicy, earlier: int, later: int)
    requires
        1 <= earlier <= later,
    ensures
        policy.backoff(earlier) <= policy.backoff(later),
{
    doubling_grows(
        policy.initial_backoff@ as int,
        (earlier - 1) as nat,
        (later - 1) as nat,
    );
}

/// A session waits at most the number of tries times the longest wait.
pub proof fn total_wait_is_bounded(policy: ReconnectPolicy, n: nat)
    ensures
        0 <= policy.backoff_sum(n) <= n * policy.max_backoff@,
    decreases n,
{
    if n > 0 {
        total_wait_is_bounded(policy, (n - 1) as nat);
        backoff_is_bounded(policy, n as int);
        let m = policy.max_backoff@ as int;
        assert((n - 1) * m + m == n * m) by (nonlinear_arith);
    } else {
        assert(0 * policy.max_backoff@ == 0);
    }
}

/// The tries of one session.
#[derive(Debug, Clone)]
pub struct ReconnectCycle {
    policy: ReconnectPolicy,
    attempts_made: u32,
}

impl ReconnectCycle {
    /// The policy.
    pub closed spec fn policy_spec(self) -> ReconnectPolicy {
        self.policy
    }

    /// Tries made so far.
    pub closed spec fn attempts_spec(self) -> u32 {
        self.attempts_made
    }

    /// Whether another try may be made.
    pub open spec fn can_retry_spec(self) -> bool {
        !self.policy_spec().is_disabled_spec() && self.attempts_spec()
            < self.policy_spec().max_attempts
    }

    /// A session without any try so far.
    pub fn new(policy: ReconnectPolicy) -> (r: Self)
        ensures
            r.policy_spec() == policy,
            r.attempts_spec() == 0,
    {
        ReconnectCycle { policy, attempts_made: 0 }
    }

    /// The policy.
    pub fn policy(&self) -> (r: &ReconnectPolicy)
        ensures
            *r == self.policy_spec(),
    {
        &self.policy
    }

    /// Tries made so far.
    pub fn attempts_made(&self) -> (r: u32)
        ensures
            r == self.attempts_spec(),
    {
        self.attempts_made
    }

    /// Whether another try may be made.
    pub fn can_retry(&self) -> (r: bool)
        ensures
            r == self.can_retry_spec(),
    {
        !self.policy.is_disabled() && self.attempts_made < self.policy.max_attempts
    }

    /// Takes one try out of the session's budget and returns the wait before
    /// it; nothing once the budget is spent.
    pub fn begin_attempt(&mut self) -> (r: Option<Duration>)
        ensures
            final(self).policy_spec() == old(self).policy_spec(),
            (r is Some) == old(self).can_retry_spec(),
            final(self).attempts_spec() == old(self).attempts_spec() + (if r is Some {
                1int
            } else {
                0
            }),
            r is Some ==> (r->0)@ == old(self).policy_spec().backoff(
                final(self).attempts_spec() as int,
            ),
    {
        if !self.can_retry() {
            return None;
        }
        self.attempts_made = self.attempts_made + 1;
        Some(self.policy.backoff_for_attempt(self.attempts_made))
    }
}

/// The first wait is the initial one, and each further wait twice the one
/// before, both only as far as the ceiling.
pub proof fn waits_double_up_to_the_ceiling(policy: ReconnectPolicy, attempt: int)
    requires
        attempt >= 1,
    ensures
        policy.initial_backoff@ <= policy.max_backoff@ ==> policy.backoff(1)
            == policy.initial_backoff@,
        policy.initial_backoff@ >= policy.max_backoff@ ==> policy.backoff(1)
            == policy.max_backoff@,
        2 * policy.backoff(attempt) <= policy.max_backoff@ ==> policy.backoff(attempt + 1) == 2
            * policy.backoff(attempt),
        2 * policy.backoff(attempt) >= policy.max_backoff@ ==> policy.backoff(attempt + 1)
            == policy.max_backoff@,
        policy.backoff_sum(attempt as nat) == policy.backoff_sum((attempt - 1) as nat)
            + policy.backoff(attempt),
        policy.backoff_sum(0) == 0,
{
    vstd::arithmetic::power2::lemma2_to64();
    assert(policy.initial_backoff@ as int * 1 == policy.initial_backoff@);
    doubling_is_capped(
        policy.initial_backoff@ as int,
        policy.max_backoff@ as int,
        (attempt - 1) as nat,
    );
    assert((attempt - 1) as nat + 1 == (attempt + 1 - 1) as nat);
}

/// Tries are allowed exactly where the policy is switched on and allows some,
/// and left as long as fewer were made.
pub proof fn tries_are_left_while_fewer_were_made(cycle: ReconnectCycle)
    ensures
        cycle.can_retry_spec() == (cycle.policy_spec().enabled && cycle.attempts_spec()
            < cycle.policy_spec().max_attempts),
        cycle.policy_spec().is_disabled_spec() == !(cycle.policy_spec().enabled
            && cycle.policy_spec().max_attempts > 0),
{
}

} // verus!
