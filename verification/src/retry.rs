//! A fixed-interval, bounded-attempt retry executor.
//!
//! An operation is run repeatedly until it succeeds or the policy's attempt
//! budget is exhausted; every failure is treated as retryable. The executor
//! here works over the sequence of outcomes the operation produces on its
//! successive invocations, so its contract can say exactly how many
//! invocations are made and which outcome is returned. The per-step decision
//! ([`after_failure`]) is what a live loop consults between a failed attempt
//! and the next one.

use vstd::prelude::*;

verus! {

/// A fixed-interval, bounded-attempt retry policy: sleep `interval_millis`
/// between attempts, give up after `max_attempts` attempts in all.
#[derive(Clone, Copy, Debug)]
pub struct RetryPolicy {
    pub interval_millis: u64,
    pub max_attempts: u64,
}

impl RetryPolicy {
    /// A policy is well formed when it allows at least one attempt.
    pub open spec fn wf(self) -> bool {
        self.max_attempts >= 1
    }
}

/// What the executor does after a failed attempt: sleep for the policy's
/// interval and try again, or give up and surface the failure.
#[derive(Clone, Copy, Debug, PartialEq, Eq, Structural)]
pub enum RetryDecision {
    SleepAndRetry,
    GiveUp,
}

/// The policy under which inventory queries are retried during workspace
/// discovery: one second between attempts, eleven attempts in all (the first
/// try plus ten retries).
pub fn inventory_retry_policy() -> (p: RetryPolicy)
    ensures
        p.interval_millis == 1000,
        p.max_attempts == 11,
        p.wf(),
{
    RetryPolicy { interval_millis: 1000, max_attempts: 11 }
}

/// The policy under which the autoscaling provider is polled for capacity
/// convergence: thirty seconds between polls, with an attempt budget so large
/// that in practice the poll is bounded by operator patience.
pub fn capacity_poll_policy() -> (p: RetryPolicy)
    ensures
        p.interval_millis == 30000,
        p.max_attempts == 10000,
        p.wf(),
{
    RetryPolicy { interval_millis: 30000, max_attempts: 10000 }
}

/// Decides what follows a failed attempt: retry while fewer than
/// `max_attempts` attempts have been made, give up otherwise.
pub fn after_failure(policy: &RetryPolicy, attempts_made: u64) -> (d: RetryDecision)
    requires
        policy.wf(),
        attempts_made >= 1,
    ensures
        d is SleepAndRetry <==> attempts_made < policy.max_attempts,
{
    if attempts_made < policy.max_attempts {
        RetryDecision::SleepAndRetry
    } else {
        RetryDecision::GiveUp
    }
}

/// The longest a caller can be blocked by sleeps under `policy`: one interval
/// between each pair of consecutive attempts, so `interval × (attempts − 1)`.
pub fn worst_case_blocking_millis(policy: &RetryPolicy) -> (t: u128)
    requires
        policy.wf(),
    ensures
        t == policy.interval_millis * (policy.max_attempts - 1),
{
    proof {
        let a = policy.interval_millis as int;
        let b = (policy.max_attempts - 1) as int;
        assert(a * b <= 0xffff_ffff_ffff_ffff * 0xffff_ffff_ffff_ffff) by (nonlinear_arith)
            requires
                0 <= a <= 0xffff_ffff_ffff_ffff,
                0 <= b <= 0xffff_ffff_ffff_ffff,
        ;
    }
    (policy.interval_millis as u128) * ((policy.max_attempts - 1) as u128)
}

/// Every outcome before index `k` is a failure.
pub open spec fn failures_before<T, E>(outcomes: Seq<Result<T, E>>, k: int) -> bool {
    forall|i: int| 0 <= i < k ==> outcomes[i] is Err
}

/// Runs an operation under `policy`, the operation's successive outcomes
/// given as `outcomes`: attempt `i + 1` observes `outcomes[i]`. Returns how
/// many attempts were made and the outcome of the last one.
///
/// The contract pins the executor down completely:
/// - a success is returned immediately, with no further attempts;
/// - a failure is retried while attempts remain, and the most recent failure
///   is returned once they are exhausted;
/// so an operation that always fails is invoked exactly `max_attempts` times
/// and its last failure is returned, never a success, and an operation that
/// first succeeds on attempt `k <= max_attempts` is invoked exactly `k`
/// times and that success is returned.
pub fn run_retry<'a, T, E>(policy: &RetryPolicy, outcomes: &'a Vec<Result<T, E>>) -> (r: (
    u64,
    &'a Result<T, E>,
))
    requires
        policy.wf(),
        policy.max_attempts <= outcomes@.len(),
    ensures
        1 <= r.0 <= policy.max_attempts,
        failures_before(outcomes@, r.0 - 1),
        *r.1 == outcomes@[r.0 - 1],
        *r.1 is Err ==> r.0 == policy.max_attempts,
        failures_before(outcomes@, policy.max_attempts as int) ==> r.0 == policy.max_attempts
            && *r.1 is Err,
        forall|k: int|
            0 <= k < policy.max_attempts && outcomes@[k] is Ok && failures_before(outcomes@, k)
                ==> r.0 == k + 1 && *r.1 == outcomes@[k],
{
    let n: usize = outcomes.len();
    let mut attempts: u64 = 0;
    loop
        invariant
            policy.wf(),
            policy.max_attempts <= n,
            n == outcomes@.len(),
            attempts < policy.max_attempts,
            failures_before(outcomes@, attempts as int),
        decreases policy.max_attempts - attempts,
    {
        let idx: usize = attempts as usize;
        let outcome = &outcomes[idx];
        attempts = attempts + 1;
        proof {
            assert(*outcome == outcomes@[attempts - 1]);
        }
        match outcome {
            Ok(_) => {
                return (attempts, outcome);
            },
            Err(_) => {
                proof {
                    assert(outcomes@[attempts - 1] is Err);
                    assert forall|i: int| 0 <= i < attempts as int implies outcomes@[i] is Err by {
                        if i < attempts - 1 {
                            assert(outcomes@[i] is Err);
                        }
                    }
                }
                match after_failure(policy, attempts) {
                    RetryDecision::GiveUp => {
                        return (attempts, outcome);
                    },
                    RetryDecision::SleepAndRetry => {},
                }
            },
        }
    }
}

} // verus!
