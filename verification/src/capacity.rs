//! Capacity convergence for an autoscaling group.
//!
//! Setting capacity is a two-step protocol: one unretried request asks the
//! autoscaling provider for the desired capacity (with cooldown honoring
//! disabled, so the change applies immediately), then the provider is polled
//! under a bounded retry policy until the number of in-service instances of
//! the named group reaches the target. "Not yet converged" and "transient
//! provider error" are deliberately not distinguished: both are retryable
//! failures of the same poll, so a group that never converges and a provider
//! that keeps erring exhaust the attempt budget in exactly the same way.
//!
//! The provider calls themselves are network I/O and are made by the caller;
//! the functions here take the provider's replies as plain values.

use vstd::prelude::*;

use crate::retry::{failures_before, run_retry, RetryPolicy};

verus! {

/// The caller's intent: bring `group_name` to `desired_capacity` in-service
/// instances.
#[derive(Debug)]
pub struct ScalingTarget {
    pub group_name: String,
    pub desired_capacity: i64,
}

impl ScalingTarget {
    /// A target is well formed when it asks for a non-negative capacity.
    pub open spec fn wf(self) -> bool {
        self.desired_capacity >= 0
    }
}

/// One instance of an autoscaling group, as the provider reports it: only
/// its lifecycle state matters here.
#[derive(Debug)]
pub struct GroupInstance {
    pub lifecycle_state: String,
}

/// One autoscaling group of a provider reply: the instances it holds, which
/// the provider may omit.
#[derive(Debug)]
pub struct ScalingGroup {
    pub instances: Option<Vec<GroupInstance>>,
}

/// A provider reply to a describe-groups query for one group name.
#[derive(Debug)]
pub struct GroupsResponse {
    pub groups: Vec<ScalingGroup>,
}

/// What one poll observed: how many instances of the group are in service.
/// Recomputed on every poll, never carried across polls.
#[derive(Clone, Copy, Debug, PartialEq, Eq, Structural)]
pub struct ScalingObservation {
    pub in_service_count: u64,
}

/// Why one poll did not see convergence. Every variant is retryable and all
/// are treated identically by the poll loop.
#[derive(Debug, PartialEq, Eq)]
pub enum PollError {
    /// The provider call itself failed; holds the provider's message.
    Provider(String),
    /// The provider returned zero groups for the name.
    NoGroups,
    /// The group carried no instance list at all.
    MissingInstances,
    /// Fewer instances are in service than desired; holds the progress
    /// observation.
    NotConverged(ScalingObservation),
}

/// Why a capacity change failed, surfaced to the caller (never fatal to the
/// process: the caller decides).
#[derive(Debug, PartialEq, Eq)]
pub enum CapacityError {
    /// The unretried set-capacity request failed; holds the provider's
    /// message.
    SetRequestFailed(String),
    /// Every poll failed or saw no convergence; holds the last poll failure.
    PollsExhausted(PollError),
}

/// Whether an instance's lifecycle state is exactly `"InService"`.
pub open spec fn is_in_service(i: GroupInstance) -> bool {
    i.lifecycle_state@ == "InService"@
}

/// How many of the given instances are in service.
pub open spec fn spec_in_service_count(s: Seq<GroupInstance>) -> int
    decreases s.len(),
{
    if s.len() == 0 {
        0
    } else {
        spec_in_service_count(s.drop_last()) + if is_in_service(s.last()) {
            1int
        } else {
            0int
        }
    }
}

/// The in-service count never exceeds the number of instances.
proof fn lemma_in_service_count_le_len(s: Seq<GroupInstance>)
    ensures
        0 <= spec_in_service_count(s) <= s.len(),
    decreases s.len(),
{
    if s.len() > 0 {
        lemma_in_service_count_le_len(s.drop_last());
    }
}

/// Counts the instances whose lifecycle state is exactly `"InService"`.
#[verifier::loop_isolation(false)]
pub fn in_service_count(instances: &Vec<GroupInstance>) -> (n: u64)
    ensures
        n == spec_in_service_count(instances@),
{
    let in_service_label: String = "InService".to_owned();
    let len: usize = instances.len();
    let mut n: u64 = 0;
    let mut j: usize = 0;
    while j < len
        invariant
            n == spec_in_service_count(instances@.take(j as int)),
            n <= j <= len,
        decreases len - j,
    {
        proof {
            lemma_in_service_count_le_len(instances@.take(j as int));
            assert(instances@.take(j + 1).drop_last() =~= instances@.take(j as int));
            assert(instances@.take(j + 1).last() == instances@[j as int]);
        }
        if instances[j].lifecycle_state == in_service_label {
            n = n + 1;
        }
        j = j + 1;
    }
    proof {
        assert(instances@.take(len as int) =~= instances@);
    }
    n
}

/// What one poll concludes from a provider reply: converged, or the
/// retryable failure the reply forces — no groups, no instance list, or an
/// in-service count still short of `desired`.
pub open spec fn spec_evaluate_poll(desired: i64, r: GroupsResponse) -> Result<(), PollError> {
    if r.groups@.len() == 0 {
        Err(PollError::NoGroups)
    } else if !(r.groups@[0].instances is Some) {
        Err(PollError::MissingInstances)
    } else {
        let count = spec_in_service_count(r.groups@[0].instances->0@);
        if count < desired {
            Err(PollError::NotConverged(ScalingObservation { in_service_count: count as u64 }))
        } else {
            Ok(())
        }
    }
}

/// Evaluates one provider reply against the desired capacity, exactly as
/// [`spec_evaluate_poll`] says.
pub fn evaluate_poll(desired: i64, response: &GroupsResponse) -> (p: Result<(), PollError>)
    requires
        desired >= 0,
    ensures
        p == spec_evaluate_poll(desired, *response),
{
    if response.groups.len() == 0 {
        return Err(PollError::NoGroups);
    }
    let instances = match &response.groups[0].instances {
        Option::Some(is) => is,
        Option::None => {
            return Err(PollError::MissingInstances);
        },
    };
    let count = in_service_count(instances);
    proof {
        lemma_in_service_count_le_len(instances@);
    }
    if count < desired as u64 {
        Err(PollError::NotConverged(ScalingObservation { in_service_count: count }))
    } else {
        Ok(())
    }
}

/// What one poll attempt yields, the provider call's own outcome included: a
/// provider error is the same kind of retryable failure as a reply that does
/// not show convergence.
pub open spec fn spec_poll_step(desired: i64, outcome: Result<GroupsResponse, String>) -> Result<
    (),
    PollError,
> {
    match outcome {
        Result::Ok(r) => spec_evaluate_poll(desired, r),
        Result::Err(m) => Err(PollError::Provider(m)),
    }
}

/// Maps one poll attempt's outcome — the provider call's reply or error — to
/// the poll's conclusion, exactly as [`spec_poll_step`] says.
pub fn poll_step(desired: i64, outcome: &Result<GroupsResponse, String>) -> (p: Result<
    (),
    PollError,
>)
    requires
        desired >= 0,
    ensures
        p == spec_poll_step(desired, *outcome),
{
    match outcome {
        Result::Ok(r) => evaluate_poll(desired, r),
        Result::Err(m) => Err(PollError::Provider(m.clone())),
    }
}

/// Makes an owned copy of a poll failure, for surfacing the last one to the
/// caller.
fn duplicate_poll_error(e: &PollError) -> (r: PollError)
    ensures
        r == *e,
{
    match e {
        PollError::Provider(m) => PollError::Provider(m.clone()),
        PollError::NoGroups => PollError::NoGroups,
        PollError::MissingInstances => PollError::MissingInstances,
        PollError::NotConverged(o) => PollError::NotConverged(*o),
    }
}

/// No poll before index `k` shows convergence: each one failed or saw too
/// few in-service instances.
pub open spec fn no_convergence_before(
    desired: i64,
    polls: Seq<Result<GroupsResponse, String>>,
    k: int,
) -> bool {
    forall|i: int| 0 <= i < k ==> spec_poll_step(desired, polls[i]) is Err
}

/// Requests the target capacity and polls until the group converges on it.
///
/// `set_result` is the outcome of the caller's unretried set-capacity
/// request; a failure there is surfaced at once, with no poll made. `polls`
/// gives the outcome of each successive poll the caller would make, and the
/// poll loop runs under `policy`. Returns how many polls were made and the
/// overall outcome.
///
/// The contract pins the loop down:
/// - the first converged poll ends the loop with success at exactly that
///   attempt — in particular, a target already converged completes on the
///   first poll;
/// - if no poll within the attempt budget converges (a provider that keeps
///   erring, one that returns zero groups forever, and a group that never
///   reaches the target all look alike), the budget is exhausted and the
///   last poll failure is surfaced.
#[verifier::loop_isolation(false)]
#[verifier::rlimit(60)]
pub fn set_capacity(
    target: &ScalingTarget,
    set_result: Result<(), String>,
    polls: &Vec<Result<GroupsResponse, String>>,
    policy: &RetryPolicy,
) -> (r: (u64, Result<(), CapacityError>))
    requires
        target.wf(),
        policy.wf(),
        policy.max_attempts <= polls@.len(),
    ensures
        set_result is Err ==> r.0 == 0 && r.1 == Err::<(), CapacityError>(
            CapacityError::SetRequestFailed(set_result->Err_0),
        ),
        set_result is Ok ==> {
            &&& 1 <= r.0 <= policy.max_attempts
            &&& no_convergence_before(target.desired_capacity, polls@, r.0 - 1)
            &&& (spec_poll_step(target.desired_capacity, polls@[r.0 - 1]) is Ok <==> r.1 is Ok)
            &&& r.1 is Ok ==> r.1 == Ok::<(), CapacityError>(())
            &&& r.1 is Err ==> r.0 == policy.max_attempts && r.1 == Err::<(), CapacityError>(
                CapacityError::PollsExhausted(
                    spec_poll_step(target.desired_capacity, polls@[r.0 - 1])->Err_0,
                ),
            )
        },
        set_result is Ok && no_convergence_before(
            target.desired_capacity,
            polls@,
            policy.max_attempts as int,
        ) ==> r.0 == policy.max_attempts && r.1 is Err,
        set_result is Ok ==> forall|k: int|
            0 <= k < policy.max_attempts && spec_poll_step(target.desired_capacity, polls@[k]) is Ok
                && no_convergence_before(target.desired_capacity, polls@, k) ==> r.0 == k + 1 && r.1
                is Ok,
{
    if let Err(message) = set_result {
        return (0, Err(CapacityError::SetRequestFailed(message)));
    }
    let desired = target.desired_capacity;
    let len: usize = polls.len();
    let mut steps: Vec<Result<(), PollError>> = Vec::new();
    let mut j: usize = 0;
    while j < len
        invariant
            steps@.len() == j,
            j <= len,
            forall|i: int| 0 <= i < j ==> steps@[i] == spec_poll_step(desired, polls@[i]),
        decreases len - j,
    {
        let step = poll_step(desired, &polls[j]);
        steps.push(step);
        j = j + 1;
    }
    let (attempts, outcome) = run_retry(policy, &steps);
    proof {
        assert(steps@[attempts - 1] == spec_poll_step(desired, polls@[attempts - 1]));
        assert forall|i: int| 0 <= i < attempts - 1 implies spec_poll_step(desired, polls@[i])
            is Err by {
            assert(steps@[i] is Err);
        }
        assert forall|k: int|
            0 <= k < policy.max_attempts && spec_poll_step(desired, polls@[k]) is Ok
                && no_convergence_before(desired, polls@, k) implies attempts == k + 1 && *outcome
            is Ok by {
            assert(steps@[k] is Ok);
            assert forall|i: int| 0 <= i < k implies steps@[i] is Err by {
                assert(spec_poll_step(desired, polls@[i]) is Err);
            }
            assert(failures_before(steps@, k));
            assert(attempts == k + 1);
            assert(*outcome == steps@[k]);
        }
        if no_convergence_before(desired, polls@, policy.max_attempts as int) {
            assert forall|i: int| 0 <= i < policy.max_attempts implies steps@[i] is Err by {
                assert(spec_poll_step(desired, polls@[i]) is Err);
            }
            assert(failures_before(steps@, policy.max_attempts as int));
            assert(attempts == policy.max_attempts && *outcome is Err);
        }
    }
    match outcome {
        Ok(_) => (attempts, Ok(())),
        Err(e) => (attempts, Err(CapacityError::PollsExhausted(duplicate_poll_error(e)))),
    }
}

/// A poll that reports zero groups for the name never shows convergence: it
/// is the same retryable failure as any other, so a provider that returns
/// zero groups forever exhausts the attempt budget exactly as a group that
/// never converges does.
pub proof fn lemma_zero_groups_poll_fails(desired: i64, outcome: Result<GroupsResponse, String>)
    requires
        outcome is Ok ==> outcome->Ok_0.groups@.len() == 0,
    ensures
        spec_poll_step(desired, outcome) is Err,
{
}

/// A group already at (or beyond) the desired capacity converges on the very
/// poll that observes it: polling a converged target is idempotent and
/// completes at the first look.
pub proof fn lemma_converged_poll_succeeds(desired: i64, response: GroupsResponse)
    requires
        response.groups@.len() > 0,
        response.groups@[0].instances is Some,
        spec_in_service_count(response.groups@[0].instances->0@) >= desired,
    ensures
        spec_poll_step(desired, Ok(response)) is Ok,
{
}

} // verus!
