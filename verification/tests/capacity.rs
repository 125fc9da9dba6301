use cloud_orchestration::capacity::{
    evaluate_poll, in_service_count, poll_step, set_capacity, CapacityError, GroupInstance,
    GroupsResponse, PollError, ScalingGroup, ScalingObservation, ScalingTarget,
};
use cloud_orchestration::retry::RetryPolicy;

fn group_with_states(states: &[&str]) -> GroupsResponse {
    GroupsResponse {
        groups: vec![ScalingGroup {
            instances: Some(
                states
                    .iter()
                    .map(|s| GroupInstance { lifecycle_state: s.to_string() })
                    .collect(),
            ),
        }],
    }
}

fn no_groups() -> GroupsResponse {
    GroupsResponse { groups: vec![] }
}

fn target(desired: i64) -> ScalingTarget {
    ScalingTarget { group_name: "cluster-asg".to_string(), desired_capacity: desired }
}

#[test]
fn in_service_count_counts_only_exact_in_service_states() {
    let instances = vec![
        GroupInstance { lifecycle_state: "InService".to_string() },
        GroupInstance { lifecycle_state: "Pending".to_string() },
        GroupInstance { lifecycle_state: "InService".to_string() },
        GroupInstance { lifecycle_state: "Terminating".to_string() },
        GroupInstance { lifecycle_state: "inservice".to_string() },
    ];
    assert_eq!(in_service_count(&instances), 2);
    assert_eq!(in_service_count(&vec![]), 0);
}

#[test]
fn poll_of_zero_groups_is_a_retryable_failure() {
    assert_eq!(evaluate_poll(1, &no_groups()), Err(PollError::NoGroups));
}

#[test]
fn poll_without_an_instance_list_is_a_retryable_failure() {
    let response = GroupsResponse { groups: vec![ScalingGroup { instances: None }] };
    assert_eq!(evaluate_poll(1, &response), Err(PollError::MissingInstances));
}

#[test]
fn poll_below_target_reports_the_observed_count() {
    let response = group_with_states(&["InService", "Pending", "InService"]);
    assert_eq!(
        evaluate_poll(3, &response),
        Err(PollError::NotConverged(ScalingObservation { in_service_count: 2 }))
    );
}

#[test]
fn poll_at_or_beyond_target_converges() {
    let response = group_with_states(&["InService", "InService", "InService"]);
    assert_eq!(evaluate_poll(3, &response), Ok(()));
    let beyond = group_with_states(&["InService", "InService", "InService", "InService"]);
    assert_eq!(evaluate_poll(3, &beyond), Ok(()));
    let zero = group_with_states(&[]);
    assert_eq!(evaluate_poll(0, &zero), Ok(()));
}

#[test]
fn provider_error_and_unconverged_poll_are_the_same_kind_of_failure() {
    let errored: Result<GroupsResponse, String> = Err("throttled".to_string());
    assert_eq!(poll_step(3, &errored), Err(PollError::Provider("throttled".to_string())));
    let unconverged: Result<GroupsResponse, String> = Ok(group_with_states(&["InService"]));
    assert!(poll_step(3, &unconverged).is_err());
}

#[test]
fn capacity_converges_after_exactly_two_polls() {
    let policy = RetryPolicy { interval_millis: 0, max_attempts: 4 };
    let polls: Vec<Result<GroupsResponse, String>> = vec![
        Ok(group_with_states(&["InService", "InService"])),
        Ok(group_with_states(&["InService", "InService", "InService"])),
        Ok(no_groups()),
        Ok(no_groups()),
    ];
    let (polls_made, outcome) = set_capacity(&target(3), Ok(()), &polls, &policy);
    assert_eq!(polls_made, 2);
    assert_eq!(outcome, Ok(()));
}

#[test]
fn zero_groups_forever_exhausts_the_attempt_budget() {
    let policy = RetryPolicy { interval_millis: 0, max_attempts: 5 };
    let polls: Vec<Result<GroupsResponse, String>> = (0..5).map(|_| Ok(no_groups())).collect();
    let (polls_made, outcome) = set_capacity(&target(3), Ok(()), &polls, &policy);
    assert_eq!(polls_made, 5);
    assert_eq!(outcome, Err(CapacityError::PollsExhausted(PollError::NoGroups)));
}

#[test]
fn capacity_that_never_converges_exhausts_identically() {
    let policy = RetryPolicy { interval_millis: 0, max_attempts: 5 };
    let polls: Vec<Result<GroupsResponse, String>> =
        (0..5).map(|_| Ok(group_with_states(&["InService"]))).collect();
    let (polls_made, outcome) = set_capacity(&target(3), Ok(()), &polls, &policy);
    assert_eq!(polls_made, 5);
    assert_eq!(
        outcome,
        Err(CapacityError::PollsExhausted(PollError::NotConverged(ScalingObservation {
            in_service_count: 1,
        })))
    );
}

#[test]
fn already_converged_target_completes_on_the_first_poll() {
    let policy = RetryPolicy { interval_millis: 0, max_attempts: 4 };
    let polls: Vec<Result<GroupsResponse, String>> = vec![
        Ok(group_with_states(&["InService", "InService", "InService"])),
        Ok(no_groups()),
        Ok(no_groups()),
        Ok(no_groups()),
    ];
    let (polls_made, outcome) = set_capacity(&target(3), Ok(()), &polls, &policy);
    assert_eq!(polls_made, 1);
    assert_eq!(outcome, Ok(()));
}

#[test]
fn failed_set_request_is_surfaced_without_any_poll() {
    let policy = RetryPolicy { interval_millis: 0, max_attempts: 2 };
    let polls: Vec<Result<GroupsResponse, String>> = vec![
        Ok(group_with_states(&["InService"])),
        Ok(group_with_states(&["InService"])),
    ];
    let (polls_made, outcome) =
        set_capacity(&target(1), Err("denied".to_string()), &polls, &policy);
    assert_eq!(polls_made, 0);
    assert_eq!(outcome, Err(CapacityError::SetRequestFailed("denied".to_string())));
}

#[test]
fn last_poll_failure_is_the_one_surfaced_on_exhaustion() {
    let policy = RetryPolicy { interval_millis: 0, max_attempts: 3 };
    let polls: Vec<Result<GroupsResponse, String>> = vec![
        Ok(no_groups()),
        Err("throttled".to_string()),
        Err("unreachable".to_string()),
    ];
    let (polls_made, outcome) = set_capacity(&target(2), Ok(()), &polls, &policy);
    assert_eq!(polls_made, 3);
    assert_eq!(
        outcome,
        Err(CapacityError::PollsExhausted(PollError::Provider("unreachable".to_string())))
    );
}
