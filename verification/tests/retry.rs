use cloud_orchestration::retry::{
    after_failure, capacity_poll_policy, inventory_retry_policy, run_retry,
    worst_case_blocking_millis, RetryDecision, RetryPolicy,
};

#[test]
fn always_failing_operation_is_invoked_exactly_max_attempts_times() {
    let policy = RetryPolicy { interval_millis: 0, max_attempts: 4 };
    let outcomes: Vec<Result<u64, String>> = vec![
        Err("e1".to_string()),
        Err("e2".to_string()),
        Err("e3".to_string()),
        Err("e4".to_string()),
    ];
    let (attempts, result) = run_retry(&policy, &outcomes);
    assert_eq!(attempts, 4);
    assert_eq!(*result, Err("e4".to_string()));
}

#[test]
fn success_on_attempt_k_stops_after_exactly_k_invocations() {
    let policy = RetryPolicy { interval_millis: 0, max_attempts: 5 };
    let outcomes: Vec<Result<u64, String>> = vec![
        Err("e1".to_string()),
        Err("e2".to_string()),
        Ok(42),
        Err("never reached".to_string()),
        Ok(99),
    ];
    let (attempts, result) = run_retry(&policy, &outcomes);
    assert_eq!(attempts, 3);
    assert_eq!(*result, Ok(42));
}

#[test]
fn immediate_success_makes_a_single_invocation() {
    let policy = RetryPolicy { interval_millis: 1000, max_attempts: 11 };
    let outcomes: Vec<Result<u64, String>> = vec![
        Ok(7),
        Err("never reached".to_string()),
        Err("never reached".to_string()),
        Err("never reached".to_string()),
        Err("never reached".to_string()),
        Err("never reached".to_string()),
        Err("never reached".to_string()),
        Err("never reached".to_string()),
        Err("never reached".to_string()),
        Err("never reached".to_string()),
        Err("never reached".to_string()),
    ];
    let (attempts, result) = run_retry(&policy, &outcomes);
    assert_eq!(attempts, 1);
    assert_eq!(*result, Ok(7));
}

#[test]
fn single_attempt_policy_returns_the_only_failure() {
    let policy = RetryPolicy { interval_millis: 0, max_attempts: 1 };
    let outcomes: Vec<Result<u64, String>> = vec![Err("only".to_string())];
    let (attempts, result) = run_retry(&policy, &outcomes);
    assert_eq!(attempts, 1);
    assert_eq!(*result, Err("only".to_string()));
}

#[test]
fn after_failure_retries_below_the_budget_and_gives_up_at_it() {
    let policy = RetryPolicy { interval_millis: 5, max_attempts: 3 };
    assert_eq!(after_failure(&policy, 1), RetryDecision::SleepAndRetry);
    assert_eq!(after_failure(&policy, 2), RetryDecision::SleepAndRetry);
    assert_eq!(after_failure(&policy, 3), RetryDecision::GiveUp);
}

#[test]
fn inventory_policy_is_one_second_eleven_attempts() {
    let p = inventory_retry_policy();
    assert_eq!(p.interval_millis, 1000);
    assert_eq!(p.max_attempts, 11);
}

#[test]
fn capacity_policy_is_thirty_seconds_ten_thousand_attempts() {
    let p = capacity_poll_policy();
    assert_eq!(p.interval_millis, 30000);
    assert_eq!(p.max_attempts, 10000);
}

#[test]
fn worst_case_blocking_is_interval_times_attempts_minus_one() {
    let p = inventory_retry_policy();
    assert_eq!(worst_case_blocking_millis(&p), 10000);
    let one = RetryPolicy { interval_millis: 77, max_attempts: 1 };
    assert_eq!(worst_case_blocking_millis(&one), 0);
    let big = RetryPolicy { interval_millis: u64::MAX, max_attempts: u64::MAX };
    assert_eq!(
        worst_case_blocking_millis(&big),
        (u64::MAX as u128) * ((u64::MAX - 1) as u128)
    );
}
