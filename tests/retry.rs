use commandant::command::ExecutionOutcome;
use commandant::retry::{RetryExecutor, RetryPolicy, RetryStep};

fn failure() -> ExecutionOutcome {
    ExecutionOutcome::SpawnFailed { reason: "missing".to_string() }
}

fn success() -> ExecutionOutcome {
    ExecutionOutcome::Success { stdout: "ok".to_string(), stderr: String::new(), exit_code: Some(0) }
}

/// Runs a command whose `k`-th run (from 1) gives `run(k)`; returns the final
/// outcome, the number of runs and the pauses asked for.
fn run_with(policy: RetryPolicy, run: impl Fn(u32) -> ExecutionOutcome) -> (ExecutionOutcome, u32, Vec<u64>) {
    let mut ex = RetryExecutor::new(policy);
    let mut runs = 0;
    let mut pauses = Vec::new();
    loop {
        runs += 1;
        match ex.record(run(runs)) {
            RetryStep::Finished(o) => return (o, runs, pauses),
            RetryStep::Backoff { delay_ms } => pauses.push(delay_ms),
        }
    }
}

#[test]
fn always_failing_runs_max_plus_one_times() {
    for n in 0..5 {
        let (o, runs, pauses) = run_with(RetryPolicy { max_attempts: n, backoff_ms: 7 }, |_| failure());
        assert_eq!(runs, n + 1);
        assert_eq!(o, failure());
        assert_eq!(pauses, vec![7; n as usize]);
    }
}

#[test]
fn success_on_attempt_k_runs_k_times() {
    for n in 0..4u32 {
        for k in 1..=n + 1 {
            let (o, runs, _) = run_with(RetryPolicy { max_attempts: n, backoff_ms: 1 }, |i| if i >= k { success() } else { failure() });
            assert_eq!(runs, k);
            assert!(o.is_success());
        }
    }
}

#[test]
fn two_retries_third_run_succeeds() {
    let (o, runs, pauses) = run_with(RetryPolicy { max_attempts: 2, backoff_ms: 10 }, |i| {
        if i <= 2 {
            ExecutionOutcome::WaitFailed { reason: format!("run {}", i) }
        } else {
            success()
        }
    });
    assert_eq!(runs, 3);
    assert_eq!(o, success());
    assert_eq!(pauses, vec![10, 10]);
}

#[test]
fn zero_retries_one_run_no_pause() {
    let mut ex = RetryExecutor::new(RetryPolicy { max_attempts: 0, backoff_ms: 1000 });
    assert_eq!(ex.record(failure()), RetryStep::Finished(failure()));
    assert!(ex.finished);
}

#[test]
fn nonzero_exit_code_is_success() {
    let ran = ExecutionOutcome::Success { stdout: String::new(), stderr: "bad".to_string(), exit_code: Some(3) };
    assert!(ran.is_success());
    let mut ex = RetryExecutor::new(RetryPolicy { max_attempts: 3, backoff_ms: 1 });
    assert_eq!(ex.record(ran.clone()), RetryStep::Finished(ran));
}

#[test]
fn last_failure_is_returned() {
    let (o, _, _) = run_with(RetryPolicy { max_attempts: 1, backoff_ms: 1 }, |i| ExecutionOutcome::WaitFailed { reason: format!("run {}", i) });
    assert_eq!(o, ExecutionOutcome::WaitFailed { reason: "run 2".to_string() });
}
