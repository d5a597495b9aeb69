//! Bounded retries of a command run, with a constant pause between attempts.
//!
//! The executor decides; its driver runs the command, hands each outcome to
//! [`RetryExecutor::record`], and pauses or stops as the returned step says.
//! Attempts are strictly sequential.
use vstd::prelude::*;
use crate::command::ExecutionOutcome;

verus! {

/// How often to retry a run that failed, and how long to pause before each retry.
#[derive(Debug, Clone, Copy, PartialEq, Eq, Structural)]
pub struct RetryPolicy {
    /// Retries after the first attempt; at most `max_attempts + 1` attempts are made.
    pub max_attempts: u32,
    /// The pause before each retry, in milliseconds.
    pub backoff_ms: u64,
}

/// What the driver does after an attempt.
#[derive(Debug, Clone, PartialEq, Eq)]
pub enum RetryStep {
    /// Pause this long, then run the command again.
    Backoff { delay_ms: u64 },
    /// Stop: this is the final outcome.
    Finished(ExecutionOutcome),
}

/// The state of one retried invocation.
#[derive(Debug, Clone, Copy, PartialEq, Eq, Structural)]
pub struct RetryExecutor {
    pub policy: RetryPolicy,
    /// Retries still allowed.
    pub retries_left: u32,
    /// Whether a final outcome has been given.
    pub finished: bool,
}

/// The executor before its first attempt.
pub open spec fn start_spec(policy: RetryPolicy) -> RetryExecutor {
    RetryExecutor { policy, retries_left: policy.max_attempts, finished: false }
}

/// The executor's decision on the outcome of an attempt: a failure is retried,
/// after a pause of the policy's backoff, while retries are left; a success, or
/// the failure of the last allowed attempt, is final.
pub open spec fn record_spec(ex: RetryExecutor, outcome: ExecutionOutcome) -> (RetryExecutor, RetryStep) {
    if !ex.finished && !(outcome is Success) && ex.retries_left > 0 {
        (
            RetryExecutor { policy: ex.policy, retries_left: (ex.retries_left - 1) as u32, finished: false },
            RetryStep::Backoff { delay_ms: ex.policy.backoff_ms },
        )
    } else {
        (
            RetryExecutor { policy: ex.policy, retries_left: ex.retries_left, finished: true },
            RetryStep::Finished(outcome),
        )
    }
}

/// Feeds `outcomes`, the results of successive runs, to `ex` until it gives a
/// final outcome: the number of runs it used, and that outcome (`None` if the
/// outcomes ran out first).
pub open spec fn drive(ex: RetryExecutor, outcomes: Seq<ExecutionOutcome>) -> (nat, Option<ExecutionOutcome>)
    decreases outcomes.len(),
{
    if outcomes.len() == 0 {
        (0, None)
    } else {
        let (next, step) = record_spec(ex, outcomes[0]);
        match step {
            RetryStep::Finished(o) => (1, Some(o)),
            RetryStep::Backoff { .. } => {
                let (n, r) = drive(next, outcomes.drop_first());
                (n + 1, r)
            },
        }
    }
}

impl RetryExecutor {
    /// An executor for one invocation under `policy`, before its first attempt.
    pub fn new(policy: RetryPolicy) -> (r: RetryExecutor)
        ensures
            r == start_spec(policy),
    {
        RetryExecutor { policy, retries_left: policy.max_attempts, finished: false }
    }

    /// Takes the outcome of the attempt just made and says what to do next.
    pub fn record(&mut self, outcome: ExecutionOutcome) -> (r: RetryStep)
        ensures
            (*final(self), r) == record_spec(*old(self), outcome),
    {
        if !self.finished && !outcome.is_success() && self.retries_left > 0 {
            self.retries_left = self.retries_left - 1;
            RetryStep::Backoff { delay_ms: self.policy.backoff_ms }
        } else {
            self.finished = true;
            RetryStep::Finished(outcome)
        }
    }
}

proof fn lemma_failures_use_all_retries(ex: RetryExecutor, outcomes: Seq<ExecutionOutcome>)
    requires
        !ex.finished,
        outcomes.len() >= ex.retries_left + 1,
        forall|i: int| 0 <= i < outcomes.len() ==> !(#[trigger] outcomes[i] is Success),
    ensures
        drive(ex, outcomes) == ((ex.retries_left + 1) as nat, Some(outcomes[ex.retries_left as int])),
    decreases outcomes.len(),
{
    assert(!(outcomes[0] is Success));
    if ex.retries_left > 0 {
        let next = record_spec(ex, outcomes[0]).0;
        let rest = outcomes.drop_first();
        assert forall|i: int| 0 <= i < rest.len() implies !(#[trigger] rest[i] is Success) by {
            assert(rest[i] == outcomes[i + 1]);
        }
        lemma_failures_use_all_retries(next, rest);
        assert(rest[next.retries_left as int] == outcomes[ex.retries_left as int]);
    }
}

proof fn lemma_success_ends_retries(ex: RetryExecutor, outcomes: Seq<ExecutionOutcome>, k: int)
    requires
        !ex.finished,
        1 <= k <= ex.retries_left + 1,
        k <= outcomes.len(),
        outcomes[k - 1] is Success,
        forall|i: int| 0 <= i < k - 1 ==> !(#[trigger] outcomes[i] is Success),
    ensures
        drive(ex, outcomes) == (k as nat, Some(outcomes[k - 1])),
    decreases k,
{
    if k > 1 {
        assert(!(outcomes[0] is Success));
        let next = record_spec(ex, outcomes[0]).0;
        let rest = outcomes.drop_first();
        assert forall|i: int| 0 <= i < k - 2 implies !(#[trigger] rest[i] is Success) by {
            assert(rest[i] == outcomes[i + 1]);
        }
        assert(rest[k - 2] == outcomes[k - 1]);
        lemma_success_ends_retries(next, rest, k - 1);
    }
}

/// Under a policy of `max_attempts = N`, a command whose every run fails is
/// run exactly `N + 1` times, and the final outcome is the last failure.
pub proof fn lemma_always_failing(policy: RetryPolicy, outcomes: Seq<ExecutionOutcome>)
    requires
        outcomes.len() >= policy.max_attempts + 1,
        forall|i: int| 0 <= i < outcomes.len() ==> !(#[trigger] outcomes[i] is Success),
    ensures
        drive(start_spec(policy), outcomes) == (
            (policy.max_attempts + 1) as nat,
            Some(outcomes[policy.max_attempts as int]),
        ),
{
    lemma_failures_use_all_retries(start_spec(policy), outcomes);
}

/// Under a policy of `max_attempts = N`, a command that first succeeds on run
/// `k`, with `k <= N + 1`, is run exactly `k` times, and the final outcome is
/// that success.
pub proof fn lemma_succeeds_on_attempt(policy: RetryPolicy, outcomes: Seq<ExecutionOutcome>, k: int)
    requires
        1 <= k <= policy.max_attempts + 1,
        k <= outcomes.len(),
        outcomes[k - 1] is Success,
        forall|i: int| 0 <= i < k - 1 ==> !(#[trigger] outcomes[i] is Success),
    ensures
        drive(start_spec(policy), outcomes) == (k as nat, Some(outcomes[k - 1])),
{
    lemma_success_ends_retries(start_spec(policy), outcomes, k);
}

} // verus!
