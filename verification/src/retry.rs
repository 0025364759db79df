//! The bounded retry policy of the transaction query helper. A transaction
//! hash is not guaranteed to be queryable right after broadcast; the query is
//! retried a fixed number of times with a fixed delay while the query
//! process reports error output, after which the last output is parsed
//! anyway and any failure surfaces from the parse.

use vstd::prelude::*;
use crate::error::WarpError;
use crate::tx::TxQueryResponse;

verus! {

/// A fixed-count, fixed-delay retry policy.
#[derive(Debug, Clone, Copy, PartialEq, Eq, Structural)]
pub struct RetryPolicy {
    pub max_retries: u64,
    pub delay_ms: u64,
}

/// What the query loop does after one attempt: wait and query again, or stop
/// retrying and parse what the last attempt returned.
#[derive(Debug, Clone, Copy, PartialEq, Eq, Structural)]
pub enum QueryStep {
    Retry { delay_ms: u64 },
    Parse,
}

/// The decision after one query attempt: retry exactly when the process
/// reported error output and retries are left.
pub open spec fn retry_decision(retries_left: u64, stderr_nonempty: bool, delay_ms: u64) -> QueryStep {
    if stderr_nonempty && retries_left > 0 {
        QueryStep::Retry { delay_ms }
    } else {
        QueryStep::Parse
    }
}

/// The retry state of one query: the policy and how many retries are left.
#[derive(Debug, Clone, Copy, PartialEq, Eq, Structural)]
pub struct QueryRetryState {
    pub policy: RetryPolicy,
    pub retries_left: u64,
}

impl QueryRetryState {
    /// Start a query under the given policy.
    pub fn new(policy: RetryPolicy) -> (s: QueryRetryState)
        ensures
            s.policy == policy,
            s.retries_left == policy.max_retries,
    {
        QueryRetryState { policy, retries_left: policy.max_retries }
    }

    /// Decide after one attempt whose error output was `stderr_nonempty`.
    pub fn on_attempt(&mut self, stderr_nonempty: bool) -> (step: QueryStep)
        ensures
            step == retry_decision(old(self).retries_left, stderr_nonempty, old(self).policy.delay_ms),
            final(self).policy == old(self).policy,
            final(self).retries_left == if step is Retry {
                (old(self).retries_left - 1) as u64
            } else {
                old(self).retries_left
            },
    {
        if stderr_nonempty && self.retries_left > 0 {
            self.retries_left = self.retries_left - 1;
            QueryStep::Retry { delay_ms: self.policy.delay_ms }
        } else {
            QueryStep::Parse
        }
    }
}

/// The decisions a query makes against a process that reports error output
/// on every attempt: one entry per attempt.
pub open spec fn always_error_steps(retries_left: u64, delay_ms: u64) -> Seq<QueryStep>
    decreases retries_left,
{
    if retries_left == 0 {
        seq![QueryStep::Parse]
    } else {
        seq![QueryStep::Retry { delay_ms }] + always_error_steps((retries_left - 1) as u64, delay_ms)
    }
}

/// Bounded retry terminates: against a query process that always reports
/// error output, a policy with `n` retries makes exactly `n + 1` attempts —
/// the first `n` decisions wait and retry, and the last falls through to a
/// parse of whatever the final attempt returned.
pub proof fn lemma_bounded_retry_terminates(n: u64, delay_ms: u64)
    ensures
        always_error_steps(n, delay_ms).len() == n + 1,
        forall|i: int| 0 <= i < n ==> always_error_steps(n, delay_ms)[i] == (QueryStep::Retry {
            delay_ms,
        }),
        always_error_steps(n, delay_ms)[n as int] == QueryStep::Parse,
        retry_decision(0, true, delay_ms) == QueryStep::Parse,
    decreases n,
{
    if n > 0 {
        lemma_bounded_retry_terminates((n - 1) as u64, delay_ms);
        assert forall|i: int| 0 <= i < n implies always_error_steps(n, delay_ms)[i] == (
        QueryStep::Retry { delay_ms }) by {
            if i > 0 {
                assert(always_error_steps(n, delay_ms)[i] == always_error_steps(
                    (n - 1) as u64,
                    delay_ms,
                )[i - 1]);
            }
        }
    }
}

/// Accept a parsed transaction response: a zero result code passes the
/// response through, anything else is a transaction failure carrying the
/// hash and the raw log.
pub fn accept_tx_response(tx: TxQueryResponse) -> (r: Result<TxQueryResponse, WarpError>)
    ensures
        tx@.code == 0 ==> (r matches Ok(t) && t == tx),
        tx@.code != 0 ==> (r matches Err(e) && (e matches WarpError::TxFailed(h, l) && h@
            == tx@.txhash && l@ == tx@.raw_log)),
{
    if tx.code != 0 {
        Err(WarpError::TxFailed(tx.txhash.clone(), tx.raw_log.clone()))
    } else {
        Ok(tx)
    }
}

} // verus!
