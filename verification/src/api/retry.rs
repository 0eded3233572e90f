//! Decisions for retrying requests that fail on the server side.
//!
//! A request is attempted at most `limit` times.  After an attempt that
//! failed on the server side, the caller waits before the next attempt (or
//! before giving up); any other outcome is returned at once.

use vstd::prelude::*;

verus! {

/// Whether an HTTP status reports a server error (5xx).
pub open spec fn spec_is_server_error(status: u16) -> bool {
    500 <= status <= 599
}

/// Whether an HTTP status reports a server error (5xx).
pub fn is_server_error(status: u16) -> (r: bool)
    ensures
        r == spec_is_server_error(status),
{
    500 <= status && status <= 599
}

/// Whether a failed request should be attempted again: only errors that the
/// Gitlab service reported with a server error status are retried.
///
/// `service_status` is the HTTP status of an error reported by the service,
/// or `None` for any other kind of error.
pub fn should_backoff(service_status: Option<u16>) -> (r: bool)
    ensures
        r == (service_status matches Some(s) && spec_is_server_error(s)),
{
    match service_status {
        Some(s) => is_server_error(s),
        None => false,
    }
}

/// What to do after an attempt.
#[derive(Debug, Clone, Copy, PartialEq, Eq, Structural)]
pub enum RetryDecision {
    /// Hand the outcome of the attempt back to the caller.
    Finish,
    /// Wait, then try again if attempts remain (else give up).
    Wait,
}

/// The progress of a series of attempts.
#[derive(Debug, Clone, Copy, PartialEq, Eq, Structural)]
pub struct RetryState {
    /// The maximum number of attempts.
    pub limit: usize,
    /// The attempts made so far.
    pub attempts: usize,
}

/// The state after an attempt: one more attempt made, and the decision.
pub open spec fn spec_step(state: RetryState, retryable: bool) -> (RetryState, RetryDecision) {
    (
        RetryState { limit: state.limit, attempts: (state.attempts + 1) as usize },
        if retryable {
            RetryDecision::Wait
        } else {
            RetryDecision::Finish
        },
    )
}

/// Feed attempt outcomes (`true` when the attempt may be retried) to the
/// state until it finishes or runs out of attempts; the final state and
/// whether an outcome was handed back.
pub open spec fn spec_run(state: RetryState, retryable: Seq<bool>) -> (RetryState, bool)
    decreases retryable.len(),
{
    if state.attempts >= state.limit || retryable.len() == 0 {
        (state, false)
    } else {
        let (next, decision) = spec_step(state, retryable[0]);
        if decision == RetryDecision::Finish {
            (next, true)
        } else {
            spec_run(next, retryable.drop_first())
        }
    }
}

impl RetryState {
    /// No attempt made yet.
    pub fn new(limit: usize) -> (r: RetryState)
        ensures
            r.limit == limit,
            r.attempts == 0,
    {
        RetryState { limit, attempts: 0 }
    }

    /// Whether another attempt may be made.
    pub fn can_attempt(&self) -> (r: bool)
        ensures
            r == (self.attempts < self.limit),
    {
        self.attempts < self.limit
    }

    /// Record an attempt and decide what to do with its outcome.
    pub fn record(&mut self, retryable: bool) -> (r: RetryDecision)
        requires
            old(self).attempts < old(self).limit,
        ensures
            (*final(self), r) == spec_step(*old(self), retryable),
    {
        self.attempts = self.attempts + 1;
        if retryable {
            RetryDecision::Wait
        } else {
            RetryDecision::Finish
        }
    }
}

/// No run makes more attempts than its limit.
pub proof fn lemma_attempts_bounded(state: RetryState, retryable: Seq<bool>)
    requires
        state.attempts <= state.limit,
    ensures
        spec_run(state, retryable).0.attempts <= state.limit,
        spec_run(state, retryable).0.limit == state.limit,
        spec_run(state, retryable).0.attempts >= state.attempts,
    decreases retryable.len(),
{
    if state.attempts < state.limit && retryable.len() > 0 {
        let (next, decision) = spec_step(state, retryable[0]);
        if decision != RetryDecision::Finish {
            lemma_attempts_bounded(next, retryable.drop_first());
        }
    }
}

/// When every attempt fails on the server side, exactly `limit` attempts are
/// made and no outcome is handed back.
pub proof fn lemma_gives_up_after_limit(limit: usize, retryable: Seq<bool>)
    requires
        retryable.len() >= limit,
        forall|i: int| 0 <= i < retryable.len() ==> retryable[i],
    ensures
        spec_run(RetryState { limit, attempts: 0 }, retryable) == (
        RetryState { limit, attempts: limit },
        false,
    ),
{
    lemma_gives_up_from(RetryState { limit, attempts: 0 }, retryable);
}

proof fn lemma_gives_up_from(state: RetryState, retryable: Seq<bool>)
    requires
        state.attempts <= state.limit,
        retryable.len() >= state.limit - state.attempts,
        forall|i: int| 0 <= i < retryable.len() ==> retryable[i],
    ensures
        spec_run(state, retryable) == (RetryState { limit: state.limit, attempts: state.limit }, false),
    decreases retryable.len(),
{
    if state.attempts < state.limit {
        let next = spec_step(state, retryable[0]).0;
        lemma_gives_up_from(next, retryable.drop_first());
    }
}

/// The first attempt that may not be retried is handed back, after exactly
/// as many attempts as it took to reach it.
pub proof fn lemma_finishes_at_first_final(limit: usize, retryable: Seq<bool>, k: int)
    requires
        0 <= k < limit,
        k < retryable.len(),
        !retryable[k],
        forall|i: int| 0 <= i < k ==> retryable[i],
    ensures
        spec_run(RetryState { limit, attempts: 0 }, retryable) == (
        RetryState { limit, attempts: (k + 1) as usize },
        true,
    ),
{
    lemma_finishes_from(RetryState { limit, attempts: 0 }, retryable, k);
}

proof fn lemma_finishes_from(state: RetryState, retryable: Seq<bool>, k: int)
    requires
        0 <= k,
        state.attempts + k < state.limit,
        k < retryable.len(),
        !retryable[k],
        forall|i: int| 0 <= i < k ==> retryable[i],
    ensures
        spec_run(state, retryable) == (
        RetryState { limit: state.limit, attempts: (state.attempts + k + 1) as usize },
        true,
    ),
    decreases k,
{
    if k > 0 {
        let next = spec_step(state, retryable[0]).0;
        lemma_finishes_from(next, retryable.drop_first(), k - 1);
    }
}

/// Errors of a request that is retried.
#[derive(Debug)]
pub enum Error<E> {
    /// The request failed after multiple attempts.
    Backoff {},
    /// An error occurred within the client.
    Inner {
        /// The source of the error.
        source: E,
    },
}

impl<E> Error<E> {
    /// The error of a request that was given up.
    pub fn backoff() -> (r: Self)
        ensures
            r is Backoff,
    {
        Error::Backoff {  }
    }

    /// An error of the client.
    pub fn inner(source: E) -> (r: Self)
        ensures
            r == (Error::Inner { source }),
    {
        Error::Inner { source }
    }
}

} // verus!
