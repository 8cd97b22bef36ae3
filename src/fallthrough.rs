use vstd::prelude::*;
use crate::retry::{decisions, state_after, RequestInfo, RetryDecision, RetryPolicy, RetrySession};

verus! {

/// Forwards all errors directly to the user, never retries.
#[derive(Debug, Clone, Copy, PartialEq, Eq, Structural)]
pub struct FallthroughRetryPolicy;

/// The session of [`FallthroughRetryPolicy`]: it holds no state.
#[derive(Debug, Clone, Copy, PartialEq, Eq, Structural)]
pub struct FallthroughRetrySession;

impl FallthroughRetryPolicy {
    pub fn new() -> (r: FallthroughRetryPolicy)
        ensures
            r == FallthroughRetryPolicy,
    {
        FallthroughRetryPolicy
    }
}

impl Default for FallthroughRetryPolicy {
    fn default() -> (r: FallthroughRetryPolicy)
        ensures
            r == FallthroughRetryPolicy,
    {
        FallthroughRetryPolicy
    }
}

impl RetryPolicy for FallthroughRetryPolicy {
    type Session = FallthroughRetrySession;

    open spec fn fresh_session(&self) -> FallthroughRetrySession {
        FallthroughRetrySession
    }

    fn new_session(&self) -> (s: FallthroughRetrySession) {
        FallthroughRetrySession
    }
}

impl RetrySession for FallthroughRetrySession {
    open spec fn decision(&self, info: RequestInfo) -> RetryDecision {
        RetryDecision::DontRetry
    }

    open spec fn after(&self, info: RequestInfo) -> FallthroughRetrySession {
        *self
    }

    open spec fn reset_state(&self) -> FallthroughRetrySession {
        *self
    }

    fn decide_should_retry(&mut self, info: RequestInfo) -> (r: RetryDecision) {
        RetryDecision::DontRetry
    }

    fn reset(&mut self) {
    }
}

/// A fallthrough session never changes: whatever failures it is fed, in
/// whatever order, it stays as it was, and every decision it takes is
/// `DontRetry`. Its decisions therefore do not depend on the order of calls.
pub proof fn lemma_fallthrough_never_retries(s: FallthroughRetrySession, infos: Seq<RequestInfo>)
    ensures
        state_after(s, infos) == s,
        decisions(s, infos).len() == infos.len(),
        forall|i: int| 0 <= i < infos.len() ==> decisions(s, infos)[i] == RetryDecision::DontRetry,
    decreases infos.len(),
{
    if infos.len() > 0 {
        lemma_fallthrough_never_retries(s, infos.drop_last());
    }
}

} // verus!
