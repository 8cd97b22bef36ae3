use vstd::prelude::*;
use crate::retry::{
    RequestError, RequestInfo, RetryDecision, RetryPolicy, RetrySession,
    WriteType,
};

verus! {

/// The default retry policy: retries on another node when the node itself is
/// at fault, retries a timed-out request once on the same node when that is
/// likely to help, and never retries errors in the statement itself.
#[derive(Debug, Clone, Copy, PartialEq, Eq, Structural)]
pub struct DefaultRetryPolicy {
    /// Whether the caller accepts that a timed-out non-idempotent write may
    /// have been applied; such a timeout is then ignored rather than reported.
    pub accept_partial_writes: bool,
}

/// The session of [`DefaultRetryPolicy`]: it remembers which one-time retries were spent.
#[derive(Debug, Clone, Copy, PartialEq, Eq, Structural)]
pub struct DefaultRetrySession {
    pub was_unavailable_retry: bool,
    pub was_read_timeout_retry: bool,
    pub was_write_timeout_retry: bool,
    pub accept_partial_writes: bool,
}

/// Whether the failed attempt was refused before the statement was executed
/// anywhere, so that it is safe to retry even when not idempotent.
pub open spec fn never_executed(e: RequestError) -> bool {
    match e {
        RequestError::ConnectionPoolError => true,
        RequestError::IsBootstrapping => true,
        RequestError::Unavailable { .. } => true,
        _ => false,
    }
}

/// Whether the node itself is at fault, so that an idempotent statement is
/// worth retrying on another node.
pub open spec fn node_at_fault(e: RequestError) -> bool {
    match e {
        RequestError::BrokenConnection => true,
        RequestError::ResponseTimeout => true,
        RequestError::ConnectionClosing => true,
        RequestError::Overloaded => true,
        RequestError::ServerError => true,
        RequestError::TruncateError => true,
        _ => false,
    }
}

/// Whether a write of this type consists of plain mutations, of which some
/// may already have been applied.
pub open spec fn plain_write(w: WriteType) -> bool {
    w == WriteType::Simple || w == WriteType::Batch || w == WriteType::UnloggedBatch
}

/// The decision of the default policy in state `s` on failure `info`.
pub open spec fn default_decision(s: DefaultRetrySession, info: RequestInfo) -> RetryDecision {
    match info.error {
        RequestError::ConnectionPoolError => RetryDecision::RetryNextNode(None),
        RequestError::IsBootstrapping => RetryDecision::RetryNextNode(None),
        RequestError::Unavailable { .. } => {
            if !s.was_unavailable_retry {
                RetryDecision::RetryNextNode(None)
            } else {
                RetryDecision::DontRetry
            }
        },
        RequestError::ReadTimeout { received, required, data_present, .. } => {
            if info.is_idempotent && !s.was_read_timeout_retry && received >= required
                && !data_present {
                RetryDecision::RetrySameNode(None)
            } else {
                RetryDecision::DontRetry
            }
        },
        RequestError::WriteTimeout { received, write_type, .. } => {
            if info.is_idempotent {
                if !s.was_write_timeout_retry && write_type == WriteType::BatchLog {
                    RetryDecision::RetrySameNode(None)
                } else {
                    RetryDecision::DontRetry
                }
            } else if s.accept_partial_writes && received > 0 && plain_write(write_type) {
                RetryDecision::IgnoreWriteTimeout
            } else {
                RetryDecision::DontRetry
            }
        },
        _ => {
            if node_at_fault(info.error) && info.is_idempotent {
                RetryDecision::RetryNextNode(None)
            } else {
                RetryDecision::DontRetry
            }
        },
    }
}

/// The state of the default policy's session after deciding on `info` in state `s`:
/// a one-time retry that is granted is marked spent.
pub open spec fn default_after(s: DefaultRetrySession, info: RequestInfo) -> DefaultRetrySession {
    match info.error {
        RequestError::Unavailable { .. } => DefaultRetrySession { was_unavailable_retry: true, ..s },
        RequestError::ReadTimeout { .. } => {
            if default_decision(s, info).is_retry() {
                DefaultRetrySession { was_read_timeout_retry: true, ..s }
            } else {
                s
            }
        },
        RequestError::WriteTimeout { .. } => {
            if default_decision(s, info).is_retry() {
                DefaultRetrySession { was_write_timeout_retry: true, ..s }
            } else {
                s
            }
        },
        _ => s,
    }
}

impl DefaultRetryPolicy {
    /// The default policy; timed-out non-idempotent writes are reported.
    pub fn new() -> (r: DefaultRetryPolicy)
        ensures
            !r.accept_partial_writes,
    {
        DefaultRetryPolicy { accept_partial_writes: false }
    }

    /// The default policy, set to ignore timed-out non-idempotent plain writes
    /// of which some replica acknowledged, or to report them.
    pub fn with_partial_writes_accepted(accept: bool) -> (r: DefaultRetryPolicy)
        ensures
            r.accept_partial_writes == accept,
    {
        DefaultRetryPolicy { accept_partial_writes: accept }
    }
}

impl Default for DefaultRetryPolicy {
    fn default() -> (r: DefaultRetryPolicy)
        ensures
            !r.accept_partial_writes,
    {
        DefaultRetryPolicy { accept_partial_writes: false }
    }
}

impl RetryPolicy for DefaultRetryPolicy {
    type Session = DefaultRetrySession;

    open spec fn fresh_session(&self) -> DefaultRetrySession {
        DefaultRetrySession {
            was_unavailable_retry: false,
            was_read_timeout_retry: false,
            was_write_timeout_retry: false,
            accept_partial_writes: self.accept_partial_writes,
        }
    }

    fn new_session(&self) -> (s: DefaultRetrySession) {
        DefaultRetrySession {
            was_unavailable_retry: false,
            was_read_timeout_retry: false,
            was_write_timeout_retry: false,
            accept_partial_writes: self.accept_partial_writes,
        }
    }
}

impl RetrySession for DefaultRetrySession {
    open spec fn decision(&self, info: RequestInfo) -> RetryDecision {
        default_decision(*self, info)
    }

    open spec fn after(&self, info: RequestInfo) -> DefaultRetrySession {
        default_after(*self, info)
    }

    open spec fn reset_state(&self) -> DefaultRetrySession {
        DefaultRetrySession {
            was_unavailable_retry: false,
            was_read_timeout_retry: false,
            was_write_timeout_retry: false,
            accept_partial_writes: self.accept_partial_writes,
        }
    }

    fn decide_should_retry(&mut self, info: RequestInfo) -> (r: RetryDecision) {
        match info.error {
            RequestError::ConnectionPoolError | RequestError::IsBootstrapping => {
                RetryDecision::RetryNextNode(None)
            },
            RequestError::Unavailable { .. } => {
                if !self.was_unavailable_retry {
                    self.was_unavailable_retry = true;
                    RetryDecision::RetryNextNode(None)
                } else {
                    RetryDecision::DontRetry
                }
            },
            RequestError::ReadTimeout { received, required, data_present, .. } => {
                if info.is_idempotent && !self.was_read_timeout_retry && received >= required
                    && !data_present {
                    self.was_read_timeout_retry = true;
                    RetryDecision::RetrySameNode(None)
                } else {
                    RetryDecision::DontRetry
                }
            },
            RequestError::WriteTimeout { received, write_type, .. } => {
                if info.is_idempotent {
                    if !self.was_write_timeout_retry && write_type == WriteType::BatchLog {
                        self.was_write_timeout_retry = true;
                        RetryDecision::RetrySameNode(None)
                    } else {
                        RetryDecision::DontRetry
                    }
                } else if self.accept_partial_writes && received > 0 && (write_type
                    == WriteType::Simple || write_type == WriteType::Batch || write_type
                    == WriteType::UnloggedBatch) {
                    RetryDecision::IgnoreWriteTimeout
                } else {
                    RetryDecision::DontRetry
                }
            },
            RequestError::BrokenConnection
            | RequestError::ResponseTimeout
            | RequestError::ConnectionClosing
            | RequestError::Overloaded
            | RequestError::ServerError
            | RequestError::TruncateError => {
                if info.is_idempotent {
                    RetryDecision::RetryNextNode(None)
                } else {
                    RetryDecision::DontRetry
                }
            },
            _ => RetryDecision::DontRetry,
        }
    }

    fn reset(&mut self) {
        self.was_unavailable_retry = false;
        self.was_read_timeout_retry = false;
        self.was_write_timeout_retry = false;
    }
}

/// A response timeout on a healthy node is retried on the next node when the
/// statement is idempotent, and surfaced when it is not.
pub proof fn lemma_response_timeout_decision(s: DefaultRetrySession, info: RequestInfo)
    requires
        info.error == RequestError::ResponseTimeout,
    ensures
        info.is_idempotent ==> s.decision(info) == RetryDecision::RetryNextNode(None),
        !info.is_idempotent ==> s.decision(info) == RetryDecision::DontRetry,
{
}

/// A statement that is not idempotent is retried only after a failure that
/// came before anything was executed.
pub proof fn lemma_non_idempotent_retry_is_safe(s: DefaultRetrySession, info: RequestInfo)
    requires
        !info.is_idempotent,
    ensures
        s.decision(info).is_retry() ==> never_executed(info.error),
{
}

/// Errors in the statement itself are never retried, whatever the idempotency.
pub proof fn lemma_statement_errors_not_retried(s: DefaultRetrySession, info: RequestInfo)
    requires
        info.error == RequestError::SyntaxError || info.error == RequestError::Unauthorized
            || info.error == RequestError::Invalid,
    ensures
        s.decision(info) == RetryDecision::DontRetry,
{
}

} // verus!
