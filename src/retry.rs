use vstd::prelude::*;

verus! {

/// The replica-acknowledgment requirement of an operation.
#[derive(Debug, Clone, Copy, PartialEq, Eq, Structural)]
pub enum Consistency {
    Any,
    One,
    Two,
    Three,
    Quorum,
    All,
    LocalQuorum,
    EachQuorum,
    LocalOne,
    Serial,
    LocalSerial,
}

/// The kind of write that a coordinator reports in a write timeout.
#[derive(Debug, Clone, Copy, PartialEq, Eq, Structural)]
pub enum WriteType {
    Simple,
    Batch,
    UnloggedBatch,
    Counter,
    BatchLog,
    Cas,
    View,
    Cdc,
}

/// The classified failure of one attempt to execute a statement.
#[derive(Debug, Clone, Copy, PartialEq, Eq, Structural)]
pub enum RequestError {
    /// No connection to the target could be obtained: the request never
    /// reached a coordinator.
    ConnectionPoolError,
    /// The transport was reset while the request was in flight.
    BrokenConnection,
    /// No response arrived within the client's read timeout.
    ResponseTimeout,
    /// The connection was being closed while the request was in flight.
    ConnectionClosing,
    /// The coordinator is overloaded.
    Overloaded,
    /// The coordinator failed internally.
    ServerError,
    /// A truncation failed.
    TruncateError,
    /// The coordinator is still bootstrapping and refused the request.
    IsBootstrapping,
    /// The coordinator knew before executing that too few replicas were alive.
    Unavailable { consistency: Consistency, required: i32, alive: i32 },
    /// The coordinator did not receive enough read replies in time.
    ReadTimeout { consistency: Consistency, received: i32, required: i32, data_present: bool },
    /// The coordinator did not receive enough write acknowledgments in time.
    WriteTimeout { consistency: Consistency, received: i32, required: i32, write_type: WriteType },
    /// The statement is malformed.
    SyntaxError,
    /// The user may not perform the statement.
    Unauthorized,
    /// The statement is invalid.
    Invalid,
    /// Any other error reported by the database.
    Other,
}

/// What a retry session is told about one failed attempt.
#[derive(Debug, Clone, Copy, PartialEq, Eq, Structural)]
pub struct RequestInfo {
    pub error: RequestError,
    pub is_idempotent: bool,
    pub consistency: Consistency,
}

/// The fate of the next attempt.
#[derive(Debug, Clone, Copy, PartialEq, Eq, Structural)]
pub enum RetryDecision {
    /// Retry on the same node, optionally at another consistency level.
    RetrySameNode(Option<Consistency>),
    /// Retry on the next node of the query plan, optionally at another consistency level.
    RetryNextNode(Option<Consistency>),
    /// Stop and surface the last error.
    DontRetry,
    /// Stop, and report success to the caller although a write timed out.
    IgnoreWriteTimeout,
}

impl RetryDecision {
    /// Whether another attempt is made.
    pub open spec fn is_retry(self) -> bool {
        self is RetrySameNode || self is RetryNextNode
    }
}

/// The per-execution decision capability: consumes one failed attempt at a time
/// and decides what happens next.
///
/// Each implementation states its decision and its next state as spec
/// functions of its current state and the failure.
pub trait RetrySession: Sized {
    /// The decision taken for `info` in this state.
    spec fn decision(&self, info: RequestInfo) -> RetryDecision;

    /// The state after deciding on `info`.
    spec fn after(&self, info: RequestInfo) -> Self;

    /// The state that `reset` leaves.
    spec fn reset_state(&self) -> Self;

    fn decide_should_retry(&mut self, info: RequestInfo) -> (r: RetryDecision)
        ensures
            r == old(self).decision(info),
            *final(self) == old(self).after(info),
    ;

    /// Reinitializes the session's counters, so that it can serve another statement.
    fn reset(&mut self)
        ensures
            *final(self) == old(self).reset_state(),
    ;
}

/// The stateless factory capability: hands out a fresh session per statement execution.
pub trait RetryPolicy {
    type Session: RetrySession;

    /// The session that `new_session` returns.
    spec fn fresh_session(&self) -> Self::Session;

    fn new_session(&self) -> (s: Self::Session)
        ensures
            s == self.fresh_session(),
    ;
}

/// The state of session `s` after it has decided on each of `infos` in order.
pub open spec fn state_after<S: RetrySession>(s: S, infos: Seq<RequestInfo>) -> S
    decreases infos.len(),
{
    if infos.len() == 0 {
        s
    } else {
        state_after(s, infos.drop_last()).after(infos.last())
    }
}

/// The decisions that session `s` takes on each of `infos` in order.
pub open spec fn decisions<S: RetrySession>(s: S, infos: Seq<RequestInfo>) -> Seq<RetryDecision>
    decreases infos.len(),
{
    if infos.len() == 0 {
        Seq::empty()
    } else {
        decisions(s, infos.drop_last()).push(
            state_after(s, infos.drop_last()).decision(infos.last()),
        )
    }
}

} // verus!
