use scylla::default_policy::{DefaultRetryPolicy, DefaultRetrySession};
use scylla::fallthrough::{FallthroughRetryPolicy, FallthroughRetrySession};
use scylla::retry::{
    Consistency, RequestError, RequestInfo, RetryDecision, RetryPolicy, RetrySession, WriteType,
};

fn info(error: RequestError, is_idempotent: bool) -> RequestInfo {
    RequestInfo { error, is_idempotent, consistency: Consistency::Quorum }
}

fn all_errors() -> Vec<RequestError> {
    vec![
        RequestError::ConnectionPoolError,
        RequestError::BrokenConnection,
        RequestError::ResponseTimeout,
        RequestError::ConnectionClosing,
        RequestError::Overloaded,
        RequestError::ServerError,
        RequestError::TruncateError,
        RequestError::IsBootstrapping,
        RequestError::Unavailable { consistency: Consistency::Quorum, required: 2, alive: 1 },
        RequestError::ReadTimeout {
            consistency: Consistency::Quorum,
            received: 2,
            required: 2,
            data_present: false,
        },
        RequestError::WriteTimeout {
            consistency: Consistency::Quorum,
            received: 1,
            required: 2,
            write_type: WriteType::BatchLog,
        },
        RequestError::SyntaxError,
        RequestError::Unauthorized,
        RequestError::Invalid,
        RequestError::Other,
    ]
}

#[test]
fn fallthrough_never_retries_in_any_order() {
    let policy = FallthroughRetryPolicy::new();
    let mut session = policy.new_session();
    let errors = all_errors();
    for e in errors.iter() {
        for idem in [true, false] {
            assert_eq!(session.decide_should_retry(info(*e, idem)), RetryDecision::DontRetry);
        }
    }
    for e in errors.iter().rev() {
        assert_eq!(session.decide_should_retry(info(*e, true)), RetryDecision::DontRetry);
    }
    session.reset();
    assert_eq!(session, FallthroughRetrySession);
    assert_eq!(FallthroughRetryPolicy::default(), FallthroughRetryPolicy);
}

#[test]
fn default_response_timeout_idempotent_goes_to_next_node() {
    let mut s = DefaultRetryPolicy::new().new_session();
    assert_eq!(
        s.decide_should_retry(info(RequestError::ResponseTimeout, true)),
        RetryDecision::RetryNextNode(None)
    );
}

#[test]
fn default_response_timeout_non_idempotent_is_not_retried() {
    let mut s = DefaultRetryPolicy::new().new_session();
    assert_eq!(
        s.decide_should_retry(info(RequestError::ResponseTimeout, false)),
        RetryDecision::DontRetry
    );
}

#[test]
fn default_never_sent_is_retried_even_if_not_idempotent() {
    let mut s = DefaultRetryPolicy::new().new_session();
    assert_eq!(
        s.decide_should_retry(info(RequestError::ConnectionPoolError, false)),
        RetryDecision::RetryNextNode(None)
    );
    assert_eq!(
        s.decide_should_retry(info(RequestError::IsBootstrapping, false)),
        RetryDecision::RetryNextNode(None)
    );
}

#[test]
fn default_non_idempotent_retries_only_never_executed() {
    let mut s = DefaultRetryPolicy::with_partial_writes_accepted(true).new_session();
    for e in all_errors() {
        let d = s.decide_should_retry(info(e, false));
        let retried = matches!(d, RetryDecision::RetrySameNode(_) | RetryDecision::RetryNextNode(_));
        if retried {
            assert!(matches!(
                e,
                RequestError::ConnectionPoolError
                    | RequestError::IsBootstrapping
                    | RequestError::Unavailable { .. }
            ));
        }
    }
}

#[test]
fn default_statement_errors_never_retried() {
    for idem in [true, false] {
        let mut s = DefaultRetryPolicy::new().new_session();
        for e in [RequestError::SyntaxError, RequestError::Unauthorized, RequestError::Invalid] {
            assert_eq!(s.decide_should_retry(info(e, idem)), RetryDecision::DontRetry);
        }
    }
}

#[test]
fn default_unavailable_retried_once_then_after_reset() {
    let e = RequestError::Unavailable { consistency: Consistency::Quorum, required: 3, alive: 1 };
    let mut s = DefaultRetryPolicy::new().new_session();
    assert_eq!(s.decide_should_retry(info(e, false)), RetryDecision::RetryNextNode(None));
    assert_eq!(s.decide_should_retry(info(e, false)), RetryDecision::DontRetry);
    s.reset();
    assert_eq!(s.decide_should_retry(info(e, false)), RetryDecision::RetryNextNode(None));
}

#[test]
fn default_read_timeout_same_node_once_when_enough_replies() {
    let enough = RequestError::ReadTimeout {
        consistency: Consistency::Quorum,
        received: 2,
        required: 2,
        data_present: false,
    };
    let short = RequestError::ReadTimeout {
        consistency: Consistency::Quorum,
        received: 1,
        required: 2,
        data_present: false,
    };
    let with_data = RequestError::ReadTimeout {
        consistency: Consistency::Quorum,
        received: 2,
        required: 2,
        data_present: true,
    };
    let mut s = DefaultRetryPolicy::new().new_session();
    assert_eq!(s.decide_should_retry(info(short, true)), RetryDecision::DontRetry);
    assert_eq!(s.decide_should_retry(info(with_data, true)), RetryDecision::DontRetry);
    assert_eq!(s.decide_should_retry(info(enough, false)), RetryDecision::DontRetry);
    assert_eq!(s.decide_should_retry(info(enough, true)), RetryDecision::RetrySameNode(None));
    assert!(s.was_read_timeout_retry);
    assert_eq!(s.decide_should_retry(info(enough, true)), RetryDecision::DontRetry);
}

#[test]
fn default_write_timeout_decisions() {
    let batch_log = RequestError::WriteTimeout {
        consistency: Consistency::Quorum,
        received: 1,
        required: 2,
        write_type: WriteType::BatchLog,
    };
    let simple = RequestError::WriteTimeout {
        consistency: Consistency::Quorum,
        received: 1,
        required: 2,
        write_type: WriteType::Simple,
    };
    let simple_none = RequestError::WriteTimeout {
        consistency: Consistency::Quorum,
        received: 0,
        required: 2,
        write_type: WriteType::Simple,
    };
    let mut s = DefaultRetryPolicy::new().new_session();
    assert_eq!(s.decide_should_retry(info(simple, true)), RetryDecision::DontRetry);
    assert_eq!(s.decide_should_retry(info(simple, false)), RetryDecision::DontRetry);
    assert_eq!(s.decide_should_retry(info(batch_log, true)), RetryDecision::RetrySameNode(None));
    assert_eq!(s.decide_should_retry(info(batch_log, true)), RetryDecision::DontRetry);

    let mut lenient = DefaultRetryPolicy::with_partial_writes_accepted(true).new_session();
    assert_eq!(lenient.decide_should_retry(info(simple, false)), RetryDecision::IgnoreWriteTimeout);
    assert_eq!(lenient.decide_should_retry(info(simple_none, false)), RetryDecision::DontRetry);
    assert_eq!(lenient.decide_should_retry(info(batch_log, false)), RetryDecision::DontRetry);
}

#[test]
fn default_node_faults_go_to_next_node_when_idempotent() {
    for e in [
        RequestError::BrokenConnection,
        RequestError::ConnectionClosing,
        RequestError::Overloaded,
        RequestError::ServerError,
        RequestError::TruncateError,
    ] {
        let mut s = DefaultRetryPolicy::new().new_session();
        assert_eq!(s.decide_should_retry(info(e, true)), RetryDecision::RetryNextNode(None));
        assert_eq!(s.decide_should_retry(info(e, false)), RetryDecision::DontRetry);
    }
}

#[test]
fn default_policy_sessions_start_fresh() {
    let p = DefaultRetryPolicy::default();
    assert!(!p.accept_partial_writes);
    let s = DefaultRetryPolicy::with_partial_writes_accepted(true).new_session();
    assert_eq!(
        s,
        DefaultRetrySession {
            was_unavailable_retry: false,
            was_read_timeout_retry: false,
            was_write_timeout_retry: false,
            accept_partial_writes: true,
        }
    );
}
