//! Reaching an operator.
use engine_core::operator::limits::OperatorPayloadLimits;
use engine_core::operator::payload::{OperatorPayload, OperatorResponseOption};
use engine_core::operator::transport::{
    NoopTransport, NotifyError, OperatorResponse, OperatorTransport, ResponseVerdict,
    UpdateCursor,
};
use engine_core::operator::validate::validate;
use engine_core::time::Timestamp;

#[test]
fn operator_transport_is_object_safe() {
    let _boxed: Box<dyn OperatorTransport> = Box::new(NoopTransport);
    let _arced: std::sync::Arc<dyn OperatorTransport> = std::sync::Arc::new(NoopTransport);
}

#[test]
fn noop_transport_send_returns_documented_ok_shape() {
    let transport: Box<dyn OperatorTransport> = Box::new(NoopTransport);
    let payload = OperatorPayload::new(
        "gate-1",
        "diff summary",
        vec![
            OperatorResponseOption::new("approve", "Approve"),
            OperatorResponseOption::new("reject", "Reject"),
        ],
    );
    let validated =
        validate(payload, &OperatorPayloadLimits::default()).expect("payload validates");
    let delivered = transport.send(&validated).expect("send never fails");
    assert_eq!(delivered.transport_message_id, "");
}

#[test]
fn noop_transport_poll_responses_is_empty_and_echoes_cursor() {
    let transport: Box<dyn OperatorTransport> = Box::new(NoopTransport);
    let cursor = Some(UpdateCursor("17".to_string()));
    let (responses, next_cursor) = transport
        .poll_responses(cursor)
        .expect("poll_responses never fails");
    assert!(responses.is_empty());
    assert_eq!(next_cursor, Some(UpdateCursor("17".to_string())));
}

#[test]
fn noop_transport_acknowledge_uses_default_noop() {
    let transport: Box<dyn OperatorTransport> = Box::new(NoopTransport);
    let response = OperatorResponse {
        gate_id: "gate-1".to_string(),
        digest: "abc123".to_string(),
        option_key: "approve".to_string(),
        received_at: Timestamp::from_unix(1_700_000_000, 0),
        ack: None,
        message: None,
    };
    transport
        .acknowledge(&response, &ResponseVerdict::UnknownGate)
        .expect("default acknowledge is a no-op");
}

#[test]
fn transient_failures_are_retryable_and_say_what_happened() {
    let cases = [
        (
            NotifyError::Transport { reason: "dns".to_string() },
            true,
            "operator transport failure: dns",
        ),
        (
            NotifyError::RateLimited { retry_after_secs: 30 },
            true,
            "operator transport rate limited, retry after 30s",
        ),
        (
            NotifyError::PayloadRejected { reason: "too long".to_string() },
            false,
            "operator payload rejected by transport: too long",
        ),
        (NotifyError::Unauthorized, false, "operator transport unauthorized"),
        (
            NotifyError::Malformed { reason: "no id".to_string() },
            false,
            "operator transport returned a malformed response: no id",
        ),
    ];
    for (error, retryable, message) in cases {
        assert_eq!(error.is_retryable(), retryable);
        assert_eq!(error.message(), message);
    }
}
