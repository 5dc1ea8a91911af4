//! What an operator is shown: channels, limits, payloads and their validation.
use engine_core::operator::channel::OperatorChannel;
use engine_core::operator::limits::OperatorPayloadLimits;
use engine_core::operator::payload::{OperatorPayload, OperatorResponseOption};
use engine_core::operator::validate::{
    validate, OperatorValidationError, ValidatedOperatorPayload,
};

fn approve_reject() -> Vec<OperatorResponseOption> {
    vec![
        OperatorResponseOption::new("approve", "Approve"),
        OperatorResponseOption::new("reject", "Reject"),
    ]
}

#[test]
fn default_is_notification() {
    assert_eq!(OperatorChannel::default(), OperatorChannel::Notification);
    assert!(OperatorChannel::default().is_notification());
    assert!(!OperatorChannel::default().is_session());
}

#[test]
fn session_channel_names_its_slug() {
    let channel = OperatorChannel::session("dev-to-sweep-review");
    assert!(channel.is_session());
    assert!(!channel.is_notification());
    assert_eq!(channel.session_slug(), Some("dev-to-sweep-review"));
}

#[test]
fn notification_channel_has_no_session_slug() {
    assert_eq!(OperatorChannel::Notification.session_slug(), None);
}

#[test]
fn default_matches_confirmed_whatsapp_limits() {
    let limits = OperatorPayloadLimits::default();
    assert_eq!(limits.max_options, 3);
    assert_eq!(limits.min_options, 2);
    assert_eq!(limits.max_label_chars, 20);
    assert_eq!(limits.max_summary_chars, 1024);
}

#[test]
fn limits_are_configurable_not_hardcoded() {
    let custom = OperatorPayloadLimits {
        max_options: 10,
        min_options: 1,
        max_label_chars: 60,
        max_summary_chars: 4096,
    };
    assert_ne!(custom, OperatorPayloadLimits::default());
}

#[test]
fn digest_is_computed_over_rendered_payload_not_gate_id() {
    let a = OperatorPayload::new("gate-1", "same summary", approve_reject());
    let b = OperatorPayload::new("gate-2", "same summary", approve_reject());
    assert_eq!(
        a.digest, b.digest,
        "digest must depend only on the rendered summary + options, not the source gate"
    );
}

#[test]
fn changed_summary_changes_digest() {
    let a = OperatorPayload::new("gate-1", "summary A", approve_reject());
    let b = OperatorPayload::new("gate-1", "summary B", approve_reject());
    assert_ne!(a.digest, b.digest);
}

#[test]
fn changed_option_label_changes_digest() {
    let a = OperatorPayload::new("gate-1", "same summary", approve_reject());
    let mut changed = approve_reject();
    changed[0].label = "Approved".to_string();
    let b = OperatorPayload::new("gate-1", "same summary", changed);
    assert_ne!(a.digest, b.digest);
}

#[test]
fn digest_matches_detects_post_construction_mutation() {
    let mut payload = OperatorPayload::new("gate-1", "original", approve_reject());
    assert!(payload.digest_matches());
    payload.rendered_summary = "mutated".to_string();
    assert!(!payload.digest_matches());
    assert_eq!(
        payload.recomputed_digest(),
        OperatorPayload::digest_of(&payload.rendered_summary, &payload.options)
    );
}

#[test]
fn valid_payload_passes() {
    let payload = OperatorPayload::new("gate-1", "diff summary", approve_reject());
    let limits = OperatorPayloadLimits::default();
    let validated = validate(payload.clone(), &limits).expect("should validate");
    assert_eq!(validated.payload(), &payload);
    assert_eq!(validated.into_payload(), payload);
}

#[test]
fn rejects_empty_rendered_summary() {
    let payload = OperatorPayload::new("gate-1", "", approve_reject());
    let limits = OperatorPayloadLimits::default();
    assert_eq!(
        validate(payload, &limits),
        Err(OperatorValidationError::MissingRenderedSummary)
    );
}

#[test]
fn rejects_whitespace_only_rendered_summary() {
    let payload = OperatorPayload::new("gate-1", "   \n\t  ", approve_reject());
    let limits = OperatorPayloadLimits::default();
    assert_eq!(
        validate(payload, &limits),
        Err(OperatorValidationError::MissingRenderedSummary)
    );
}

#[test]
fn rejects_too_many_options() {
    let payload = OperatorPayload::new(
        "gate-1",
        "diff summary",
        vec![
            OperatorResponseOption::new("a", "A"),
            OperatorResponseOption::new("b", "B"),
            OperatorResponseOption::new("c", "C"),
            OperatorResponseOption::new("d", "D"),
        ],
    );
    let limits = OperatorPayloadLimits::default();
    assert_eq!(
        validate(payload, &limits),
        Err(OperatorValidationError::TooManyOptions { count: 4, max: 3 })
    );
}

#[test]
fn rejects_too_few_options() {
    let payload = OperatorPayload::new(
        "gate-1",
        "diff summary",
        vec![OperatorResponseOption::new("approve", "Approve")],
    );
    let limits = OperatorPayloadLimits::default();
    assert_eq!(
        validate(payload, &limits),
        Err(OperatorValidationError::TooFewOptions { count: 1, min: 2 })
    );
}

#[test]
fn rejects_zero_options() {
    let payload = OperatorPayload::new("gate-1", "diff summary", vec![]);
    let limits = OperatorPayloadLimits::default();
    assert_eq!(
        validate(payload, &limits),
        Err(OperatorValidationError::TooFewOptions { count: 0, min: 2 })
    );
}

#[test]
fn rejects_label_exceeding_length_limit() {
    let long_label = "x".repeat(21);
    let payload = OperatorPayload::new(
        "gate-1",
        "diff summary",
        vec![
            OperatorResponseOption::new("approve", "Approve"),
            OperatorResponseOption::new("reject", &long_label),
        ],
    );
    let limits = OperatorPayloadLimits::default();
    assert_eq!(
        validate(payload, &limits),
        Err(OperatorValidationError::OptionLabelTooLong {
            key: "reject".to_string(),
            chars: 21,
            max: 20,
        })
    );
}

#[test]
fn rejects_summary_exceeding_length_limit() {
    let payload = OperatorPayload::new("gate-1", &"x".repeat(1025), approve_reject());
    let limits = OperatorPayloadLimits::default();
    assert_eq!(
        validate(payload, &limits),
        Err(OperatorValidationError::RenderedSummaryTooLong {
            chars: 1025,
            max: 1024,
        })
    );
}

#[test]
fn custom_limits_are_honored_not_hardcoded() {
    let payload = OperatorPayload::new(
        "gate-1",
        "diff summary",
        vec![
            OperatorResponseOption::new("a", "A very long label indeed"),
            OperatorResponseOption::new("b", "B"),
            OperatorResponseOption::new("c", "C"),
            OperatorResponseOption::new("d", "D"),
        ],
    );
    let loose_limits = OperatorPayloadLimits {
        max_options: 10,
        min_options: 1,
        max_label_chars: 60,
        max_summary_chars: 4096,
    };
    assert!(validate(payload, &loose_limits).is_ok());
}

#[test]
fn validated_payload_has_no_public_constructor_other_than_validate() {
    let payload = OperatorPayload::new("gate-1", "diff summary", approve_reject());
    let limits = OperatorPayloadLimits::default();
    let validated: ValidatedOperatorPayload =
        validate(payload, &limits).expect("valid payload");
    let _: &OperatorPayload = validated.payload();
    let _: OperatorPayload = validated.into_payload();
}

#[test]
fn missing_summary_forces_session_routing() {
    let payload = OperatorPayload::new("dev-to-sweep-review", "", approve_reject());
    let limits = OperatorPayloadLimits::default();

    let result = validate(payload, &limits);
    assert_eq!(result, Err(OperatorValidationError::MissingRenderedSummary));

    let channel = OperatorChannel::session("dev-to-sweep-review");
    assert!(channel.is_session());
    assert_eq!(
        channel.session_slug(),
        Some("dev-to-sweep-review"),
        "a gate that cannot produce a conforming payload must name a session slug"
    );
}

#[test]
fn too_many_options_forces_session_routing() {
    let payload = OperatorPayload::new(
        "sweep-gate",
        "diff: 4 identical one-line edits",
        vec![
            OperatorResponseOption::new("a", "A"),
            OperatorResponseOption::new("b", "B"),
            OperatorResponseOption::new("c", "C"),
            OperatorResponseOption::new("d", "D"),
        ],
    );
    let limits = OperatorPayloadLimits::default();

    let result = validate(payload, &limits);
    assert_eq!(
        result,
        Err(OperatorValidationError::TooManyOptions { count: 4, max: 3 })
    );

    let channel = OperatorChannel::session("sweep-gate");
    assert!(channel.is_session());
}

#[test]
fn too_few_options_forces_session_routing() {
    let payload = OperatorPayload::new(
        "sweep-gate",
        "diff summary",
        vec![OperatorResponseOption::new("approve", "Approve")],
    );
    let limits = OperatorPayloadLimits::default();

    assert_eq!(
        validate(payload, &limits),
        Err(OperatorValidationError::TooFewOptions { count: 1, min: 2 })
    );

    let channel = OperatorChannel::session("sweep-gate");
    assert!(channel.is_session());
}

#[test]
fn option_label_too_long_forces_session_routing() {
    let long_label = "x".repeat(21);
    let payload = OperatorPayload::new(
        "sweep-gate",
        "diff summary",
        vec![
            OperatorResponseOption::new("approve", "Approve"),
            OperatorResponseOption::new("reject", &long_label),
        ],
    );
    let limits = OperatorPayloadLimits::default();

    assert_eq!(
        validate(payload, &limits),
        Err(OperatorValidationError::OptionLabelTooLong {
            key: "reject".to_string(),
            chars: 21,
            max: 20,
        })
    );

    let channel = OperatorChannel::session("sweep-gate");
    assert!(channel.is_session());
}

#[test]
fn summary_too_long_forces_session_routing() {
    let payload = OperatorPayload::new("sweep-gate", &"x".repeat(1025), approve_reject());
    let limits = OperatorPayloadLimits::default();

    assert_eq!(
        validate(payload, &limits),
        Err(OperatorValidationError::RenderedSummaryTooLong {
            chars: 1025,
            max: 1024,
        })
    );
}

#[test]
fn channel_is_readable_off_the_gate_definition_without_executing() {
    let notification_gate = OperatorChannel::default();
    assert!(notification_gate.is_notification());

    let session_gate = OperatorChannel::session("dev-to-sweep-review");
    assert!(session_gate.is_session());
    assert_eq!(
        session_gate.session_slug(),
        Some("dev-to-sweep-review")
    );

}

#[test]
fn changed_payload_produces_different_digest_and_would_requeue() {
    let original = OperatorPayload::new(
        "sweep-gate",
        "diff: 4 identical one-line edits",
        approve_reject(),
    );
    let limits = OperatorPayloadLimits::default();
    let validated_original = validate(original.clone(), &limits).expect("original validates");
    let approved_digest = validated_original.payload().digest.clone();

    let re_rendered = OperatorPayload::new(
        "sweep-gate",
        "diff: 5 identical one-line edits", // one more edit landed
        approve_reject(),
    );

    assert_ne!(
        re_rendered.digest, approved_digest,
        "a changed rendered payload must not keep the digest the operator approved"
    );

    assert!(
        !(re_rendered.digest == approved_digest),
        "digest mismatch is the re-queue trigger, never the execute trigger"
    );

    assert!(validate(re_rendered, &limits).is_ok());
}

#[test]
fn post_construction_mutation_is_detected_via_digest_mismatch() {
    let mut payload = OperatorPayload::new("sweep-gate", "original summary", approve_reject());
    assert!(payload.digest_matches());

    payload.rendered_summary = "mutated summary".to_string();
    assert!(
        !payload.digest_matches(),
        "a mutated rendered payload must fail its own stored digest check"
    );
}
