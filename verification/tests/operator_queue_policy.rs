//! The policy of the operator queue.
use engine_core::json::Json;
use engine_core::policy::profiles::{HarnessText, PolicyConfigSource};
use engine_core::policy::resolve::resolve;
use engine_core::string_map::StringMap;
use engine_core::operator::queue::policy::{
    baseline, cheap_fast, profile_by_name, resolve_policy_for_run_from, thorough, OperatorQueuePolicy, PartialOperatorQueuePolicy,
};

fn fields(doc: &Json) -> PartialOperatorQueuePolicy {
    PartialOperatorQueuePolicy {
        answer_timeout_secs: doc.get("answer_timeout_secs").and_then(|v| v.as_i64()),
        ..Default::default()
    }
}

fn decode(doc: &Json) -> Result<PartialOperatorQueuePolicy, String> {
    match doc {
        Json::Object(_) => Ok(fields(doc)),
        _ => Err("expected an object".to_string()),
    }
}

fn decode_profiles(doc: &Json) -> Result<StringMap<PartialOperatorQueuePolicy>, String> {
    let mut out = StringMap::new();
    match doc {
        Json::Object(entries) => {
            for (name, bundle) in entries {
                out.insert(name.clone(), decode(bundle)?);
            }
            Ok(out)
        }
        _ => Err("expected an object".to_string()),
    }
}

fn run_from(
    profile: Option<&str>,
    event: Option<&PartialOperatorQueuePolicy>,
) -> Result<OperatorQueuePolicy, engine_core::node::NodeError> {
    resolve_policy_for_run_from(
        &PolicyConfigSource::Builtin,
        &HarnessText::Missing,
        profile,
        event,
        decode,
        decode_profiles,
    )
}

#[test]
fn builtin_default_is_depth_one_fifteen_minute_timeout() {
    let policy = OperatorQueuePolicy::default();
    assert_eq!(policy.operator_queue_depth, 1);
    assert_eq!(policy.answer_timeout_secs, 900);
    assert_eq!(policy.suppression_window_secs, 60);
    assert_eq!(policy.digest_schedule_secs, 3600);
}

#[test]
fn every_named_profile_sets_the_digest_knobs_explicitly() {
    assert!(baseline().suppression_window_secs.is_some());
    assert!(baseline().digest_schedule_secs.is_some());
    assert!(cheap_fast().suppression_window_secs.is_some());
    assert!(cheap_fast().digest_schedule_secs.is_some());
    assert!(thorough().suppression_window_secs.is_some());
    assert!(thorough().digest_schedule_secs.is_some());
}

#[test]
fn policy_resolve_with_no_overrides_returns_builtin() {
    let resolved = resolve(OperatorQueuePolicy::default(), None, None, None);
    assert_eq!(resolved, OperatorQueuePolicy::default());
}

#[test]
fn harness_default_overrides_builtin_timeout() {
    let harness = PartialOperatorQueuePolicy {
        answer_timeout_secs: Some(120),
        ..Default::default()
    };
    let resolved =
        resolve(OperatorQueuePolicy::default(), Some(&harness), None, None);
    assert_eq!(resolved.answer_timeout_secs, 120);
    assert_eq!(resolved.operator_queue_depth, 1);
}

#[test]
fn policy_profile_beats_harness_defaults() {
    let harness = PartialOperatorQueuePolicy {
        answer_timeout_secs: Some(120),
        ..Default::default()
    };
    let profile = PartialOperatorQueuePolicy {
        answer_timeout_secs: Some(60),
        ..Default::default()
    };
    let resolved = resolve(
        OperatorQueuePolicy::default(),
        Some(&harness),
        Some(&profile),
        None,
    );
    assert_eq!(resolved.answer_timeout_secs, 60);
}

#[test]
fn policy_event_override_beats_profile() {
    let profile = PartialOperatorQueuePolicy {
        answer_timeout_secs: Some(60),
        ..Default::default()
    };
    let event = PartialOperatorQueuePolicy {
        answer_timeout_secs: Some(30),
        ..Default::default()
    };
    let resolved = resolve(
        OperatorQueuePolicy::default(),
        None,
        Some(&profile),
        Some(&event),
    );
    assert_eq!(resolved.answer_timeout_secs, 30);
}

#[test]
fn policy_profile_by_name_resolves_all_three_canonical_names() {
    assert_eq!(profile_by_name("baseline"), Some(baseline()));
    assert_eq!(profile_by_name("cheap-fast"), Some(cheap_fast()));
    assert_eq!(profile_by_name("thorough"), Some(thorough()));
}

#[test]
fn policy_profile_by_name_returns_none_for_unknown_name() {
    assert_eq!(profile_by_name("nonexistent"), None);
}

#[test]
fn every_named_profile_holds_depth_at_the_invariant_of_one() {
    assert_eq!(baseline().operator_queue_depth, Some(1));
    assert_eq!(cheap_fast().operator_queue_depth, Some(1));
    assert_eq!(thorough().operator_queue_depth, Some(1));
}

#[test]
fn policy_resolve_policy_for_run_from_builtin_source_needs_no_filesystem() {
    let resolved = run_from(None, None)
        .expect("resolve should succeed with no filesystem access");
    assert_eq!(resolved, OperatorQueuePolicy::default());
}

#[test]
fn policy_resolve_policy_for_run_from_applies_named_profile() {
    let resolved =
        run_from(Some("cheap-fast"), None)
            .expect("resolve should succeed");
    assert_eq!(resolved.answer_timeout_secs, 300);
    assert_eq!(resolved.operator_queue_depth, 1);
}

#[test]
fn policy_resolve_policy_for_run_from_unknown_profile_errors() {
    let err =
        run_from(Some("nonexistent"), None)
            .expect_err("should fail");
    assert!(err.message.contains("unknown profile"));
}

#[test]
fn resolve_policy_for_run_from_event_override_beats_profile() {
    let event = PartialOperatorQueuePolicy {
        answer_timeout_secs: Some(7),
        ..Default::default()
    };
    let resolved = run_from(Some("thorough"),
        Some(&event),
    )
    .expect("resolve should succeed");
    assert_eq!(resolved.answer_timeout_secs, 7);
}

#[test]
fn resolve_policy_for_run_from_reads_harness_file_source() {
    let source = PolicyConfigSource::HarnessFile("/somewhere/harness.json".to_string());
    let file = HarnessText::Text(
        r#"{"operator_queue": {"policy": {"answer_timeout_secs": 55}}}"#.to_string(),
    );
    let resolved = resolve_policy_for_run_from(&source, &file, None, None, decode, decode_profiles)
        .expect("resolve should succeed");
    assert_eq!(resolved.answer_timeout_secs, 55);
    assert_eq!(resolved.operator_queue_depth, 1);
}
