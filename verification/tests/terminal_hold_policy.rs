//! The policy over an operator hold and a stale lease.
use engine_core::contract::{get_result, TaskContext};
use engine_core::json::{parse, Json};
use engine_core::nodes::terminal::hold_policy::{
    profiles, resolve, resolve_for_workflow, HoldPolicy, HoldPolicyNode, PartialHoldPolicy,
    NODE_NAME,
};
use engine_core::policy::profiles::{HarnessText, PolicyConfigSource};
use engine_core::string_map::StringMap;
use engine_core::time::Duration;

fn whole(doc: &Json, field: &str) -> Result<Option<u64>, String> {
    match doc.get(field) {
        None => Ok(None),
        Some(v) => match v.as_u64() {
            Some(n) => Ok(Some(n)),
            None => Err(format!("{field} is no number")),
        },
    }
}

/// A null `steal_after_ms` is set, to none.
fn decode(doc: &Json) -> Result<PartialHoldPolicy, String> {
    Ok(PartialHoldPolicy {
        grace_ms: whole(doc, "grace_ms")?,
        steal_after_ms: match doc.get("steal_after_ms") {
            None => None,
            Some(Json::Null) => Some(None),
            Some(_) => Some(whole(doc, "steal_after_ms")?),
        },
    })
}

fn decode_profiles(doc: &Json) -> Result<StringMap<PartialHoldPolicy>, String> {
    let mut out = StringMap::new();
    match doc {
        Json::Object(entries) => {
            for (name, bundle) in entries {
                out.insert(name.clone(), decode(bundle)?);
            }
            Ok(out)
        }
        _ => Err("expected an object".to_string()),
    }
}

fn context(event: &str) -> TaskContext {
    TaskContext {
        event: parse(event).expect("valid document"),
        nodes: StringMap::new(),
        metadata: Json::object(),
        node_runs: StringMap::new(),
    }
}

#[test]
fn default_grace_is_60s_and_steal_after_is_fail_closed() {
    let default = HoldPolicy::default();
    assert_eq!(default.grace_ms, 60_000);
    assert_eq!(default.grace(), Duration::from_secs(60));
    assert_eq!(default.steal_after_ms, None);
    assert_eq!(default.steal_after(), None);
}

#[test]
fn hold_policy_resolve_with_no_overrides_returns_default() {
    assert_eq!(resolve(None, None, None), HoldPolicy::default());
}

#[test]
fn hold_policy_resolve_precedence_event_beats_profile_beats_harness_beats_default() {
    let harness = PartialHoldPolicy {
        grace_ms: Some(10_000),
        steal_after_ms: Some(Some(10_000)),
    };
    let profile = PartialHoldPolicy {
        grace_ms: Some(20_000),
        steal_after_ms: None,
    };
    let event = PartialHoldPolicy {
        grace_ms: Some(30_000),
        steal_after_ms: None,
    };

    assert_eq!(
        resolve(Some(&harness), None, None).grace_ms,
        10_000,
        "harness beats default"
    );
    assert_eq!(
        resolve(Some(&harness), Some(&profile), None).grace_ms,
        20_000,
        "profile beats harness"
    );
    assert_eq!(
        resolve(Some(&harness), Some(&profile), Some(&event)).grace_ms,
        30_000,
        "event beats profile"
    );
    assert_eq!(
        resolve(Some(&harness), Some(&profile), Some(&event)).steal_after_ms,
        Some(10_000)
    );
}

#[test]
fn a_configured_steal_after_overrides_the_default() {
    let event = PartialHoldPolicy {
        grace_ms: None,
        steal_after_ms: Some(Some(90_000)),
    };
    let resolved = resolve(None, None, Some(&event));
    assert_eq!(resolved.steal_after_ms, Some(90_000));
    assert_eq!(resolved.steal_after(), Some(Duration::from_secs(90)));
}

#[test]
fn steal_after_none_stays_fail_closed_even_over_a_lower_layer_value() {
    let harness = PartialHoldPolicy {
        grace_ms: None,
        steal_after_ms: Some(Some(60_000)),
    };
    let event = PartialHoldPolicy {
        grace_ms: None,
        steal_after_ms: Some(None),
    };
    let resolved = resolve(Some(&harness), None, Some(&event));
    assert_eq!(resolved.steal_after_ms, None);
    assert_eq!(resolved.steal_after(), None);
}

#[test]
fn steal_after_untouched_layer_falls_through() {
    let harness = PartialHoldPolicy {
        grace_ms: None,
        steal_after_ms: Some(Some(45_000)),
    };
    let event = PartialHoldPolicy {
        grace_ms: Some(5_000),
        steal_after_ms: None,
    };
    let resolved = resolve(Some(&harness), None, Some(&event));
    assert_eq!(resolved.steal_after_ms, Some(45_000));
    assert_eq!(resolved.grace_ms, 5_000);
}

#[test]
fn profiles_set_both_knobs_explicitly() {
    let default = HoldPolicy::default();
    assert_eq!(profiles::baseline().grace_ms, Some(default.grace_ms));
    assert_eq!(
        profiles::baseline().steal_after_ms,
        Some(default.steal_after_ms)
    );

    assert_eq!(profiles::cheap_fast().grace_ms, Some(15_000));
    assert_eq!(profiles::cheap_fast().steal_after_ms, Some(Some(15_000)));

    assert_eq!(profiles::thorough().grace_ms, Some(300_000));
    assert_eq!(profiles::thorough().steal_after_ms, Some(None));

    assert!(profiles::profile_by_name("nonexistent").is_none());
}

#[test]
fn hold_policy_baseline_profile_is_a_genuine_no_op() {
    let baseline = profiles::baseline();
    assert_eq!(
        resolve(None, Some(&baseline), None),
        resolve(None, None, None)
    );
}

#[test]
fn resolve_for_workflow_reads_the_workflow_keyed_harness_section() {
    let file = HarnessText::Text(
        r#"{
          "hold_policy_workflow_a": { "policy": { "grace_ms": 12000 } },
          "hold_policy_workflow_b": { "policy": { "grace_ms": 99000 } }
        }"#
        .to_string(),
    );
    let source = PolicyConfigSource::Worktree("/work/tree".to_string());
    let grace = |key: &str| {
        resolve_for_workflow(key, &source, &file, None, None, decode, decode_profiles)
            .unwrap()
            .grace_ms
    };
    assert_eq!(grace("hold_policy_workflow_a"), 12_000);
    assert_eq!(grace("hold_policy_workflow_b"), 99_000);
    assert_eq!(grace("hold_policy_workflow_c"), HoldPolicy::default().grace_ms);
}

#[test]
fn resolve_for_workflow_named_profile_beats_harness_defaults() {
    let file = HarnessText::Text(
        r#"{
          "hold_policy_workflow_a": {
            "policy": { "grace_ms": 12000 },
            "profiles": { "cheap-fast": { "grace_ms": 7000, "steal_after_ms": 7000 } }
          }
        }"#
        .to_string(),
    );
    let source = PolicyConfigSource::Worktree("/work/tree".to_string());
    let resolved = resolve_for_workflow(
        "hold_policy_workflow_a",
        &source,
        &file,
        Some("cheap-fast"),
        None,
        decode,
        decode_profiles,
    )
    .unwrap();
    assert_eq!(resolved.grace_ms, 7_000);
    assert_eq!(resolved.steal_after_ms, Some(7_000));

    let resolved_builtin = resolve_for_workflow(
        "hold_policy_workflow_missing",
        &source,
        &file,
        Some("thorough"),
        None,
        decode,
        decode_profiles,
    )
    .unwrap();
    assert_eq!(resolved_builtin.grace_ms, 300_000);
}

#[test]
fn resolve_for_workflow_builtin_source_resolves_with_no_filesystem_access() {
    let resolved = resolve_for_workflow(
        "any-workflow",
        &PolicyConfigSource::Builtin,
        &HarnessText::Unreadable("never looked at".to_string()),
        None,
        None,
        decode,
        decode_profiles,
    )
    .unwrap();
    assert_eq!(resolved, HoldPolicy::default());
}

#[test]
fn an_unknown_profile_is_an_error() {
    let err = resolve_for_workflow(
        "any-workflow",
        &PolicyConfigSource::Builtin,
        &HarnessText::Missing,
        Some("nonexistent"),
        None,
        decode,
        decode_profiles,
    )
    .unwrap_err();
    assert!(err.message.contains("nonexistent"), "{}", err.message);
    assert!(err.message.contains("any-workflow"), "{}", err.message);
}

#[test]
fn node_stamps_the_resolved_values_under_its_own_result() {
    let node = HoldPolicyNode::new("hold_policy_test_workflow");
    assert_eq!(node.workflow_key(), "hold_policy_test_workflow");
    let ctx = node
        .process(context("{}"), &HarnessText::Missing, decode, decode_profiles)
        .expect("process should succeed");
    let stamped = get_result(&ctx, NODE_NAME).expect("result should be stamped");
    assert_eq!(stamped.get_str("workflow_key"), Some("hold_policy_test_workflow"));
    assert_eq!(
        stamped.get("grace_ms").and_then(|v| v.as_u64()),
        Some(HoldPolicy::default().grace_ms)
    );
    assert!(stamped.get("steal_after_ms").unwrap().is_null());
}

#[test]
fn node_applies_event_override_and_named_profile() {
    let node = HoldPolicyNode::new("hold_policy_test_workflow");
    let ctx = context(r#"{ "profile": "cheap-fast", "policy": { "grace_ms": 1234 } }"#);
    let ctx = node
        .process(ctx, &HarnessText::Missing, decode, decode_profiles)
        .expect("process should succeed");
    let stamped = get_result(&ctx, NODE_NAME).expect("result should be stamped");
    assert_eq!(stamped.get("grace_ms").and_then(|v| v.as_u64()), Some(1234));
    assert_eq!(stamped.get("steal_after_ms").and_then(|v| v.as_u64()), Some(15_000));
}

#[test]
fn node_reports_an_invalid_event_policy_override_as_an_error() {
    let node = HoldPolicyNode::new("hold_policy_test_workflow");
    let ctx = context(r#"{ "policy": { "grace_ms": "not-a-number" } }"#);
    let err = node
        .process(ctx, &HarnessText::Missing, decode, decode_profiles)
        .expect_err("an invalid override must not be passed over");
    assert!(err.message.contains("invalid ctx.event.policy"));
}

#[test]
fn node_reads_its_own_source() {
    let node = HoldPolicyNode::new("w")
        .with_source(PolicyConfigSource::HarnessFile("/etc/harness.json".to_string()));
    let file = HarnessText::Text(r#"{ "w": { "policy": { "grace_ms": 5 } } }"#.to_string());
    let ctx = node
        .process(context("{}"), &file, decode, decode_profiles)
        .unwrap();
    let stamped = get_result(&ctx, NODE_NAME).unwrap();
    assert_eq!(stamped.get("grace_ms").and_then(|v| v.as_u64()), Some(5));

    let err = node
        .process(
            context("{}"),
            &HarnessText::Unreadable("denied".to_string()),
            decode,
            decode_profiles,
        )
        .unwrap_err();
    assert_eq!(err.message, "failed to read /etc/harness.json: denied");
}
