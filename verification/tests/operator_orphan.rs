//! Recovering runs that lost their process.
use engine_core::json::Json;
use engine_core::policy::profiles::{HarnessText, PolicyConfigSource};
use engine_core::policy::resolve::resolve;
use engine_core::string_map::StringMap;
use engine_core::operator::orphan::{
    baseline, cheap_fast, profile_by_name, resolve_policy_for_run_from, thorough, policy_state, OrphanPolicy, PartialOrphanPolicy,
};

fn fields(doc: &Json) -> PartialOrphanPolicy {
    PartialOrphanPolicy {
        orphan_item_priority: doc.get("orphan_item_priority").and_then(|v| v.as_i64()).map(|v| v as i32),
        ..Default::default()
    }
}

fn decode(doc: &Json) -> Result<PartialOrphanPolicy, String> {
    match doc {
        Json::Object(_) => Ok(fields(doc)),
        _ => Err("expected an object".to_string()),
    }
}

fn decode_profiles(doc: &Json) -> Result<StringMap<PartialOrphanPolicy>, String> {
    let mut out = StringMap::new();
    match doc {
        Json::Object(entries) => {
            for (name, bundle) in entries {
                out.insert(name.clone(), decode(bundle)?);
            }
            Ok(out)
        }
        _ => Err("expected an object".to_string()),
    }
}

fn run_from(
    profile: Option<&str>,
    event: Option<&PartialOrphanPolicy>,
) -> Result<OrphanPolicy, engine_core::node::NodeError> {
    resolve_policy_for_run_from(
        &PolicyConfigSource::Builtin,
        &HarnessText::Missing,
        profile,
        event,
        decode,
        decode_profiles,
    )
}

#[test]
fn default_matches_documented_baseline_except_reconcile_which_is_deliberately_true() {
    let policy = OrphanPolicy::default();
    assert!(policy.reconcile_on_boot);
    assert_eq!(policy.stale_run_alarm_secs, 3600);
    assert_eq!(policy.orphan_item_priority, 0);
    assert_eq!(policy.orphan_scan_limit, 200);
}

#[test]
fn every_named_profile_sets_all_four_knobs_explicitly() {
    for profile in [baseline(), cheap_fast(), thorough()] {
        assert!(profile.reconcile_on_boot.is_some());
        assert!(profile.stale_run_alarm_secs.is_some());
        assert!(profile.orphan_item_priority.is_some());
        assert!(profile.orphan_scan_limit.is_some());
    }
}

#[test]
fn every_named_profile_keeps_reconcile_on_boot_enabled() {
    for profile in [baseline(), cheap_fast(), thorough()] {
        assert_eq!(profile.reconcile_on_boot, Some(true));
    }
}

#[test]
fn orphan_profile_by_name_resolves_all_three_canonical_names() {
    assert_eq!(profile_by_name("baseline"), Some(baseline()));
    assert_eq!(profile_by_name("cheap-fast"), Some(cheap_fast()));
    assert_eq!(profile_by_name("thorough"), Some(thorough()));
}

#[test]
fn orphan_profile_by_name_returns_none_for_unknown_name() {
    assert_eq!(profile_by_name("nonexistent"), None);
}

#[test]
fn orphan_resolve_with_no_overrides_returns_builtin() {
    let resolved = resolve(OrphanPolicy::default(), None, None, None);
    assert_eq!(resolved, OrphanPolicy::default());
}

#[test]
fn harness_default_overrides_builtin_and_leaves_other_knobs_alone() {
    let harness = PartialOrphanPolicy {
        stale_run_alarm_secs: Some(60),
        ..Default::default()
    };
    let resolved = resolve(OrphanPolicy::default(), Some(&harness), None, None);
    assert_eq!(resolved.stale_run_alarm_secs, 60);
    assert_eq!(resolved.orphan_item_priority, 0);
    assert!(resolved.reconcile_on_boot);
}

#[test]
fn orphan_profile_beats_harness_defaults() {
    let harness = PartialOrphanPolicy {
        orphan_item_priority: Some(9),
        ..Default::default()
    };
    let profile = PartialOrphanPolicy {
        orphan_item_priority: Some(3),
        ..Default::default()
    };
    let resolved = resolve(
        OrphanPolicy::default(),
        Some(&harness),
        Some(&profile),
        None,
    );
    assert_eq!(resolved.orphan_item_priority, 3);
}

#[test]
fn orphan_event_override_beats_profile() {
    let profile = PartialOrphanPolicy {
        orphan_item_priority: Some(3),
        ..Default::default()
    };
    let event = PartialOrphanPolicy {
        orphan_item_priority: Some(1),
        ..Default::default()
    };
    let resolved =
        resolve(OrphanPolicy::default(), None, Some(&profile), Some(&event));
    assert_eq!(resolved.orphan_item_priority, 1);
}

#[test]
fn event_override_flips_reconcile_on_boot_without_resetting_other_knobs() {
    let event = PartialOrphanPolicy {
        reconcile_on_boot: Some(false),
        ..Default::default()
    };
    let resolved = resolve(OrphanPolicy::default(), None, None, Some(&event));
    assert!(!resolved.reconcile_on_boot);
    assert_eq!(resolved.stale_run_alarm_secs, 3600);
    assert_eq!(resolved.orphan_item_priority, 0);
    assert_eq!(resolved.orphan_scan_limit, 200);
}

#[test]
fn orphan_resolve_policy_for_run_from_builtin_source_needs_no_filesystem() {
    let resolved = run_from(None, None)
        .expect("resolve should succeed with no filesystem access");
    assert_eq!(resolved, OrphanPolicy::default());
}

#[test]
fn orphan_resolve_policy_for_run_from_applies_named_profile() {
    let resolved =
        run_from(Some("cheap-fast"), None)
            .expect("resolve should succeed");
    assert_eq!(resolved.stale_run_alarm_secs, 1800);
    assert_eq!(resolved.orphan_item_priority, -5);
    assert_eq!(resolved.orphan_scan_limit, 100);
}

#[test]
fn orphan_resolve_policy_for_run_from_unknown_profile_errors() {
    let err =
        run_from(Some("nonexistent"), None)
            .expect_err("should fail");
    assert!(err.message.contains("unknown profile"));
}

#[test]
fn policy_state_stamps_all_four_resolved_values() {
    let policy = OrphanPolicy::default();
    let state = policy_state(&policy);
    assert_eq!(
        state.get("reconcile_on_boot").and_then(|v| v.as_bool()),
        Some(true)
    );
    assert_eq!(
        state.get("stale_run_alarm_secs").and_then(|v| v.as_u64()),
        Some(3600)
    );
    assert_eq!(
        state.get("orphan_item_priority").and_then(|v| v.as_i64()),
        Some(0)
    );
    assert_eq!(
        state.get("orphan_scan_limit").and_then(|v| v.as_i64()),
        Some(200)
    );
}
