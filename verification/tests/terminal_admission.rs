//! How many terminal runs may be in flight.
use engine_core::nodes::terminal::admission::{
    profiles, resolve, AdmissionPolicy, PartialAdmissionPolicy,
};

#[test]
fn default_policy_limit_is_eight() {
    assert_eq!(AdmissionPolicy::default().max_concurrent_terminal_runs, 8);
}

#[test]
fn profiles_set_the_knob_explicitly() {
    assert_eq!(
        profiles::baseline().max_concurrent_terminal_runs,
        Some(AdmissionPolicy::default().max_concurrent_terminal_runs)
    );
    assert_eq!(profiles::cheap_fast().max_concurrent_terminal_runs, Some(2));
    assert_eq!(profiles::thorough().max_concurrent_terminal_runs, Some(32));
    assert!(profiles::profile_by_name("nonexistent").is_none());
}

#[test]
fn admission_resolve_precedence_event_beats_profile_beats_harness_beats_default() {
    let harness = PartialAdmissionPolicy {
        max_concurrent_terminal_runs: Some(4),
    };
    let profile = PartialAdmissionPolicy {
        max_concurrent_terminal_runs: Some(16),
    };
    let event = PartialAdmissionPolicy {
        max_concurrent_terminal_runs: Some(1),
    };

    assert_eq!(resolve(None, None, None), AdmissionPolicy::default());
    assert_eq!(
        resolve(Some(&harness), None, None).max_concurrent_terminal_runs,
        4
    );
    assert_eq!(
        resolve(Some(&harness), Some(&profile), None).max_concurrent_terminal_runs,
        16
    );
    assert_eq!(
        resolve(Some(&harness), Some(&profile), Some(&event)).max_concurrent_terminal_runs,
        1
    );
}

#[test]
fn a_control_starts_with_as_many_slots_as_the_policy_says() {
    assert_eq!(AdmissionPolicy::default().permits(), 8);
    let none = AdmissionPolicy {
        max_concurrent_terminal_runs: 0,
    };
    assert_eq!(none.permits(), 0);
}

#[test]
fn selecting_the_baseline_leaves_admission_as_it_is() {
    let baseline = profiles::profile_by_name("baseline").unwrap();
    assert_eq!(resolve(None, Some(&baseline), None), AdmissionPolicy::default());
}
