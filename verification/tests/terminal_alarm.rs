//! The alarm that captures without a match raise.
use engine_core::nodes::terminal::no_match_alarm::{
    profiles, resolve, NoMatchAlarmPolicy, NoMatchAlarmTracker, PartialNoMatchAlarmPolicy,
};
use engine_core::nodes::terminal::predicate::AgentState;

#[test]
fn default_policy_threshold_is_five() {
    assert_eq!(
        NoMatchAlarmPolicy::default().consecutive_unmatched_threshold,
        5
    );
}

#[test]
fn n_consecutive_unmatched_raise_exactly_one_alarm_naming_manifest_and_digest() {
    let mut tracker = NoMatchAlarmTracker::new(NoMatchAlarmPolicy {
        consecutive_unmatched_threshold: 3,
    });

    assert_eq!(tracker.record("agent", "abc123", false), None);
    assert_eq!(tracker.record("agent", "abc123", false), None);
    let alarm = tracker
        .record("agent", "abc123", false)
        .expect("3rd consecutive unmatched capture should raise");

    assert_eq!(alarm.manifest_name, "agent");
    assert_eq!(alarm.manifest_digest, "abc123");
    assert_eq!(alarm.consecutive_unmatched, 3);
}

#[test]
fn n_minus_one_consecutive_unmatched_raise_nothing() {
    let mut tracker = NoMatchAlarmTracker::new(NoMatchAlarmPolicy {
        consecutive_unmatched_threshold: 5,
    });

    for _ in 0..4 {
        assert_eq!(tracker.record("agent", "abc123", false), None);
    }
    assert_eq!(tracker.current_count(), 4);
}

#[test]
fn an_unmatched_streak_past_the_threshold_does_not_re_fire() {
    let mut tracker = NoMatchAlarmTracker::new(NoMatchAlarmPolicy {
        consecutive_unmatched_threshold: 2,
    });

    assert_eq!(tracker.record("agent", "abc123", false), None);
    assert!(tracker.record("agent", "abc123", false).is_some());
    assert_eq!(tracker.record("agent", "abc123", false), None);
    assert_eq!(tracker.record("agent", "abc123", false), None);
}

#[test]
fn a_successful_match_mid_run_resets_the_counter() {
    let mut tracker = NoMatchAlarmTracker::new(NoMatchAlarmPolicy {
        consecutive_unmatched_threshold: 3,
    });

    assert_eq!(tracker.record("agent", "abc123", false), None);
    assert_eq!(tracker.record("agent", "abc123", false), None);
    assert_eq!(tracker.record("agent", "abc123", true), None);
    assert_eq!(tracker.current_count(), 0);
    assert_eq!(tracker.record("agent", "abc123", false), None);
    assert_eq!(tracker.record("agent", "abc123", false), None);

    let alarm = tracker
        .record("agent", "abc123", false)
        .expect("a fresh full streak after reset should raise again");
    assert_eq!(alarm.consecutive_unmatched, 3);
}

#[test]
fn record_state_treats_unknown_as_unmatched_and_everything_else_as_matched() {
    let mut tracker = NoMatchAlarmTracker::new(NoMatchAlarmPolicy {
        consecutive_unmatched_threshold: 2,
    });

    assert_eq!(
        tracker.record_state("agent", "abc123", AgentState::Unknown),
        None
    );
    let alarm = tracker
        .record_state("agent", "abc123", AgentState::Unknown)
        .expect("two consecutive Unknown classifications should raise");
    assert_eq!(alarm.consecutive_unmatched, 2);

    assert_eq!(
        tracker.record_state("agent", "abc123", AgentState::Working),
        None
    );
    assert_eq!(tracker.current_count(), 0);
}

#[test]
fn alarm_names_the_override_manifests_digest_when_an_override_is_active() {
    let mut tracker = NoMatchAlarmTracker::new(NoMatchAlarmPolicy {
        consecutive_unmatched_threshold: 1,
    });

    let embedded_digest = "embedded-digest-would-be-this";
    let override_digest = "override-digest-actually-running";

    let alarm = tracker
        .record("agent-override", override_digest, false)
        .expect("threshold of 1 should raise immediately");

    assert_eq!(alarm.manifest_digest, override_digest);
    assert_ne!(alarm.manifest_digest, embedded_digest);
    assert_eq!(alarm.manifest_name, "agent-override");
}

#[test]
fn resolve_layers_precedence_matches_the_generic_policy_resolver() {
    let harness_defaults = PartialNoMatchAlarmPolicy {
        consecutive_unmatched_threshold: Some(7),
    };
    let profile = PartialNoMatchAlarmPolicy {
        consecutive_unmatched_threshold: Some(4),
    };
    let event_override = PartialNoMatchAlarmPolicy {
        consecutive_unmatched_threshold: Some(1),
    };

    assert_eq!(resolve(None, None, None), NoMatchAlarmPolicy::default());
    assert_eq!(
        resolve(Some(&harness_defaults), None, None).consecutive_unmatched_threshold,
        7
    );
    assert_eq!(
        resolve(Some(&harness_defaults), Some(&profile), None).consecutive_unmatched_threshold,
        4
    );
    assert_eq!(
        resolve(
            Some(&harness_defaults),
            Some(&profile),
            Some(&event_override)
        )
        .consecutive_unmatched_threshold,
        1
    );
}

#[test]
fn all_three_named_profiles_resolve_to_distinct_thresholds() {
    let baseline = profiles::profile_by_name("baseline").expect("baseline profile exists");
    let cheap_fast =
        profiles::profile_by_name("cheap-fast").expect("cheap-fast profile exists");
    let thorough = profiles::profile_by_name("thorough").expect("thorough profile exists");

    assert_eq!(
        baseline.consecutive_unmatched_threshold,
        Some(NoMatchAlarmPolicy::default().consecutive_unmatched_threshold)
    );
    assert!(
        cheap_fast.consecutive_unmatched_threshold < baseline.consecutive_unmatched_threshold
    );
    assert!(
        thorough.consecutive_unmatched_threshold > baseline.consecutive_unmatched_threshold
    );
    assert!(profiles::profile_by_name("nonexistent-profile").is_none());
}

#[test]
fn a_tracker_knows_its_policy() {
    let tracker = NoMatchAlarmTracker::with_default_policy();
    assert_eq!(tracker.policy().consecutive_unmatched_threshold, 5);
    assert_eq!(tracker.current_count(), 0);
}

#[test]
fn a_threshold_of_nought_never_raises() {
    let mut tracker = NoMatchAlarmTracker::new(NoMatchAlarmPolicy {
        consecutive_unmatched_threshold: 0,
    });
    for _ in 0..10 {
        assert_eq!(tracker.record("agent", "abc123", false), None);
    }
    assert_eq!(tracker.current_count(), 10);
}
