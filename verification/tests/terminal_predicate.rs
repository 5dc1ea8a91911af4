//! When an observation ends a wait.
use engine_core::nodes::terminal::predicate::{
    evaluate, marker_path, pattern_satisfied, AgentState, AwaitPredicate, MarkerObservation,
    Observation, PredicateOutcome,
};
use engine_core::time::{Duration, Timestamp};

/// The moment the command was sent.
const SENT: i64 = 1_700_000_000;

fn at(secs: i64) -> Timestamp {
    Timestamp::from_unix(secs, 0)
}

/// A screen detector for the texts used here: a prompt on the last line is an
/// idle agent.
fn detect(screen: &str) -> AgentState {
    if screen.lines().last() == Some("> ") {
        AgentState::Idle
    } else {
        AgentState::Unknown
    }
}

fn base_observation(sent_at: Timestamp) -> Observation {
    Observation {
        screen: String::new(),
        detected: AgentState::Unknown,
        marker: MarkerObservation::default(),
        silence_duration: Duration { nanos: 0 },
        exit_code: None,
        sent_at,
    }
}

#[test]
fn marker_stale_right_path_older_mtime_does_not_satisfy() {
    let sent_at = at(SENT);
    let mut obs = base_observation(sent_at);
    obs.marker = MarkerObservation {
        exists: true,
        content: Some("nonce-1".to_string()),
        mtime: Some(at(SENT - 60)),
    };
    let predicate = AwaitPredicate::Marker {
        out: "/tmp/out.log".to_string(),
        nonce: "nonce-1".to_string(),
    };
    assert_eq!(evaluate(&predicate, &obs), PredicateOutcome::Pending);
}

#[test]
fn marker_foreign_content_does_not_satisfy() {
    let sent_at = at(SENT);
    let mut obs = base_observation(sent_at);
    obs.marker = MarkerObservation {
        exists: true,
        content: Some("some-other-runs-nonce".to_string()),
        mtime: Some(at(SENT + 1)),
    };
    let predicate = AwaitPredicate::Marker {
        out: "/tmp/out.log".to_string(),
        nonce: "nonce-1".to_string(),
    };
    assert_eq!(evaluate(&predicate, &obs), PredicateOutcome::Pending);
}

#[test]
fn marker_fresh_matching_satisfies() {
    let sent_at = at(SENT);
    let mut obs = base_observation(sent_at);
    obs.marker = MarkerObservation {
        exists: true,
        content: Some("nonce-1".to_string()),
        mtime: Some(at(SENT + 1)),
    };
    let predicate = AwaitPredicate::Marker {
        out: "/tmp/out.log".to_string(),
        nonce: "nonce-1".to_string(),
    };
    assert_eq!(evaluate(&predicate, &obs), PredicateOutcome::Satisfied);
}

#[test]
fn marker_absent_does_not_satisfy() {
    let sent_at = at(SENT);
    let obs = base_observation(sent_at);
    let predicate = AwaitPredicate::Marker {
        out: "/tmp/out.log".to_string(),
        nonce: "nonce-1".to_string(),
    };
    assert_eq!(evaluate(&predicate, &obs), PredicateOutcome::Pending);
}

#[test]
fn marker_path_format() {
    assert_eq!(
        marker_path("/tmp/out.log", "abc123"),
        "/tmp/out.log.abc123.done"
    );
}

#[test]
fn detect_matching_state_satisfies() {
    let sent_at = at(SENT);
    let mut obs = base_observation(sent_at);
    obs.screen = "some text\n> ".to_string();
    obs.detected = detect(&obs.screen);
    let predicate = AwaitPredicate::Detect {
        target: AgentState::Idle,
    };
    assert_eq!(evaluate(&predicate, &obs), PredicateOutcome::Satisfied);
}

#[test]
fn detect_unknown_screen_never_satisfies_a_non_unknown_target() {
    let sent_at = at(SENT);
    let mut obs = base_observation(sent_at);
    obs.screen = "$ cargo build\n   Compiling foo v0.1.0\n".to_string();
    obs.detected = detect(&obs.screen);
    let predicate = AwaitPredicate::Detect {
        target: AgentState::Idle,
    };
    assert_eq!(evaluate(&predicate, &obs), PredicateOutcome::Pending);
}

#[test]
fn regex_matching_satisfies() {
    let sent_at = at(SENT);
    let mut obs = base_observation(sent_at);
    obs.screen = "Build succeeded in 1.2s".to_string();
    let predicate = AwaitPredicate::Regex {
        pattern: r"Build succeeded".to_string(),
    };
    assert_eq!(evaluate(&predicate, &obs), PredicateOutcome::Satisfied);
}

#[test]
fn regex_non_matching_does_not_satisfy() {
    let sent_at = at(SENT);
    let mut obs = base_observation(sent_at);
    obs.screen = "still working...".to_string();
    let predicate = AwaitPredicate::Regex {
        pattern: r"Build succeeded".to_string(),
    };
    assert_eq!(evaluate(&predicate, &obs), PredicateOutcome::Pending);
}

#[test]
fn regex_invalid_pattern_never_satisfies() {
    let sent_at = at(SENT);
    let obs = base_observation(sent_at);
    let predicate = AwaitPredicate::Regex {
        pattern: r"(unclosed".to_string(),
    };
    assert_eq!(evaluate(&predicate, &obs), PredicateOutcome::Pending);
}

#[test]
fn silence_at_or_past_threshold_satisfies() {
    let sent_at = at(SENT);
    let mut obs = base_observation(sent_at);
    obs.silence_duration = Duration::from_secs(5);
    let predicate = AwaitPredicate::Silence {
        min_duration: Duration::from_secs(5),
    };
    assert_eq!(evaluate(&predicate, &obs), PredicateOutcome::Satisfied);
}

#[test]
fn silence_below_threshold_does_not_satisfy() {
    let sent_at = at(SENT);
    let mut obs = base_observation(sent_at);
    obs.silence_duration = Duration::from_millis(500);
    let predicate = AwaitPredicate::Silence {
        min_duration: Duration::from_secs(5),
    };
    assert_eq!(evaluate(&predicate, &obs), PredicateOutcome::Pending);
}

#[test]
fn exit_code_matching_expected_satisfies() {
    let sent_at = at(SENT);
    let mut obs = base_observation(sent_at);
    obs.exit_code = Some(0);
    let predicate = AwaitPredicate::ExitCode { expected: Some(0) };
    assert_eq!(evaluate(&predicate, &obs), PredicateOutcome::Satisfied);
}

#[test]
fn exit_code_mismatched_expected_does_not_satisfy() {
    let sent_at = at(SENT);
    let mut obs = base_observation(sent_at);
    obs.exit_code = Some(1);
    let predicate = AwaitPredicate::ExitCode { expected: Some(0) };
    assert_eq!(evaluate(&predicate, &obs), PredicateOutcome::Pending);
}

#[test]
fn exit_code_any_satisfies_once_exited() {
    let sent_at = at(SENT);
    let mut obs = base_observation(sent_at);
    obs.exit_code = Some(137);
    let predicate = AwaitPredicate::ExitCode { expected: None };
    assert_eq!(evaluate(&predicate, &obs), PredicateOutcome::Satisfied);
}

#[test]
fn exit_code_not_yet_exited_does_not_satisfy() {
    let sent_at = at(SENT);
    let obs = base_observation(sent_at);
    let predicate = AwaitPredicate::ExitCode { expected: None };
    assert_eq!(evaluate(&predicate, &obs), PredicateOutcome::Pending);
}

#[test]
fn a_marker_of_the_moment_of_the_send_is_stale() {
    let mut obs = base_observation(at(SENT));
    obs.marker = MarkerObservation {
        exists: true,
        content: Some("nonce-1".to_string()),
        mtime: Some(at(SENT)),
    };
    let predicate = AwaitPredicate::Marker {
        out: "/tmp/out.log".to_string(),
        nonce: "nonce-1".to_string(),
    };
    assert_eq!(evaluate(&predicate, &obs), PredicateOutcome::Pending);
    obs.marker.mtime = Some(Timestamp::from_unix(SENT, 1));
    assert_eq!(evaluate(&predicate, &obs), PredicateOutcome::Satisfied);
    assert!(evaluate(&predicate, &obs).is_satisfied());
}

#[test]
fn only_a_match_satisfies_a_pattern() {
    assert!(pattern_satisfied(Some(true)));
    assert!(!pattern_satisfied(Some(false)));
    assert!(!pattern_satisfied(None));
}
