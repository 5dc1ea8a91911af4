//! The bounded poll over a predicate.
use engine_core::contract::{get_result, TaskContext};
use engine_core::json::{parse, Json};
use engine_core::node::NodeError;
use engine_core::nodes::terminal::await_node::{
    exit_code_of, parse_predicate, parse_rfc3339, profiles, resolve, sent_at_of, AwaitPlan,
    AwaitPolicy, AwaitStep, PartialAwaitPolicy, TerminalAwaitNode, NODE_NAME,
};
use engine_core::nodes::terminal::driver::DriverFault;
use engine_core::nodes::terminal::identity::WithSessionInput;
use engine_core::nodes::terminal::predicate::{
    marker_path, AgentState, AwaitPredicate, MarkerObservation,
};
use engine_core::nodes::terminal::session;
use engine_core::string_map::StringMap;
use engine_core::time::{Duration, Timestamp};

/// The moment the marker files of these tests were written.
const WRITTEN: i64 = 1_700_000_000;

fn whole(doc: &Json, field: &str) -> Result<Option<u64>, String> {
    match doc.get(field) {
        None => Ok(None),
        Some(v) => match v.as_u64() {
            Some(n) => Ok(Some(n)),
            None => Err(format!("{field} is no number")),
        },
    }
}

fn decode_policy(doc: &Json) -> Result<PartialAwaitPolicy, String> {
    Ok(PartialAwaitPolicy {
        poll_interval_ms: whole(doc, "poll_interval_ms")?,
        timeout_ms: whole(doc, "timeout_ms")?,
    })
}

fn decode_state(name: &str) -> Result<AgentState, String> {
    match name {
        "idle" => Ok(AgentState::Idle),
        "working" => Ok(AgentState::Working),
        "blocked" => Ok(AgentState::Blocked),
        "unknown" => Ok(AgentState::Unknown),
        other => Err(format!("unknown variant `{other}`")),
    }
}

fn context(event: &str) -> TaskContext {
    TaskContext {
        event: parse(event).expect("valid document"),
        nodes: StringMap::new(),
        metadata: Json::object(),
        node_runs: StringMap::new(),
    }
}

fn ctx_with_upstream_session(event: &str) -> TaskContext {
    let mut ctx = context(event);
    ctx.nodes.insert(
        session::NODE_NAME.to_string(),
        Json::object()
            .with("session_name", Json::text("eng-run1_TerminalSessionNode"))
            .with("lease_nonce", Json::text("some-nonce"))
            .with("created", Json::Bool(true)),
    );
    ctx
}

fn plan(ctx: &TaskContext) -> Result<AwaitPlan, NodeError> {
    TerminalAwaitNode::new().plan(ctx, decode_state, decode_policy)
}

/// A terminal as it stays for the whole of a wait.
struct Scene {
    screen: &'static str,
    detected: AgentState,
    marker: MarkerObservation,
    pane_status: Option<&'static str>,
}

impl Default for Scene {
    fn default() -> Self {
        Scene {
            screen: "some output",
            detected: AgentState::Unknown,
            marker: MarkerObservation::default(),
            pane_status: None,
        }
    }
}

/// How a wait went, on a clock that moves only while the wait sleeps.
struct Waited {
    r: Result<TaskContext, NodeError>,
    /// How long it took, in milliseconds.
    took: u128,
    /// How many times the screen was captured.
    captures: u32,
    /// The marker file that was read last.
    marker_path: Option<String>,
    /// Whether the terminal was asked about the process.
    asked_status: bool,
}

fn wait_on(ctx: TaskContext, scene: &Scene) -> Waited {
    let mut now = Duration { nanos: 0 };
    let mut captures = 0;
    let mut marker_path = None;
    let mut asked_status = false;
    let mut step = plan(&ctx).expect("a plan").begin(ctx, now);
    loop {
        step = match step {
            AwaitStep::Capture { state, session } => {
                assert_eq!(session, "eng-run1_TerminalSessionNode");
                captures += 1;
                state.captured(
                    Ok(scene.screen.to_string()),
                    |screen: &str| {
                        assert_eq!(screen, scene.screen);
                        scene.detected
                    },
                    now,
                )
            }
            AwaitStep::ReadMarker { state, path } => {
                marker_path = Some(path);
                state.marker_read(scene.marker.clone(), now)
            }
            AwaitStep::AskStatus { state, session } => {
                assert_eq!(session, "eng-run1_TerminalSessionNode");
                asked_status = true;
                state.status_told(scene.pane_status.map(str::to_string), now)
            }
            AwaitStep::Sleep { state, span } => {
                now = Duration {
                    nanos: now.nanos + span.nanos,
                };
                state.slept(now)
            }
            AwaitStep::Finished(r) => {
                return Waited {
                    r,
                    took: now.as_millis(),
                    captures,
                    marker_path,
                    asked_status,
                }
            }
        };
    }
}

fn wait(ctx: TaskContext, scene: &Scene) -> (Result<TaskContext, NodeError>, u128) {
    let waited = wait_on(ctx, scene);
    (waited.r, waited.took)
}

fn stamped(ctx: &TaskContext, field: &str) -> Option<bool> {
    get_result(ctx, NODE_NAME)
        .and_then(|doc| doc.get(field))
        .and_then(|v| v.as_bool())
}

fn marker_scene() -> Scene {
    Scene {
        marker: MarkerObservation {
            exists: true,
            content: Some("nonce-1".to_string()),
            mtime: Some(Timestamp::from_unix(WRITTEN, 0)),
        },
        ..Scene::default()
    }
}

#[test]
fn default_policy_is_one_second_poll_ten_minute_timeout() {
    let policy = AwaitPolicy::default();
    assert_eq!(policy.poll_interval_ms, 1_000);
    assert_eq!(policy.timeout_ms, 600_000);
}

#[test]
fn baseline_profile_restates_the_default_verbatim() {
    let resolved = resolve(None, Some(&profiles::baseline()), None);
    assert_eq!(resolved, AwaitPolicy::default());
}

#[test]
fn event_override_beats_profile_beats_harness_beats_builtin() {
    let harness = PartialAwaitPolicy {
        poll_interval_ms: Some(5_000),
        timeout_ms: Some(5_000),
    };
    let profile = PartialAwaitPolicy {
        poll_interval_ms: Some(2_000),
        timeout_ms: None,
    };
    let event = PartialAwaitPolicy {
        poll_interval_ms: Some(10),
        timeout_ms: None,
    };
    let resolved = resolve(Some(&harness), Some(&profile), Some(&event));
    assert_eq!(resolved.poll_interval_ms, 10);
    assert_eq!(resolved.timeout_ms, 5_000);
}

#[test]
fn await_node_profile_by_name_resolves_all_three_canonical_names() {
    assert_eq!(
        profiles::profile_by_name("baseline"),
        Some(profiles::baseline())
    );
    assert_eq!(
        profiles::profile_by_name("cheap-fast"),
        Some(profiles::cheap_fast())
    );
    assert_eq!(
        profiles::profile_by_name("thorough"),
        Some(profiles::thorough())
    );
    assert_eq!(profiles::profile_by_name("nonexistent"), None);
}

#[test]
fn marker_predicate_satisfies_once_the_marker_file_appears() {
    let ctx = ctx_with_upstream_session(
        r#"{
          "predicate": { "type": "marker", "out": "/tmp/out.log", "nonce": "nonce-1" },
          "sent_at": "2023-11-14T22:12:20+00:00",
          "policy": { "poll_interval_ms": 10, "timeout_ms": 2000 }
        }"#,
    );
    let waited = wait_on(ctx, &marker_scene());
    assert_eq!(
        waited.marker_path,
        Some(marker_path("/tmp/out.log", "nonce-1"))
    );
    let ctx = waited.r.unwrap();
    assert_eq!(stamped(&ctx, "satisfied"), Some(true));
    assert_eq!(stamped(&ctx, "timed_out"), Some(false));
    let stored = get_result(&ctx, NODE_NAME).unwrap();
    assert_eq!(stored.get("poll_interval_ms").and_then(|v| v.as_u64()), Some(10));
    assert_eq!(stored.get("timeout_ms").and_then(|v| v.as_u64()), Some(2000));
}

#[test]
fn stale_marker_does_not_satisfy_and_the_node_times_out() {
    let ctx = ctx_with_upstream_session(
        r#"{
          "predicate": { "type": "marker", "out": "/tmp/out.log", "nonce": "nonce-1" },
          "sent_at": "2023-11-14T22:14:20+00:00",
          "policy": { "poll_interval_ms": 10, "timeout_ms": 50 }
        }"#,
    );
    let (r, took) = wait(ctx, &marker_scene());
    let ctx = r.unwrap();
    assert_eq!(stamped(&ctx, "satisfied"), Some(false));
    assert_eq!(stamped(&ctx, "timed_out"), Some(true));
    assert_eq!(took, 50);
}

#[test]
fn cancellation_returns_within_five_seconds_of_a_ten_minute_bound() {
    let ctx = ctx_with_upstream_session(
        r#"{
          "predicate": { "type": "regex", "pattern": "NEVER MATCHES" },
          "policy": { "poll_interval_ms": 20, "timeout_ms": 600000 }
        }"#,
    );
    let now = Duration { nanos: 0 };
    let capture = match plan(&ctx).unwrap().begin(ctx, now) {
        AwaitStep::Capture { state, .. } => state,
        other => panic!("expected a capture, got {other:?}"),
    };
    let (pause, span) = match capture.captured(
        Ok("never satisfies".to_string()),
        |_: &str| AgentState::Unknown,
        now,
    ) {
        AwaitStep::Sleep { state, span } => (state, span),
        other => panic!("expected the wait to go on, got {other:?}"),
    };
    assert_eq!(span, Duration::from_millis(20));
    let ctx = pause.cancelled().unwrap();
    assert!(get_result(&ctx, NODE_NAME).is_none());
}

#[test]
fn own_timeout_fires_with_no_cancellation_token_and_no_runner_deadline() {
    let ctx = ctx_with_upstream_session(
        r#"{
          "predicate": { "type": "regex", "pattern": "NEVER MATCHES" },
          "policy": { "poll_interval_ms": 5, "timeout_ms": 40 }
        }"#,
    );
    let (r, took) = wait(ctx, &Scene::default());
    assert_eq!(stamped(&r.unwrap(), "timed_out"), Some(true));
    assert_eq!(took, 40);
}

#[test]
fn detect_predicate_terminates_the_poll() {
    let ctx = ctx_with_upstream_session(
        r#"{
          "predicate": { "type": "detect", "target": "idle" },
          "policy": { "poll_interval_ms": 10, "timeout_ms": 2000 }
        }"#,
    );
    let scene = Scene {
        screen: "some text\n> ",
        detected: AgentState::Idle,
        ..Scene::default()
    };
    let (r, took) = wait(ctx, &scene);
    assert_eq!(stamped(&r.unwrap(), "satisfied"), Some(true));
    assert_eq!(took, 0);
}

#[test]
fn silence_predicate_terminates_the_poll_once_threshold_elapses() {
    let ctx = ctx_with_upstream_session(
        r#"{
          "predicate": { "type": "silence", "min_duration_ms": 30 },
          "policy": { "poll_interval_ms": 10, "timeout_ms": 2000 }
        }"#,
    );
    let scene = Scene {
        screen: "unchanging output",
        ..Scene::default()
    };
    let (r, took) = wait(ctx, &scene);
    assert_eq!(stamped(&r.unwrap(), "satisfied"), Some(true));
    assert_eq!(took, 30);
}

#[test]
fn exit_code_predicate_terminates_the_poll_once_the_pane_is_dead() {
    let ctx = ctx_with_upstream_session(
        r#"{
          "predicate": { "type": "exit_code", "expected": 0 },
          "policy": { "poll_interval_ms": 10, "timeout_ms": 2000 }
        }"#,
    );
    let scene = Scene {
        screen: "$ ",
        pane_status: Some("1:0"),
        ..Scene::default()
    };
    let waited = wait_on(ctx, &scene);
    assert!(waited.asked_status);
    assert_eq!(stamped(&waited.r.unwrap(), "satisfied"), Some(true));
}

#[test]
fn missing_sent_at_on_a_marker_predicate_is_a_node_error() {
    let ctx = ctx_with_upstream_session(
        r#"{ "predicate": { "type": "marker", "out": "/tmp/out.log", "nonce": "n1" } }"#,
    );
    assert_eq!(
        plan(&ctx).unwrap_err().message,
        "TerminalAwaitNode: ctx.event is missing `sent_at`, required for a Marker predicate"
    );
}

#[test]
fn await_node_missing_upstream_session_surfaces_as_node_error() {
    let ctx = context(r#"{ "predicate": { "type": "regex", "pattern": "x" } }"#);
    assert_eq!(
        plan(&ctx).unwrap_err().message,
        "TerminalAwaitNode: no session recorded by TerminalSessionNode \u{2014} \
         TerminalAwaitNode must run after a TerminalSessionNode"
    );
}

fn predicate(text: &str) -> Result<AwaitPredicate, String> {
    parse_predicate(&parse(text).unwrap(), &decode_state).map_err(|e| e.message)
}

#[test]
fn every_kind_of_predicate_is_read() {
    assert_eq!(
        predicate(r#"{ "type": "marker", "out": "o", "nonce": "n" }"#),
        Ok(AwaitPredicate::Marker {
            out: "o".to_string(),
            nonce: "n".to_string()
        })
    );
    assert_eq!(
        predicate(r#"{ "type": "detect", "target": "blocked" }"#),
        Ok(AwaitPredicate::Detect {
            target: AgentState::Blocked
        })
    );
    assert_eq!(
        predicate(r#"{ "type": "regex", "pattern": "a+" }"#),
        Ok(AwaitPredicate::Regex {
            pattern: "a+".to_string()
        })
    );
    assert_eq!(
        predicate(r#"{ "type": "silence", "min_duration_ms": 7 }"#),
        Ok(AwaitPredicate::Silence {
            min_duration: Duration::from_millis(7)
        })
    );
    assert_eq!(
        predicate(r#"{ "type": "exit_code", "expected": -1 }"#),
        Ok(AwaitPredicate::ExitCode { expected: Some(-1) })
    );
    assert_eq!(
        predicate(r#"{ "type": "exit_code" }"#),
        Ok(AwaitPredicate::ExitCode { expected: None })
    );
    assert_eq!(
        predicate(r#"{ "type": "exit_code", "expected": 4294967296 }"#),
        Ok(AwaitPredicate::ExitCode { expected: Some(0) })
    );
}

#[test]
fn what_a_predicate_lacks_is_told() {
    let cases = [
        ("7", ": ctx.event.predicate must be an object"),
        ("{}", ": ctx.event.predicate is missing `type`"),
        (r#"{ "type": "marker" }"#, ": ctx.event.predicate is missing `out`"),
        (
            r#"{ "type": "marker", "out": "o" }"#,
            ": ctx.event.predicate is missing `nonce`",
        ),
        (r#"{ "type": "detect" }"#, ": ctx.event.predicate is missing `target`"),
        (
            r#"{ "type": "detect", "target": "asleep" }"#,
            ": ctx.event.predicate.target is not a valid AgentState: unknown variant `asleep`",
        ),
        (r#"{ "type": "regex" }"#, ": ctx.event.predicate is missing `pattern`"),
        (
            r#"{ "type": "silence", "min_duration_ms": -1 }"#,
            ": ctx.event.predicate is missing numeric `min_duration_ms`",
        ),
        (
            r#"{ "type": "silence" }"#,
            ": ctx.event.predicate is missing numeric `min_duration_ms`",
        ),
        (
            r#"{ "type": "never" }"#,
            ": unknown ctx.event.predicate.type \"never\"",
        ),
    ];
    for (text, message) in cases {
        assert_eq!(predicate(text), Err(format!("{NODE_NAME}{message}")), "{text}");
    }
}

#[test]
fn a_time_is_read_with_its_offset() {
    assert_eq!(
        parse_rfc3339("2023-11-14T23:13:20.5+01:00"),
        Ok(Timestamp::from_unix(WRITTEN, 500_000_000))
    );
    assert_eq!(
        parse_rfc3339("1969-12-31T23:59:59Z"),
        Ok(Timestamp::from_unix(-1, 0))
    );
    let err = parse_rfc3339("yesterday").unwrap_err().message;
    assert!(
        err.starts_with("TerminalAwaitNode: invalid `sent_at` \"yesterday\": "),
        "{err}"
    );
    assert_eq!(
        sent_at_of("x", Err("why".to_string())).unwrap_err().message,
        "TerminalAwaitNode: invalid `sent_at` \"x\": why"
    );
    assert_eq!(sent_at_of("x", Ok((3, 4))), Ok(Timestamp::from_unix(3, 4)));
}

#[test]
fn an_exit_code_is_read_of_a_dead_pane_alone() {
    assert_eq!(exit_code_of("1:0\n"), Some(0));
    assert_eq!(exit_code_of(" 1:137 "), Some(137));
    assert_eq!(exit_code_of("1:-1"), Some(-1));
    assert_eq!(exit_code_of("0:0"), None);
    assert_eq!(exit_code_of("1:"), None);
    assert_eq!(exit_code_of("1"), None);
    assert_eq!(exit_code_of("1:0:0"), None);
    assert_eq!(exit_code_of(""), None);
}

/// One tick of a wait for a long silence: the state that sleeps after it.
fn tick(step: AwaitStep, screen: &str, at: Duration) -> AwaitStep {
    match step {
        AwaitStep::Capture { state, .. } => {
            state.captured(Ok(screen.to_string()), |_: &str| AgentState::Unknown, at)
        }
        other => panic!("expected a capture, got {other:?}"),
    }
}

fn wake(step: AwaitStep, at: Duration) -> AwaitStep {
    match step {
        AwaitStep::Sleep { state, .. } => state.slept(at),
        other => panic!("expected a sleep, got {other:?}"),
    }
}

#[test]
fn a_change_of_the_screen_ends_the_silence() {
    let ctx = ctx_with_upstream_session(
        r#"{ "predicate": { "type": "silence", "min_duration_ms": 20 } }"#,
    );
    let ms = Duration::from_millis;
    let step = plan(&ctx).unwrap().begin(ctx, ms(5));
    let step = wake(tick(step, "a", ms(6)), ms(24));
    let step = wake(tick(step, "a", ms(24)), ms(30));
    let step = wake(tick(step, "b", ms(30)), ms(49));
    let step = wake(tick(step, "b", ms(49)), ms(50));
    match tick(step, "b", ms(50)) {
        AwaitStep::Finished(Ok(ctx)) => assert_eq!(stamped(&ctx, "satisfied"), Some(true)),
        other => panic!("expected the end, got {other:?}"),
    }
}

#[test]
fn a_screen_that_cannot_be_captured_ends_the_wait() {
    let ctx = ctx_with_upstream_session(r#"{ "predicate": { "type": "exit_code" } }"#);
    let now = Duration { nanos: 0 };
    match plan(&ctx).unwrap().begin(ctx, now) {
        AwaitStep::Capture { state, .. } => match state.captured(
            Err(DriverFault::Other("gone".to_string())),
            |_: &str| AgentState::Unknown,
            now,
        ) {
            AwaitStep::Finished(Err(e)) => {
                assert_eq!(e.message, "TerminalAwaitNode: capture_pane failed: gone")
            }
            other => panic!("expected the end, got {other:?}"),
        },
        other => panic!("expected a capture, got {other:?}"),
    }
}

#[test]
fn a_match_ends_the_wait_with_one_capture() {
    let ctx =
        ctx_with_upstream_session(r#"{ "predicate": { "type": "regex", "pattern": "done" } }"#);
    let scene = Scene {
        screen: "done",
        ..Scene::default()
    };
    let waited = wait_on(ctx, &scene);
    assert_eq!(waited.captures, 1);
    assert_eq!(waited.took, 0);
    assert_eq!(stamped(&waited.r.unwrap(), "satisfied"), Some(true));
}

#[test]
fn every_tick_captures_the_screen_once() {
    for predicate in [
        r#"{ "type": "regex", "pattern": "x" }"#,
        r#"{ "type": "marker", "out": "o", "nonce": "n" }"#,
        r#"{ "type": "exit_code" }"#,
    ] {
        let ctx = ctx_with_upstream_session(&format!(
            r#"{{ "predicate": {predicate}, "sent_at": "2023-11-14T22:12:20+00:00",
                 "policy": {{ "poll_interval_ms": 10, "timeout_ms": 25 }} }}"#
        ));
        let waited = wait_on(ctx, &Scene { screen: "-", ..Scene::default() });
        assert_eq!(waited.took, 25);
        assert_eq!(waited.captures, 4);
        assert_eq!(stamped(&waited.r.unwrap(), "timed_out"), Some(true));
    }
}

#[test]
fn a_sleep_ends_with_the_deadline_and_is_never_nought_before_it() {
    let ctx = ctx_with_upstream_session(
        r#"{
          "predicate": { "type": "regex", "pattern": "x" },
          "policy": { "poll_interval_ms": 0, "timeout_ms": 10 }
        }"#,
    );
    let run = match plan(&ctx).unwrap().begin(ctx, Duration::from_millis(100)) {
        AwaitStep::Capture { state, .. } => state.run,
        other => panic!("expected a capture, got {other:?}"),
    };
    assert_eq!(run.deadline, Duration::from_millis(110));
    assert_eq!(run.sleep_for(Duration::from_millis(100)), Duration::from_millis(1));
    assert_eq!(
        run.sleep_for(Duration { nanos: 109_500_000 }),
        Duration { nanos: 500_000 }
    );
    assert_eq!(run.sleep_for(Duration::from_millis(120)), Duration { nanos: 0 });
}

#[test]
fn layers_and_bindings_of_the_node_count() {
    let mut ctx = context(
        r#"{ "predicate": { "type": "exit_code" }, "policy": { "timeout_ms": 5 } }"#,
    );
    ctx.nodes.insert(
        "Other".to_string(),
        Json::object().with("session_name", Json::text("s")),
    );
    let node = TerminalAwaitNode::new()
        .with_harness_defaults(PartialAwaitPolicy {
            poll_interval_ms: Some(1),
            timeout_ms: Some(1),
        })
        .with_profile(PartialAwaitPolicy {
            poll_interval_ms: Some(2),
            timeout_ms: Some(2),
        })
        .with_session_input_from("Other");
    let plan = node.plan(&ctx, decode_state, decode_policy).unwrap();
    assert_eq!(plan.session_name, "s");
    assert_eq!(plan.sent_at, Timestamp::from_unix(0, 0));
    assert_eq!(
        plan.policy,
        AwaitPolicy {
            poll_interval_ms: 2,
            timeout_ms: 5
        }
    );

    ctx.event = parse(r#"{ "predicate": { "type": "exit_code" }, "policy": { "timeout_ms": "x" } }"#)
        .unwrap();
    assert_eq!(
        node.plan(&ctx, decode_state, decode_policy).unwrap_err().message,
        "TerminalAwaitNode: invalid ctx.event.policy: timeout_ms is no number"
    );
    ctx.event = Json::object();
    assert_eq!(
        node.plan(&ctx, decode_state, decode_policy).unwrap_err().message,
        "TerminalAwaitNode: ctx.event is missing `predicate`"
    );
}
