//! The session, observe, send and live-session nodes, run against a terminal
//! that is played by the test.
use std::collections::HashMap;

use engine_core::config::Config;
use engine_core::contract::{get_result, TaskContext};
use engine_core::json::{parse, Json};
use engine_core::node::NodeError;
use engine_core::nodes::terminal::driver::{DriverCall, DriverFault, Reply, Step};
use engine_core::nodes::terminal::identity::{session_name_for, WithSessionInput};
use engine_core::nodes::terminal::live_claude::{
    binary_name, build_command_line, env_assignment, interactive_argv, shell_quote,
    LiveClaudeSessionNode,
};
use engine_core::nodes::terminal::observe::{AgentDetection, TerminalObserveNode};
use engine_core::nodes::terminal::send::{read_send_args, CommandDecision, TerminalSendNode};
use engine_core::nodes::terminal::session::TerminalSessionNode;
use engine_core::nodes::terminal::{held_session, live_claude, observe, send, session};
use engine_core::string_map::StringMap;
use engine_core::time::Duration;

/// The present time in these tests, in milliseconds.
const NOW_MS: u64 = 1_700_000_000_000;

/// The name the agent goes by in these tests.
const AGENT: &str = "agent";

fn doc(text: &str) -> Json {
    parse(text).expect("valid document")
}

/// A terminal with leases and options, and what it was asked for.
#[derive(Default)]
struct Terminal {
    calls: Vec<DriverCall>,
    listing: String,
    options: HashMap<String, String>,
    /// The nonce each session's lease is held under.
    leases: HashMap<String, String>,
    /// The sessions an operator holds.
    held: Vec<String>,
    capture: String,
    /// Creating a session fails with this.
    no_new_session: Option<String>,
    /// Typing fails with this.
    no_typing: Option<String>,
}

impl Terminal {
    fn answer(&mut self, call: DriverCall) -> Reply {
        let reply = match &call {
            DriverCall::SetOption { name, value } => {
                self.options.insert(name.clone(), value.clone());
                Ok(String::new())
            }
            DriverCall::ShowOption { name } => match self.options.get(name) {
                Some(value) => Ok(value.clone()),
                None => Err(DriverFault::Other(format!("invalid option: {name}"))),
            },
            DriverCall::ListSessions => Ok(self.listing.clone()),
            DriverCall::NewSession { .. } => match &self.no_new_session {
                Some(why) => Err(DriverFault::Other(why.clone())),
                None => Ok(String::new()),
            },
            DriverCall::CapturePane { .. } => Ok(self.capture.clone()),
            DriverCall::Acquire(q) => match self.leases.get(&q.session_name) {
                Some(nonce) if *nonce != q.nonce => {
                    Err(DriverFault::Lease("held by another run".to_string()))
                }
                _ => {
                    self.leases.insert(q.session_name.clone(), q.nonce.clone());
                    Ok(q.nonce.clone())
                }
            },
            DriverCall::SendKeys(q) => {
                if self.held.contains(&q.session_name) {
                    Err(DriverFault::Hold("operator hold is active".to_string()))
                } else if self.leases.get(&q.session_name) != Some(&q.nonce) {
                    Err(DriverFault::Lease("not ours".to_string()))
                } else {
                    match &self.no_typing {
                        Some(why) => Err(DriverFault::Other(why.clone())),
                        None => Ok(String::new()),
                    }
                }
            }
        };
        self.calls.push(call);
        reply
    }

    fn asked(&self, want: fn(&DriverCall) -> bool) -> usize {
        self.calls.iter().filter(|c| want(c)).count()
    }

    fn typed(&self) -> usize {
        self.asked(|c| matches!(c, DriverCall::SendKeys(_)))
    }

    fn created(&self) -> usize {
        self.asked(|c| matches!(c, DriverCall::NewSession { .. }))
    }

    fn lease(&mut self, session: &str, nonce: &str) {
        self.leases.insert(session.to_string(), nonce.to_string());
    }
}

fn context(event: &str, metadata: &str, stored: Option<(&str, &str)>) -> TaskContext {
    let mut nodes = StringMap::new();
    if let Some((node, result)) = stored {
        nodes.insert(node.to_string(), doc(result));
    }
    TaskContext {
        event: doc(event),
        nodes,
        metadata: doc(metadata),
        node_runs: StringMap::new(),
    }
}

fn result<'a>(ctx: &'a TaskContext, node: &str) -> &'a Json {
    get_result(ctx, node).expect("a stamped result")
}

// ── Session ──────────────────────────────────────────────────────────────

fn ctx_with_run_id(run_id: &str) -> TaskContext {
    context("{}", &format!("{{\"run_id\": \"{run_id}\"}}"), None)
}

fn list_sessions_line(session_name: &str) -> String {
    format!("{session_name}\t0\t1\t0\t\t/tmp")
}

/// A listing's line starts with the session's name; a line without a tab
/// cannot be read.
fn listed_name(line: &str) -> Option<String> {
    line.split_once('\t').map(|(name, _)| name.to_string())
}

fn run_session(
    node: &TerminalSessionNode,
    terminal: &mut Terminal,
    ctx: TaskContext,
) -> Result<TaskContext, NodeError> {
    let mut step = node.start(ctx);
    loop {
        match step {
            Step::Finished(r) => return r,
            Step::Call { state, call } => {
                let reply = terminal.answer(call);
                step = node.resume(state, reply, "2023-11-14T22:13:20+00:00", NOW_MS, listed_name);
            }
        }
    }
}

#[test]
fn creates_a_session_when_absent() {
    let mut terminal = Terminal::default();
    let node = TerminalSessionNode::new();

    let ctx = run_session(&node, &mut terminal, ctx_with_run_id("run-1")).unwrap();

    assert_eq!(terminal.created(), 1);
    let stored = result(&ctx, session::NODE_NAME);
    assert_eq!(stored.get("created"), Some(&Json::Bool(true)));
}

#[test]
fn back_edge_reentry_issues_no_second_new_session_call() {
    let mut terminal = Terminal::default();
    let session_name = session_name_for("run-1", session::NODE_NAME);
    let node = TerminalSessionNode::new();

    let ctx = run_session(&node, &mut terminal, ctx_with_run_id("run-1")).unwrap();
    assert_eq!(
        result(&ctx, session::NODE_NAME).get_str("session_name"),
        Some(session_name.as_str())
    );

    terminal.listing = list_sessions_line(&session_name);
    let before = terminal.created();
    let ctx2 = run_session(&node, &mut terminal, ctx_with_run_id("run-1")).unwrap();
    assert_eq!(
        terminal.created(),
        before,
        "coming back must not create a second session: {:?}",
        terminal.calls
    );
    assert_eq!(
        result(&ctx2, session::NODE_NAME).get("created"),
        Some(&Json::Bool(false))
    );
}

#[test]
fn failed_creation_still_leaves_engine_run_id_stamped_first() {
    let mut terminal = Terminal {
        no_new_session: Some("boom".to_string()),
        ..Terminal::default()
    };
    let node = TerminalSessionNode::new();

    let err = run_session(&node, &mut terminal, ctx_with_run_id("run-1"))
        .expect_err("expected the failure to surface");
    assert_eq!(err.message, "TerminalSessionNode: new_session failed: boom");

    let set_option_idx = terminal
        .calls
        .iter()
        .position(|c| matches!(c, DriverCall::SetOption { .. }))
        .expect("expected an option to be set");
    let new_session_idx = terminal
        .calls
        .iter()
        .position(|c| matches!(c, DriverCall::NewSession { .. }))
        .expect("expected a session to be created");
    assert!(set_option_idx < new_session_idx);
    let name = session_name_for("run-1", session::NODE_NAME);
    assert_eq!(
        terminal.options.get(&format!("@engine_run_id@{name}")),
        Some(&"run-1".to_string())
    );
}

#[test]
fn foreign_live_lease_surfaces_as_node_error_not_silent_skip() {
    let mut terminal = Terminal::default();
    let node = TerminalSessionNode::new();
    let session_name = session_name_for("run-1", session::NODE_NAME);
    terminal.listing = list_sessions_line(&session_name);
    terminal.lease(&session_name, "other-nonce");

    let result = run_session(&node, &mut terminal, ctx_with_run_id("run-1"));
    assert!(
        result.is_err(),
        "expected a foreign live lease to surface as an error, got {result:?}"
    );
}

#[test]
fn a_session_is_asked_for_in_a_fixed_order() {
    let mut terminal = Terminal::default();
    let node = TerminalSessionNode::new()
        .with_dir("/work")
        .with_lease_ttl(Duration::from_secs(10))
        .with_steal_after(Duration::from_secs(3));
    run_session(&node, &mut terminal, ctx_with_run_id("r:1")).unwrap();

    let name = "eng-r-1_TerminalSessionNode".to_string();
    assert_eq!(terminal.calls.len(), 5);
    assert_eq!(
        terminal.calls[0],
        DriverCall::SetOption {
            name: format!("@engine_run_id@{name}"),
            value: "r:1".to_string(),
        }
    );
    assert_eq!(
        terminal.calls[1],
        DriverCall::SetOption {
            name: format!("@engine_created_at@{name}"),
            value: "2023-11-14T22:13:20+00:00".to_string(),
        }
    );
    assert_eq!(terminal.calls[2], DriverCall::ListSessions);
    assert_eq!(
        terminal.calls[3],
        DriverCall::NewSession {
            name: name.clone(),
            dir: Some("/work".to_string()),
        }
    );
    match &terminal.calls[4] {
        DriverCall::Acquire(q) => {
            assert_eq!(q.session_name, name);
            assert_eq!(q.nonce, name);
            assert_eq!(q.run_id, "r:1");
            assert_eq!(q.identity, "TerminalSessionNode");
            assert_eq!(q.now_ms, NOW_MS);
            assert_eq!(q.expires_at_ms, NOW_MS + 10_000);
            assert_eq!(q.steal_after, Some(Duration::from_secs(3)));
        }
        other => panic!("expected the lease to be taken, got {other:?}"),
    }
}

#[test]
fn a_line_that_cannot_be_read_is_passed_over() {
    let mut terminal = Terminal::default();
    let name = session_name_for("run-1", session::NODE_NAME);
    terminal.listing = format!("garbage\n{name}\n{}", list_sessions_line("other"));
    let ctx = run_session(&TerminalSessionNode::new(), &mut terminal, ctx_with_run_id("run-1"))
        .unwrap();
    assert_eq!(
        result(&ctx, session::NODE_NAME).get("created"),
        Some(&Json::Bool(true))
    );
}

#[test]
fn a_session_needs_a_run() {
    let mut terminal = Terminal::default();
    let err = run_session(
        &TerminalSessionNode::new(),
        &mut terminal,
        context("{}", "{}", None),
    )
    .unwrap_err();
    assert_eq!(
        err.message,
        "TerminalSessionNode: no run_id stamped on ctx.metadata \u{2014} cannot derive a session name"
    );
    assert!(terminal.calls.is_empty());
}

#[test]
fn every_fault_of_the_terminal_is_told() {
    let node = TerminalSessionNode::new();
    let expected = [
        "TerminalSessionNode: failed to stamp @engine_run_id: gone",
        "TerminalSessionNode: failed to stamp @engine_created_at: gone",
        "TerminalSessionNode: list_sessions failed: gone",
        "TerminalSessionNode: new_session failed: gone",
        "TerminalSessionNode: lease acquisition failed: gone",
    ];
    for (failing, message) in expected.iter().enumerate() {
        let mut step = node.start(ctx_with_run_id("run-1"));
        let mut asked = 0;
        let err = loop {
            match step {
                Step::Finished(r) => break r.unwrap_err(),
                Step::Call { state, call: _ } => {
                    let reply = if asked == failing {
                        Err(DriverFault::Other("gone".to_string()))
                    } else {
                        Ok(String::new())
                    };
                    asked += 1;
                    step = node.resume(state, reply, "t", NOW_MS, listed_name);
                }
            }
        };
        assert_eq!(err.message, *message);
    }
}

// ── Observe ──────────────────────────────────────────────────────────────

fn ctx_with_observed_session(session_name: &str, created: bool) -> TaskContext {
    let stored = format!(
        "{{\"session_name\": \"{session_name}\", \"lease_nonce\": \"some-nonce\", \"created\": {created}}}"
    );
    context("{}", "{}", Some((session::NODE_NAME, &stored)))
}

fn detect(screen: &str) -> AgentDetection {
    AgentDetection {
        state: if screen.contains("idle") { "idle" } else { "unknown" }.to_string(),
        blocked_reason: None,
    }
}

fn run_observe(
    node: &TerminalObserveNode,
    terminal: &mut Terminal,
    ctx: TaskContext,
) -> Result<TaskContext, NodeError> {
    match node.start(ctx) {
        Step::Finished(r) => r,
        Step::Call { state, call } => {
            let reply = terminal.answer(call);
            node.finish(state, reply, detect)
        }
    }
}

#[test]
fn issues_exactly_one_capture_pane_and_one_detect_per_run() {
    let mut terminal = Terminal {
        capture: "idle prompt output".to_string(),
        ..Terminal::default()
    };
    let ctx = run_observe(
        &TerminalObserveNode::new(),
        &mut terminal,
        ctx_with_observed_session("eng-run1_TerminalSessionNode", true),
    )
    .unwrap();

    assert_eq!(
        terminal.calls,
        vec![DriverCall::CapturePane {
            session: "eng-run1_TerminalSessionNode".to_string()
        }]
    );
    let stored = result(&ctx, observe::NODE_NAME);
    assert_eq!(stored.get_str("state"), Some("idle"));
}

#[test]
fn stamped_result_carries_bounded_pane_fields_and_resolved_policy() {
    let raw: String = (0..2000)
        .map(|i| format!("line {i}"))
        .collect::<Vec<_>>()
        .join("\n");
    let mut terminal = Terminal {
        capture: raw,
        ..Terminal::default()
    };
    let ctx = run_observe(
        &TerminalObserveNode::new(),
        &mut terminal,
        ctx_with_observed_session("eng-run1_TerminalSessionNode", true),
    )
    .unwrap();

    let stored = result(&ctx, observe::NODE_NAME);
    assert_eq!(stored.get("pane_truncated"), Some(&Json::Bool(true)));
    assert!(stored.get_str("pane_sha256").is_some());
    assert!(stored.get_str("pane_tail").is_some());
    assert_eq!(stored.get_str("pane_tail_policy"), Some("text"));
}

#[test]
fn adopted_session_resolves_to_hash_only_policy() {
    let mut terminal = Terminal {
        capture: "some output".to_string(),
        ..Terminal::default()
    };
    let ctx = run_observe(
        &TerminalObserveNode::new(),
        &mut terminal,
        ctx_with_observed_session("eng-run1_TerminalSessionNode", false),
    )
    .unwrap();

    let stored = result(&ctx, observe::NODE_NAME);
    assert_eq!(stored.get("pane_tail"), Some(&Json::Null));
    assert!(stored.get_str("pane_sha256").is_some());
    assert_eq!(stored.get_str("pane_tail_policy"), Some("hash-only"));
}

#[test]
fn usage_is_null_and_no_cost_usd_key_is_ever_stamped() {
    let mut terminal = Terminal {
        capture: "output".to_string(),
        ..Terminal::default()
    };
    let ctx = run_observe(
        &TerminalObserveNode::new(),
        &mut terminal,
        ctx_with_observed_session("eng-run1_TerminalSessionNode", true),
    )
    .unwrap();

    let stored = result(&ctx, observe::NODE_NAME);
    assert_eq!(stored.get("usage"), Some(&Json::Null));
    assert!(stored.get("cost_usd").is_none());
}

#[test]
fn with_session_input_from_binds_to_a_specific_upstream_identity() {
    let mut terminal = Terminal {
        capture: "output".to_string(),
        ..Terminal::default()
    };
    let node = TerminalObserveNode::new().with_session_input_from("SomeOtherSessionNode");
    let ctx = context(
        "{}",
        "{}",
        Some((
            "SomeOtherSessionNode",
            "{\"session_name\": \"eng-bound-session\", \"created\": true}",
        )),
    );

    let ctx = run_observe(&node, &mut terminal, ctx).unwrap();
    assert_eq!(
        result(&ctx, observe::NODE_NAME).get_str("session_name"),
        Some("eng-bound-session")
    );
}

#[test]
fn observe_missing_upstream_session_surfaces_as_node_error() {
    let mut terminal = Terminal::default();
    let err = run_observe(
        &TerminalObserveNode::new(),
        &mut terminal,
        context("{}", "{}", None),
    )
    .unwrap_err();
    assert_eq!(
        err.message,
        "TerminalObserveNode: no session recorded by TerminalSessionNode \u{2014} \
         TerminalObserveNode must run after a TerminalSessionNode"
    );
}

#[test]
fn a_failed_capture_is_told() {
    let node = TerminalObserveNode::new();
    match node.start(ctx_with_observed_session("s", true)) {
        Step::Call { state, call: _ } => {
            let err = node
                .finish(state, Err(DriverFault::Other("no server".to_string())), detect)
                .unwrap_err();
            assert_eq!(err.message, "TerminalObserveNode: capture_pane failed: no server");
        }
        Step::Finished(r) => panic!("expected a capture, got {r:?}"),
    }
}

#[test]
fn a_session_that_does_not_say_was_not_created() {
    let node = TerminalObserveNode::new();
    let ctx = context("{}", "{}", Some((session::NODE_NAME, "{\"session_name\": \"s\"}")));
    assert_eq!(node.read_upstream_session(&ctx), Ok(("s".to_string(), false)));
    let ctx = context("{}", "{}", Some((session::NODE_NAME, "{\"created\": true}")));
    assert_eq!(
        node.read_upstream_session(&ctx).unwrap_err().message,
        "TerminalObserveNode: TerminalSessionNode's stored result is missing `session_name`"
    );
}

// ── Send ─────────────────────────────────────────────────────────────────

const SESSION: &str = "eng-run1_TerminalSessionNode";

fn ctx_to_send(lease_nonce: &str, command: &str, send_id: &str) -> TaskContext {
    let event = Json::object()
        .with("command", Json::text(command))
        .with("send_id", Json::text(send_id));
    let stored = format!(
        "{{\"session_name\": \"{SESSION}\", \"lease_nonce\": \"{lease_nonce}\", \"created\": true}}"
    );
    let mut ctx = context("{}", "{\"run_id\": \"run-1\"}", Some((session::NODE_NAME, &stored)));
    ctx.event = event;
    ctx
}

/// A floor that denies plain removals, and is easily talked round.
fn floor(command: &str) -> CommandDecision {
    if command.split_whitespace().any(|word| word == "rm") {
        CommandDecision::Deny {
            reason: "destructive".to_string(),
            matched: "rm".to_string(),
        }
    } else {
        CommandDecision::Allow
    }
}

fn run_send(terminal: &mut Terminal, ctx: TaskContext) -> Result<TaskContext, NodeError> {
    let node = TerminalSendNode::new();
    let mut step = node.start(ctx, floor);
    loop {
        match step {
            Step::Finished(r) => return r,
            Step::Call { state, call } => {
                let reply = terminal.answer(call);
                step = node.resume(state, reply, NOW_MS);
            }
        }
    }
}

#[test]
fn rm_rf_is_refused_with_a_typed_error_and_no_send() {
    let mut terminal = Terminal::default();
    terminal.lease(SESSION, "nonce-1");
    let err = run_send(&mut terminal, ctx_to_send("nonce-1", "rm -rf /", "send-1")).unwrap_err();
    assert_eq!(
        err.message,
        "TerminalSendNode: command refused by the command floor (destructive): \"rm\""
    );
    assert_eq!(terminal.typed(), 0);
    assert!(terminal.calls.is_empty());
}

#[test]
fn allowed_command_is_sent_and_recorded() {
    let mut terminal = Terminal::default();
    terminal.lease(SESSION, "nonce-1");
    let out = run_send(&mut terminal, ctx_to_send("nonce-1", "cargo build", "send-1")).unwrap();

    assert_eq!(terminal.typed(), 1);
    match &terminal.calls[1] {
        DriverCall::SendKeys(q) => {
            assert_eq!(q.keys, "cargo build");
            assert_eq!(q.session_name, SESSION);
            assert_eq!(q.nonce, "nonce-1");
            assert_eq!(q.run_id, "run-1");
            assert_eq!(q.identity, "TerminalSendNode");
            assert_eq!(q.now_ms, NOW_MS);
            assert_eq!(q.lease_expires_at_ms, NOW_MS + 300_000);
        }
        other => panic!("expected a line to be typed, got {other:?}"),
    }
    assert_eq!(
        terminal.options.get(&format!("@engine_last_send_id@{SESSION}")),
        Some(&"send-1".to_string())
    );
    let stored = result(&out, send::NODE_NAME);
    assert_eq!(stored.get("sent"), Some(&Json::Bool(true)));
    assert_eq!(stored.get("deduplicated"), Some(&Json::Bool(false)));
}

#[test]
fn back_edge_with_repeated_send_id_issues_zero_send_keys_calls() {
    let mut terminal = Terminal::default();
    terminal.lease(SESSION, "nonce-1");
    run_send(&mut terminal, ctx_to_send("nonce-1", "cargo build", "send-1")).unwrap();
    assert_eq!(terminal.typed(), 1);

    let out = run_send(&mut terminal, ctx_to_send("nonce-1", "cargo build", "send-1")).unwrap();
    assert_eq!(terminal.typed(), 1, "a repeated send must type nothing");
    let stored = result(&out, send::NODE_NAME);
    assert_eq!(stored.get("sent"), Some(&Json::Bool(false)));
    assert_eq!(stored.get("deduplicated"), Some(&Json::Bool(true)));
}

#[test]
fn a_different_send_id_on_the_same_session_still_sends() {
    let mut terminal = Terminal::default();
    terminal.lease(SESSION, "nonce-1");
    run_send(&mut terminal, ctx_to_send("nonce-1", "cargo build", "send-1")).unwrap();
    run_send(&mut terminal, ctx_to_send("nonce-1", "cargo test", "send-2")).unwrap();
    assert_eq!(terminal.typed(), 2);
}

#[test]
fn foreign_lease_refuses_the_send() {
    let mut terminal = Terminal::default();
    terminal.lease(SESSION, "other-nonce");
    let err = run_send(&mut terminal, ctx_to_send("nonce-1", "cargo build", "send-1"))
        .expect_err("expected a foreign lease to refuse the send");
    assert_eq!(
        err.message,
        "TerminalSendNode: send refused \u{2014} lease is no longer ours: not ours"
    );
    assert!(terminal.options.is_empty(), "a refused send is not recorded");
}

#[test]
fn expired_lease_with_no_steal_refuses_the_send() {
    let mut terminal = Terminal::default();
    let result = run_send(&mut terminal, ctx_to_send("nonce-1", "cargo build", "send-1"));
    assert!(result.is_err(), "expected a lease that is gone to refuse the send");
    assert!(terminal.options.is_empty());
}

#[test]
fn active_operator_hold_refuses_the_send_with_zero_driver_calls() {
    let mut terminal = Terminal::default();
    terminal.lease(SESSION, "nonce-1");
    terminal.held.push(SESSION.to_string());
    let err = run_send(&mut terminal, ctx_to_send("nonce-1", "cargo build", "send-1"))
        .expect_err("expected an operator hold to refuse the send");
    assert!(
        err.message.contains("operator hold"),
        "expected the error to name the operator hold, got: {}",
        err.message
    );
    assert!(terminal.options.is_empty());
}

#[test]
fn obfuscated_rm_rf_variants_currently_pass_the_floor_documented_gap() {
    let mut terminal = Terminal::default();
    terminal.lease(SESSION, "nonce-1");
    for (idx, command) in ["r\\m -rf /", "echo cm0gLXJmIC8= | base64 -d | sh"]
        .into_iter()
        .enumerate()
    {
        let result = run_send(
            &mut terminal,
            ctx_to_send("nonce-1", command, &format!("send-obfuscated-{idx}")),
        );
        assert!(result.is_ok(), "{command:?} was expected to pass, got {result:?}");
    }
}

#[test]
fn a_send_needs_its_arguments() {
    assert_eq!(
        read_send_args(&doc("{\"send_id\": \"1\"}")).unwrap_err().message,
        "TerminalSendNode: ctx.event is missing `command`"
    );
    assert_eq!(
        read_send_args(&doc("{\"command\": \"ls\", \"send_id\": 1}")).unwrap_err().message,
        "TerminalSendNode: ctx.event is missing `send_id`"
    );
    assert_eq!(
        read_send_args(&doc("{\"command\": \"ls\", \"send_id\": \"1\"}")),
        Ok(("ls".to_string(), "1".to_string()))
    );
}

#[test]
fn a_send_that_cannot_be_recorded_is_told() {
    let node = TerminalSendNode::new();
    let mut step = node.start(ctx_to_send("nonce-1", "ls", "send-1"), floor);
    let replies = [
        Err(DriverFault::Other("unset".to_string())),
        Ok(String::new()),
        Err(DriverFault::Other("gone".to_string())),
    ];
    for reply in replies {
        step = match step {
            Step::Call { state, call: _ } => node.resume(state, reply, NOW_MS),
            Step::Finished(r) => panic!("ended early with {r:?}"),
        };
    }
    match step {
        Step::Finished(r) => assert_eq!(
            r.unwrap_err().message,
            format!(
                "TerminalSendNode: failed to record send_id @engine_last_send_id@{SESSION}: gone"
            )
        ),
        Step::Call { state: _, call } => panic!("expected the end, got {call:?}"),
    }
}

#[test]
fn a_line_that_cannot_be_typed_is_told() {
    let mut terminal = Terminal {
        no_typing: Some("no server".to_string()),
        ..Terminal::default()
    };
    terminal.lease(SESSION, "nonce-1");
    let err = run_send(&mut terminal, ctx_to_send("nonce-1", "ls", "send-1")).unwrap_err();
    assert_eq!(err.message, "TerminalSendNode: send_keys failed: no server");
}

// ── Live session ─────────────────────────────────────────────────────────

const TELEMETRY: &str = "CLAUDE_CODE_ENABLE_TELEMETRY=1 OTEL_METRICS_EXPORTER=otlp \
    OTEL_RESOURCE_ATTRIBUTES='run_id=eng-run-1,node.identity=HeldSessionNode'";

fn ctx_with_held_session(identity: &str, session_name: &str) -> TaskContext {
    let stored = format!(
        "{{\"session_name\": \"{session_name}\", \"lease_nonce\": \"nonce-1\", \"created\": true}}"
    );
    context("{}", "{\"run_id\": \"eng-run-1\"}", Some((identity, &stored)))
}

fn run_live(
    node: &LiveClaudeSessionNode,
    terminal: &mut Terminal,
    ctx: TaskContext,
) -> Result<TaskContext, NodeError> {
    let binary = binary_name(None, AGENT);
    match node.start(ctx, &binary, NOW_MS) {
        Step::Finished(r) => r,
        Step::Call { state, call } => {
            let reply = terminal.answer(call);
            match node.resume(state, reply, AGENT) {
                Step::Finished(r) => r,
                Step::Call { state: _, call } => panic!("expected the end, got {call:?}"),
            }
        }
    }
}

#[test]
fn resolve_binary_name_prefers_claude_binary_env_var() {
    assert_eq!(
        binary_name(Some("/opt/custom/agent".to_string()), AGENT),
        "/opt/custom/agent"
    );
}

#[test]
fn resolve_binary_name_falls_back_to_bare_claude() {
    assert_eq!(binary_name(None, AGENT), "agent");
}

#[test]
fn build_command_line_is_bare_binary_with_no_config() {
    assert_eq!(
        build_command_line(&Config::default(), "eng-run-1", "HeldSessionNode", AGENT),
        format!("{TELEMETRY} agent")
    );
}

#[test]
fn build_command_line_carries_model_continue_and_resume() {
    let config = Config {
        model: Some("family-sonnet-4-5".to_string()),
        continue_session: true,
        resume: Some("session-123".to_string()),
        ..Config::default()
    };
    assert_eq!(
        build_command_line(&config, "eng-run-1", "HeldSessionNode", AGENT),
        format!(
            "{TELEMETRY} agent --model family-sonnet-4-5 --continue --resume session-123"
        )
    );
}

#[test]
fn build_command_line_never_carries_the_headless_p_or_output_format_flags() {
    let config = Config {
        system_prompt: Some("be terse".to_string()),
        json_schema: Some(doc("{\"type\": \"object\"}")),
        dangerously_skip_permissions: true,
        ..Config::default()
    };
    let line = build_command_line(&config, "eng-run-1", "HeldSessionNode", AGENT);
    assert!(!line.contains("-p "), "an interactive start has no -p: {line}");
    assert!(
        !line.contains("--output-format"),
        "an interactive start has no --output-format: {line}"
    );
}

#[test]
fn shell_quote_passes_simple_tokens_through_unquoted() {
    assert_eq!(shell_quote("family-sonnet-4-5"), "family-sonnet-4-5");
    assert_eq!(shell_quote("session-123"), "session-123");
    assert_eq!(shell_quote("/opt/custom/agent"), "/opt/custom/agent");
}

#[test]
fn shell_quote_escapes_values_with_spaces_or_metacharacters() {
    assert_eq!(shell_quote("a b"), "'a b'");
    assert_eq!(shell_quote("$(rm -rf /)"), "'$(rm -rf /)'");
    assert_eq!(shell_quote("it's"), "'it'\\''s'");
}

#[test]
fn an_empty_word_is_quoted() {
    assert_eq!(shell_quote(""), "''");
    assert_eq!(env_assignment("VAR", "a=b"), "VAR='a=b'");
    assert_eq!(env_assignment("VAR", "1"), "VAR=1");
}

#[test]
fn an_interactive_start_takes_what_an_attended_session_needs() {
    let config = Config {
        model: Some("m".to_string()),
        ..Config::default()
    };
    assert_eq!(interactive_argv(&config), vec!["--model", "m"]);
    assert!(interactive_argv(&Config::default()).is_empty());
}

#[test]
fn process_sends_the_resolved_command_into_the_upstream_held_session() {
    let mut terminal = Terminal::default();
    terminal.lease("eng-run-1_HeldSessionNode", "nonce-1");
    let node = LiveClaudeSessionNode::new();
    let ctx = ctx_with_held_session(held_session::NODE_NAME, "eng-run-1_HeldSessionNode");

    let ctx = run_live(&node, &mut terminal, ctx).expect("process should succeed");

    let stamped = result(&ctx, live_claude::NODE_NAME);
    assert_eq!(stamped.get_str("session_name"), Some("eng-run-1_HeldSessionNode"));
    assert_eq!(stamped.get("launched"), Some(&Json::Bool(true)));
    assert_eq!(
        stamped.get_str("command"),
        Some(format!("{TELEMETRY} agent").as_str())
    );
    assert_eq!(
        result(&ctx, held_session::NODE_NAME).get_str("session_name"),
        Some("eng-run-1_HeldSessionNode")
    );
    match &terminal.calls[0] {
        DriverCall::SendKeys(q) => assert!(q.keys.ends_with("agent")),
        other => panic!("expected a line to be typed, got {other:?}"),
    }
}

#[test]
fn process_uses_session_input_binding_when_bound() {
    let mut terminal = Terminal::default();
    terminal.lease("eng-run-2_CustomHeldNode", "nonce-1");
    let node = LiveClaudeSessionNode::new().with_session_input_from("CustomHeldNode");
    let ctx = ctx_with_held_session("CustomHeldNode", "eng-run-2_CustomHeldNode");

    let ctx = run_live(&node, &mut terminal, ctx).expect("process should succeed");
    assert_eq!(
        result(&ctx, live_claude::NODE_NAME).get_str("session_name"),
        Some("eng-run-2_CustomHeldNode")
    );
}

#[test]
fn process_errors_when_no_upstream_held_session_is_recorded() {
    let mut terminal = Terminal::default();
    let err = run_live(
        &LiveClaudeSessionNode::new(),
        &mut terminal,
        context("{}", "{}", None),
    )
    .expect_err("must fail without an upstream session");
    assert!(err.message.contains(held_session::NODE_NAME));
}

#[test]
fn process_errors_when_upstream_result_is_missing_session_name() {
    let mut terminal = Terminal::default();
    let err = run_live(
        &LiveClaudeSessionNode::new(),
        &mut terminal,
        context("{}", "{}", Some((held_session::NODE_NAME, "{}"))),
    )
    .expect_err("must fail on a malformed upstream result");
    assert!(err.message.contains("session_name"));
}

#[test]
fn build_command_line_prepends_otel_env_vars_ahead_of_the_resolved_binary() {
    let line = build_command_line(&Config::default(), "eng-run-1", "HeldSessionNode", AGENT);
    assert_eq!(
        line,
        "CLAUDE_CODE_ENABLE_TELEMETRY=1 OTEL_METRICS_EXPORTER=otlp \
         OTEL_RESOURCE_ATTRIBUTES='run_id=eng-run-1,node.identity=HeldSessionNode' agent"
    );
}

#[test]
fn otel_resource_attributes_is_value_quoted_not_assignment_quoted() {
    let line = build_command_line(&Config::default(), "eng-run-1", "HeldSessionNode", AGENT);
    assert!(
        line.contains("OTEL_RESOURCE_ATTRIBUTES='run_id=eng-run-1,node.identity=HeldSessionNode'"),
        "expected the value alone to be quoted, got: {line}"
    );
    assert!(
        !line.contains("'OTEL_RESOURCE_ATTRIBUTES="),
        "the assignment itself must not be quoted: {line}"
    );
}

#[test]
fn process_never_stamps_a_usage_or_cost_usd_key() {
    let mut terminal = Terminal::default();
    terminal.lease("eng-run-4_HeldSessionNode", "nonce-1");
    let ctx = ctx_with_held_session(held_session::NODE_NAME, "eng-run-4_HeldSessionNode");
    let ctx = run_live(&LiveClaudeSessionNode::new(), &mut terminal, ctx)
        .expect("process should succeed");

    let stamped = result(&ctx, live_claude::NODE_NAME);
    assert!(stamped.get("usage").is_none());
    assert!(stamped.get("cost_usd").is_none());
}

#[test]
fn process_surfaces_a_node_error_on_driver_send_failure() {
    let mut terminal = Terminal {
        no_typing: Some("no server".to_string()),
        ..Terminal::default()
    };
    terminal.lease("eng-run-3_HeldSessionNode", "nonce-1");
    let ctx = ctx_with_held_session(held_session::NODE_NAME, "eng-run-3_HeldSessionNode");
    let err = run_live(&LiveClaudeSessionNode::new(), &mut terminal, ctx)
        .expect_err("a fault of the terminal must surface");
    assert_eq!(
        err.message,
        "LiveClaudeSessionNode: failed to launch interactive agent session in \
         'eng-run-3_HeldSessionNode': no server"
    );
}

#[test]
fn process_errors_when_upstream_result_is_missing_lease_nonce() {
    let mut terminal = Terminal::default();
    let ctx = context(
        "{}",
        "{\"run_id\": \"eng-run-1\"}",
        Some((
            held_session::NODE_NAME,
            "{\"session_name\": \"eng-run-1_HeldSessionNode\"}",
        )),
    );
    let err = run_live(&LiveClaudeSessionNode::new(), &mut terminal, ctx)
        .expect_err("must fail without a lease nonce");
    assert!(err.message.contains("lease_nonce"));
}

#[test]
fn active_operator_hold_refuses_the_launch_with_zero_driver_calls() {
    let mut terminal = Terminal::default();
    let session_name = "eng-run-5_HeldSessionNode";
    terminal.lease(session_name, "nonce-1");
    terminal.held.push(session_name.to_string());
    let ctx = ctx_with_held_session(held_session::NODE_NAME, session_name);
    let err = run_live(&LiveClaudeSessionNode::new(), &mut terminal, ctx)
        .expect_err("expected an operator hold to refuse the launch");
    assert!(
        err.message.contains("operator hold"),
        "expected the error to name the operator hold, got: {}",
        err.message
    );
}

#[test]
fn a_launch_without_the_lease_is_refused() {
    let mut terminal = Terminal::default();
    let ctx = ctx_with_held_session(held_session::NODE_NAME, "s");
    let err = run_live(&LiveClaudeSessionNode::new(), &mut terminal, ctx).unwrap_err();
    assert_eq!(
        err.message,
        "LiveClaudeSessionNode: failed to launch interactive agent session in 's' \u{2014} lease \
         is no longer ours: not ours"
    );
}

#[test]
fn a_launch_needs_a_run() {
    let mut terminal = Terminal::default();
    let ctx = context(
        "{}",
        "{}",
        Some((
            held_session::NODE_NAME,
            "{\"session_name\": \"s\", \"lease_nonce\": \"n\"}",
        )),
    );
    let err = run_live(&LiveClaudeSessionNode::new(), &mut terminal, ctx).unwrap_err();
    assert_eq!(
        err.message,
        "LiveClaudeSessionNode: no run_id stamped on ctx.metadata \u{2014} cannot derive OTel \
         resource attributes"
    );
}

#[test]
fn a_node_starts_what_it_is_configured_with() {
    let mut terminal = Terminal::default();
    terminal.lease("eng-run-5_HeldSessionNode", "nonce-1");
    let config = Config {
        model: Some("big one".to_string()),
        continue_session: true,
        ..Config::default()
    };
    let node = LiveClaudeSessionNode::new().with_config(config);
    let ctx = ctx_with_held_session(held_session::NODE_NAME, "eng-run-5_HeldSessionNode");
    let ctx = run_live(&node, &mut terminal, ctx).expect("process should succeed");
    let command = result(&ctx, live_claude::NODE_NAME).get_str("command").unwrap();
    assert!(command.ends_with("--model 'big one' --continue"), "{command}");
}
