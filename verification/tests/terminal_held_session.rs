//! A session whose lease is taken once in a run and renewed ever after.
use engine_core::contract::{get_result, TaskContext};
use engine_core::json::{parse, Json};
use engine_core::node::NodeError;
use engine_core::nodes::terminal::driver::{DriverCall, DriverFault};
use engine_core::nodes::terminal::held_session::{
    profiles, resolve, resolve_for_workflow, HeldSessionHandle, HeldSessionNode,
    HeldSessionPolicy, HeldSessions, HeldStep, PartialHeldSessionPolicy, NODE_NAME,
};
use engine_core::nodes::terminal::identity::session_name_for;
use engine_core::policy::profiles::{HarnessText, PolicyConfigSource};
use engine_core::string_map::StringMap;
use engine_core::time::Duration;

const NOW_MS: u64 = 1_700_000_000_000;

fn whole(doc: &Json, field: &str) -> Result<Option<u64>, String> {
    match doc.get(field) {
        None => Ok(None),
        Some(v) => match v.as_u64() {
            Some(n) => Ok(Some(n)),
            None => Err(format!("{field} is no number")),
        },
    }
}

fn decode(doc: &Json) -> Result<PartialHeldSessionPolicy, String> {
    Ok(PartialHeldSessionPolicy {
        lease_ttl_ms: whole(doc, "lease_ttl_ms")?,
        renew_interval_ms: whole(doc, "renew_interval_ms")?,
    })
}

fn decode_profiles(doc: &Json) -> Result<StringMap<PartialHeldSessionPolicy>, String> {
    let mut out = StringMap::new();
    match doc {
        Json::Object(entries) => {
            for (name, bundle) in entries {
                out.insert(name.clone(), decode(bundle)?);
            }
            Ok(out)
        }
        _ => Err("expected an object".to_string()),
    }
}

fn listed_name(line: &str) -> Option<String> {
    line.split_once('\t').map(|(name, _)| name.to_string())
}

fn context(run_id: &str, event: &str) -> TaskContext {
    TaskContext {
        event: parse(event).expect("valid document"),
        nodes: StringMap::new(),
        metadata: Json::object().with("run_id", Json::text(run_id)),
        node_runs: StringMap::new(),
    }
}

fn ctx_with_run_id(run_id: &str) -> TaskContext {
    context(run_id, "{}")
}

/// A run of the node against a terminal that has no session yet and grants
/// every lease: what it returned, the loop it left behind, and what it asked.
fn run(
    node: &HeldSessionNode,
    held: &mut HeldSessions,
    ctx: TaskContext,
) -> (
    Result<TaskContext, NodeError>,
    Option<HeldSessionHandle>,
    Vec<DriverCall>,
) {
    let mut calls = Vec::new();
    let mut step = node.start(ctx, &HarnessText::Missing, decode, decode_profiles, held);
    loop {
        match step {
            HeldStep::Finished(r) => return (r, None, calls),
            HeldStep::Holding { ctx, renewal } => return (Ok(ctx), Some(renewal), calls),
            HeldStep::Call { state, call } => {
                let reply = match &call {
                    DriverCall::Acquire(q) => Ok(q.nonce.clone()),
                    _ => Ok(String::new()),
                };
                calls.push(call);
                step = node.resume(state, reply, NOW_MS, listed_name, held);
            }
        }
    }
}

fn result(ctx: &TaskContext) -> &Json {
    get_result(ctx, NODE_NAME).expect("a stamped result")
}

#[test]
fn default_ttl_matches_terminal_session_nodes_default_and_renewal_is_a_third_of_it() {
    let default = HeldSessionPolicy::default();
    assert_eq!(default.lease_ttl_ms, 300_000);
    assert_eq!(default.renew_interval_ms, 100_000);
    assert!(
        default.renew_interval_ms < default.lease_ttl_ms,
        "renewal must be scheduled strictly inside the TTL"
    );
}

#[test]
fn held_session_resolve_with_no_overrides_returns_default() {
    assert_eq!(resolve(None, None, None), HeldSessionPolicy::default());
}

#[test]
fn held_session_resolve_precedence_event_beats_profile_beats_harness_beats_default() {
    let harness = PartialHeldSessionPolicy {
        lease_ttl_ms: Some(10_000),
        renew_interval_ms: Some(3_000),
    };
    let profile = PartialHeldSessionPolicy {
        lease_ttl_ms: Some(20_000),
        renew_interval_ms: None,
    };
    let event = PartialHeldSessionPolicy {
        lease_ttl_ms: Some(30_000),
        renew_interval_ms: None,
    };

    assert_eq!(
        resolve(Some(&harness), None, None).lease_ttl_ms,
        10_000,
        "harness beats default"
    );
    assert_eq!(
        resolve(Some(&harness), Some(&profile), None).lease_ttl_ms,
        20_000,
        "profile beats harness"
    );
    assert_eq!(
        resolve(Some(&harness), Some(&profile), Some(&event)).lease_ttl_ms,
        30_000,
        "event beats profile"
    );
    assert_eq!(
        resolve(Some(&harness), Some(&profile), Some(&event)).renew_interval_ms,
        3_000
    );
}

#[test]
fn profiles_set_both_knobs_explicitly_and_keep_renewal_inside_ttl() {
    let default = HeldSessionPolicy::default();
    assert_eq!(
        profiles::baseline().lease_ttl_ms,
        Some(default.lease_ttl_ms)
    );
    assert_eq!(
        profiles::baseline().renew_interval_ms,
        Some(default.renew_interval_ms)
    );

    for partial in [
        profiles::baseline(),
        profiles::cheap_fast(),
        profiles::thorough(),
    ] {
        let ttl = partial
            .lease_ttl_ms
            .expect("every profile sets lease_ttl_ms");
        let renew = partial
            .renew_interval_ms
            .expect("every profile sets renew_interval_ms");
        assert!(
            renew < ttl,
            "profile {partial:?} lets renewal reach the TTL"
        );
    }

    assert!(profiles::profile_by_name("nonexistent").is_none());
}

#[test]
fn held_session_baseline_profile_is_a_genuine_no_op() {
    let baseline = profiles::baseline();
    assert_eq!(
        resolve(None, Some(&baseline), None),
        resolve(None, None, None)
    );
}

#[test]
fn creates_a_session_and_stamps_acquired_by_this_call() {
    let mut held = HeldSessions::new();
    let node = HeldSessionNode::new();
    let (ctx, renewal, calls) = run(&node, &mut held, ctx_with_run_id("create"));
    let ctx = ctx.unwrap();

    assert!(
        calls.iter().any(|c| matches!(c, DriverCall::NewSession { .. })),
        "expected a session to be created, got {calls:?}"
    );
    let stamped = result(&ctx);
    assert_eq!(stamped.get("created"), Some(&Json::Bool(true)));
    assert_eq!(stamped.get("acquired_by_this_call"), Some(&Json::Bool(true)));
    assert_eq!(
        stamped.get("lease_ttl_ms").and_then(|v| v.as_u64()),
        Some(HeldSessionPolicy::default().lease_ttl_ms)
    );
    let renewal = renewal.expect("the lease is to be renewed");
    assert_eq!(renewal.run_id, "create");
}

#[test]
fn two_consecutive_node_boundaries_reuse_one_session_with_the_identical_id() {
    let mut held = HeldSessions::new();
    let node = HeldSessionNode::new();
    let (ctx1, _, calls1) = run(&node, &mut held, ctx_with_run_id("reuse"));
    let ctx1 = ctx1.unwrap();
    assert_eq!(calls1.len(), 3);

    let (ctx2, renewal2, calls2) = run(&node, &mut held, ctx_with_run_id("reuse"));
    let ctx2 = ctx2.unwrap();
    assert_eq!(result(&ctx2).get("session_name"), result(&ctx1).get("session_name"));
    assert_eq!(result(&ctx2).get("lease_nonce"), result(&ctx1).get("lease_nonce"));
    assert_eq!(result(&ctx2).get("created"), Some(&Json::Bool(false)));
    assert_eq!(result(&ctx2).get("acquired_by_this_call"), Some(&Json::Bool(false)));
    assert!(calls2.is_empty(), "a held session asks nothing of the terminal: {calls2:?}");
    assert!(renewal2.is_none());
}

#[test]
fn distinct_runs_never_collide_on_one_held_session() {
    let mut held = HeldSessions::new();
    let node = HeldSessionNode::new();
    let (ctx_a, _, _) = run(&node, &mut held, ctx_with_run_id("distinct-a"));
    let (ctx_b, _, _) = run(&node, &mut held, ctx_with_run_id("distinct-b"));
    assert_ne!(
        result(&ctx_a.unwrap()).get_str("session_name"),
        result(&ctx_b.unwrap()).get_str("session_name")
    );
}

#[test]
fn renewal_loop_renews_the_lease_before_its_own_ttl_elapses() {
    let mut held = HeldSessions::new();
    let node = HeldSessionNode::new();
    let ctx = context(
        "renew",
        r#"{ "policy": { "lease_ttl_ms": 200, "renew_interval_ms": 20 } }"#,
    );
    let (_, renewal, _) = run(&node, &mut held, ctx);
    let renewal = renewal.expect("the lease is to be renewed");

    let mut now = NOW_MS;
    let mut expires = NOW_MS + 200;
    for _ in 0..7 {
        assert_eq!(renewal.pause(), Duration::from_millis(20));
        now += renewal.pause().as_millis() as u64;
        assert!(now < expires, "the lease must be renewed before it ends");
        let request = renewal.request(now);
        assert_eq!(request.expires_at_ms, now + 200);
        assert_eq!(request.nonce, session_name_for("renew", NODE_NAME));
        assert_eq!(request.identity, NODE_NAME);
        assert_eq!(request.run_id, "renew");
        assert!(renewal.goes_on(&Ok(())));
        expires = request.expires_at_ms;
    }
    assert!(!renewal.goes_on(&Err(DriverFault::Lease("taken over".to_string()))));
}

#[test]
fn a_lease_is_taken_for_as_long_as_the_policy_says() {
    let mut held = HeldSessions::new();
    let node = HeldSessionNode::new().with_dir("/work");
    let (_, _, calls) = run(&node, &mut held, ctx_with_run_id("ttl"));
    assert_eq!(calls[0], DriverCall::ListSessions);
    match &calls[1] {
        DriverCall::NewSession { name, dir } => {
            assert_eq!(*name, session_name_for("ttl", NODE_NAME));
            assert_eq!(dir.as_deref(), Some("/work"));
        }
        other => panic!("expected a session to be created, got {other:?}"),
    }
    match &calls[2] {
        DriverCall::Acquire(q) => {
            assert_eq!(q.expires_at_ms, NOW_MS + 300_000);
            assert_eq!(q.steal_after, None);
            assert_eq!(q.nonce, q.session_name);
        }
        other => panic!("expected the lease to be taken, got {other:?}"),
    }
}

#[test]
fn a_session_that_exists_is_not_created() {
    let mut held = HeldSessions::new();
    let node = HeldSessionNode::new();
    let name = session_name_for("there", NODE_NAME);
    let first = node.start(
        ctx_with_run_id("there"),
        &HarnessText::Missing,
        decode,
        decode_profiles,
        &held,
    );
    match first {
        HeldStep::Call { state, call } => {
            assert_eq!(call, DriverCall::ListSessions);
            let listing = format!("{name}\t0\t1\t0\t\t/tmp");
            match node.resume(state, Ok(listing), NOW_MS, listed_name, &mut held) {
                HeldStep::Call { state: _, call } => {
                    assert!(matches!(call, DriverCall::Acquire(_)), "got {call:?}")
                }
                other => panic!("expected the lease to be taken, got {other:?}"),
            }
        }
        other => panic!("expected a listing, got {other:?}"),
    }
    assert_eq!(held.lookup(&name), None);
}

#[test]
fn every_fault_of_the_terminal_is_told_of_a_held_session() {
    let expected = [
        "HeldSessionNode: list_sessions failed: gone",
        "HeldSessionNode: new_session failed: gone",
        "HeldSessionNode: lease acquisition failed: gone",
    ];
    for (failing, message) in expected.iter().enumerate() {
        let mut held = HeldSessions::new();
        let node = HeldSessionNode::new();
        let mut step = node.start(
            ctx_with_run_id("r"),
            &HarnessText::Missing,
            decode,
            decode_profiles,
            &held,
        );
        let mut asked = 0;
        let err = loop {
            match step {
                HeldStep::Finished(r) => break r.unwrap_err(),
                HeldStep::Holding { .. } => panic!("expected a failure"),
                HeldStep::Call { state, call: _ } => {
                    let reply = if asked == failing {
                        Err(DriverFault::Other("gone".to_string()))
                    } else {
                        Ok(String::new())
                    };
                    asked += 1;
                    step = node.resume(state, reply, NOW_MS, listed_name, &mut held);
                }
            }
        };
        assert_eq!(err.message, *message);
        assert_eq!(held.lookup(&session_name_for("r", NODE_NAME)), None);
    }
}

#[test]
fn a_held_session_needs_a_run_and_a_valid_policy() {
    let mut held = HeldSessions::new();
    let node = HeldSessionNode::new();
    let mut ctx = ctx_with_run_id("r");
    ctx.metadata = Json::object();
    let (r, _, _) = run(&node, &mut held, ctx);
    assert_eq!(
        r.unwrap_err().message,
        "HeldSessionNode: no run_id stamped on ctx.metadata \u{2014} cannot derive a session name"
    );
    let (r, _, calls) = run(
        &node,
        &mut held,
        context("r", r#"{ "policy": { "lease_ttl_ms": "long" } }"#),
    );
    assert_eq!(
        r.unwrap_err().message,
        "HeldSessionNode: invalid ctx.event.policy: lease_ttl_ms is no number"
    );
    assert!(calls.is_empty());
}

#[test]
fn the_held_section_of_a_harness_file_counts() {
    let file = HarnessText::Text(
        r#"{ "held_session": { "policy": { "lease_ttl_ms": 900 } } }"#.to_string(),
    );
    let source = PolicyConfigSource::Worktree("/work/tree".to_string());
    let policy = resolve_for_workflow(
        "held_session",
        &source,
        &file,
        None,
        None,
        decode,
        decode_profiles,
    )
    .unwrap();
    assert_eq!(policy.lease_ttl_ms, 900);
    assert_eq!(policy.renew_interval_ms, 100_000);

    let held = HeldSessions::new();
    let node = HeldSessionNode::new().with_source(source);
    match node.start(ctx_with_run_id("r"), &file, decode, decode_profiles, &held) {
        HeldStep::Call { state, call: _ } => assert_eq!(state.policy, policy),
        other => panic!("expected a listing, got {other:?}"),
    }
}
