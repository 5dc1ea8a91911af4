//! What runs tell: telemetry, aggregation and the state file.
use std::cell::RefCell;

use engine_core::contract::{get_result, NodeRun, NodeRunStatus, TaskContext, Usage};
use engine_core::json::{parse, Json, JsonNumber};
use engine_core::policy::aggregate::{
    aggregate, aggregate_state_files, checked_aggregate, extract_policy_telemetry,
    runs_in_state_files, PolicyAggregate, PolicyRun, StateFile, StateFileError,
};
use engine_core::policy::emit_state::{
    worktree_path, CommandOutput, EmitStateNode,
};
use engine_core::policy::telemetry::{
    checked_total_tokens, harvest, recorded_costs, review_verdicts, total_tokens,
    wall_clock_millis, RunTelemetry, RunTelemetryInputs,
};
use engine_core::string_map::StringMap;
use engine_core::time::Timestamp;

const NOW: i64 = 1_700_000_000;

fn doc(text: &str) -> Json {
    parse(text).expect("valid document")
}

fn at(secs: i64) -> Timestamp {
    Timestamp::from_unix(secs, 0)
}

fn ctx_with(nodes: &[(&str, &str)], node_runs: Vec<(&str, NodeRun)>) -> TaskContext {
    let mut stored = StringMap::new();
    for (name, result) in nodes {
        stored.insert(name.to_string(), doc(result));
    }
    let mut runs = StringMap::new();
    for (name, run) in node_runs {
        runs.insert(name.to_string(), run);
    }
    TaskContext {
        event: Json::object(),
        nodes: stored,
        metadata: Json::object(),
        node_runs: runs,
    }
}

fn run(started_at: Option<Timestamp>, usage: Option<(Option<u64>, Option<u64>)>) -> NodeRun {
    NodeRun {
        status: NodeRunStatus::Success,
        started_at,
        completed_at: None,
        error: None,
        input: None,
        usage: usage.map(|(input_tokens, output_tokens)| Usage {
            input_tokens,
            output_tokens,
            model: "m".to_string(),
        }),
    }
}

/// The value of a recorded number.
fn value(n: &JsonNumber) -> f64 {
    match n {
        JsonNumber::PosInt(n) => *n as f64,
        JsonNumber::NegInt(n) => *n as f64,
        JsonNumber::Float(text) => text.parse().expect("a number"),
    }
}

/// The sum of the costs that the stages recorded.
fn total_cost_usd(ctx: &TaskContext, stages: &[&str]) -> f64 {
    recorded_costs(ctx, stages).iter().map(value).sum()
}

// ── Telemetry ────────────────────────────────────────────────────────────

#[test]
fn wall_clock_secs_is_zero_when_start_node_absent() {
    let ctx = ctx_with(&[], vec![]);
    assert_eq!(wall_clock_millis(&ctx, "SetupWorktreeNode", at(NOW)), 0);
}

#[test]
fn wall_clock_secs_measures_elapsed_time_from_start_node() {
    let ctx = ctx_with(&[], vec![("SetupWorktreeNode", run(Some(at(NOW - 30)), None))]);
    let secs = wall_clock_millis(&ctx, "SetupWorktreeNode", at(NOW)) as f64 / 1000.0;
    assert!((secs - 30.0).abs() < 0.01);
}

#[test]
fn a_run_that_starts_later_took_no_time() {
    let ctx = ctx_with(&[], vec![("S", run(Some(at(NOW + 1)), None)), ("T", run(None, None))]);
    assert_eq!(wall_clock_millis(&ctx, "S", at(NOW)), 0);
    assert_eq!(wall_clock_millis(&ctx, "T", at(NOW)), 0);
    assert_eq!(
        wall_clock_millis(&ctx, "S", Timestamp::from_unix(NOW + 2, 999_999)),
        1_000
    );
}

#[test]
fn total_tokens_sums_usage_across_every_node_run() {
    let ctx = ctx_with(
        &[],
        vec![
            ("A", run(None, Some((Some(100), Some(50))))),
            ("B", run(None, Some((Some(200), None)))),
        ],
    );
    assert_eq!(total_tokens(&ctx), (300, 50));
}

#[test]
fn tokens_out_of_range_are_told() {
    let ctx = ctx_with(
        &[],
        vec![
            ("A", run(None, Some((Some(u64::MAX), None)))),
            ("B", run(None, Some((Some(1), None)))),
        ],
    );
    assert_eq!(checked_total_tokens(&ctx), None);
    let ctx = ctx_with(&[], vec![("A", run(None, Some((Some(u64::MAX), None))))]);
    assert_eq!(checked_total_tokens(&ctx), Some((u64::MAX, 0)));
}

#[test]
fn total_cost_usd_sums_only_named_cost_bearing_stages() {
    let ctx = ctx_with(
        &[
            ("ImplementTaskNode", r#"{ "cost_usd": 1.5 }"#),
            ("OtherNode", r#"{ "cost_usd": 99.0 }"#),
        ],
        vec![],
    );
    assert_eq!(total_cost_usd(&ctx, &["ImplementTaskNode"]), 1.5);
}

#[test]
fn a_cost_that_is_no_number_is_passed_over() {
    let ctx = ctx_with(
        &[
            ("A", r#"{ "cost_usd": "1" }"#),
            ("B", r#"{ "cost_usd": 2 }"#),
            ("C", "{}"),
        ],
        vec![],
    );
    assert_eq!(
        recorded_costs(&ctx, &["C", "B", "A", "D"]),
        vec![JsonNumber::PosInt(2)]
    );
}

#[test]
fn review_verdicts_collects_in_declared_stage_order() {
    let ctx = ctx_with(
        &[
            ("TriageTaskNode", r#"{ "verdict": "RETRYABLE" }"#),
            ("ConsolidatedReviewNode", r#"{ "verdict": "PASS" }"#),
        ],
        vec![],
    );
    let verdicts = review_verdicts(&ctx, &["TriageTaskNode", "ConsolidatedReviewNode"]);
    assert_eq!(
        verdicts,
        vec![
            "TriageTaskNode:RETRYABLE".to_string(),
            "ConsolidatedReviewNode:PASS".to_string(),
        ]
    );
}

#[test]
fn review_verdicts_skips_stages_that_havent_run() {
    let ctx = ctx_with(&[], vec![]);
    assert!(review_verdicts(&ctx, &["TriageTaskNode"]).is_empty());
}

#[test]
fn harvest_assembles_full_snapshot_from_ctx_and_inputs() {
    let ctx = ctx_with(
        &[
            ("ImplementTaskNode", r#"{ "cost_usd": 0.25 }"#),
            ("ConsolidatedReviewNode", r#"{ "verdict": "PASS" }"#),
        ],
        vec![
            ("SetupWorktreeNode", run(Some(at(NOW - 10)), None)),
            ("ImplementTaskNode", run(None, Some((Some(10), Some(5))))),
        ],
    );
    let mut model_tier_used = StringMap::new();
    model_tier_used.insert("implement".to_string(), "sonnet".to_string());
    let inputs = RunTelemetryInputs {
        start_node_identity: "SetupWorktreeNode",
        verdict_stages: &["ConsolidatedReviewNode"],
        cost_bearing_stages: &["ImplementTaskNode"],
        total_attempts: 2,
        total_retries: 1,
        tasks_passed: 1,
        tasks_failed: 0,
        model_tier_used,
    };

    let telemetry = harvest(&ctx, at(NOW), inputs);
    assert!((telemetry.wall_clock_millis as f64 / 1000.0 - 10.0).abs() < 0.01);
    assert_eq!(telemetry.total_attempts, 2);
    assert_eq!(telemetry.total_retries, 1);
    assert_eq!(telemetry.tasks_passed, 1);
    assert_eq!(telemetry.tasks_failed, 0);
    assert_eq!(
        telemetry.review_verdicts,
        vec!["ConsolidatedReviewNode:PASS".to_string()]
    );
    assert_eq!(telemetry.total_input_tokens, 10);
    assert_eq!(telemetry.total_output_tokens, 5);
    assert_eq!(telemetry.recorded_costs.iter().map(value).sum::<f64>(), 0.25);
    assert_eq!(
        telemetry.model_tier_used.get("implement"),
        Some(&"sonnet".to_string())
    );
}

// ── Aggregation ──────────────────────────────────────────────────────────

#[derive(Debug, Clone, Copy, PartialEq)]
struct TestPolicy {
    retries: u32,
}

impl TestPolicy {
    fn key(&self) -> String {
        format!("{{\"retries\":{}}}", self.retries)
    }
}

fn telemetry(
    cost: f64,
    wall_clock: f64,
    passed: u32,
    failed: u32,
    verdicts: &[&str],
) -> RunTelemetry {
    RunTelemetry {
        wall_clock_millis: (wall_clock * 1000.0) as u128,
        total_attempts: passed + failed,
        total_retries: 0,
        tasks_passed: passed,
        tasks_failed: failed,
        review_verdicts: verdicts.iter().map(|s| s.to_string()).collect(),
        total_input_tokens: 100,
        total_output_tokens: 50,
        recorded_costs: vec![JsonNumber::Float(cost.to_string())],
        model_tier_used: StringMap::new(),
    }
}

fn policy_run(policy: TestPolicy, telemetry: RunTelemetry) -> PolicyRun<TestPolicy> {
    PolicyRun {
        policy,
        key: policy.key(),
        telemetry,
    }
}

fn cost_of(runs: &[PolicyRun<TestPolicy>], row: &PolicyAggregate<TestPolicy>) -> f64 {
    row.members
        .iter()
        .flat_map(|i| runs[*i].telemetry.recorded_costs.iter())
        .map(value)
        .sum()
}

fn secs_of(runs: &[PolicyRun<TestPolicy>], row: &PolicyAggregate<TestPolicy>) -> f64 {
    row.members
        .iter()
        .map(|i| runs[*i].telemetry.wall_clock_millis as f64 / 1000.0)
        .sum()
}

#[test]
fn groups_two_distinct_policies_into_two_rows() {
    let p1 = TestPolicy { retries: 1 };
    let p2 = TestPolicy { retries: 2 };
    let runs = vec![
        policy_run(p1, telemetry(1.0, 10.0, 1, 0, &["A:PASS"])),
        policy_run(p1, telemetry(2.0, 20.0, 1, 0, &["A:PASS"])),
        policy_run(p2, telemetry(0.5, 5.0, 0, 1, &["A:FAIL"])),
    ];

    let rows = aggregate(&runs);
    assert_eq!(rows.len(), 2);

    let row1 = rows.iter().find(|r| r.policy == p1).unwrap();
    assert_eq!(row1.run_count, 2);
    assert_eq!(cost_of(&runs, row1), 3.0);
    assert_eq!(cost_of(&runs, row1) / row1.run_count as f64, 1.5);
    assert_eq!(secs_of(&runs, row1), 30.0);
    assert_eq!(secs_of(&runs, row1) / row1.run_count as f64, 15.0);
    assert_eq!(row1.total_tasks_passed, 2);
    assert_eq!(row1.total_tasks_failed, 0);
    assert_eq!(row1.review_verdict_counts.get("A:PASS"), Some(&2));

    let row2 = rows.iter().find(|r| r.policy == p2).unwrap();
    assert_eq!(row2.run_count, 1);
    assert_eq!(row2.total_tasks_passed, 0);
    assert_eq!(row2.total_tasks_failed, 1);
}

#[test]
fn empty_runs_yields_no_rows() {
    let rows: Vec<PolicyAggregate<TestPolicy>> = aggregate(&[]);
    assert!(rows.is_empty());
}

#[test]
fn rows_come_in_the_order_of_the_policies_texts() {
    let runs: Vec<PolicyRun<TestPolicy>> = [3, 1, 2, 1]
        .into_iter()
        .map(|retries| policy_run(TestPolicy { retries }, telemetry(0.0, 0.0, 0, 0, &["V", "V"])))
        .collect();
    let rows = aggregate(&runs);
    let order: Vec<u32> = rows.iter().map(|r| r.policy.retries).collect();
    assert_eq!(order, vec![1, 2, 3]);
    assert_eq!(rows[0].members, vec![1, 3]);
    assert_eq!(rows[0].total_input_tokens, 200);
    assert_eq!(rows[0].total_output_tokens, 100);
    assert_eq!(rows[0].review_verdict_counts.get("V"), Some(&4));
    assert_eq!(rows.iter().map(|r| r.run_count).sum::<usize>(), runs.len());
}

#[test]
fn sums_out_of_range_are_told() {
    let policy = TestPolicy { retries: 1 };
    let runs = vec![
        policy_run(policy, telemetry(0.0, 0.0, u32::MAX, 0, &[])),
        policy_run(policy, telemetry(0.0, 0.0, 0, 0, &[])),
    ];
    assert!(checked_aggregate(&runs).is_some());
    let runs = vec![
        policy_run(policy, telemetry(0.0, 0.0, u32::MAX, 0, &[])),
        policy_run(policy, telemetry(0.0, 0.0, 1, 0, &[])),
    ];
    assert!(checked_aggregate(&runs).is_none());
}

/// A run out of a state document: its policy, and the cost and the time that
/// its outcomes tell.
fn extract(state: &Json) -> Option<PolicyRun<TestPolicy>> {
    let found = extract_policy_telemetry(
        state,
        "policy",
        "outcomes",
        |doc: &Json| {
            doc.get("retries").and_then(|v| v.as_u64()).map(|retries| TestPolicy {
                retries: retries as u32,
            })
        },
        |doc: &Json| {
            let number = |field: &str| match doc.get(field) {
                Some(Json::Number(n)) => Some(value(n)),
                _ => None,
            };
            Some(telemetry(
                number("total_cost_usd")?,
                number("wall_clock_secs")?,
                1,
                0,
                &[],
            ))
        },
    )?;
    Some(policy_run(found.0, found.1))
}

fn state_file(path: &str, text: &str) -> StateFile {
    StateFile {
        path: path.to_string(),
        contents: Ok(text.to_string()),
    }
}

#[test]
fn aggregate_state_files_reads_and_groups_fixtures_from_disk() {
    let files = [
        state_file(
            "a.json",
            r#"{ "policy": { "retries": 3 },
                 "outcomes": { "total_cost_usd": 1.0, "wall_clock_secs": 10.0 } }"#,
        ),
        state_file(
            "b.json",
            r#"{ "policy": { "retries": 3 },
                 "outcomes": { "total_cost_usd": 3.0, "wall_clock_secs": 30.0 } }"#,
        ),
        state_file("missing.json", r#"{ "policy": { "retries": 3 } }"#),
    ];
    let rows = aggregate_state_files(&files, extract)
        .expect("aggregates")
        .expect("sums in range");
    assert_eq!(rows.len(), 1);
    assert_eq!(rows[0].run_count, 2);

    let runs = runs_in_state_files(&files, extract).unwrap();
    assert_eq!(cost_of(&runs, &rows[0]), 4.0);
    assert_eq!(cost_of(&runs, &rows[0]) / rows[0].run_count as f64, 2.0);
}

#[test]
fn a_null_member_counts_as_missing() {
    assert!(extract(&doc(r#"{ "policy": null, "outcomes": {} }"#)).is_none());
    assert!(extract(&doc(r#"{ "policy": { "retries": 1 }, "outcomes": null }"#)).is_none());
    assert!(extract(&doc(r#"{ "policy": {}, "outcomes": {} }"#)).is_none());
}

#[test]
fn the_first_bad_state_file_ends_the_reading() {
    let unreadable = StateFile {
        path: "u.json".to_string(),
        contents: Err("denied".to_string()),
    };
    let err = runs_in_state_files(&[state_file("a.json", "{}"), unreadable], extract).unwrap_err();
    assert_eq!(err, StateFileError::Unreadable("denied".to_string()));

    let err = aggregate_state_files(&[state_file("bad.json", "{")], extract).unwrap_err();
    match err {
        StateFileError::Invalid(why) => assert!(why.starts_with("bad.json: "), "{why}"),
        other => panic!("expected the file to be named, got {other:?}"),
    }
}

// ── The state file ───────────────────────────────────────────────────────

fn output(status: i32, stdout: &str, stderr: &str) -> CommandOutput {
    CommandOutput {
        status,
        stdout: stdout.to_string(),
        stderr: stderr.to_string(),
    }
}

fn ctx_in(worktree_path: &str) -> TaskContext {
    let setup = format!("{{\"worktree_path\": \"{worktree_path}\"}}");
    ctx_with(&[("SetupWorktreeNode", setup.as_str())], vec![])
}

type RecordedCall = (String, Vec<String>, String);

/// Run the node, for an agent if one is given; also what it ran.
fn emit(agent: Option<&str>, stdout: &str) -> (TaskContext, Vec<RecordedCall>) {
    let calls: RefCell<Vec<RecordedCall>> = RefCell::new(Vec::new());
    let runner = |program: &str, args: &[&str], cwd: &str| {
        calls.borrow_mut().push((
            program.to_string(),
            args.iter().map(|s| s.to_string()).collect(),
            cwd.to_string(),
        ));
        Ok(output(0, stdout, ""))
    };
    let mut node = EmitStateNode::new(runner);
    if let Some(agent) = agent {
        node = node.with_agent(agent);
    }
    assert_eq!(node.name(), "EmitStateNode");
    let out = node
        .process::<CommandOutput>(ctx_in("trees/sdlc/EN.4.0"))
        .expect("process should succeed");
    let calls = calls.borrow().clone();
    (out, calls)
}

#[test]
fn invokes_mev_emit_state_write_in_the_worktree() {
    let (out, recorded) = emit(None, "state.json refreshed");
    let result = get_result(&out, "EmitStateNode").unwrap();
    assert_eq!(result.get("emitted"), Some(&Json::Bool(true)));
    assert!(result.get_str("stdout_tail").unwrap().contains("state.json refreshed"));
    assert!(result.get("stderr").is_none());

    assert_eq!(recorded.len(), 1);
    assert_eq!(recorded[0].0, "mev");
    assert_eq!(recorded[0].1, vec!["emit-state", "--write"]);
    assert_eq!(recorded[0].2, "trees/sdlc/EN.4.0");
}

#[test]
fn with_agent_appends_the_agent_flag_to_argv() {
    let (_, recorded) = emit(Some("lane-engine-rs-d5"), "");
    assert_eq!(recorded.len(), 1);
    assert_eq!(
        recorded[0].1,
        vec!["emit-state", "--write", "--agent", "lane-engine-rs-d5"]
    );
}

#[test]
fn no_agent_configured_leaves_argv_byte_identical_to_today() {
    let (_, recorded) = emit(None, "");
    assert_eq!(recorded[0].1, vec!["emit-state", "--write"]);
}

#[test]
fn records_failure_without_erroring() {
    let node = EmitStateNode::new(|_: &str, _: &[&str], _: &str| {
        Ok(output(1, "", "mev: state.json invalid"))
    });
    let out = node
        .process::<CommandOutput>(ctx_in("trees/sdlc/EN.4.0"))
        .expect("process should succeed");
    let result = get_result(&out, "EmitStateNode").unwrap();
    assert_eq!(result.get("emitted"), Some(&Json::Bool(false)));
    assert!(result.get_str("stderr").unwrap().contains("state.json invalid"));
}

#[test]
fn with_runner_overrides_the_configured_runner() {
    let node = EmitStateNode::new(|_: &str, _: &[&str], _: &str| {
        Ok::<CommandOutput, String>(output(1, "", ""))
    })
    .with_runner(|_: &str, _: &[&str], _: &str| Ok(output(0, "ok", "")));
    let out = node
        .process::<CommandOutput>(ctx_in("."))
        .expect("process should succeed");
    assert_eq!(
        get_result(&out, "EmitStateNode").unwrap().get("emitted"),
        Some(&Json::Bool(true))
    );
}

#[test]
fn a_command_that_cannot_be_started_is_told() {
    let node = EmitStateNode::new(|_: &str, _: &[&str], _: &str| {
        Err::<CommandOutput, String>("not found".to_string())
    });
    let err = node.process::<CommandOutput>(ctx_in(".")).unwrap_err();
    assert_eq!(err.message, "mev emit-state failed to spawn: not found");
}

#[test]
fn the_last_five_lines_of_the_output_are_kept() {
    let (out, _) = emit(None, "1\n2\n3\n4\n5\n6\n7\n");
    assert_eq!(
        get_result(&out, "EmitStateNode").unwrap().get_str("stdout_tail"),
        Some("3\n4\n5\n6\n7")
    );
}

#[test]
fn without_a_worktree_the_command_runs_here() {
    assert_eq!(worktree_path(&ctx_with(&[], vec![])), ".");
    assert_eq!(worktree_path(&ctx_with(&[("SetupWorktreeNode", "{}")], vec![])), ".");
    assert_eq!(worktree_path(&ctx_in("w")), "w");
}
