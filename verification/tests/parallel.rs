//! Fanning out and merging what the branches return.
use engine_core::contract::{NodeRun, NodeRunStatus, TaskContext};
use engine_core::json::{parse, Json};
use engine_core::node::NodeError;
use engine_core::parallel::{BranchFailure, BranchOutcome, ParallelNode};
use engine_core::string_map::StringMap;

fn doc(text: &str) -> Json {
    parse(text).expect("valid document")
}

fn empty_context() -> TaskContext {
    TaskContext {
        event: Json::object(),
        nodes: StringMap::new(),
        metadata: Json::object(),
        node_runs: StringMap::new(),
    }
}

fn run(status: NodeRunStatus) -> NodeRun {
    NodeRun {
        status,
        started_at: None,
        completed_at: None,
        error: None,
        input: None,
        usage: None,
    }
}

/// A branch that writes one value under one key, or fails.
enum Branch {
    Writer {
        identity: &'static str,
        write_key: &'static str,
        value: &'static str,
    },
    Failing {
        identity: &'static str,
        message: &'static str,
    },
}

impl Branch {
    fn name(&self) -> String {
        match self {
            Branch::Writer { identity, .. } => identity.to_string(),
            Branch::Failing { identity, .. } => identity.to_string(),
        }
    }

    fn process(&self, mut ctx: TaskContext) -> Result<TaskContext, NodeError> {
        match self {
            Branch::Writer {
                write_key, value, ..
            } => {
                ctx.nodes.insert(write_key.to_string(), doc(value));
                ctx.node_runs
                    .insert(write_key.to_string(), run(NodeRunStatus::Success));
                Ok(ctx)
            }
            Branch::Failing { message, .. } => Err(NodeError::new(message.to_string())),
        }
    }
}

fn names(branches: &[Branch]) -> Vec<String> {
    branches.iter().map(Branch::name).collect()
}

/// Give every branch its own copy of the context and merge what they return.
fn process(
    node: &ParallelNode,
    branches: &[Branch],
    ctx: TaskContext,
) -> Result<TaskContext, NodeError> {
    let results = branches.iter().map(|b| b.process(ctx.clone())).collect();
    node.merge(ctx, results)
}

fn tolerant_branches() -> Vec<Branch> {
    vec![
        Branch::Writer {
            identity: "SurvivingBranch",
            write_key: "Survivor",
            value: r#"{ "ok": true }"#,
        },
        Branch::Failing {
            identity: "FailingBranch",
            message: "simulated failure",
        },
    ]
}

#[test]
fn collision_key_resolves_to_later_declared_branch() {
    let branches = vec![
        Branch::Writer {
            identity: "BranchA",
            write_key: "Shared",
            value: r#"{ "from": "A" }"#,
        },
        Branch::Writer {
            identity: "BranchB",
            write_key: "Shared",
            value: r#"{ "from": "B" }"#,
        },
    ];
    let parallel = ParallelNode::new("Fanout", names(&branches));
    let out = process(&parallel, &branches, empty_context()).expect("process should succeed");
    assert_eq!(out.nodes.get("Shared"), Some(&doc(r#"{ "from": "B" }"#)));
}

#[test]
fn disjoint_keys_from_every_branch_all_survive_merge() {
    let branches = vec![
        Branch::Writer {
            identity: "BranchA",
            write_key: "KeyA",
            value: r#"{ "from": "A" }"#,
        },
        Branch::Writer {
            identity: "BranchB",
            write_key: "KeyB",
            value: r#"{ "from": "B" }"#,
        },
        Branch::Writer {
            identity: "BranchC",
            write_key: "KeyC",
            value: r#"{ "from": "C" }"#,
        },
    ];
    let parallel = ParallelNode::new("Fanout", names(&branches));
    let out = process(&parallel, &branches, empty_context()).expect("process should succeed");

    assert_eq!(out.nodes.get("KeyA"), Some(&doc(r#"{ "from": "A" }"#)));
    assert_eq!(out.nodes.get("KeyB"), Some(&doc(r#"{ "from": "B" }"#)));
    assert_eq!(out.nodes.get("KeyC"), Some(&doc(r#"{ "from": "C" }"#)));
    for key in ["KeyA", "KeyB", "KeyC"] {
        assert_eq!(
            out.node_runs.get(key).map(|r| r.status),
            Some(NodeRunStatus::Success)
        );
    }
}

#[test]
fn parallel_node_returns_merged_task_context_and_reports_name() {
    let branches = vec![Branch::Writer {
        identity: "BranchA",
        write_key: "KeyA",
        value: r#"{ "from": "A" }"#,
    }];
    let parallel = ParallelNode::new("Fanout", names(&branches));
    assert_eq!(parallel.name(), "Fanout");
    let out = process(&parallel, &branches, empty_context()).expect("process should succeed");
    assert!(out.nodes.contains_key("KeyA"));
}

#[test]
fn tolerate_mode_merges_survivors_and_returns_ok() {
    let branches = tolerant_branches();
    let parallel = ParallelNode::new("Fanout", names(&branches))
        .with_branch_failure(BranchFailure::Tolerate);
    let out = process(&parallel, &branches, empty_context())
        .expect("a failing branch is tolerated");
    assert_eq!(out.nodes.get("Survivor"), Some(&doc(r#"{ "ok": true }"#)));
}

#[test]
fn tolerate_mode_records_per_branch_outcome_under_node_identity() {
    let branches = tolerant_branches();
    let parallel = ParallelNode::new("Fanout", names(&branches))
        .with_branch_failure(BranchFailure::Tolerate);
    let out = process(&parallel, &branches, empty_context())
        .expect("a failing branch is tolerated");

    let outcomes = match out.nodes.get("Fanout") {
        Some(Json::Array(items)) => items,
        other => panic!("expected a list of outcomes, got {other:?}"),
    };
    assert_eq!(outcomes.len(), 2);

    let surviving = outcomes
        .iter()
        .find(|o| o.get_str("branch") == Some("SurvivingBranch"))
        .expect("surviving branch outcome present");
    assert_eq!(surviving.get("ok"), Some(&Json::Bool(true)));
    assert!(surviving.get("error").is_none());

    let failing = outcomes
        .iter()
        .find(|o| o.get_str("branch") == Some("FailingBranch"))
        .expect("failing branch outcome present");
    assert_eq!(failing.get("ok"), Some(&Json::Bool(false)));
    assert_eq!(failing.get_str("error"), Some("simulated failure"));
}

#[test]
fn by_default_the_first_failure_is_the_nodes_own() {
    let branches = vec![
        Branch::Writer {
            identity: "A",
            write_key: "KeyA",
            value: "1",
        },
        Branch::Failing {
            identity: "B",
            message: "first",
        },
        Branch::Failing {
            identity: "C",
            message: "second",
        },
    ];
    assert_eq!(BranchFailure::default(), BranchFailure::FailRun);
    let parallel = ParallelNode::new("Fanout", names(&branches));
    let err = process(&parallel, &branches, empty_context()).unwrap_err();
    assert_eq!(err.message, "first");
}

#[test]
fn what_no_branch_touches_stays() {
    let mut base = empty_context();
    base.nodes.insert("Before".to_string(), doc("1"));
    base.nodes.insert("Shared".to_string(), doc("1"));
    base.metadata = doc(r#"{ "run_id": "r" }"#);
    let mut one = empty_context();
    one.nodes.insert("Shared".to_string(), doc("2"));
    one.metadata = doc(r#"{ "run_id": "other" }"#);
    let merged = ParallelNode::merge_branch_outputs(base, vec![one, empty_context()]);
    assert_eq!(merged.nodes.get("Before"), Some(&doc("1")));
    assert_eq!(merged.nodes.get("Shared"), Some(&doc("2")));
    assert_eq!(merged.metadata, doc(r#"{ "run_id": "r" }"#));
}

#[test]
fn an_outcome_without_an_error_has_no_error_entry() {
    let outcome = BranchOutcome {
        branch: "A".to_string(),
        ok: true,
        error: None,
    };
    assert_eq!(
        outcome.to_json(),
        Json::object()
            .with("branch", Json::text("A"))
            .with("ok", Json::Bool(true))
    );
}
