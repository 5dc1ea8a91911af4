//! Session names and session bindings.
use engine_core::node::InputBinding;
use engine_core::nodes::terminal::identity::{
    sanitize, session_name_for, HasSessionInput, WithSessionInput,
};

struct DummyNode {
    session_input: InputBinding,
}

impl HasSessionInput for DummyNode {
    fn session_input(&self) -> InputBinding {
        InputBinding::bound(self.session_input.resolve(""))
    }

    fn differs_in_session_alone(&self, _other: &Self) -> bool {
        true
    }

    fn session_input_mut(&mut self) -> &mut InputBinding {
        &mut self.session_input
    }
}

#[test]
fn session_name_for_is_deterministic() {
    let a = session_name_for("run-1", "TerminalSessionNode");
    let b = session_name_for("run-1", "TerminalSessionNode");
    assert_eq!(a, b);
}

#[test]
fn session_name_for_is_eng_prefixed() {
    let name = session_name_for("run-1", "TerminalSessionNode");
    assert!(name.starts_with("eng-"), "expected eng- prefix, got {name}");
}

#[test]
fn session_name_for_sanitizes_colon_and_dot_from_any_input() {
    let name = session_name_for("run:1.foo", "Node:With.Dots");
    assert!(!name.contains(':'), "unsanitized colon in {name}");
    assert!(!name.contains('.'), "unsanitized dot in {name}");
}

#[test]
fn session_name_for_never_contains_colon_or_dot_for_arbitrary_input() {
    let cases = [
        ("", ""),
        ("::::", "...."),
        ("a:b:c", "d.e.f"),
        ("run_id-42", "node-identity"),
        (":.:.", ":.:."),
    ];
    for (run_id, node_identity) in cases {
        let name = session_name_for(run_id, node_identity);
        assert!(
            !name.contains(':'),
            "colon leaked for {run_id:?}/{node_identity:?}: {name}"
        );
        assert!(
            !name.contains('.'),
            "dot leaked for {run_id:?}/{node_identity:?}: {name}"
        );
        assert!(name.starts_with("eng-"), "missing eng- prefix: {name}");
    }
}

#[test]
fn distinct_node_identities_under_one_run_id_produce_distinct_names() {
    let a = session_name_for("run-1", "TerminalSessionNode");
    let b = session_name_for("run-1", "TerminalObserveNode");
    assert_ne!(a, b);
}

#[test]
fn distinct_run_ids_under_one_node_identity_produce_distinct_names() {
    let a = session_name_for("run-1", "TerminalSessionNode");
    let b = session_name_for("run-2", "TerminalSessionNode");
    assert_ne!(a, b);
}

#[test]
fn unbound_session_input_resolves_to_caller_supplied_default() {
    let node = DummyNode {
        session_input: InputBinding::default(),
    };
    assert_eq!(
        node.session_input.resolve("DefaultIdentity"),
        "DefaultIdentity"
    );
}

#[test]
fn with_session_input_from_binds_to_upstream_identity() {
    let node = DummyNode {
        session_input: InputBinding::default(),
    }
    .with_session_input_from("UpstreamNode");
    assert_eq!(
        node.session_input.resolve("DefaultIdentity"),
        "UpstreamNode"
    );
}

#[test]
fn names_are_put_together_from_their_sanitized_parts() {
    assert_eq!(sanitize("a:b.c-d"), "a-b-c-d");
    assert_eq!(
        session_name_for("run:1.x", "Node.A"),
        "eng-run-1-x_Node-A"
    );
}
