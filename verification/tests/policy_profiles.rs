//! Reading policy sections and profiles out of a harness file.
use engine_core::contract::TaskContext;
use engine_core::json::Json;
use engine_core::policy::profiles::{
    join_path, read_harness_policy_defaults, read_harness_policy_defaults_from,
    read_harness_profiles, read_harness_profiles_from, resolve_profile, resolve_profile_from,
    resolved_policy_strict, stamp_resolved_policy, HarnessText, PolicyConfigSource,
    RESOLVED_POLICY_IDENTITY,
};
use engine_core::string_map::StringMap;

#[derive(Debug, Clone, PartialEq, Default)]
struct TestPartial {
    max_attempts: Option<u32>,
}

fn builtin(name: &str) -> Option<TestPartial> {
    match name {
        "cheap-fast" => Some(TestPartial {
            max_attempts: Some(1),
        }),
        _ => None,
    }
}

fn decode(doc: &Json) -> Result<TestPartial, String> {
    match doc.get("max_attempts") {
        None => Ok(TestPartial::default()),
        Some(v) => match v.as_u64() {
            Some(n) => Ok(TestPartial {
                max_attempts: Some(n as u32),
            }),
            None => Err("max_attempts is no number".to_string()),
        },
    }
}

fn decode_profiles(doc: &Json) -> Result<StringMap<TestPartial>, String> {
    let mut out = StringMap::new();
    match doc {
        Json::Object(entries) => {
            for (name, bundle) in entries {
                out.insert(name.clone(), decode(bundle)?);
            }
            Ok(out)
        }
        _ => Err("expected an object".to_string()),
    }
}

fn encode(policy: &TestPartial) -> Json {
    match policy.max_attempts {
        Some(n) => Json::object().with("max_attempts", Json::uint(n as u64)),
        None => Json::object(),
    }
}

fn empty_context() -> TaskContext {
    TaskContext {
        event: Json::object(),
        nodes: StringMap::new(),
        metadata: Json::object(),
        node_runs: StringMap::new(),
    }
}

#[test]
fn read_harness_policy_defaults_returns_none_when_file_missing() {
    let file = HarnessText::Missing;
    let worktree = "/work/tree";
    let result: Option<TestPartial> =
        read_harness_policy_defaults(worktree, &file, "sdlc", decode).expect("should succeed");
    assert!(result.is_none());
}

#[test]
fn read_harness_policy_defaults_reads_workflow_keyed_section() {
    let worktree = "/work/tree";
    let file = HarnessText::Text(r#"{ "sdlc": { "policy": { "max_attempts": 5 } } }"#.to_string());

    let result: Option<TestPartial> =
        read_harness_policy_defaults(worktree, &file, "sdlc", decode).expect("should succeed");
    assert_eq!(
        result,
        Some(TestPartial {
            max_attempts: Some(5)
        })
    );
}

#[test]
fn read_harness_profiles_strips_comment_sibling_key() {
    let worktree = "/work/tree";
    let file = HarnessText::Text(r#"{ "sdlc": { "profiles": { "_comment": "explanatory text, not a bundle", "cheap-fast": { "max_attempts": 42 } } } }"#.to_string());

    let profiles: StringMap<TestPartial> = read_harness_profiles(worktree, &file, "sdlc", decode_profiles)
        .expect("should succeed")
        .expect("profiles present");
    assert_eq!(profiles.len(), 1);
    assert_eq!(profiles.get("cheap-fast").unwrap().max_attempts, Some(42));
}

#[test]
fn resolve_profile_none_name_returns_none() {
    let file = HarnessText::Missing;
    let worktree = "/work/tree";
    let result: Option<TestPartial> =
        resolve_profile(None, worktree, &file, "sdlc", decode_profiles, builtin).expect("should succeed");
    assert!(result.is_none());
}

#[test]
fn resolve_profile_prefers_harness_profile_over_builtin() {
    let worktree = "/work/tree";
    let file = HarnessText::Text(r#"{ "sdlc": { "profiles": { "cheap-fast": { "max_attempts": 99 } } } }"#.to_string());

    let result = resolve_profile(Some("cheap-fast"), worktree, &file, "sdlc", decode_profiles, builtin)
        .expect("should succeed")
        .expect("profile resolved");
    assert_eq!(result.max_attempts, Some(99));
}

#[test]
fn resolve_profile_falls_back_to_builtin_when_no_harness_entry() {
    let file = HarnessText::Missing;
    let worktree = "/work/tree";
    let result = resolve_profile(Some("cheap-fast"), worktree, &file, "sdlc", decode_profiles, builtin)
        .expect("should succeed")
        .expect("profile resolved");
    assert_eq!(result.max_attempts, Some(1));
}

#[test]
fn resolve_profile_unknown_name_errors() {
    let file = HarnessText::Missing;
    let worktree = "/work/tree";
    let err = resolve_profile(Some("nonexistent"), worktree, &file, "sdlc", decode_profiles, builtin)
        .expect_err("should fail");
    assert!(err.message.contains("unknown profile"));
}

#[test]
fn builtin_source_resolves_with_no_filesystem_access() {
    let file = HarnessText::Missing;
    let policy: Option<TestPartial> =
        read_harness_policy_defaults_from(&PolicyConfigSource::Builtin, &file, "sdlc", decode)
            .expect("should succeed");
    assert!(policy.is_none());

    let profiles: Option<StringMap<TestPartial>> =
        read_harness_profiles_from(&PolicyConfigSource::Builtin, &file, "sdlc", decode_profiles)
            .expect("should succeed");
    assert!(profiles.is_none());

    let resolved = resolve_profile_from(Some("cheap-fast"), &PolicyConfigSource::Builtin, &file, "sdlc", decode_profiles, builtin)
    .expect("should succeed")
    .expect("builtin profile resolved");
    assert_eq!(resolved.max_attempts, Some(1));

    let unknown = resolve_profile_from(Some("nonexistent"), &PolicyConfigSource::Builtin, &file, "sdlc", decode_profiles, builtin)
    .expect_err("should fail");
    assert!(unknown.message.contains("unknown profile"));
}

#[test]
fn harness_file_source_reads_a_file_outside_any_worktree_layout() {
    let dir = "/work/tree";
    let harness_file = format!("{dir}/standalone-harness.json");
    let file = HarnessText::Text(r#"{ "sdlc": { "policy": { "max_attempts": 7 }, "profiles": { "cheap-fast": { "max_attempts": 42 } } } }"#.to_string());

    let source = PolicyConfigSource::HarnessFile(harness_file);

    let policy: TestPartial = read_harness_policy_defaults_from(&source, &file, "sdlc", decode)
        .expect("should succeed")
        .expect("policy present");
    assert_eq!(policy.max_attempts, Some(7));

    let profiles: StringMap<TestPartial> = read_harness_profiles_from(&source, &file, "sdlc", decode_profiles)
        .expect("should succeed")
        .expect("profiles present");
    assert_eq!(profiles.get("cheap-fast").unwrap().max_attempts, Some(42));

    let resolved = resolve_profile_from(Some("cheap-fast"), &source, &file, "sdlc", decode_profiles, builtin)
        .expect("should succeed")
        .expect("profile resolved");
    assert_eq!(resolved.max_attempts, Some(42));
}

#[test]
fn worktree_source_behaves_identically_to_today() {
    let worktree = "/work/tree";
    let file = HarnessText::Text(r#"{ "sdlc": { "policy": { "max_attempts": 5 } } }"#.to_string());

    let source = PolicyConfigSource::Worktree(worktree.to_string());
    let via_from: Option<TestPartial> =
        read_harness_policy_defaults_from(&source, &file, "sdlc", decode).expect("should succeed");
    let via_wrapper: Option<TestPartial> =
        read_harness_policy_defaults(worktree, &file, "sdlc", decode).expect("should succeed");
    assert_eq!(via_from, via_wrapper);
    assert_eq!(
        via_from,
        Some(TestPartial {
            max_attempts: Some(5)
        })
    );
}

#[test]
fn resolved_policy_strict_errors_on_absent_stamp() {
    let ctx = empty_context();
    let err = resolved_policy_strict(&ctx, decode).expect_err("should fail");
    assert!(err.message.contains("no resolved policy stamped"));
}

#[test]
fn resolved_policy_strict_errors_on_unparsable_stamp() {
    let mut ctx = empty_context();
    ctx.nodes.insert(
        RESOLVED_POLICY_IDENTITY.to_string(),
        Json::object().with("max_attempts", Json::text("not-a-number")),
    );
    let err = resolved_policy_strict(&ctx, decode).expect_err("should fail");
    assert!(err.message.contains("failed to parse resolved policy"));
}

#[test]
fn resolved_policy_strict_succeeds_on_valid_stamp() {
    let ctx = empty_context();
    let policy = TestPartial {
        max_attempts: Some(9),
    };
    let ctx = stamp_resolved_policy(ctx, Ok(encode(&policy))).expect("stamp should succeed");
    let read: TestPartial = resolved_policy_strict(&ctx, decode).expect("should succeed");
    assert_eq!(read, policy);
}

#[test]
fn read_harness_profiles_from_strips_comment_sibling_key() {
    let worktree = "/work/tree";
    let file = HarnessText::Text(r#"{ "sdlc": { "profiles": { "_comment": "explanatory text, not a bundle", "cheap-fast": { "max_attempts": 42 } } } }"#.to_string());

    let profiles: StringMap<TestPartial> =
        read_harness_profiles_from(&PolicyConfigSource::Worktree(worktree.to_string()), &file, "sdlc", decode_profiles)
            .expect("should succeed")
            .expect("profiles present");
    assert_eq!(profiles.len(), 1);
    assert_eq!(profiles.get("cheap-fast").unwrap().max_attempts, Some(42));
}

#[test]
fn a_file_that_cannot_be_read_or_parsed_is_an_error() {
    let unreadable = HarnessText::Unreadable("permission denied".to_string());
    let err = read_harness_policy_defaults("/work/tree", &unreadable, "sdlc", decode)
        .expect_err("should fail");
    assert!(err.message.contains("permission denied"));
    let garbled = HarnessText::Text("{ not json".to_string());
    assert!(read_harness_policy_defaults("/work/tree", &garbled, "sdlc", decode).is_err());
}

#[test]
fn a_section_that_does_not_decode_is_an_error() {
    let file = HarnessText::Text(
        r#"{ "sdlc": { "policy": { "max_attempts": "many" } } }"#.to_string(),
    );
    let err = read_harness_policy_defaults("/work/tree", &file, "sdlc", decode)
        .expect_err("should fail");
    assert!(err.message.contains("max_attempts is no number"));
}

#[test]
fn a_stamp_that_cannot_be_encoded_is_an_error() {
    let err = stamp_resolved_policy(empty_context(), Err("cyclic".to_string()))
        .expect_err("should fail");
    assert!(err.message.contains("cyclic"));
}

#[test]
fn paths_are_joined_with_one_separator() {
    assert_eq!(join_path("/a", "b"), "/a/b");
    assert_eq!(join_path("/a/", "b"), "/a/b");
    assert_eq!(join_path("/a", "/b"), "/b");
    assert_eq!(join_path("", "b"), "b");
    assert_eq!(
        PolicyConfigSource::Worktree("/w".to_string()).harness_path(),
        Some("/w/planning/harness.json".to_string())
    );
    assert_eq!(PolicyConfigSource::Builtin.harness_path(), None);
}
