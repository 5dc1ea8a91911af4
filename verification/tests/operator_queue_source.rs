//! Reading the sink of blocked sessions.
use engine_core::json::parse;
use engine_core::jsonl::appended;
use engine_core::operator::queue::source::{
    default_sink_path, BlockedEdgeRecord, BlockedEdgeSource, BlockedEdgeState,
    InMemoryQueueSource, PendingBlockedEdge, QueueSource,
};
use engine_core::time::Timestamp;

fn ts(secs: i64) -> Timestamp {
    Timestamp::from_unix(1_700_000_000 + secs, 0)
}

fn state(name: &str) -> Option<BlockedEdgeState> {
    match name {
        "idle" => Some(BlockedEdgeState::Idle),
        "working" => Some(BlockedEdgeState::Working),
        "blocked" => Some(BlockedEdgeState::Blocked),
        "unknown" => Some(BlockedEdgeState::Unknown),
        _ => None,
    }
}

fn decode(text: &str) -> Option<BlockedEdgeRecord> {
    let doc = parse(text).ok()?;
    let at = chrono::DateTime::parse_from_rfc3339(doc.get_str("observed_at")?).ok()?;
    Some(BlockedEdgeRecord {
        session: doc.get_str("session")?.to_string(),
        host: doc.get_str("host")?.to_string(),
        from: doc.get_str("from").and_then(state),
        to: state(doc.get_str("to")?)?,
        observed_at: Timestamp::from_unix(at.timestamp(), at.timestamp_subsec_nanos()),
    })
}

fn real_record_json(session: &str, from: Option<&str>, to: &str, secs: i64) -> String {
    let from_json = match from {
        Some(s) => format!("\"{s}\""),
        None => "null".to_string(),
    };
    let at = chrono::DateTime::from_timestamp(1_700_000_000 + secs, 0)
        .unwrap()
        .to_rfc3339();
    format!(
        "{{\"session\":\"{session}\",\"host\":\"mini-console\",\"from\":{from_json},\"to\":\"{to}\",\"observed_at\":\"{at}\"}}"
    )
}

fn sink(lines: &[String]) -> Vec<u8> {
    let mut file = Vec::new();
    for line in lines {
        file.extend(appended(line));
    }
    file
}

fn pending(file: &[u8]) -> Vec<PendingBlockedEdge> {
    BlockedEdgeSource::new("/state/blocked-edges.jsonl").pending_in(Some(file), decode)
}

#[test]
fn missing_sink_file_yields_empty_pending() {
    let source = BlockedEdgeSource::new("/state/missing.jsonl");
    assert_eq!(source.pending_in(None, decode), Vec::new());
}

#[test]
fn reads_real_bastion_wire_format_records() {
    let file = sink(&[
        real_record_json("sess-a", Some("working"), "blocked", 0),
        real_record_json("sess-b", None, "blocked", 60),
    ]);
    let pending = pending(&file);
    assert_eq!(pending.len(), 2);
    assert_eq!(pending[0].session, "sess-a");
    assert_eq!(pending[0].to, BlockedEdgeState::Blocked);
    assert_eq!(pending[0].observed_at, ts(0));
    assert_eq!(pending[1].session, "sess-b");
    assert_eq!(pending[1].observed_at, ts(60));
}

#[test]
fn malformed_line_is_skipped_valid_records_still_load() {
    let file = sink(&[
        real_record_json("sess-a", None, "blocked", 0),
        "not json at all".to_string(),
        real_record_json("sess-b", None, "blocked", 1),
    ]);
    let pending = pending(&file);
    assert_eq!(pending.len(), 2);
    assert_eq!(pending[0].session, "sess-a");
    assert_eq!(pending[1].session, "sess-b");
}

#[test]
fn blank_lines_are_skipped() {
    let file = sink(&[real_record_json("sess-a", None, "blocked", 0), String::new()]);
    assert_eq!(pending(&file).len(), 1);
}

#[test]
fn reads_with_no_writing_process_and_no_held_handle() {
    let file = sink(&[real_record_json("sess-a", None, "blocked", 0)]);
    let source = BlockedEdgeSource::new("/state/no-writer.jsonl");
    let first = source.pending_in(Some(&file), decode);
    let second =
        BlockedEdgeSource::new("/state/no-writer.jsonl").pending_in(Some(&file), decode);
    assert_eq!(first, second);
    assert_eq!(first.len(), 1);
}

#[test]
fn carries_to_state_forward_for_downstream_re_evaluation() {
    let file = sink(&[real_record_json("sess-a", None, "blocked", 0)]);
    assert_eq!(pending(&file)[0].to, BlockedEdgeState::Blocked);
}

#[test]
fn path_returns_the_constructed_path() {
    let source = BlockedEdgeSource::new("/state/accessor.jsonl");
    assert_eq!(source.path(), "/state/accessor.jsonl");
}

#[test]
fn default_sink_path_prefers_xdg_state_home() {
    let path = default_sink_path(Some("/xdg/state".to_string()), Some("/home/u".to_string()));
    assert_eq!(
        path,
        Some("/xdg/state/bastion/blocked-edges.jsonl".to_string())
    );
}

#[test]
fn default_sink_path_falls_back_to_home() {
    let path = default_sink_path(None, Some("/home/u".to_string()));
    assert_eq!(
        path,
        Some("/home/u/.local/state/bastion/blocked-edges.jsonl".to_string())
    );
}

#[test]
fn default_sink_path_is_none_with_neither_env_var() {
    assert_eq!(default_sink_path(None, None), None);
}

#[test]
fn in_memory_stub_returns_seeded_items() {
    let item = PendingBlockedEdge {
        session: "sess-a".to_string(),
        host: "mini-console".to_string(),
        to: BlockedEdgeState::Blocked,
        observed_at: ts(0),
    };
    let source = InMemoryQueueSource::new(vec![item.clone()]);
    assert_eq!(source.pending(), vec![item]);
}

#[test]
fn a_record_becomes_a_pending_item() {
    let record = BlockedEdgeRecord {
        session: "s".to_string(),
        host: "h".to_string(),
        from: Some(BlockedEdgeState::Idle),
        to: BlockedEdgeState::Working,
        observed_at: ts(3),
    };
    let pending = PendingBlockedEdge::from(record);
    assert_eq!(pending.session, "s");
    assert_eq!(pending.host, "h");
    assert_eq!(pending.to, BlockedEdgeState::Working);
    assert_eq!(pending.observed_at, ts(3));
}
