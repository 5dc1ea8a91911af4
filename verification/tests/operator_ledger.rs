//! The ledger of decisions: rows, where they are kept, and what they tell.
use chrono::TimeZone;

use engine_core::jsonl::appended;
use engine_core::operator::ledger::query::{
    decisions_per_day, time_to_approval, time_to_approval_stats, TimeToApprovalStats,
};
use engine_core::operator::ledger::record::{
    decision_outcome, record_decision, ApprovalLedgerRow, LedgerDecision,
};
use engine_core::operator::ledger::store::{
    default_ledger_path, ApprovalLedger, FileApprovalLedger, InMemoryApprovalLedger,
};
use engine_core::time::{TimeDelta, Timestamp};

fn ts(secs: i64) -> Timestamp {
    Timestamp::from_unix(1_700_000_000 + secs, 0)
}

fn utc(year: i32, month: u32, day: u32, hour: u32, minute: u32, second: u32) -> Timestamp {
    let at = chrono::Utc
        .with_ymd_and_hms(year, month, day, hour, minute, second)
        .unwrap();
    Timestamp::from_unix(at.timestamp(), 0)
}

fn row(
    item_id: &str,
    decision: LedgerDecision,
    delivered_at: Timestamp,
    decided_at: Timestamp,
) -> ApprovalLedgerRow {
    ApprovalLedgerRow {
        item_id: item_id.to_string(),
        digest: "digest".to_string(),
        decision,
        who: "operator-a".to_string(),
        delivered_at,
        decided_at,
        rendered_diff: "diff".to_string(),
    }
}

fn line(row: &ApprovalLedgerRow) -> String {
    format!("{{\"item\":\"{}\",\"decided\":{}}}", row.item_id, row.decided_at.secs)
}

fn decode(text: &str) -> Option<ApprovalLedgerRow> {
    let doc = engine_core::json::parse(text).ok()?;
    let item = doc.get_str("item")?;
    let decided = doc.get("decided")?.as_i64()?;
    Some(row(
        item,
        LedgerDecision::Approved,
        ts(0),
        Timestamp::from_unix(decided, 0),
    ))
}

fn approved(item: &str, secs: i64) -> ApprovalLedgerRow {
    row(item, LedgerDecision::Approved, ts(0), ts(secs))
}

#[test]
fn time_to_approval_is_decided_minus_delivered() {
    let r = row("item-a", LedgerDecision::Approved, ts(0), ts(30));
    assert_eq!(time_to_approval(&r), TimeDelta::seconds(30));
}

#[test]
fn stats_ignore_requeued_rows() {
    let rows = vec![
        row("item-a", LedgerDecision::Approved, ts(0), ts(10)),
        row("item-b", LedgerDecision::Requeued, ts(0), ts(1_000_000)),
        row("item-c", LedgerDecision::Approved, ts(0), ts(30)),
    ];

    let stats = time_to_approval_stats(&rows);
    assert_eq!(stats.count, 2);
    assert_eq!(stats.median, Some(TimeDelta::seconds(30)));
    assert_eq!(stats.max, Some(TimeDelta::seconds(30)));
}

#[test]
fn stats_are_default_when_only_requeued_rows_present() {
    let rows = vec![row("item-a", LedgerDecision::Requeued, ts(0), ts(10))];
    let stats = time_to_approval_stats(&rows);
    assert_eq!(stats, TimeToApprovalStats::default());
    assert_eq!(stats.count, 0);
}

#[test]
fn stats_median_and_max_over_several_approved_rows() {
    let rows = vec![
        row("item-a", LedgerDecision::Approved, ts(0), ts(10)),
        row("item-b", LedgerDecision::Approved, ts(0), ts(50)),
        row("item-c", LedgerDecision::Approved, ts(0), ts(30)),
    ];
    let stats = time_to_approval_stats(&rows);
    assert_eq!(stats.count, 3);
    assert_eq!(stats.median, Some(TimeDelta::seconds(30)));
    assert_eq!(stats.max, Some(TimeDelta::seconds(50)));
}

#[test]
fn decisions_per_day_buckets_by_utc_calendar_date() {
    let day_one = utc(2026, 8, 1, 3, 0, 0);
    let day_one_later = utc(2026, 8, 1, 20, 0, 0);
    let day_two = utc(2026, 8, 2, 3, 0, 0);

    let rows = vec![
        row("item-a", LedgerDecision::Approved, day_one, day_one),
        row("item-b", LedgerDecision::Skipped, day_one, day_one_later),
        row("item-c", LedgerDecision::Requeued, day_two, day_two),
    ];

    let counts = decisions_per_day(&rows);
    assert_eq!(counts.len(), 2);
    assert_eq!(counts[&day_one.unix_day()], 2);
    assert_eq!(counts[&day_two.unix_day()], 1);
}

#[test]
fn decisions_per_day_counts_every_decision_including_requeued() {
    let day = utc(2026, 8, 1, 12, 0, 0);
    let rows = vec![row("item-a", LedgerDecision::Requeued, day, day)];
    let counts = decisions_per_day(&rows);
    assert_eq!(counts[&day.unix_day()], 1);
}

#[test]
fn one_decision_writes_exactly_one_row_with_all_five_fields_populated() {
    let mut ledger = InMemoryApprovalLedger::new();

    let outcome = record_decision(
        &mut ledger,
        "item-a",
        "digest-a",
        "digest-a",
        "rendered summary",
        LedgerDecision::Approved,
        "operator-a",
        ts(0),
        ts(10),
    );

    let rows = ledger.read_all();
    assert_eq!(rows.len(), 1, "exactly one row must be written");

    let written = &rows[0];
    assert_eq!(written, &outcome.row);
    assert_eq!(written.digest, "digest-a");
    assert_eq!(written.decision, LedgerDecision::Approved);
    assert_eq!(written.who, "operator-a");
    assert_eq!(written.decided_at, ts(10));
    assert_eq!(written.rendered_diff, "rendered summary");
    assert_eq!(written.delivered_at, ts(0));
    assert_eq!(written.item_id, "item-a");
}

#[test]
fn stored_rendered_diff_is_byte_identical_to_the_delivered_summary() {
    let mut ledger = InMemoryApprovalLedger::new();
    let delivered_diff = "diff: 3 files changed, +12/-4, byte-for-byte as rendered to the operator";

    let outcome = record_decision(
        &mut ledger,
        "item-a",
        "digest-a",
        "digest-a",
        delivered_diff,
        LedgerDecision::Approved,
        "operator-a",
        ts(0),
        ts(10),
    );

    assert_eq!(outcome.row.rendered_diff, delivered_diff);
    assert_eq!(ledger.read_all()[0].rendered_diff, delivered_diff);
}

#[test]
fn digest_mismatch_is_recorded_as_requeued_and_blocks_execution() {
    let mut ledger = InMemoryApprovalLedger::new();

    let outcome = record_decision(
        &mut ledger,
        "item-a",
        "digest-delivered",
        "digest-presented-different",
        "rendered summary",
        LedgerDecision::Approved,
        "operator-a",
        ts(0),
        ts(10),
    );

    assert_eq!(outcome.row.decision, LedgerDecision::Requeued);
    assert!(
        !outcome.should_execute,
        "a mismatched digest must never authorize execution"
    );

    let rows = ledger.read_all();
    assert_eq!(rows.len(), 1);
    assert_eq!(rows[0].decision, LedgerDecision::Requeued);
    assert!(
        rows.iter().all(|r| r.decision != LedgerDecision::Approved),
        "no row for a mismatched digest may ever be Approved"
    );
}

#[test]
fn two_decisions_on_the_same_item_append_two_rows_not_one() {
    let mut ledger = InMemoryApprovalLedger::new();

    record_decision(
        &mut ledger,
        "item-a",
        "digest-a",
        "digest-a",
        "first summary",
        LedgerDecision::Skipped,
        "operator-a",
        ts(0),
        ts(10),
    );
    record_decision(
        &mut ledger,
        "item-a",
        "digest-a",
        "digest-a",
        "second summary",
        LedgerDecision::Approved,
        "operator-b",
        ts(0),
        ts(20),
    );

    let rows = ledger.rows_for("item-a");
    assert_eq!(
        rows.len(),
        2,
        "two decisions must produce two distinct rows"
    );
    assert_eq!(rows[0].decision, LedgerDecision::Skipped);
    assert_eq!(rows[1].decision, LedgerDecision::Approved);
    assert_eq!(ledger.read_all().len(), 2);
}

#[test]
fn time_to_approval_and_stats_return_expected_values_on_a_fixed_row_set() {
    let rows = vec![
        row("item-a", LedgerDecision::Approved, ts(0), ts(10)),
        row("item-b", LedgerDecision::Requeued, ts(0), ts(1_000_000)),
        row("item-c", LedgerDecision::Approved, ts(0), ts(30)),
    ];

    assert_eq!(time_to_approval(&rows[0]), TimeDelta::seconds(10));

    let stats = time_to_approval_stats(&rows);
    assert_eq!(
        stats.count, 2,
        "the Requeued row must be excluded from the count"
    );
    assert_eq!(stats.median, Some(TimeDelta::seconds(30)));
    assert_eq!(stats.max, Some(TimeDelta::seconds(30)));
}

#[test]
fn decisions_per_day_buckets_a_fixed_row_set_by_utc_date() {
    let day_one = utc(2026, 8, 1, 9, 0, 0);
    let day_one_later = utc(2026, 8, 1, 21, 0, 0);
    let day_two = utc(2026, 8, 2, 9, 0, 0);

    let rows = vec![
        ApprovalLedgerRow {
            item_id: "item-a".to_string(),
            digest: "digest-a".to_string(),
            decision: LedgerDecision::Approved,
            who: "operator-a".to_string(),
            delivered_at: day_one,
            decided_at: day_one,
            rendered_diff: "summary".to_string(),
        },
        ApprovalLedgerRow {
            item_id: "item-b".to_string(),
            digest: "digest-b".to_string(),
            decision: LedgerDecision::Skipped,
            who: "operator-a".to_string(),
            delivered_at: day_one,
            decided_at: day_one_later,
            rendered_diff: "summary".to_string(),
        },
        ApprovalLedgerRow {
            item_id: "item-c".to_string(),
            digest: "digest-c".to_string(),
            decision: LedgerDecision::Requeued,
            who: "operator-a".to_string(),
            delivered_at: day_two,
            decided_at: day_two,
            rendered_diff: "summary".to_string(),
        },
    ];

    let counts = decisions_per_day(&rows);
    assert_eq!(counts.len(), 2);
    assert_eq!(counts[&day_one.unix_day()], 2);
    assert_eq!(counts[&day_two.unix_day()], 1);
}

#[test]
fn in_memory_ledger_append_then_read_all_round_trips() {
    let mut ledger = InMemoryApprovalLedger::new();
    ledger.append(row("item-a", LedgerDecision::Approved, ts(0), ts(10)));
    assert_eq!(ledger.read_all(), vec![row("item-a", LedgerDecision::Approved, ts(0), ts(10))]);
}

#[test]
fn in_memory_ledger_two_appends_same_item_produce_two_rows() {
    let mut ledger = InMemoryApprovalLedger::new();
    ledger.append(row("item-a", LedgerDecision::Approved, ts(0), ts(10)));
    ledger.append(row("item-a", LedgerDecision::Approved, ts(0), ts(20)));
    assert_eq!(ledger.rows_for("item-a").len(), 2);
}

#[test]
fn in_memory_ledger_rows_for_filters_by_item_id() {
    let mut ledger = InMemoryApprovalLedger::new();
    ledger.append(row("item-a", LedgerDecision::Approved, ts(0), ts(10)));
    ledger.append(row("item-b", LedgerDecision::Approved, ts(0), ts(20)));
    assert_eq!(ledger.rows_for("item-a").len(), 1);
    assert_eq!(ledger.rows_for("item-b").len(), 1);
}

#[test]
fn default_ledger_path_prefers_xdg_state_home() {
    let path = default_ledger_path(Some("/xdg/state".to_string()), Some("/home/u".to_string()));
    assert_eq!(
        path,
        Some("/xdg/state/engine-rs/approval-ledger.jsonl".to_string())
    );
}

#[test]
fn default_ledger_path_falls_back_to_home() {
    let path = default_ledger_path(None, Some("/home/u".to_string()));
    assert_eq!(
        path,
        Some("/home/u/.local/state/engine-rs/approval-ledger.jsonl".to_string())
    );
}

#[test]
fn default_ledger_path_is_none_with_neither_env_var() {
    assert_eq!(default_ledger_path(None, None), None);
}

#[test]
fn file_ledger_append_then_read_all_round_trips_one_row() {
    let ledger = FileApprovalLedger::new("/state/ledger.jsonl");
    let file = appended(&line(&approved("item-a", 10)));
    assert_eq!(ledger.rows_in(Some(&file), decode), vec![approved("item-a", 10)]);
}

#[test]
fn file_ledger_read_all_on_missing_file_returns_empty_not_panic() {
    let ledger = FileApprovalLedger::new("/state/missing.jsonl");
    assert!(ledger.rows_in(None, decode).is_empty());
    assert!(ledger.rows_for_in(None, decode, "item-a").is_empty());
}

#[test]
fn file_ledger_two_appends_same_item_produce_two_lines_not_one() {
    let ledger = FileApprovalLedger::new("/state/ledger.jsonl");
    let mut file = appended(&line(&approved("item-a", 10)));
    file.extend(appended(&line(&approved("item-a", 20))));
    let text = String::from_utf8(file.clone()).unwrap();
    assert_eq!(text.lines().count(), 2, "two appends must never overwrite or coalesce");
    assert_eq!(ledger.rows_for_in(Some(&file), decode, "item-a").len(), 2);
}

#[test]
fn file_ledger_survives_drop_and_reconstruction_at_the_same_path() {
    let file = {
        let _writer = FileApprovalLedger::new("/state/ledger.jsonl");
        appended(&line(&approved("item-a", 10)))
    };
    let reopened = FileApprovalLedger::new("/state/ledger.jsonl");
    assert_eq!(reopened.path(), "/state/ledger.jsonl");
    let read = reopened.rows_in(Some(&file), decode);
    assert_eq!(read.len(), 1, "row should survive restart");
    assert_eq!(read[0].item_id, "item-a");
}

#[test]
fn file_ledger_survives_a_process_restart() {
    let mut file = Vec::new();
    for (item, secs) in [("item-a", 10), ("item-b", 20)] {
        let outcome = decision_outcome(
            item,
            "digest-a",
            "digest-a",
            "summary",
            LedgerDecision::Approved,
            "operator-a",
            ts(0),
            ts(secs),
        );
        file.extend(appended(&line(&outcome.row)));
    }
    let reopened = FileApprovalLedger::new("/state/approval-ledger.jsonl");
    let rows = reopened.rows_in(Some(&file), decode);
    assert_eq!(rows.len(), 2, "both rows must survive the restart");
    assert_eq!(rows[0].item_id, "item-a");
    assert_eq!(rows[1].item_id, "item-b");
}

#[test]
fn file_ledger_read_all_skips_malformed_line_without_panicking() {
    let ledger = FileApprovalLedger::new("/state/ledger.jsonl");
    let mut file = appended(&line(&approved("item-a", 10)));
    file.extend(appended("not json"));
    file.extend(appended(&line(&approved("item-b", 20))));
    let read = ledger.rows_in(Some(&file), decode);
    assert_eq!(read.len(), 2);
    assert_eq!(read[0].item_id, "item-a");
    assert_eq!(read[1].item_id, "item-b");
}

#[test]
fn file_ledger_malformed_line_is_skipped_and_surrounding_rows_still_parse() {
    let ledger = FileApprovalLedger::new("/state/ledger.jsonl");
    let mut file = appended(&line(&approved("item-a", 10)));
    file.extend(appended("this is not valid json"));
    file.extend([0xff, 0xfe, b'\n']);
    file.extend(appended(&line(&approved("item-b", 20))));
    let rows = ledger.rows_in(Some(&file), decode);
    assert_eq!(rows.len(), 2);
    assert_eq!(rows[0].item_id, "item-a");
    assert_eq!(rows[1].item_id, "item-b");
}

#[test]
fn file_ledger_read_all_skips_blank_lines() {
    let ledger = FileApprovalLedger::new("/state/ledger.jsonl");
    let mut file = appended(&line(&approved("item-a", 10)));
    file.extend(appended(""));
    file.extend(appended("  \t"));
    assert_eq!(ledger.rows_in(Some(&file), decode).len(), 1);
}

#[test]
fn any_request_on_a_changed_payload_is_requeued() {
    for requested in [
        LedgerDecision::Approved,
        LedgerDecision::Skipped,
        LedgerDecision::RoutedToSession,
        LedgerDecision::Requeued,
        LedgerDecision::Rejected,
        LedgerDecision::RoutedToDiscussion,
    ] {
        let outcome =
            decision_outcome("i", "a", "b", "s", requested, "w", ts(0), ts(1));
        assert_eq!(outcome.row.decision, LedgerDecision::Requeued);
        assert!(!outcome.should_execute);
        let kept = decision_outcome("i", "a", "a", "s", requested, "w", ts(0), ts(1));
        assert_eq!(kept.row.decision, requested);
        assert_eq!(kept.should_execute, requested == LedgerDecision::Approved);
    }
}

#[test]
fn the_median_of_an_even_count_is_the_upper_of_the_two() {
    let rows = vec![
        approved("a", 40),
        approved("b", 10),
        approved("c", 30),
        approved("d", 20),
    ];
    let stats = time_to_approval_stats(&rows);
    assert_eq!(stats.count, 4);
    assert_eq!(stats.median, Some(TimeDelta::seconds(30)));
    assert_eq!(stats.max, Some(TimeDelta::seconds(40)));
}

#[test]
fn days_before_the_epoch_are_counted_down() {
    let before = Timestamp::from_unix(-1, 0);
    let rows = vec![row("a", LedgerDecision::Approved, before, before)];
    let counts = decisions_per_day(&rows);
    assert_eq!(counts.len(), 1);
    assert_eq!(counts[&-1], 1);
}
