//! Reports of a node's progress.
use std::sync::mpsc::{sync_channel, SyncSender};

use engine_core::progress::{
    noop_progress_sink, NodeProgress, NoopProgressSink, ProgressSink, RecordingProgressSink,
};

/// A sink that drops what does not go through at once.
struct TrySendSink {
    tx: SyncSender<NodeProgress>,
}

impl ProgressSink for TrySendSink {
    fn drops_reports(&self) -> bool {
        false
    }

    fn emit(&mut self, update: NodeProgress) {
        let _ = self.tx.try_send(update);
    }
}

#[test]
fn noop_progress_sink_discards_silently() {
    let mut sink = NoopProgressSink;
    sink.emit(NodeProgress::new("probe", 1, 7));
    sink.emit(NodeProgress::new("probe", 2, 7));
}

#[test]
fn noop_progress_sink_is_the_default_via_helper() {
    let mut sink = noop_progress_sink();
    sink.emit(NodeProgress::new("probe", 1, 1));
}

#[test]
fn recording_stub_yields_n_records_in_order_with_correct_fields() {
    let mut sink = RecordingProgressSink::new();
    for i in 1..=7 {
        sink.emit(NodeProgress::new("capture", i, 7).with_label(&format!("query {i}")));
    }

    let records = sink.records();
    assert_eq!(records.len(), 7);
    for (i, record) in records.iter().enumerate() {
        let expected_done = i + 1;
        assert_eq!(record.node, "capture");
        assert_eq!(record.done, expected_done);
        assert_eq!(record.total, 7);
        assert_eq!(
            record.label.as_deref(),
            Some(format!("query {expected_done}")).as_deref()
        );
    }
}

#[test]
fn recording_stub_starts_empty() {
    let sink = RecordingProgressSink::new();
    assert!(sink.records().is_empty());
}

#[test]
fn emit_against_a_full_channel_does_not_block_or_panic() {
    let (tx, _rx) = sync_channel(1);
    let mut sink = TrySendSink { tx };
    sink.emit(NodeProgress::new("gate", 1, 2));
    sink.emit(NodeProgress::new("gate", 2, 2));
}

#[test]
fn emit_against_a_closed_channel_does_not_panic_or_error() {
    let (tx, rx) = sync_channel(1);
    drop(rx);
    let mut sink = TrySendSink { tx };
    sink.emit(NodeProgress::new("gate", 1, 2));
}

#[test]
fn node_progress_with_label_builder() {
    let update = NodeProgress::new("n", 0, 3).with_label("first");
    assert_eq!(update.label.as_deref(), Some("first"));
}
