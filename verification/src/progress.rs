//! How a node reports on its work while it runs.
use vstd::prelude::*;

use crate::text;
use crate::text::owned;

verus! {

/// One report: how much of its work a node has done.
#[derive(Debug, PartialEq, Eq)]
pub struct NodeProgress {
    /// The node that reports.
    pub node: String,
    /// How many units it has done.
    pub done: usize,
    /// How many units it has to do, as far as it knows.
    pub total: usize,
    /// What the current unit is.
    pub label: Option<String>,
}

impl NodeProgress {
    /// A report without a label.
    pub fn new(node: &str, done: usize, total: usize) -> (r: Self)
        ensures
            r.node@ == node@,
            r.done == done,
            r.total == total,
            r.label is None,
    {
        NodeProgress { node: owned(node), done, total, label: None }
    }

    /// The same report with a label.
    pub fn with_label(self, label: &str) -> (r: Self)
        ensures
            r.node == self.node,
            r.done == self.done,
            r.total == self.total,
            text::opt_text(r.label) == Some(label@),
    {
        NodeProgress {
            node: self.node,
            done: self.done,
            total: self.total,
            label: Some(owned(label)),
        }
    }
}

impl Clone for NodeProgress {
    fn clone(&self) -> (r: Self)
        ensures
            r == *self,
    {
        NodeProgress {
            node: self.node.clone(),
            done: self.done,
            total: self.total,
            label: self.label.clone(),
        }
    }
}

/// Where reports go. Reporting returns at once and never fails, whether or not
/// the report arrives anywhere.
pub trait ProgressSink {
    /// Whether every report to this sink is dropped.
    spec fn drops_reports(&self) -> bool;

    /// Report. A sink that drops reports is left as it was.
    fn emit(&mut self, update: NodeProgress)
        ensures
            final(self).drops_reports() == old(self).drops_reports(),
            old(self).drops_reports() ==> &*final(self) == &*old(self),
    ;
}

/// A sink that drops every report.
#[derive(Clone, Copy, Debug, PartialEq, Eq)]
pub struct NoopProgressSink;

impl Default for NoopProgressSink {
    fn default() -> (r: Self) {
        NoopProgressSink
    }
}

impl ProgressSink for NoopProgressSink {
    open spec fn drops_reports(&self) -> bool {
        true
    }

    fn emit(&mut self, update: NodeProgress)
        ensures
            *final(self) == *old(self),
    {
    }
}

/// The sink of a node that was given none: it drops every report.
pub fn noop_progress_sink() -> (r: Box<dyn ProgressSink>)
    ensures
        r.drops_reports(),
{
    return Box::new(NoopProgressSink);
}

/// A sink that keeps every report.
#[derive(Debug, PartialEq, Eq)]
pub struct RecordingProgressSink {
    records: Vec<NodeProgress>,
}

impl RecordingProgressSink {
    /// The reports so far, in the order they came.
    pub closed spec fn kept(&self) -> Seq<NodeProgress> {
        self.records@
    }

    /// A sink that has kept nothing yet.
    pub fn new() -> (r: Self)
        ensures
            r.kept().len() == 0,
    {
        RecordingProgressSink { records: Vec::new() }
    }

    /// The reports so far, in the order they came.
    pub fn records(&self) -> (r: Vec<NodeProgress>)
        ensures
            r@ == self.kept(),
    {
        let mut out: Vec<NodeProgress> = Vec::new();
        let mut i: usize = 0;
        while i < self.records.len()
            invariant
                i <= self.records@.len(),
                out@ == self.records@.take(i as int),
            decreases self.records@.len() - i,
        {
            out.push(self.records[i].clone());
            i += 1;
            assert(out@ =~= self.records@.take(i as int));
        }
        assert(out@ =~= self.records@);
        out
    }
}

impl Default for RecordingProgressSink {
    fn default() -> (r: Self)
        ensures
            r.kept().len() == 0,
    {
        RecordingProgressSink::new()
    }
}

impl ProgressSink for RecordingProgressSink {
    open spec fn drops_reports(&self) -> bool {
        false
    }

    fn emit(&mut self, update: NodeProgress)
        ensures
            final(self).kept() == old(self).kept().push(update),
    {
        self.records.push(update);
    }
}

/// A sink that keeps reports has each of them, in the order they came.
pub proof fn law_reports_are_kept_in_order(
    sink: &mut RecordingProgressSink,
    after: &RecordingProgressSink,
    update: NodeProgress,
    r: Vec<NodeProgress>,
)
    requires
        <RecordingProgressSink as ProgressSink>::emit.ensures((sink, update), ()),
        *after == *final(sink),
        RecordingProgressSink::records.ensures((after,), r),
    ensures
        r@.len() == old(sink).kept().len() + 1,
        r@.last() == update,
        r@.drop_last() == old(sink).kept(),
{
    assert(r@.drop_last() =~= old(sink).kept());
}

/// A label is added to a report that is otherwise as it was made.
pub proof fn law_report_is_as_made(
    node: &str,
    done: usize,
    total: usize,
    label: &str,
    made: NodeProgress,
    labelled: NodeProgress,
)
    requires
        NodeProgress::new.ensures((node, done, total), made),
        NodeProgress::with_label.ensures((made, label), labelled),
    ensures
        made.node@ == node@ && made.done == done && made.total == total && made.label is None,
        labelled.node@ == node@ && labelled.done == done && labelled.total == total,
        labelled.label is Some && labelled.label->0@ == label@,
{
}

} // verus!
