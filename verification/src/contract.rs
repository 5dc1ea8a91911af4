//! The context that flows through a workflow run: the triggering event, the
//! results the nodes have stamped, the run's metadata and the record of each
//! node's execution.
use vstd::prelude::*;

use crate::json;
use crate::json::{Json, JsonView};
use crate::string_map;
use crate::string_map::StringMap;
use crate::text::owned;
use crate::time::Timestamp;

verus! {

/// How far a node's execution has come.
#[derive(Clone, Copy, Debug, PartialEq, Eq)]
pub enum NodeRunStatus {
    Pending,
    Running,
    Success,
    Failed,
}

/// The model usage a node recorded.
#[derive(Debug, PartialEq, Eq)]
pub struct Usage {
    pub input_tokens: Option<u64>,
    pub output_tokens: Option<u64>,
    pub model: String,
}

/// The record of one node's execution.
#[derive(Debug, PartialEq, Eq)]
pub struct NodeRun {
    pub status: NodeRunStatus,
    pub started_at: Option<Timestamp>,
    pub completed_at: Option<Timestamp>,
    pub error: Option<String>,
    pub input: Option<Json>,
    pub usage: Option<Usage>,
}

/// The context of a run.
#[derive(Debug, PartialEq, Eq)]
pub struct TaskContext {
    pub event: Json,
    pub nodes: StringMap<Json>,
    pub metadata: Json,
    pub node_runs: StringMap<NodeRun>,
}

/// What the documents of a map say.
pub open spec fn documents(m: Map<Seq<char>, Json>) -> Map<Seq<char>, JsonView> {
    m.map_values(|v: Json| v@)
}

impl TaskContext {
    /// What each node has stamped.
    pub open spec fn results(self) -> Map<Seq<char>, JsonView> {
        documents(self.nodes@)
    }

    /// What the node `name` has stamped, if anything.
    pub open spec fn result_of(self, name: Seq<char>) -> Option<JsonView> {
        if self.results().contains_key(name) {
            Some(self.results()[name])
        } else {
            None
        }
    }

    /// Whether this context is `before` with `result` stamped under `name`
    /// and nothing else changed.
    pub open spec fn stamped(self, before: TaskContext, name: Seq<char>, result: JsonView) -> bool {
        &&& self.results() == before.results().insert(name, result)
        &&& self.event == before.event
        &&& self.metadata == before.metadata
        &&& self.node_runs == before.node_runs
    }
}

impl Clone for Usage {
    fn clone(&self) -> (r: Self)
        ensures
            r == *self,
    {
        Usage {
            input_tokens: self.input_tokens,
            output_tokens: self.output_tokens,
            model: self.model.clone(),
        }
    }
}

/// What an optional document says.
pub open spec fn opt_document(v: Option<Json>) -> Option<JsonView> {
    match v {
        Some(v) => Some(v@),
        None => None,
    }
}

/// Whether two execution records say the same.
pub open spec fn same_run(a: NodeRun, b: NodeRun) -> bool {
    &&& a.status == b.status
    &&& a.started_at == b.started_at
    &&& a.completed_at == b.completed_at
    &&& a.error == b.error
    &&& opt_document(a.input) == opt_document(b.input)
    &&& a.usage == b.usage
}

impl Clone for NodeRun {
    fn clone(&self) -> (r: Self)
        ensures
            same_run(r, *self),
    {
        NodeRun {
            status: self.status,
            started_at: self.started_at,
            completed_at: self.completed_at,
            error: self.error.clone(),
            input: match &self.input {
                Some(v) => Some(v.clone()),
                None => None,
            },
            usage: match &self.usage {
                Some(u) => Some(u.clone()),
                None => None,
            },
        }
    }
}

impl Clone for TaskContext {
    fn clone(&self) -> (r: Self)
        ensures
            r.event@ == self.event@,
            r.results() == self.results(),
            r.metadata@ == self.metadata@,
            r.node_runs@.dom() == self.node_runs@.dom(),
            forall|k: Seq<char>|
                #[trigger] self.node_runs@.contains_key(k) ==> same_run(
                    r.node_runs@[k],
                    self.node_runs@[k],
                ),
    {
        let r = TaskContext {
            event: self.event.clone(),
            nodes: self.nodes.clone(),
            metadata: self.metadata.clone(),
            node_runs: self.node_runs.clone(),
        };
        proof {
            assert forall|k: Seq<char>|
                #![trigger r.node_runs@.contains_key(k)]
                #![trigger self.node_runs@.contains_key(k)]
                r.node_runs@.contains_key(k) == self.node_runs@.contains_key(k) && (
                self.node_runs@.contains_key(k) ==> same_run(
                    r.node_runs@[k],
                    self.node_runs@[k],
                )) by {
                string_map::lemma_same_keys(r.node_runs.entries(), self.node_runs.entries(), k);
                json::lemma_key_index(self.node_runs.entries(), k);
                let i = json::key_index(self.node_runs.entries(), k);
                if i < self.node_runs.entries().len() {
                    assert(cloned(self.node_runs.entries()[i].1, r.node_runs.entries()[i].1));
                }
            }
            assert(r.node_runs@.dom() =~= self.node_runs@.dom());
            assert forall|k: Seq<char>|
                #![trigger r.nodes@.contains_key(k)]
                #![trigger self.nodes@.contains_key(k)]
                r.nodes@.contains_key(k) == self.nodes@.contains_key(k) && (
                self.nodes@.contains_key(k) ==> r.nodes@[k]@ == self.nodes@[k]@) by {
                string_map::lemma_same_keys(r.nodes.entries(), self.nodes.entries(), k);
                json::lemma_key_index(self.nodes.entries(), k);
                let i = json::key_index(self.nodes.entries(), k);
                if i < self.nodes.entries().len() {
                    assert(cloned(self.nodes.entries()[i].1, r.nodes.entries()[i].1));
                }
            }
            assert(r.results() =~= self.results());
        }
        r
    }
}

/// Stamp `result` as the result of the node `name`.
pub fn put_result(ctx: TaskContext, name: &str, result: Json) -> (r: TaskContext)
    ensures
        r.stamped(ctx, name@, result@),
{
    let mut ctx = ctx;
    let ghost before = ctx.nodes@;
    ctx.nodes.insert(owned(name), result);
    assert(documents(before.insert(name@, result)) =~= documents(before).insert(name@, result@));
    ctx
}

/// The result the node `name` has stamped.
pub fn get_result<'a>(ctx: &'a TaskContext, name: &str) -> (r: Option<&'a Json>)
    ensures
        match r {
            Some(v) => ctx.result_of(name@) == Some(v@),
            None => ctx.result_of(name@) is None,
        },
{
    ctx.nodes.get(name)
}

/// The run's identifier, as stamped on its metadata.
pub open spec fn run_id_of(metadata: JsonView) -> Option<Seq<char>> {
    metadata.get_str("run_id"@)
}

/// The run's identifier, as stamped on its metadata.
pub fn read_run_id(metadata: &Json) -> (r: Option<String>)
    ensures
        crate::text::opt_text(r) == run_id_of(metadata@),
{
    match metadata.get_str("run_id") {
        Some(id) => Some(owned(id)),
        None => None,
    }
}

/// What is stamped under a name is read back from there, and every other
/// result, the event, the metadata and the execution records stay.
pub proof fn law_stamped_result_is_read_back(
    ctx: TaskContext,
    name: &str,
    result: Json,
    other: &str,
    after: TaskContext,
    r: Option<&Json>,
    s: Option<&Json>,
)
    requires
        put_result.ensures((ctx, name, result), after),
        get_result.ensures((&after, name), r),
        get_result.ensures((&after, other), s),
    ensures
        r is Some && r->0@ == result@,
        other@ != name@ ==> (s is Some <==> ctx.nodes@.contains_key(other@)) && (s is Some
            ==> s->0@ == ctx.nodes@[other@]@),
        after.event == ctx.event,
        after.metadata == ctx.metadata,
        after.node_runs == ctx.node_runs,
{
    assert(after.results() == ctx.results().insert(name@, result@));
}

/// The run's identifier is the text that the metadata hold under its name.
pub proof fn law_run_id_is_the_stamped_text(metadata: &Json, r: Option<String>)
    requires
        read_run_id.ensures((metadata,), r),
    ensures
        match metadata@ {
            JsonView::Object(m) => if m.contains_key("run_id"@) && m["run_id"@] is Text {
                r is Some && r->0@ == m["run_id"@]->Text_0
            } else {
                r is None
            },
            _ => r is None,
        },
{
}

/// A copy of an execution record says all that the record says.
pub proof fn law_copied_record_is_whole(run: &NodeRun, r: NodeRun, usage: &Usage, u: Usage)
    requires
        <NodeRun as Clone>::clone.ensures((run,), r),
        <Usage as Clone>::clone.ensures((usage,), u),
    ensures
        r.status == run.status,
        r.started_at == run.started_at,
        r.completed_at == run.completed_at,
        r.error is Some == run.error is Some,
        run.error is Some ==> r.error->0@ == run.error->0@,
        r.input is Some == run.input is Some,
        run.input is Some ==> r.input->0@ == run.input->0@,
        r.usage is Some == run.usage is Some,
        run.usage is Some ==> r.usage->0.input_tokens == run.usage->0.input_tokens
            && r.usage->0.output_tokens == run.usage->0.output_tokens && r.usage->0.model@
            == run.usage->0.model@,
        u.input_tokens == usage.input_tokens && u.output_tokens == usage.output_tokens && u.model@
            == usage.model@,
{
}

/// A copy of a context says all that the context says.
pub proof fn law_copied_context_is_whole(ctx: &TaskContext, r: TaskContext, key: Seq<char>)
    requires
        <TaskContext as Clone>::clone.ensures((ctx,), r),
    ensures
        r.event@ == ctx.event@,
        r.metadata@ == ctx.metadata@,
        r.nodes@.contains_key(key) == ctx.nodes@.contains_key(key),
        ctx.nodes@.contains_key(key) ==> r.nodes@[key]@ == ctx.nodes@[key]@,
        r.node_runs@.contains_key(key) == ctx.node_runs@.contains_key(key),
        ctx.node_runs@.contains_key(key) ==> r.node_runs@[key].status == ctx.node_runs@[key].status
            && r.node_runs@[key].usage == ctx.node_runs@[key].usage
            && r.node_runs@[key].started_at == ctx.node_runs@[key].started_at,
{
    assert(r.results().contains_key(key) == ctx.results().contains_key(key));
    assert(r.results().contains_key(key) == r.nodes@.contains_key(key));
    if ctx.nodes@.contains_key(key) {
        assert(ctx.results()[key] == ctx.nodes@[key]@);
        assert(r.results()[key] == r.nodes@[key]@);
    }
    assert(r.node_runs@.dom().contains(key) == ctx.node_runs@.dom().contains(key));
}

} // verus!
