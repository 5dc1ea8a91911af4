//! Fanning out to several branches and merging what they return.
use vstd::prelude::*;

use crate::contract::{put_result, NodeRun, TaskContext};
use crate::json;
use crate::json::{Json, JsonView};
use crate::node::NodeError;
use crate::text::owned;

verus! {

/// What becomes of the node when a branch fails.
#[derive(Clone, Copy, Debug, PartialEq, Eq)]
pub enum BranchFailure {
    /// The first failure is the node's own, and every branch's output is
    /// dropped.
    FailRun,
    /// The branches that succeeded are merged, and how each branch ended is
    /// recorded.
    Tolerate,
}

impl Default for BranchFailure {
    fn default() -> (r: Self)
        ensures
            r == BranchFailure::FailRun,
    {
        BranchFailure::FailRun
    }
}

/// How one branch ended.
#[derive(Clone, Debug, PartialEq, Eq)]
pub struct BranchOutcome {
    /// The branch's name.
    pub branch: String,
    /// Whether it succeeded.
    pub ok: bool,
    /// What it failed with.
    pub error: Option<String>,
}

impl BranchOutcome {
    /// The outcome as it is recorded; a branch that succeeded has no error
    /// entry.
    pub open spec fn document(self) -> JsonView {
        let base = Map::empty().insert("branch"@, JsonView::Text(self.branch@)).insert(
            "ok"@,
            JsonView::Bool(self.ok),
        );
        JsonView::Object(
            match self.error {
                Some(e) => base.insert("error"@, JsonView::Text(e@)),
                None => base,
            },
        )
    }

    /// The outcome as it is recorded.
    pub fn to_json(&self) -> (r: Json)
        ensures
            r@ == self.document(),
    {
        let base = Json::object().with("branch", Json::text(self.branch.as_str())).with(
            "ok",
            Json::Bool(self.ok),
        );
        match &self.error {
            Some(e) => base.with("error", Json::text(e.as_str())),
            None => base,
        }
    }
}

/// What the branches returned.
pub type BranchResults = Vec<Result<TaskContext, NodeError>>;

/// The outputs of the branches that succeeded, in declared order.
pub open spec fn survivors(results: Seq<Result<TaskContext, NodeError>>) -> Seq<TaskContext>
    decreases results.len(),
{
    if results.len() == 0 {
        Seq::empty()
    } else {
        match results.last() {
            Ok(out) => survivors(results.drop_last()).push(out),
            Err(_) => survivors(results.drop_last()),
        }
    }
}

/// Where the first failure stands, or the number of results.
pub open spec fn first_failure(results: Seq<Result<TaskContext, NodeError>>) -> int
    decreases results.len(),
{
    if results.len() == 0 || results[0] is Err {
        0
    } else {
        1 + first_failure(results.drop_first())
    }
}

/// `base` with each layer put over what came before it: under one key, the
/// latest layer that has it counts.
pub open spec fn layered<V>(base: Map<Seq<char>, V>, layers: Seq<Map<Seq<char>, V>>) -> Map<
    Seq<char>,
    V,
>
    decreases layers.len(),
{
    if layers.len() == 0 {
        base
    } else {
        layered(base, layers.drop_last()).union_prefer_right(layers.last())
    }
}

/// What each of the outputs holds as node results.
pub open spec fn node_layers(outputs: Seq<TaskContext>) -> Seq<Map<Seq<char>, Json>> {
    outputs.map_values(|c: TaskContext| c.nodes@)
}

/// What each of the outputs holds as execution records.
pub open spec fn run_layers(outputs: Seq<TaskContext>) -> Seq<Map<Seq<char>, NodeRun>> {
    outputs.map_values(|c: TaskContext| c.node_runs@)
}

/// Whether `merged` is `base` with the results and the execution records of
/// the outputs layered over it, in order, and nothing else changed.
pub open spec fn is_merge(base: TaskContext, outputs: Seq<TaskContext>, merged: TaskContext) -> bool {
    &&& merged.event == base.event
    &&& merged.metadata == base.metadata
    &&& merged.nodes@ == layered(base.nodes@, node_layers(outputs))
    &&& merged.node_runs@ == layered(base.node_runs@, run_layers(outputs))
}

/// How the branch `name` ended with `result`.
pub open spec fn ended(name: Seq<char>, result: Result<TaskContext, NodeError>) -> JsonView {
    let base = Map::empty().insert("branch"@, JsonView::Text(name)).insert(
        "ok"@,
        JsonView::Bool(result is Ok),
    );
    JsonView::Object(
        match result {
            Ok(_) => base,
            Err(e) => base.insert("error"@, JsonView::Text(e.message@)),
        },
    )
}

/// How every branch ended, in declared order.
pub open spec fn all_ended(
    names: Seq<String>,
    results: Seq<Result<TaskContext, NodeError>>,
) -> JsonView {
    JsonView::Array(Seq::new(results.len(), |i: int| ended(names[i]@, results[i])))
}

proof fn lemma_first_failure(results: Seq<Result<TaskContext, NodeError>>, n: int)
    requires
        0 <= n <= results.len(),
        forall|i: int| 0 <= i < n ==> (#[trigger] results[i]) is Ok,
        n < results.len() ==> results[n] is Err,
    ensures
        first_failure(results) == n,
    decreases results.len(),
{
    if n > 0 {
        assert(results[0] is Ok);
        assert forall|i: int| 0 <= i < n - 1 implies (#[trigger] results.drop_first()[i]) is Ok by {
            assert(results[i + 1] is Ok);
        }
        lemma_first_failure(results.drop_first(), n - 1);
    }
}

/// A node that runs a fixed list of branches and merges what they return.
#[derive(Debug, PartialEq, Eq)]
pub struct ParallelNode {
    identity: String,
    branches: Vec<String>,
    branch_failure: BranchFailure,
}

impl ParallelNode {
    /// The node's own name.
    pub closed spec fn identified(&self) -> Seq<char> {
        self.identity@
    }

    /// The branches' names, in declared order.
    pub closed spec fn branch_names(&self) -> Seq<String> {
        self.branches@
    }

    /// What becomes of the node when a branch fails.
    pub closed spec fn on_failure(&self) -> BranchFailure {
        self.branch_failure
    }

    /// A node that fans out to the named branches, in this order.
    pub fn new(identity: &str, branches: Vec<String>) -> (r: Self)
        ensures
            r.identified() == identity@,
            r.branch_names() == branches@,
            r.on_failure() == BranchFailure::FailRun,
    {
        ParallelNode { identity: owned(identity), branches, branch_failure: BranchFailure::FailRun }
    }

    /// The same node with another way of taking failures.
    pub fn with_branch_failure(self, branch_failure: BranchFailure) -> (r: Self)
        ensures
            r.identified() == self.identified(),
            r.branch_names() == self.branch_names(),
            r.on_failure() == branch_failure,
    {
        ParallelNode { identity: self.identity, branches: self.branches, branch_failure }
    }

    /// The node's own name.
    pub fn name(&self) -> (r: &str)
        ensures
            r@ == self.identified(),
    {
        self.identity.as_str()
    }

    /// Merge the outputs into `base`, in order.
    pub fn merge_branch_outputs(base: TaskContext, branch_outputs: Vec<TaskContext>) -> (r:
        TaskContext)
        ensures
            is_merge(base, branch_outputs@, r),
    {
        let ghost outputs = branch_outputs@;
        let mut back: Vec<TaskContext> = Vec::new();
        let mut rest = branch_outputs;
        assert(back@.reverse() =~= outputs.skip(outputs.len() as int));
        while rest.len() > 0
            invariant
                rest@.len() <= outputs.len(),
                rest@ == outputs.take(rest@.len() as int),
                back@.reverse() == outputs.skip(rest@.len() as int),
            decreases rest@.len(),
        {
            let ghost n = rest@.len() as int;
            let ghost before = back@;
            match rest.pop() {
                Some(out) => {
                    back.push(out);
                    assert(back@.reverse() =~= seq![out] + before.reverse());
                    assert(outputs.skip(n - 1) =~= seq![outputs[n - 1]] + outputs.skip(n));
                    assert(rest@ =~= outputs.take(n - 1));
                },
                None => {},
            }
        }
        let mut merged = base;
        assert(back@.reverse() =~= outputs);
        assert(node_layers(outputs.take(0)) =~= Seq::empty());
        assert(run_layers(outputs.take(0)) =~= Seq::empty());
        while back.len() > 0
            invariant
                back@.len() <= outputs.len(),
                back@.reverse() == outputs.skip(outputs.len() - back@.len()),
                is_merge(base, outputs.take(outputs.len() - back@.len()), merged),
            decreases back@.len(),
        {
            let ghost n = outputs.len() - back@.len();
            let ghost before = back@;
            match back.pop() {
                Some(out) => {
                    proof {
                        assert(before.reverse()[0] == out);
                        assert(outputs.skip(n)[0] == outputs[n]);
                        assert(out == outputs[n]);
                        assert(back@.reverse() =~= before.reverse().drop_first());
                        assert(outputs.skip(n).drop_first() =~= outputs.skip(n + 1));
                        assert(node_layers(outputs.take(n + 1)).drop_last() =~= node_layers(
                            outputs.take(n),
                        ));
                        assert(run_layers(outputs.take(n + 1)).drop_last() =~= run_layers(
                            outputs.take(n),
                        ));
                    }
                    merged.nodes.extend(out.nodes);
                    merged.node_runs.extend(out.node_runs);
                },
                None => {},
            }
        }
        assert(outputs.take(outputs.len() as int) =~= outputs);
        merged
    }

    /// Merge what the branches returned into the context they were given.
    pub fn merge(&self, ctx: TaskContext, results: BranchResults) -> (r: Result<
        TaskContext,
        NodeError,
    >)
        requires
            results@.len() == self.branch_names().len(),
        ensures
            match self.on_failure() {
                BranchFailure::FailRun => if first_failure(results@) < results@.len() {
                    r matches Err(e) && results@[first_failure(results@)] == Err::<
                        TaskContext,
                        NodeError,
                    >(e)
                } else {
                    r matches Ok(out) && is_merge(ctx, survivors(results@), out)
                },
                BranchFailure::Tolerate => r matches Ok(out) && exists|merged: TaskContext| #[trigger]
                    is_merge(ctx, survivors(results@), merged) && out.stamped(
                        merged,
                        self.identified(),
                        all_ended(self.branch_names(), results@),
                    ),
            },
    {
        let ghost all = results@;
        let mut rest = results;
        let mut reversed: BranchResults = Vec::new();
        assert(reversed@.reverse() =~= all.skip(all.len() as int));
        while rest.len() > 0
            invariant
                rest@.len() <= all.len(),
                rest@ == all.take(rest@.len() as int),
                reversed@.reverse() == all.skip(rest@.len() as int),
            decreases rest@.len(),
        {
            let ghost n = rest@.len() as int;
            let ghost before = reversed@;
            match rest.pop() {
                Some(result) => {
                    reversed.push(result);
                    assert(reversed@.reverse() =~= seq![result] + before.reverse());
                    assert(all.skip(n - 1) =~= seq![all[n - 1]] + all.skip(n));
                    assert(rest@ =~= all.take(n - 1));
                },
                None => {},
            }
        }
        assert(reversed@.reverse() =~= all);
        let mut outputs: Vec<TaskContext> = Vec::new();
        let mut outcomes: Vec<Json> = Vec::new();
        let ghost names = self.branches@;
        assert(outputs@ =~= survivors(all.take(0)));
        let fail_run = match self.branch_failure {
            BranchFailure::FailRun => true,
            BranchFailure::Tolerate => false,
        };
        let mut i: usize = 0;
        while reversed.len() > 0
            invariant
                i + reversed@.len() == all.len(),
                all == results@,
                all.len() == self.branches.len(),
                names == self.branches@,
                fail_run == (self.branch_failure == BranchFailure::FailRun),
                reversed@.reverse() == all.skip(i as int),
                outputs@ == survivors(all.take(i as int)),
                outcomes@.len() == i,
                forall|j: int|
                    0 <= j < i ==> (#[trigger] outcomes@[j])@ == ended(names[j]@, all[j]),
                fail_run ==> forall|j: int| 0 <= j < i ==> (#[trigger] all[j]) is Ok,
            decreases reversed@.len(),
        {
            let ghost before = reversed@;
            match reversed.pop() {
                Some(result) => {
                    proof {
                        assert(before.reverse()[0] == result);
                        assert(all.skip(i as int)[0] == all[i as int]);
                        assert(reversed@.reverse() =~= before.reverse().drop_first());
                        assert(all.skip(i as int).drop_first() =~= all.skip(i + 1));
                        assert(all.take(i + 1).drop_last() =~= all.take(i as int));
                    }
                    match result {
                        Ok(out) => {
                            let outcome = BranchOutcome {
                                branch: self.branches[i].clone(),
                                ok: true,
                                error: None,
                            };
                            outcomes.push(outcome.to_json());
                            outputs.push(out);
                        },
                        Err(err) => {
                            if fail_run {
                                proof {
                                    lemma_first_failure(all, i as int);
                                }
                                return Err(err);
                            }
                            let outcome = BranchOutcome {
                                branch: self.branches[i].clone(),
                                ok: false,
                                error: Some(err.message),
                            };
                            outcomes.push(outcome.to_json());
                        },
                    }
                    i += 1;
                },
                None => {},
            }
        }
        assert(all.take(i as int) =~= all);
        let merged = ParallelNode::merge_branch_outputs(ctx, outputs);
        if fail_run {
            proof {
                lemma_first_failure(all, all.len() as int);
            }
            return Ok(merged);
        }
        assert(json::array_view(outcomes@) =~= all_ended(names, all)->Array_0);
        let record = Json::array(outcomes);
        Ok(put_result(merged, self.identity.as_str(), record))
    }
}

/// Where two outputs hold a result under one key, the later one's counts;
/// what only one of them holds stays.
pub proof fn law_later_branch_wins<V>(
    base: Map<Seq<char>, V>,
    layers: Seq<Map<Seq<char>, V>>,
    later: int,
    key: Seq<char>,
)
    requires
        0 <= later < layers.len(),
        layers[later].contains_key(key),
        forall|i: int| later < i < layers.len() ==> !(#[trigger] layers[i]).contains_key(key),
    ensures
        layered(base, layers).contains_key(key),
        layered(base, layers)[key] == layers[later][key],
    decreases layers.len(),
{
    if later < layers.len() - 1 {
        assert(!layers[layers.len() - 1].contains_key(key));
        assert forall|i: int| later < i < layers.drop_last().len() implies !(
        #[trigger] layers.drop_last()[i]).contains_key(key) by {
            assert(!layers[i].contains_key(key));
        }
        law_later_branch_wins(base, layers.drop_last(), later, key);
    }
}

/// What no output holds stays as it was before the fan-out.
pub proof fn law_untouched_keys_survive<V>(
    base: Map<Seq<char>, V>,
    layers: Seq<Map<Seq<char>, V>>,
    key: Seq<char>,
)
    requires
        forall|i: int| 0 <= i < layers.len() ==> !(#[trigger] layers[i]).contains_key(key),
    ensures
        layered(base, layers).contains_key(key) == base.contains_key(key),
        base.contains_key(key) ==> layered(base, layers)[key] == base[key],
    decreases layers.len(),
{
    if layers.len() > 0 {
        assert(!layers[layers.len() - 1].contains_key(key));
        assert forall|i: int| 0 <= i < layers.drop_last().len() implies !(
        #[trigger] layers.drop_last()[i]).contains_key(key) by {
            assert(!layers[i].contains_key(key));
        }
        law_untouched_keys_survive(base, layers.drop_last(), key);
    }
}

/// What is merged are the outputs of the branches that succeeded, all of them
/// and in declared order, wherever failed branches stand between them.
pub proof fn law_survivors_are_the_successes(results: Seq<Result<TaskContext, NodeError>>)
    ensures
        survivors(results) == results.filter(
            |result: Result<TaskContext, NodeError>| result is Ok,
        ).map_values(|result: Result<TaskContext, NodeError>| result->Ok_0),
        forall|i: int|
            0 <= i < results.len() && (#[trigger] results[i]) is Ok ==> survivors(
                results,
            ).contains(results[i]->Ok_0),
    decreases results.len(),
{
    reveal(Seq::filter);
    let ok = |result: Result<TaskContext, NodeError>| result is Ok;
    let out = |result: Result<TaskContext, NodeError>| result->Ok_0;
    if results.len() > 0 {
        let rest = results.drop_last();
        law_survivors_are_the_successes(rest);
        if results.last() is Ok {
            assert(rest.filter(ok).push(results.last()).map_values(out) =~= rest.filter(
                ok,
            ).map_values(out).push(results.last()->Ok_0));
            assert(survivors(results).last() == results.last()->Ok_0);
        }
        assert forall|i: int| 0 <= i < results.len() && (#[trigger] results[i]) is Ok implies
            survivors(results).contains(results[i]->Ok_0) by {
            if i < rest.len() {
                assert(rest[i] is Ok);
                let at = choose|at: int|
                    0 <= at < survivors(rest).len() && survivors(rest)[at] == results[i]->Ok_0;
                assert(survivors(results)[at] == results[i]->Ok_0);
            } else {
                assert(survivors(results)[survivors(results).len() - 1] == results[i]->Ok_0);
            }
        }
    } else {
        assert(results.filter(ok).map_values(out) =~= survivors(results));
    }
}

/// Whether the branch at `i` succeeded with a result under `key`, and no later
/// one did.
pub open spec fn holds_last(
    results: Seq<Result<TaskContext, NodeError>>,
    i: int,
    key: Seq<char>,
) -> bool {
    &&& 0 <= i < results.len()
    &&& results[i] is Ok
    &&& results[i]->Ok_0.nodes@.contains_key(key)
    &&& forall|j: int|
        i < j < results.len() && (#[trigger] results[j]) is Ok
            ==> !results[j]->Ok_0.nodes@.contains_key(key)
}

/// Whether the branch at `i` succeeded with an execution record under `key`,
/// and no later one did.
pub open spec fn ran_last(
    results: Seq<Result<TaskContext, NodeError>>,
    i: int,
    key: Seq<char>,
) -> bool {
    &&& 0 <= i < results.len()
    &&& results[i] is Ok
    &&& results[i]->Ok_0.node_runs@.contains_key(key)
    &&& forall|j: int|
        i < j < results.len() && (#[trigger] results[j]) is Ok
            ==> !results[j]->Ok_0.node_runs@.contains_key(key)
}

/// Whether no branch that succeeded has a result under `key`.
pub open spec fn none_holds(results: Seq<Result<TaskContext, NodeError>>, key: Seq<char>) -> bool {
    forall|j: int|
        0 <= j < results.len() && (#[trigger] results[j]) is Ok
            ==> !results[j]->Ok_0.nodes@.contains_key(key)
}

/// Whether no branch that succeeded has an execution record under `key`.
pub open spec fn none_ran(results: Seq<Result<TaskContext, NodeError>>, key: Seq<char>) -> bool {
    forall|j: int|
        0 <= j < results.len() && (#[trigger] results[j]) is Ok
            ==> !results[j]->Ok_0.node_runs@.contains_key(key)
}

proof fn lemma_merged_results(
    base: Map<Seq<char>, Json>,
    results: Seq<Result<TaskContext, NodeError>>,
    i: int,
    key: Seq<char>,
)
    ensures
        ({
            let merged = layered(base, node_layers(survivors(results)));
            &&& holds_last(results, i, key) ==> merged.contains_key(key) && merged[key]
                == results[i]->Ok_0.nodes@[key]
            &&& none_holds(results, key) ==> merged.contains_key(key) == base.contains_key(key)
                && (base.contains_key(key) ==> merged[key] == base[key])
        }),
    decreases results.len(),
{
    if results.len() > 0 {
        let rest = results.drop_last();
        let n = results.len() - 1;
        lemma_merged_results(base, rest, i, key);
        assert(forall|j: int| 0 <= j < n ==> rest[j] == results[j]);
        if results.last() is Ok {
            assert(results[n] is Ok);
            assert(node_layers(survivors(results)).drop_last() =~= node_layers(survivors(rest)));
            assert(node_layers(survivors(results)).last() == results[n]->Ok_0.nodes@);
        }
        if holds_last(results, i, key) && i < n {
            assert(rest[i] is Ok);
            assert(holds_last(rest, i, key));
        }
        if none_holds(results, key) {
            assert(none_holds(rest, key));
        }
    }
}

proof fn lemma_merged_runs(
    base: Map<Seq<char>, NodeRun>,
    results: Seq<Result<TaskContext, NodeError>>,
    i: int,
    key: Seq<char>,
)
    ensures
        ({
            let merged = layered(base, run_layers(survivors(results)));
            &&& ran_last(results, i, key) ==> merged.contains_key(key) && merged[key]
                == results[i]->Ok_0.node_runs@[key]
            &&& none_ran(results, key) ==> merged.contains_key(key) == base.contains_key(key) && (
            base.contains_key(key) ==> merged[key] == base[key])
        }),
    decreases results.len(),
{
    if results.len() > 0 {
        let rest = results.drop_last();
        let n = results.len() - 1;
        lemma_merged_runs(base, rest, i, key);
        assert(forall|j: int| 0 <= j < n ==> rest[j] == results[j]);
        if results.last() is Ok {
            assert(results[n] is Ok);
            assert(run_layers(survivors(results)).drop_last() =~= run_layers(survivors(rest)));
            assert(run_layers(survivors(results)).last() == results[n]->Ok_0.node_runs@);
        }
        if ran_last(results, i, key) && i < n {
            assert(rest[i] is Ok);
            assert(ran_last(rest, i, key));
        }
        if none_ran(results, key) {
            assert(none_ran(rest, key));
        }
    }
}

/// Where failures are tolerated, the merged context has what each branch that
/// succeeded holds and no later one that succeeded holds, wherever failed
/// branches stand in the list; what none of them holds is as it was before the
/// fan-out. The node's own entry apart, which records how the branches ended.
pub proof fn law_tolerated_failures_lose_no_other_branch(
    node: &ParallelNode,
    ctx: TaskContext,
    results: BranchResults,
    r: Result<TaskContext, NodeError>,
    i: int,
    key: Seq<char>,
)
    requires
        node.on_failure() is Tolerate,
        ParallelNode::merge.ensures((node, ctx, results), r),
    ensures
        r is Ok,
        holds_last(results@, i, key) && key != node.identified() ==> r->Ok_0.result_of(key)
            == Some(results@[i]->Ok_0.nodes@[key]@),
        none_holds(results@, key) && key != node.identified() ==> r->Ok_0.result_of(key)
            == ctx.result_of(key),
        ran_last(results@, i, key) ==> r->Ok_0.node_runs@.contains_key(key)
            && r->Ok_0.node_runs@[key] == results@[i]->Ok_0.node_runs@[key],
        none_ran(results@, key) ==> r->Ok_0.node_runs@.contains_key(key)
            == ctx.node_runs@.contains_key(key) && (ctx.node_runs@.contains_key(key)
            ==> r->Ok_0.node_runs@[key] == ctx.node_runs@[key]),
        r->Ok_0.event == ctx.event,
        r->Ok_0.metadata == ctx.metadata,
{
    lemma_merged_results(ctx.nodes@, results@, i, key);
    lemma_merged_runs(ctx.node_runs@, results@, i, key);
    let merged = choose|merged: TaskContext| #[trigger]
        is_merge(ctx, survivors(results@), merged) && r->Ok_0.stamped(
            merged,
            node.identified(),
            all_ended(node.branch_names(), results@),
        );
    assert(r->Ok_0.results() == merged.results().insert(
        node.identified(),
        all_ended(node.branch_names(), results@),
    ));
}

/// Where failures are tolerated, the node's own entry says of each branch, in
/// declared order, its name, whether it succeeded and what it failed with.
pub proof fn law_tolerated_failures_are_recorded(
    node: &ParallelNode,
    ctx: TaskContext,
    results: BranchResults,
    r: Result<TaskContext, NodeError>,
    i: int,
)
    requires
        node.on_failure() is Tolerate,
        results@.len() == node.branch_names().len(),
        0 <= i < results@.len(),
        ParallelNode::merge.ensures((node, ctx, results), r),
    ensures
        r matches Ok(out) && out.result_of(node.identified()) matches Some(JsonView::Array(record))
            && {
            &&& record.len() == results@.len()
            &&& record[i].get_str("branch"@) == Some(node.branch_names()[i]@)
            &&& results@[i] is Ok ==> record[i].get("ok"@) == Some(JsonView::Bool(true))
                && record[i].get("error"@) is None
            &&& results@[i] is Err ==> record[i].get("ok"@) == Some(JsonView::Bool(false))
                && record[i].get_str("error"@) == Some(results@[i]->Err_0.message@)
        },
{
    reveal_strlit("branch");
    reveal_strlit("ok");
    reveal_strlit("error");
    assert("branch"@.len() == 6);
    assert("ok"@.len() == 2);
    assert("error"@.len() == 5);
    let record = all_ended(node.branch_names(), results@);
    let merged = choose|merged: TaskContext| #[trigger]
        is_merge(ctx, survivors(results@), merged) && r->Ok_0.stamped(
            merged,
            node.identified(),
            record,
        );
    assert(r->Ok_0.results() == merged.results().insert(node.identified(), record));
    assert(record->Array_0[i] == ended(node.branch_names()[i]@, results@[i]));
}

/// Where a failure is the node's own, the first one in declared order is it.
pub proof fn law_first_failure_becomes_the_nodes_own(
    node: &ParallelNode,
    ctx: TaskContext,
    results: BranchResults,
    r: Result<TaskContext, NodeError>,
    i: int,
)
    requires
        node.on_failure() is FailRun,
        0 <= i < results@.len(),
        results@[i] is Err,
        forall|j: int| 0 <= j < i ==> (#[trigger] results@[j]) is Ok,
        ParallelNode::merge.ensures((node, ctx, results), r),
    ensures
        r is Err,
        r->Err_0 == results@[i]->Err_0,
{
    lemma_first_failure(results@, i);
}

/// Where every branch succeeded, the merged context has what each of them
/// holds and no later one holds, and else what was there before the fan-out.
pub proof fn law_all_successes_are_merged(
    node: &ParallelNode,
    ctx: TaskContext,
    results: BranchResults,
    r: Result<TaskContext, NodeError>,
    i: int,
    key: Seq<char>,
)
    requires
        node.on_failure() is FailRun,
        forall|j: int| 0 <= j < results@.len() ==> (#[trigger] results@[j]) is Ok,
        ParallelNode::merge.ensures((node, ctx, results), r),
    ensures
        r is Ok,
        holds_last(results@, i, key) ==> r->Ok_0.nodes@.contains_key(key) && r->Ok_0.nodes@[key]
            == results@[i]->Ok_0.nodes@[key],
        none_holds(results@, key) ==> r->Ok_0.result_of(key) == ctx.result_of(key),
        ran_last(results@, i, key) ==> r->Ok_0.node_runs@.contains_key(key)
            && r->Ok_0.node_runs@[key] == results@[i]->Ok_0.node_runs@[key],
        none_ran(results@, key) ==> r->Ok_0.node_runs@.contains_key(key)
            == ctx.node_runs@.contains_key(key) && (ctx.node_runs@.contains_key(key)
            ==> r->Ok_0.node_runs@[key] == ctx.node_runs@[key]),
        r->Ok_0.event == ctx.event,
        r->Ok_0.metadata == ctx.metadata,
{
    lemma_first_failure(results@, results@.len() as int);
    lemma_merged_results(ctx.nodes@, results@, i, key);
    lemma_merged_runs(ctx.node_runs@, results@, i, key);
}

/// Merging outputs keeps, under each key, what the last output that has it
/// holds, and what no output has as it was; the event and the metadata stay.
pub proof fn law_last_output_counts(
    base: TaskContext,
    outputs: Vec<TaskContext>,
    merged: TaskContext,
    i: int,
    key: Seq<char>,
)
    requires
        ParallelNode::merge_branch_outputs.ensures((base, outputs), merged),
        0 <= i < outputs@.len(),
    ensures
        outputs@[i].nodes@.contains_key(key) && (forall|j: int|
            i < j < outputs@.len() ==> !(#[trigger] outputs@[j]).nodes@.contains_key(key))
            ==> merged.nodes@.contains_key(key) && merged.nodes@[key] == outputs@[i].nodes@[key],
        outputs@[i].node_runs@.contains_key(key) && (forall|j: int|
            i < j < outputs@.len() ==> !(#[trigger] outputs@[j]).node_runs@.contains_key(key))
            ==> merged.node_runs@.contains_key(key) && merged.node_runs@[key]
            == outputs@[i].node_runs@[key],
        (forall|j: int|
            0 <= j < outputs@.len() ==> !(#[trigger] outputs@[j]).nodes@.contains_key(key))
            ==> merged.result_of(key) == base.result_of(key),
        merged.event == base.event,
        merged.metadata == base.metadata,
{
    let nodes = node_layers(outputs@);
    let runs = run_layers(outputs@);
    assert(forall|j: int| 0 <= j < outputs@.len() ==> nodes[j] == (#[trigger] outputs@[j]).nodes@);
    assert(forall|j: int|
        0 <= j < outputs@.len() ==> runs[j] == (#[trigger] outputs@[j]).node_runs@);
    if outputs@[i].nodes@.contains_key(key) && (forall|j: int|
        i < j < outputs@.len() ==> !(#[trigger] outputs@[j]).nodes@.contains_key(key)) {
        assert forall|j: int| i < j < nodes.len() implies !(#[trigger] nodes[j]).contains_key(
            key,
        ) by {
            assert(!outputs@[j].nodes@.contains_key(key));
        }
        law_later_branch_wins(base.nodes@, nodes, i, key);
    }
    if outputs@[i].node_runs@.contains_key(key) && (forall|j: int|
        i < j < outputs@.len() ==> !(#[trigger] outputs@[j]).node_runs@.contains_key(key)) {
        assert forall|j: int| i < j < runs.len() implies !(#[trigger] runs[j]).contains_key(
            key,
        ) by {
            assert(!outputs@[j].node_runs@.contains_key(key));
        }
        law_later_branch_wins(base.node_runs@, runs, i, key);
    }
    if forall|j: int|
        0 <= j < outputs@.len() ==> !(#[trigger] outputs@[j]).nodes@.contains_key(key) {
        assert forall|j: int| 0 <= j < nodes.len() implies !(#[trigger] nodes[j]).contains_key(
            key,
        ) by {
            assert(!outputs@[j].nodes@.contains_key(key));
        }
        law_untouched_keys_survive(base.nodes@, nodes, key);
    }
}

/// How a branch ended is written with its name and whether it succeeded, and
/// with its error where it has one.
pub proof fn law_outcome_is_written(outcome: &BranchOutcome, r: Json)
    requires
        BranchOutcome::to_json.ensures((outcome,), r),
    ensures
        r@.get_str("branch"@) == Some(outcome.branch@),
        r@.get("ok"@) == Some(JsonView::Bool(outcome.ok)),
        outcome.error is None ==> r@.get("error"@) is None,
        outcome.error is Some ==> r@.get_str("error"@) == Some(outcome.error->0@),
{
    reveal_strlit("branch");
    reveal_strlit("ok");
    reveal_strlit("error");
    assert("branch"@.len() == 6);
    assert("ok"@.len() == 2);
    assert("error"@.len() == 5);
}

/// A node has the name and the branches it was made with, and takes failures as
/// its own unless told to tolerate them.
pub proof fn law_node_is_as_made(
    identity: &str,
    branches: Vec<String>,
    failure: BranchFailure,
    made: ParallelNode,
    changed: ParallelNode,
    name: &str,
)
    requires
        ParallelNode::new.ensures((identity, branches), made),
        ParallelNode::with_branch_failure.ensures((made, failure), changed),
        ParallelNode::name.ensures((&changed,), name),
    ensures
        made.on_failure() is FailRun,
        changed.on_failure() == failure,
        changed.branch_names() == branches@,
        name@ == identity@,
{
}

} // verus!
