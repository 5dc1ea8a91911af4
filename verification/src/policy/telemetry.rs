//! What a run's context tells about the run: time, tokens, costs, verdicts.
//!
//! Fractions are left to the caller: time is given in whole milliseconds and
//! each recorded cost as the number that was recorded.
use vstd::prelude::*;

use crate::contract::{NodeRun, TaskContext};
use crate::json;
use crate::json::{Json, JsonNumber, JsonView, NumberView};
use crate::string_map::StringMap;
use crate::text;
use crate::text::concat3;
use crate::time::{Timestamp, NANOS_PER_MILLI};

verus! {

/// What is known of one run.
#[derive(Clone, Debug, PartialEq, Eq)]
pub struct RunTelemetry {
    /// How long the run took, in whole milliseconds.
    pub wall_clock_millis: u128,
    /// How many attempts were made.
    pub total_attempts: u32,
    /// How many of them were retries.
    pub total_retries: u32,
    /// How many tasks passed.
    pub tasks_passed: u32,
    /// How many tasks failed.
    pub tasks_failed: u32,
    /// `stage:verdict` for each stage that gave a verdict.
    pub review_verdicts: Vec<String>,
    /// The input tokens of every node together.
    pub total_input_tokens: u64,
    /// The output tokens of every node together.
    pub total_output_tokens: u64,
    /// The cost each stage recorded, in the order of the stages.
    pub recorded_costs: Vec<JsonNumber>,
    /// The model tier each stage used.
    pub model_tier_used: StringMap<String>,
}

impl Default for RunTelemetry {
    fn default() -> (r: Self)
        ensures
            r.wall_clock_millis == 0,
            r.total_attempts == 0,
            r.total_retries == 0,
            r.tasks_passed == 0,
            r.tasks_failed == 0,
            r.review_verdicts@ == Seq::<String>::empty(),
            r.total_input_tokens == 0,
            r.total_output_tokens == 0,
            r.recorded_costs@ == Seq::<JsonNumber>::empty(),
            r.model_tier_used@ == Map::<Seq<char>, String>::empty(),
    {
        RunTelemetry {
            wall_clock_millis: 0,
            total_attempts: 0,
            total_retries: 0,
            tasks_passed: 0,
            tasks_failed: 0,
            review_verdicts: Vec::new(),
            total_input_tokens: 0,
            total_output_tokens: 0,
            recorded_costs: Vec::new(),
            model_tier_used: StringMap::new(),
        }
    }
}

/// What the context alone does not tell, and where in it to look.
#[derive(Clone, Debug)]
pub struct RunTelemetryInputs<'a> {
    /// The node whose start is the run's start.
    pub start_node_identity: &'a str,
    /// The stages that give verdicts, in order.
    pub verdict_stages: &'a [&'a str],
    /// The stages that record a cost, in order.
    pub cost_bearing_stages: &'a [&'a str],
    /// How many attempts were made.
    pub total_attempts: u32,
    /// How many of them were retries.
    pub total_retries: u32,
    /// How many tasks passed.
    pub tasks_passed: u32,
    /// How many tasks failed.
    pub tasks_failed: u32,
    /// The model tier each stage used.
    pub model_tier_used: StringMap<String>,
}

impl<'a> Default for RunTelemetryInputs<'a> {
    fn default() -> (r: Self)
        ensures
            r.start_node_identity@ == ""@,
            r.verdict_stages@ == Seq::<&str>::empty(),
            r.cost_bearing_stages@ == Seq::<&str>::empty(),
            r.total_attempts == 0,
            r.total_retries == 0,
            r.tasks_passed == 0,
            r.tasks_failed == 0,
            r.model_tier_used@ == Map::<Seq<char>, String>::empty(),
    {
        RunTelemetryInputs {
            start_node_identity: "",
            verdict_stages: &[],
            cost_bearing_stages: &[],
            total_attempts: 0,
            total_retries: 0,
            tasks_passed: 0,
            tasks_failed: 0,
            model_tier_used: StringMap::new(),
        }
    }
}

/// When the named node started, if it is on record.
pub open spec fn started_at(ctx: TaskContext, node: Seq<char>) -> Option<Timestamp> {
    if ctx.node_runs@.contains_key(node) {
        ctx.node_runs@[node].started_at
    } else {
        None
    }
}

/// The whole milliseconds from the named node's start to `now`; none when it
/// has no start or starts after `now`.
pub open spec fn elapsed_millis(ctx: TaskContext, node: Seq<char>, now: Timestamp) -> int {
    match started_at(ctx, node) {
        Some(started) => if now.elapsed_since(started) > 0 {
            now.elapsed_since(started) / 1_000_000
        } else {
            0
        },
        None => 0,
    }
}

/// The whole milliseconds from the named node's start to `now`.
pub fn wall_clock_millis(ctx: &TaskContext, start_node_identity: &str, now: Timestamp) -> (r: u128)
    ensures
        r == elapsed_millis(*ctx, start_node_identity@, now),
{
    match ctx.node_runs.get(start_node_identity) {
        Some(run) => match &run.started_at {
            Some(started) => {
                let elapsed: i128 = now.since(started).nanos;
                if elapsed > 0 {
                    elapsed as u128 / NANOS_PER_MILLI
                } else {
                    0
                }
            },
            None => 0,
        },
        None => 0,
    }
}

/// The input tokens a node recorded.
pub open spec fn input_of(run: NodeRun) -> nat {
    match run.usage {
        Some(usage) => match usage.input_tokens {
            Some(n) => n as nat,
            None => 0,
        },
        None => 0,
    }
}

/// The output tokens a node recorded.
pub open spec fn output_of(run: NodeRun) -> nat {
    match run.usage {
        Some(usage) => match usage.output_tokens {
            Some(n) => n as nat,
            None => 0,
        },
        None => 0,
    }
}

/// The sum of what `field` says of each record.
pub open spec fn sum_runs(runs: Seq<(String, NodeRun)>, field: spec_fn(NodeRun) -> nat) -> nat
    decreases runs.len(),
{
    if runs.len() == 0 {
        0
    } else {
        sum_runs(runs.drop_last(), field) + field(runs.last().1)
    }
}

proof fn lemma_sum_runs_grows(runs: Seq<(String, NodeRun)>, field: spec_fn(NodeRun) -> nat, n: int)
    requires
        0 <= n <= runs.len(),
    ensures
        sum_runs(runs.take(n), field) <= sum_runs(runs, field),
    decreases runs.len(),
{
    if n == runs.len() {
        assert(runs.take(n) =~= runs);
    } else {
        lemma_sum_runs_grows(runs.drop_last(), field, n);
        assert(runs.drop_last().take(n) =~= runs.take(n));
    }
}

/// The input tokens of every node of a run together.
pub open spec fn all_input(ctx: TaskContext) -> nat {
    sum_runs(ctx.node_runs.entries(), |run: NodeRun| input_of(run))
}

/// The output tokens of every node of a run together.
pub open spec fn all_output(ctx: TaskContext) -> nat {
    sum_runs(ctx.node_runs.entries(), |run: NodeRun| output_of(run))
}

/// Whether both sums are in range.
pub open spec fn tokens_fit(ctx: TaskContext) -> bool {
    all_input(ctx) <= u64::MAX && all_output(ctx) <= u64::MAX
}

/// The input and the output tokens of every node together, unless one of the
/// sums is out of range.
pub fn checked_total_tokens(ctx: &TaskContext) -> (r: Option<(u64, u64)>)
    ensures
        match r {
            Some(t) => t.0 == all_input(*ctx) && t.1 == all_output(*ctx),
            None => !tokens_fit(*ctx),
        },
{
    let ghost runs = ctx.node_runs.entries();
    let ghost fi = |run: NodeRun| input_of(run);
    let ghost fo = |run: NodeRun| output_of(run);
    let mut input: u64 = 0;
    let mut output: u64 = 0;
    let mut i: usize = 0;
    while i < ctx.node_runs.len()
        invariant
            i <= runs.len(),
            runs == ctx.node_runs.entries(),
            fi == (|run: NodeRun| input_of(run)),
            fo == (|run: NodeRun| output_of(run)),
            input == sum_runs(runs.take(i as int), fi),
            output == sum_runs(runs.take(i as int), fo),
        decreases runs.len() - i,
    {
        let run = ctx.node_runs.entry(i).1;
        proof {
            assert(runs.take(i + 1).drop_last() =~= runs.take(i as int));
            lemma_sum_runs_grows(runs, fi, i + 1);
            lemma_sum_runs_grows(runs, fo, i + 1);
        }
        let (used_in, used_out): (u64, u64) = match &run.usage {
            Some(usage) => (
                match usage.input_tokens {
                    Some(n) => n,
                    None => 0,
                },
                match usage.output_tokens {
                    Some(n) => n,
                    None => 0,
                },
            ),
            None => (0, 0),
        };
        match (input.checked_add(used_in), output.checked_add(used_out)) {
            (Some(a), Some(b)) => {
                input = a;
                output = b;
            },
            _ => {
                return None;
            },
        }
        i += 1;
    }
    assert(runs.take(i as int) =~= runs);
    Some((input, output))
}

/// The input and the output tokens of every node together.
pub fn total_tokens(ctx: &TaskContext) -> (r: (u64, u64))
    requires
        tokens_fit(*ctx),
    ensures
        r.0 == all_input(*ctx),
        r.1 == all_output(*ctx),
{
    match checked_total_tokens(ctx) {
        Some(t) => t,
        None => (0, 0),
    }
}

/// The cost a stage recorded, if it recorded a number.
pub open spec fn cost_of(ctx: TaskContext, stage: Seq<char>) -> Option<NumberView> {
    match ctx.result_of(stage) {
        Some(doc) => match doc.get("cost_usd"@) {
            Some(JsonView::Number(n)) => Some(n),
            _ => None,
        },
        None => None,
    }
}

/// The costs that the stages recorded, in order; a stage without one has no
/// entry.
pub open spec fn costs(ctx: TaskContext, stages: Seq<&str>) -> Seq<NumberView>
    decreases stages.len(),
{
    if stages.len() == 0 {
        Seq::empty()
    } else {
        match cost_of(ctx, stages.last()@) {
            Some(n) => costs(ctx, stages.drop_last()).push(n),
            None => costs(ctx, stages.drop_last()),
        }
    }
}

/// What the numbers of a list say.
pub open spec fn number_views(v: Seq<JsonNumber>) -> Seq<NumberView> {
    v.map_values(|n: JsonNumber| json::number_view(n))
}

/// The costs that the stages recorded, in order.
pub fn recorded_costs(ctx: &TaskContext, cost_bearing_stages: &[&str]) -> (r: Vec<JsonNumber>)
    ensures
        number_views(r@) == costs(*ctx, cost_bearing_stages@),
{
    let mut out: Vec<JsonNumber> = Vec::new();
    let mut i: usize = 0;
    assert(number_views(out@) =~= costs(*ctx, cost_bearing_stages@.take(0)));
    while i < cost_bearing_stages.len()
        invariant
            i <= cost_bearing_stages@.len(),
            number_views(out@) == costs(*ctx, cost_bearing_stages@.take(i as int)),
        decreases cost_bearing_stages@.len() - i,
    {
        let ghost before = out@;
        let stage = cost_bearing_stages[i];
        assert(cost_bearing_stages@.take(i + 1).drop_last() =~= cost_bearing_stages@.take(
            i as int,
        ));
        match crate::contract::get_result(ctx, stage) {
            Some(doc) => match doc.get("cost_usd") {
                Some(Json::Number(n)) => {
                    let n = n.clone();
                    out.push(n);
                    assert(number_views(out@) =~= number_views(before).push(json::number_view(n)));
                },
                _ => {},
            },
            None => {},
        }
        i += 1;
    }
    assert(cost_bearing_stages@.take(i as int) =~= cost_bearing_stages@);
    out
}

/// The verdict a stage gave, if it gave one.
pub open spec fn verdict_of(ctx: TaskContext, stage: Seq<char>) -> Option<Seq<char>> {
    match ctx.result_of(stage) {
        Some(doc) => doc.get_str("verdict"@),
        None => None,
    }
}

/// `stage:verdict` for each of the stages that gave a verdict, in order.
pub open spec fn verdicts(ctx: TaskContext, stages: Seq<&str>) -> Seq<Seq<char>>
    decreases stages.len(),
{
    if stages.len() == 0 {
        Seq::empty()
    } else {
        match verdict_of(ctx, stages.last()@) {
            Some(v) => verdicts(ctx, stages.drop_last()).push(stages.last()@ + ":"@ + v),
            None => verdicts(ctx, stages.drop_last()),
        }
    }
}

/// `stage:verdict` for each of the stages that gave a verdict, in order.
pub fn review_verdicts(ctx: &TaskContext, verdict_stages: &[&str]) -> (r: Vec<String>)
    ensures
        text::texts(r@) == verdicts(*ctx, verdict_stages@),
{
    let mut out: Vec<String> = Vec::new();
    let mut i: usize = 0;
    assert(text::texts(out@) =~= verdicts(*ctx, verdict_stages@.take(0)));
    while i < verdict_stages.len()
        invariant
            i <= verdict_stages@.len(),
            text::texts(out@) == verdicts(*ctx, verdict_stages@.take(i as int)),
        decreases verdict_stages@.len() - i,
    {
        let ghost before = out@;
        let stage = verdict_stages[i];
        assert(verdict_stages@.take(i + 1).drop_last() =~= verdict_stages@.take(i as int));
        match crate::contract::get_result(ctx, stage) {
            Some(doc) => match doc.get_str("verdict") {
                Some(v) => {
                    let entry = concat3(stage, ":", v);
                    out.push(entry);
                    assert(text::texts(out@) =~= text::texts(before).push(entry@));
                },
                None => {},
            },
            None => {},
        }
        i += 1;
    }
    assert(verdict_stages@.take(i as int) =~= verdict_stages@);
    out
}

/// Whether `t` is what the context and the inputs tell of a run.
pub open spec fn is_harvest(
    ctx: TaskContext,
    now: Timestamp,
    inputs: RunTelemetryInputs<'_>,
    t: RunTelemetry,
) -> bool {
    &&& t.wall_clock_millis == elapsed_millis(ctx, inputs.start_node_identity@, now)
    &&& t.total_attempts == inputs.total_attempts
    &&& t.total_retries == inputs.total_retries
    &&& t.tasks_passed == inputs.tasks_passed
    &&& t.tasks_failed == inputs.tasks_failed
    &&& text::texts(t.review_verdicts@) == verdicts(ctx, inputs.verdict_stages@)
    &&& t.total_input_tokens == all_input(ctx)
    &&& t.total_output_tokens == all_output(ctx)
    &&& number_views(t.recorded_costs@) == costs(ctx, inputs.cost_bearing_stages@)
    &&& t.model_tier_used == inputs.model_tier_used
}

/// What the context and the inputs tell of a run.
pub fn harvest(ctx: &TaskContext, now: Timestamp, inputs: RunTelemetryInputs<'_>) -> (r:
    RunTelemetry)
    requires
        tokens_fit(*ctx),
    ensures
        is_harvest(*ctx, now, inputs, r),
{
    let (total_input_tokens, total_output_tokens) = total_tokens(ctx);
    RunTelemetry {
        wall_clock_millis: wall_clock_millis(ctx, inputs.start_node_identity, now),
        total_attempts: inputs.total_attempts,
        total_retries: inputs.total_retries,
        tasks_passed: inputs.tasks_passed,
        tasks_failed: inputs.tasks_failed,
        review_verdicts: review_verdicts(ctx, inputs.verdict_stages),
        total_input_tokens,
        total_output_tokens,
        recorded_costs: recorded_costs(ctx, inputs.cost_bearing_stages),
        model_tier_used: inputs.model_tier_used,
    }
}

/// The cost of a further stage comes at the end of the costs of the stages
/// before it: a stage that recorded a number adds that number and keeps every
/// cost before it, and any other stage adds nothing.
pub proof fn law_every_recorded_cost_is_listed(
    ctx: &TaskContext,
    stages: &[&str],
    more: &[&str],
    stage: &str,
    before: Vec<JsonNumber>,
    after: Vec<JsonNumber>,
)
    requires
        more@ == stages@.push(stage),
        recorded_costs.ensures((ctx, stages), before),
        recorded_costs.ensures((ctx, more), after),
    ensures
        match ctx.result_of(stage@) {
            Some(doc) => match doc.get("cost_usd"@) {
                Some(JsonView::Number(n)) => number_views(after@) == number_views(before@).push(n)
                    && after@.len() == before@.len() + 1,
                _ => number_views(after@) == number_views(before@),
            },
            None => number_views(after@) == number_views(before@),
        },
        stages@.len() == 0 ==> before@.len() == 0,
{
    assert(more@.drop_last() =~= stages@);
    assert(number_views(after@).len() == after@.len());
    assert(number_views(before@).len() == before@.len());
}

/// The stages that recorded a number as their cost, in order.
pub open spec fn cost_bearing(ctx: TaskContext, stages: Seq<&str>) -> Seq<&str> {
    stages.filter(
        |stage: &str|
            ctx.result_of(stage@) matches Some(doc) && doc.get("cost_usd"@) matches Some(
                JsonView::Number(n),
            ),
    )
}

/// There are as many costs as stages that recorded one, and each is that of
/// its stage.
pub proof fn law_costs_are_those_of_the_stages(
    ctx: &TaskContext,
    stages: &[&str],
    r: Vec<JsonNumber>,
)
    requires
        recorded_costs.ensures((ctx, stages), r),
    ensures
        r@.len() == cost_bearing(*ctx, stages@).len(),
        forall|i: int|
            0 <= i < r@.len() ==> ctx.result_of(cost_bearing(*ctx, stages@)[i]@)->0.get(
                "cost_usd"@,
            ) == Some(JsonView::Number(json::number_view(#[trigger] r@[i]))),
{
    lemma_costs_filter(*ctx, stages@);
    assert(number_views(r@).len() == r@.len());
    assert forall|i: int| 0 <= i < r@.len() implies ctx.result_of(
        cost_bearing(*ctx, stages@)[i]@,
    )->0.get("cost_usd"@) == Some(JsonView::Number(json::number_view(#[trigger] r@[i]))) by {
        assert(number_views(r@)[i] == json::number_view(r@[i]));
    }
}

proof fn lemma_costs_filter(ctx: TaskContext, stages: Seq<&str>)
    ensures
        costs(ctx, stages).len() == cost_bearing(ctx, stages).len(),
        forall|i: int|
            0 <= i < costs(ctx, stages).len() ==> ctx.result_of(
                cost_bearing(ctx, stages)[i]@,
            )->0.get("cost_usd"@) == Some(JsonView::Number(#[trigger] costs(ctx, stages)[i])),
    decreases stages.len(),
{
    reveal(Seq::filter);
    if stages.len() > 0 {
        lemma_costs_filter(ctx, stages.drop_last());
    }
}

/// A further stage that gave a verdict adds it, behind the stage's name and a
/// colon, at the end; any other stage adds nothing, and every verdict before
/// stays.
pub proof fn law_every_verdict_is_listed(
    ctx: &TaskContext,
    stages: &[&str],
    more: &[&str],
    stage: &str,
    before: Vec<String>,
    after: Vec<String>,
)
    requires
        more@ == stages@.push(stage),
        review_verdicts.ensures((ctx, stages), before),
        review_verdicts.ensures((ctx, more), after),
    ensures
        stages@.len() == 0 ==> before@.len() == 0,
        forall|i: int| 0 <= i < before@.len() ==> (#[trigger] after@[i])@ == before@[i]@,
        match ctx.result_of(stage@) {
            Some(doc) => match doc.get("verdict"@) {
                Some(JsonView::Text(v)) => after@.len() == before@.len() + 1 && after@.last()@
                    == stage@ + ":"@ + v,
                _ => after@.len() == before@.len(),
            },
            None => after@.len() == before@.len(),
        },
{
    assert(more@.drop_last() =~= stages@);
    assert(text::texts(after@).len() == after@.len());
    assert(text::texts(before@).len() == before@.len());
    assert forall|i: int| 0 <= i < before@.len() implies (#[trigger] after@[i])@ == before@[i]@ by {
        assert(text::texts(after@)[i] == text::texts(before@)[i]);
    }
    if after@.len() > before@.len() {
        assert(text::texts(after@)[before@.len() as int] == after@.last()@);
    }
}

/// The tokens of a further record are added to both sums, each to its own, and
/// a record that says nothing of its usage adds nothing.
pub proof fn law_tokens_add_up(
    ctx: &TaskContext,
    more: &TaskContext,
    record: (String, NodeRun),
    before: (u64, u64),
    after: (u64, u64),
)
    requires
        more.node_runs.entries() == ctx.node_runs.entries().push(record),
        total_tokens.ensures((ctx,), before),
        total_tokens.ensures((more,), after),
    ensures
        ctx.node_runs.entries().len() == 0 ==> before.0 == 0 && before.1 == 0,
        record.1.usage is None ==> after.0 == before.0 && after.1 == before.1,
        record.1.usage is Some ==> {
            let usage = record.1.usage->0;
            &&& after.0 == before.0 + (if usage.input_tokens is Some {
                usage.input_tokens->0 as int
            } else {
                0
            })
            &&& after.1 == before.1 + (if usage.output_tokens is Some {
                usage.output_tokens->0 as int
            } else {
                0
            })
        },
{
    assert(more.node_runs.entries().drop_last() =~= ctx.node_runs.entries());
}

/// Sums that are in range are told, and are the sums.
pub proof fn law_sums_in_range_are_told(
    ctx: &TaskContext,
    r: Option<(u64, u64)>,
    total: (u64, u64),
)
    requires
        tokens_fit(*ctx),
        checked_total_tokens.ensures((ctx,), r),
        total_tokens.ensures((ctx,), total),
    ensures
        r == Some(total),
{
}

/// Outside leap seconds, a run has taken the whole milliseconds since its first
/// node started; one that has no start, or starts in the future, has taken
/// none.
pub proof fn law_wall_clock_runs_from_the_start(
    ctx: &TaskContext,
    start: &str,
    now: Timestamp,
    r: u128,
)
    requires
        wall_clock_millis.ensures((ctx, start, now), r),
    ensures
        !ctx.node_runs@.contains_key(start@) ==> r == 0,
        ctx.node_runs@.contains_key(start@) && ctx.node_runs@[start@].started_at is None ==> r == 0,
        ctx.node_runs@.contains_key(start@) && ctx.node_runs@[start@].started_at is Some ==> {
            let started = ctx.node_runs@[start@].started_at->0;
            let elapsed = now.at() - started.at();
            !now.is_leap() && !started.is_leap() ==> {
                &&& elapsed < 0 ==> r == 0
                &&& elapsed >= 0 ==> r * 1_000_000 <= elapsed < (r + 1) * 1_000_000
            }
        },
{
}

/// What is told of a run is what each of its measures says, each in its place.
pub proof fn law_harvest_has_each_measure_in_its_place(
    ctx: &TaskContext,
    now: Timestamp,
    inputs: RunTelemetryInputs<'_>,
    clock: u128,
    tokens: (u64, u64),
    verdicts_given: Vec<String>,
    costs_recorded: Vec<JsonNumber>,
    r: RunTelemetry,
)
    requires
        wall_clock_millis.ensures((ctx, inputs.start_node_identity, now), clock),
        total_tokens.ensures((ctx,), tokens),
        review_verdicts.ensures((ctx, inputs.verdict_stages), verdicts_given),
        recorded_costs.ensures((ctx, inputs.cost_bearing_stages), costs_recorded),
        harvest.ensures((ctx, now, inputs), r),
    ensures
        r.wall_clock_millis == clock,
        r.total_input_tokens == tokens.0,
        r.total_output_tokens == tokens.1,
        text::texts(r.review_verdicts@) == text::texts(verdicts_given@),
        number_views(r.recorded_costs@) == number_views(costs_recorded@),
        r.total_attempts == inputs.total_attempts,
        r.total_retries == inputs.total_retries,
        r.tasks_passed == inputs.tasks_passed,
        r.tasks_failed == inputs.tasks_failed,
        r.model_tier_used == inputs.model_tier_used,
{
}

/// The sums are told unless one of them exceeds what its type holds.
pub proof fn law_sums_are_told_up_to_their_range(ctx: &TaskContext, r: Option<(u64, u64)>)
    requires
        checked_total_tokens.ensures((ctx,), r),
    ensures
        r matches Some(t) ==> t.0 == all_input(*ctx) && t.1 == all_output(*ctx),
        r is None ==> all_input(*ctx) > 0xffff_ffff_ffff_ffff || all_output(*ctx)
            > 0xffff_ffff_ffff_ffff,
{
}

/// A run has taken the whole milliseconds of the span since its first node
/// started, where that is not negative.
pub proof fn law_wall_clock_is_the_span(
    ctx: &TaskContext,
    start: &str,
    now: Timestamp,
    elapsed: crate::time::TimeDelta,
    r: u128,
)
    requires
        wall_clock_millis.ensures((ctx, start, now), r),
        ctx.node_runs@.contains_key(start@),
        ctx.node_runs@[start@].started_at is Some,
        Timestamp::since.ensures((&now, &ctx.node_runs@[start@].started_at->0), elapsed),
    ensures
        elapsed.nanos < 0 ==> r == 0,
        elapsed.nanos >= 0 ==> r * 1_000_000 <= elapsed.nanos < (r + 1) * 1_000_000,
{
}

} // verus!
