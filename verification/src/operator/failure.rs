//! Telling an operator that a run has ended in failure: when to, and in what
//! words.
use vstd::prelude::*;

use crate::json;
use crate::json::{Json, JsonView};
use crate::node::NodeError;
use crate::operator::limits::OperatorPayloadLimits;
use crate::operator::payload;
use crate::operator::payload::{OperatorPayload, OperatorResponseOption, OptionView};
use crate::operator::validate;
use crate::operator::validate::{OperatorValidationError, ValidatedOperatorPayload};
use crate::policy::profiles as harness;
use crate::policy::profiles::{HarnessText, PolicyConfigSource};
use crate::policy::resolve;
use crate::policy::resolve::{merge_opt, Policy};
use crate::string_map::StringMap;
use crate::text;
use crate::text::{concat2, concat4, concat5, decimal_text, owned};

verus! {

// ── Policy ───────────────────────────────────────────────────────────────

/// Which terminal statuses an operator is told of.
#[derive(Clone, Copy, Debug, PartialEq, Eq)]
pub struct NotifyOnStatuses {
    pub failed: bool,
    pub budget_halted: bool,
    pub cancelled: bool,
    pub succeeded: bool,
}

/// The statuses an operator is told of by default: a failure and a budget
/// halt.
pub open spec fn default_statuses() -> NotifyOnStatuses {
    NotifyOnStatuses { failed: true, budget_halted: true, cancelled: false, succeeded: false }
}

impl Default for NotifyOnStatuses {
    fn default() -> (r: Self)
        ensures
            r == default_statuses(),
    {
        NotifyOnStatuses { failed: true, budget_halted: true, cancelled: false, succeeded: false }
    }
}

/// `NotifyOnStatuses` with every status optional.
#[derive(Clone, Copy, Debug, PartialEq, Eq)]
pub struct PartialNotifyOnStatuses {
    pub failed: Option<bool>,
    pub budget_halted: Option<bool>,
    pub cancelled: Option<bool>,
    pub succeeded: Option<bool>,
}

impl Default for PartialNotifyOnStatuses {
    fn default() -> (r: Self)
        ensures
            r == (PartialNotifyOnStatuses {
                failed: None,
                budget_halted: None,
                cancelled: None,
                succeeded: None,
            }),
    {
        PartialNotifyOnStatuses {
            failed: None,
            budget_halted: None,
            cancelled: None,
            succeeded: None,
        }
    }
}

/// `base` with the statuses that `over` sets.
pub open spec fn statuses_merged(
    base: NotifyOnStatuses,
    over: PartialNotifyOnStatuses,
) -> NotifyOnStatuses {
    NotifyOnStatuses {
        failed: resolve::merged(base.failed, over.failed),
        budget_halted: resolve::merged(base.budget_halted, over.budget_halted),
        cancelled: resolve::merged(base.cancelled, over.cancelled),
        succeeded: resolve::merged(base.succeeded, over.succeeded),
    }
}

/// Merge `over` onto `base`, status by status.
fn merge_notify_on_statuses(base: NotifyOnStatuses, over: &PartialNotifyOnStatuses) -> (r:
    NotifyOnStatuses)
    ensures
        r == statuses_merged(base, *over),
{
    let mut base = base;
    if let Some(v) = over.failed {
        base.failed = v;
    }
    if let Some(v) = over.budget_halted {
        base.budget_halted = v;
    }
    if let Some(v) = over.cancelled {
        base.cancelled = v;
    }
    if let Some(v) = over.succeeded {
        base.succeeded = v;
    }
    base
}

/// When an operator is told of a run's end, and with what priority.
#[derive(Clone, Copy, Debug, PartialEq, Eq)]
pub struct FailureNotifyPolicy {
    /// Which terminal statuses are told.
    pub notify_on_statuses: NotifyOnStatuses,
    /// The priority of the queued item.
    pub failure_item_priority: i32,
}

/// The built-in policy.
pub open spec fn builtin() -> FailureNotifyPolicy {
    FailureNotifyPolicy { notify_on_statuses: default_statuses(), failure_item_priority: 0 }
}

impl Default for FailureNotifyPolicy {
    fn default() -> (r: Self)
        ensures
            r == builtin(),
    {
        FailureNotifyPolicy {
            notify_on_statuses: NotifyOnStatuses::default(),
            failure_item_priority: 0,
        }
    }
}

/// `FailureNotifyPolicy` with every knob optional.
#[derive(Clone, Copy, Debug, PartialEq, Eq)]
pub struct PartialFailureNotifyPolicy {
    pub notify_on_statuses: Option<PartialNotifyOnStatuses>,
    pub failure_item_priority: Option<i32>,
}

impl Default for PartialFailureNotifyPolicy {
    fn default() -> (r: Self)
        ensures
            r == (PartialFailureNotifyPolicy {
                notify_on_statuses: None,
                failure_item_priority: None,
            }),
    {
        PartialFailureNotifyPolicy { notify_on_statuses: None, failure_item_priority: None }
    }
}

impl Policy for FailureNotifyPolicy {
    type Partial = PartialFailureNotifyPolicy;

    /// The statuses are merged one by one, not all or nothing.
    open spec fn applied(self, over: PartialFailureNotifyPolicy) -> Self {
        FailureNotifyPolicy {
            notify_on_statuses: match over.notify_on_statuses {
                Some(partial) => statuses_merged(self.notify_on_statuses, partial),
                None => self.notify_on_statuses,
            },
            failure_item_priority: resolve::merged(
                self.failure_item_priority,
                over.failure_item_priority,
            ),
        }
    }

    fn apply(self, over: &PartialFailureNotifyPolicy) -> (r: Self) {
        FailureNotifyPolicy {
            notify_on_statuses: match &over.notify_on_statuses {
                Some(partial) => merge_notify_on_statuses(self.notify_on_statuses, partial),
                None => self.notify_on_statuses,
            },
            failure_item_priority: merge_opt(
                self.failure_item_priority,
                over.failure_item_priority,
            ),
        }
    }
}

/// What a layer sets one status to.
pub open spec fn status_knob(
    layer: Option<&PartialFailureNotifyPolicy>,
    read: spec_fn(PartialNotifyOnStatuses) -> Option<bool>,
) -> Option<bool> {
    match layer {
        Some(l) => match l.notify_on_statuses {
            Some(s) => read(s),
            None => None,
        },
        None => None,
    }
}

/// Each knob of the resolved policy, each status on its own, has the event's
/// value, else the profile's, else the harness's, else the built-in one.
pub proof fn law_precedence(
    harness_defaults: Option<&PartialFailureNotifyPolicy>,
    profile: Option<&PartialFailureNotifyPolicy>,
    event_override: Option<&PartialFailureNotifyPolicy>,
    r: FailureNotifyPolicy,
)
    requires
        r == resolve::resolved(builtin(), harness_defaults, profile, event_override),
    ensures
        r.failure_item_priority == resolve::by_precedence(
            resolve::knob(event_override, |l: PartialFailureNotifyPolicy| l.failure_item_priority),
            resolve::knob(profile, |l: PartialFailureNotifyPolicy| l.failure_item_priority),
            resolve::knob(harness_defaults, |l: PartialFailureNotifyPolicy| l.failure_item_priority),
            0i32,
        ),
        r.notify_on_statuses.failed == resolve::by_precedence(
            status_knob(event_override, |s: PartialNotifyOnStatuses| s.failed),
            status_knob(profile, |s: PartialNotifyOnStatuses| s.failed),
            status_knob(harness_defaults, |s: PartialNotifyOnStatuses| s.failed),
            true,
        ),
        r.notify_on_statuses.budget_halted == resolve::by_precedence(
            status_knob(event_override, |s: PartialNotifyOnStatuses| s.budget_halted),
            status_knob(profile, |s: PartialNotifyOnStatuses| s.budget_halted),
            status_knob(harness_defaults, |s: PartialNotifyOnStatuses| s.budget_halted),
            true,
        ),
        r.notify_on_statuses.cancelled == resolve::by_precedence(
            status_knob(event_override, |s: PartialNotifyOnStatuses| s.cancelled),
            status_knob(profile, |s: PartialNotifyOnStatuses| s.cancelled),
            status_knob(harness_defaults, |s: PartialNotifyOnStatuses| s.cancelled),
            false,
        ),
        r.notify_on_statuses.succeeded == resolve::by_precedence(
            status_knob(event_override, |s: PartialNotifyOnStatuses| s.succeeded),
            status_knob(profile, |s: PartialNotifyOnStatuses| s.succeeded),
            status_knob(harness_defaults, |s: PartialNotifyOnStatuses| s.succeeded),
            false,
        ),
{
}

/// The priority of an item that can wait.
pub const LOW_PRIORITY: i32 = -5;

/// The priority of an item that should come early.
pub const HIGH_PRIORITY: i32 = 5;

/// The default statuses, each set.
pub open spec fn all_statuses() -> PartialNotifyOnStatuses {
    PartialNotifyOnStatuses {
        failed: Some(true),
        budget_halted: Some(true),
        cancelled: Some(false),
        succeeded: Some(false),
    }
}

fn default_status_bundle() -> (r: PartialNotifyOnStatuses)
    ensures
        r == all_statuses(),
{
    PartialNotifyOnStatuses {
        failed: Some(true),
        budget_halted: Some(true),
        cancelled: Some(false),
        succeeded: Some(false),
    }
}

/// The bundle with the default statuses and the given priority.
pub open spec fn bundle(priority: i32) -> PartialFailureNotifyPolicy {
    PartialFailureNotifyPolicy {
        notify_on_statuses: Some(all_statuses()),
        failure_item_priority: Some(priority),
    }
}

/// The bundle of a name, if it is one of the three.
pub open spec fn bundle_named(name: Seq<char>) -> Option<PartialFailureNotifyPolicy> {
    if name == "baseline"@ {
        Some(bundle(0))
    } else if name == "cheap-fast"@ {
        Some(bundle(LOW_PRIORITY))
    } else if name == "thorough"@ {
        Some(bundle(HIGH_PRIORITY))
    } else {
        None
    }
}

/// The built-in policy, restated: selecting it changes nothing.
pub fn baseline() -> (r: PartialFailureNotifyPolicy)
    ensures
        r == bundle(0),
{
    PartialFailureNotifyPolicy {
        notify_on_statuses: Some(default_status_bundle()),
        failure_item_priority: Some(0),
    }
}

/// The same statuses, at a lower priority.
pub fn cheap_fast() -> (r: PartialFailureNotifyPolicy)
    ensures
        r == bundle(LOW_PRIORITY),
{
    PartialFailureNotifyPolicy {
        notify_on_statuses: Some(default_status_bundle()),
        failure_item_priority: Some(LOW_PRIORITY),
    }
}

/// The same statuses, at a higher priority.
pub fn thorough() -> (r: PartialFailureNotifyPolicy)
    ensures
        r == bundle(HIGH_PRIORITY),
{
    PartialFailureNotifyPolicy {
        notify_on_statuses: Some(default_status_bundle()),
        failure_item_priority: Some(HIGH_PRIORITY),
    }
}

/// Look up one of the three names; any other has no bundle.
pub fn profile_by_name(name: &str) -> (r: Option<PartialFailureNotifyPolicy>)
    ensures
        r == bundle_named(name@),
{
    if *name == *"baseline" {
        Some(baseline())
    } else if *name == *"cheap-fast" {
        Some(cheap_fast())
    } else if *name == *"thorough" {
        Some(thorough())
    } else {
        None
    }
}

/// Selecting the baseline profile changes nothing.
pub proof fn law_baseline_is_no_op()
    ensures
        resolve::resolved(builtin(), None, Some(&bundle(0)), None) == builtin(),
{
}

/// The harness section this policy's knobs live under.
pub const WORKFLOW_KEY: &'static str = "run_failure_notification";

/// Read this policy's defaults out of what a source holds.
pub fn read_harness_policy_defaults_from<D: Fn(&Json) -> Result<PartialFailureNotifyPolicy, String>>(
    source: &PolicyConfigSource,
    file: &HarnessText,
    decode: D,
) -> (r: Result<Option<PartialFailureNotifyPolicy>, NodeError>)
    requires
        forall|doc: &Json| decode.requires((doc,)),
    ensures
        harness::defaults_outcome(*source, *file, WORKFLOW_KEY@, decode, r),
{
    harness::read_harness_policy_defaults_from(source, file, WORKFLOW_KEY, decode)
}

/// Resolve a profile name, preferring the harness's profile of that name to
/// the built-in one.
pub fn resolve_profile_from<D: Fn(&Json) -> Result<StringMap<PartialFailureNotifyPolicy>, String>>(
    profile_name: Option<&str>,
    source: &PolicyConfigSource,
    file: &HarnessText,
    decode: D,
) -> (r: Result<Option<PartialFailureNotifyPolicy>, NodeError>)
    requires
        forall|doc: &Json| decode.requires((doc,)),
    ensures
        harness::profile_outcome(
            profile_name,
            *source,
            *file,
            WORKFLOW_KEY@,
            decode,
            profile_by_name,
            r,
        ),
{
    harness::resolve_profile_from(profile_name, source, file, WORKFLOW_KEY, decode, profile_by_name)
}

/// Resolve the policy of a run from what a source holds, a profile name and
/// the event's override.
pub fn resolve_policy_for_run_from<
    D: Fn(&Json) -> Result<PartialFailureNotifyPolicy, String>,
    E: Fn(&Json) -> Result<StringMap<PartialFailureNotifyPolicy>, String>,
>(
    source: &PolicyConfigSource,
    file: &HarnessText,
    profile_name: Option<&str>,
    event_override: Option<&PartialFailureNotifyPolicy>,
    decode: D,
    decode_profiles: E,
) -> (r: Result<FailureNotifyPolicy, NodeError>)
    requires
        forall|doc: &Json| decode.requires((doc,)),
        forall|doc: &Json| decode_profiles.requires((doc,)),
    ensures
        harness::run_outcome(
            builtin(),
            *source,
            *file,
            WORKFLOW_KEY@,
            profile_name,
            event_override,
            decode,
            decode_profiles,
            profile_by_name,
            r,
        ),
        *source is Builtin ==> match profile_name {
            None => r == Ok::<FailureNotifyPolicy, NodeError>(
                resolve::resolved(builtin(), None, None, event_override),
            ),
            Some(name) => match bundle_named(name@) {
                Some(bundle) => r == Ok::<FailureNotifyPolicy, NodeError>(
                    resolve::resolved(builtin(), None, Some(&bundle), event_override),
                ),
                None => r is Err && r->Err_0.message@ == harness::unknown_profile(
                    name@,
                    WORKFLOW_KEY@,
                ),
            },
        },
{
    harness::resolve_run(
        FailureNotifyPolicy::default(),
        source,
        file,
        WORKFLOW_KEY,
        profile_name,
        event_override,
        decode,
        decode_profiles,
        profile_by_name,
    )
}

/// The document of a resolved policy.
pub open spec fn policy_document(policy: FailureNotifyPolicy) -> JsonView {
    JsonView::Object(
        json::json_object().insert(
            "notify_on_statuses"@,
            JsonView::Object(
                json::json_object().insert(
                    "failed"@,
                    JsonView::Bool(policy.notify_on_statuses.failed),
                ).insert(
                    "budget_halted"@,
                    JsonView::Bool(policy.notify_on_statuses.budget_halted),
                ).insert("cancelled"@, JsonView::Bool(policy.notify_on_statuses.cancelled)).insert(
                    "succeeded"@,
                    JsonView::Bool(policy.notify_on_statuses.succeeded),
                ),
            ),
        ).insert(
            "failure_item_priority"@,
            json::json_i64(policy.failure_item_priority as i64),
        ),
    )
}

/// The resolved policy as a document to stamp.
pub fn policy_state(policy: &FailureNotifyPolicy) -> (r: Json)
    ensures
        r@ == policy_document(*policy),
{
    let statuses = Json::object().with(
        "failed",
        Json::Bool(policy.notify_on_statuses.failed),
    ).with("budget_halted", Json::Bool(policy.notify_on_statuses.budget_halted)).with(
        "cancelled",
        Json::Bool(policy.notify_on_statuses.cancelled),
    ).with("succeeded", Json::Bool(policy.notify_on_statuses.succeeded));
    Json::object().with("notify_on_statuses", statuses).with(
        "failure_item_priority",
        Json::sint(policy.failure_item_priority as i64),
    )
}

// ── The decision ─────────────────────────────────────────────────────────

/// Whether a run that ended with `status` is told of.
pub open spec fn notifies(status: Seq<char>, statuses: NotifyOnStatuses) -> bool {
    if status == "failed"@ {
        statuses.failed
    } else if status == "budget_halted"@ {
        statuses.budget_halted
    } else if status == "cancelled"@ {
        statuses.cancelled
    } else if status == "succeeded"@ {
        statuses.succeeded
    } else {
        false
    }
}

/// Whether an operator is told of a run that ended with `terminal_status`.
/// A status that is none of the four is never told.
pub fn should_notify(terminal_status: &str, policy: &FailureNotifyPolicy) -> (r: bool)
    ensures
        r == notifies(terminal_status@, policy.notify_on_statuses),
{
    if *terminal_status == *"failed" {
        policy.notify_on_statuses.failed
    } else if *terminal_status == *"budget_halted" {
        policy.notify_on_statuses.budget_halted
    } else if *terminal_status == *"cancelled" {
        policy.notify_on_statuses.cancelled
    } else if *terminal_status == *"succeeded" {
        policy.notify_on_statuses.succeeded
    } else {
        false
    }
}

// ── The words ────────────────────────────────────────────────────────────

/// What stands at the end of a shortened summary.
pub const TRUNCATION_MARKER: &'static str = "…[truncated]";

/// A failed node and its error.
#[derive(Clone, Debug, PartialEq, Eq)]
pub struct FailedNode {
    pub name: String,
    pub error: String,
}

impl FailedNode {
    /// The node `name`, failed with `error`.
    pub fn new(name: &str, error: &str) -> (r: Self)
        ensures
            r.name@ == name@,
            r.error@ == error@,
    {
        FailedNode { name: owned(name), error: owned(error) }
    }
}

/// The summary's fixed part: how the run ended, its workflow and its id.
pub open spec fn header_of(
    status: Seq<char>,
    workflow_type: Seq<char>,
    run_id: Seq<char>,
) -> Seq<char> {
    (if status == "budget_halted"@ {
        "Run halted: budget limit reached"@
    } else {
        "Run failed"@
    }) + "\nWorkflow: "@ + workflow_type + "\nRun: "@ + run_id + "\n"@
}

/// The summary's last line: the first failed node, and how many more there
/// are.
pub open spec fn node_line_of(nodes: Seq<FailedNode>) -> Seq<char> {
    if nodes.len() == 0 {
        "No specific node failure recorded."@
    } else {
        let first = "Failing node: "@ + nodes[0].name@ + " — "@ + nodes[0].error@;
        if nodes.len() == 1 {
            first
        } else {
            first + " (+"@ + text::decimal((nodes.len() - 1) as nat) + " more failed node"@ + (
            if nodes.len() == 2 {
                ")"@
            } else {
                "s)"@
            })
        }
    }
}

/// `line` when it has at most `room` characters; else as much of it as leaves
/// room for the marker, and the marker, itself cut where there is no room even
/// for that.
pub open spec fn shortened(line: Seq<char>, room: int) -> Seq<char> {
    let marker = TRUNCATION_MARKER@;
    if line.len() <= room {
        line
    } else if room >= marker.len() {
        line.take(room - marker.len()) + marker
    } else if room > 0 {
        marker.take(room)
    } else {
        Seq::empty()
    }
}

/// The summary of a failed run in at most `max` characters, unless its header
/// alone has more.
pub open spec fn summary_of(
    status: Seq<char>,
    workflow_type: Seq<char>,
    run_id: Seq<char>,
    nodes: Seq<FailedNode>,
    max: nat,
) -> Seq<char> {
    let header = header_of(status, workflow_type, run_id);
    header + shortened(node_line_of(nodes), max - header.len())
}

/// The responses offered: acknowledging, and looking at the run.
pub open spec fn acknowledgements() -> Seq<OptionView> {
    seq![
        OptionView { key: "acknowledge"@, label: "Acknowledge"@ },
        OptionView { key: "view_run"@, label: "View run"@ },
    ]
}

fn header(terminal_status: &str, workflow_type: &str, run_id: &str) -> (r: String)
    ensures
        r@ == header_of(terminal_status@, workflow_type@, run_id@),
{
    let status_line = if *terminal_status == *"budget_halted" {
        "Run halted: budget limit reached"
    } else {
        "Run failed"
    };
    let mut out = concat5(status_line, "\nWorkflow: ", workflow_type, "\nRun: ", run_id);
    out.append("\n");
    out
}

fn node_line(failed_nodes: &[FailedNode]) -> (r: String)
    ensures
        r@ == node_line_of(failed_nodes@),
{
    if failed_nodes.len() == 0 {
        return owned("No specific node failure recorded.");
    }
    let first = concat4(
        "Failing node: ",
        failed_nodes[0].name.as_str(),
        " — ",
        failed_nodes[0].error.as_str(),
    );
    if failed_nodes.len() == 1 {
        first
    } else {
        let more: usize = failed_nodes.len() - 1;
        concat5(
            first.as_str(),
            " (+",
            decimal_text(more as u64).as_str(),
            " more failed node",
            if more == 1 {
                ")"
            } else {
                "s)"
            },
        )
    }
}

fn shorten(line: &str, room: usize) -> (r: String)
    ensures
        r@ == shortened(line@, room as int),
{
    if line.unicode_len() <= room {
        return owned(line);
    }
    let marker_chars: usize = TRUNCATION_MARKER.unicode_len();
    if room >= marker_chars {
        let kept = line.substring_char(0, room - marker_chars);
        assert(kept@ =~= line@.take(room - marker_chars));
        concat2(kept, TRUNCATION_MARKER)
    } else {
        let cut = TRUNCATION_MARKER.substring_char(0, room);
        assert(cut@ =~= (if room > 0 {
            TRUNCATION_MARKER@.take(room as int)
        } else {
            Seq::empty()
        }));
        owned(cut)
    }
}

/// Render a run's end for an operator and validate the payload. A summary
/// that is too long is shortened in its last line alone, and then ends with
/// the marker as far as that fits; the header is never cut, so limits too
/// small for it reject the payload.
pub fn render_failure_payload(
    gate_id: &str,
    run_id: &str,
    workflow_type: &str,
    terminal_status: &str,
    failed_nodes: &[FailedNode],
    limits: &OperatorPayloadLimits,
) -> (r: Result<ValidatedOperatorPayload, OperatorValidationError>)
    ensures
        ({
            let summary = summary_of(
                terminal_status@,
                workflow_type@,
                run_id@,
                failed_nodes@,
                limits.max_summary_chars as nat,
            );
            match validate::rejection(summary, acknowledgements(), *limits) {
                None => {
                    &&& r is Ok
                    &&& r->Ok_0.inner().gate_id@ == gate_id@
                    &&& r->Ok_0.inner().rendered_summary@ == summary
                    &&& r->Ok_0.inner().offered() == acknowledgements()
                    &&& r->Ok_0.inner().is_intact()
                },
                Some(why) => r is Err && r->Err_0@ == why,
            }
        }),
{
    let head = header(terminal_status, workflow_type, run_id);
    let line = node_line(failed_nodes);
    let header_chars: usize = head.as_str().unicode_len();
    let room: usize = if limits.max_summary_chars > header_chars {
        limits.max_summary_chars - header_chars
    } else {
        0
    };
    let last = shorten(line.as_str(), room);
    let summary = concat2(head.as_str(), last.as_str());
    proof {
        reveal_strlit("No specific node failure recorded.");
        reveal_strlit("Failing node: ");
        lemma_no_room(node_line_of(failed_nodes@), limits.max_summary_chars - header_chars);
    }
    let mut options: Vec<OperatorResponseOption> = Vec::new();
    options.push(OperatorResponseOption::new("acknowledge", "Acknowledge"));
    options.push(OperatorResponseOption::new("view_run", "View run"));
    assert(payload::option_views(options@) =~= acknowledgements());
    validate::validate(OperatorPayload::new(gate_id, summary.as_str(), options), limits)
}

proof fn lemma_no_room(line: Seq<char>, room: int)
    requires
        line.len() > 0,
    ensures
        room <= 0 ==> shortened(line, room) == shortened(line, 0),
{
}

// ── Laws ─────────────────────────────────────────────────────────────────

/// The header is never cut.
pub proof fn law_header_is_never_cut(
    status: Seq<char>,
    workflow_type: Seq<char>,
    run_id: Seq<char>,
    nodes: Seq<FailedNode>,
    max: nat,
)
    ensures
        text::starts_with(
            summary_of(status, workflow_type, run_id, nodes, max),
            header_of(status, workflow_type, run_id),
        ),
{
    let header = header_of(status, workflow_type, run_id);
    assert(summary_of(status, workflow_type, run_id, nodes, max).take(header.len() as int)
        =~= header);
}

/// With room for the header and the marker, a summary shows the whole last
/// line or ends with the marker.
pub proof fn law_shortening_is_marked(
    status: Seq<char>,
    workflow_type: Seq<char>,
    run_id: Seq<char>,
    nodes: Seq<FailedNode>,
    max: nat,
)
    requires
        header_of(status, workflow_type, run_id).len() + TRUNCATION_MARKER@.len() <= max,
    ensures
        ({
            let header = header_of(status, workflow_type, run_id);
            let summary = summary_of(status, workflow_type, run_id, nodes, max);
            let marker = TRUNCATION_MARKER@;
            ||| summary == header + node_line_of(nodes)
            ||| summary.len() >= marker.len() && summary.skip(summary.len() - marker.len())
                == marker
        }),
{
    let summary = summary_of(status, workflow_type, run_id, nodes, max);
    let marker = TRUNCATION_MARKER@;
    if summary != header_of(status, workflow_type, run_id) + node_line_of(nodes) {
        assert(summary.skip(summary.len() - marker.len()) =~= marker);
    }
}

/// With room for the header, a run's end can always be told: the summary keeps
/// to its limit and the payload is not rejected.
pub proof fn law_failure_is_always_reportable(
    status: Seq<char>,
    workflow_type: Seq<char>,
    run_id: Seq<char>,
    nodes: Seq<FailedNode>,
    limits: OperatorPayloadLimits,
)
    requires
        header_of(status, workflow_type, run_id).len() <= limits.max_summary_chars,
        limits.min_options <= 2 <= limits.max_options,
        limits.max_label_chars >= 11,
    ensures
        summary_of(
            status,
            workflow_type,
            run_id,
            nodes,
            limits.max_summary_chars as nat,
        ).len() <= limits.max_summary_chars,
        validate::rejection(
            summary_of(status, workflow_type, run_id, nodes, limits.max_summary_chars as nat),
            acknowledgements(),
            limits,
        ) is None,
{
    let summary = summary_of(
        status,
        workflow_type,
        run_id,
        nodes,
        limits.max_summary_chars as nat,
    );
    reveal_strlit("Run halted: budget limit reached");
    reveal_strlit("Run failed");
    reveal_strlit("Acknowledge");
    reveal_strlit("View run");
    assert(summary[0] == 'R');
    assert(!text::is_white(summary[0]));
    validate::law_rejection_is_exact(summary, acknowledgements(), limits);
}

/// A budget halt and a failure are told apart by the summary's first words.
pub proof fn law_budget_halt_reads_differently(
    status: Seq<char>,
    workflow_type: Seq<char>,
    run_id: Seq<char>,
    nodes: Seq<FailedNode>,
    max: nat,
)
    requires
        status != "budget_halted"@,
    ensures
        summary_of(status, workflow_type, run_id, nodes, max) != summary_of(
            "budget_halted"@,
            workflow_type,
            run_id,
            nodes,
            max,
        ),
{
    reveal_strlit("Run halted: budget limit reached");
    reveal_strlit("Run failed");
    assert(summary_of(status, workflow_type, run_id, nodes, max)[4] == 'f');
    assert(summary_of("budget_halted"@, workflow_type, run_id, nodes, max)[4] == 'h');
}

/// How many more nodes failed than the one told, as it is written.
pub open spec fn more_failed(more: nat) -> Seq<char> {
    if more == 0 {
        ""@
    } else if more == 1 {
        " (+"@ + text::decimal(more) + " more failed node)"@
    } else {
        " (+"@ + text::decimal(more) + " more failed nodes)"@
    }
}

/// With room for it, the summary tells the first failed node by its name,
/// directly followed by its own error; of the others, how many there are.
pub proof fn law_first_failed_node_is_told(
    gate_id: &str,
    run_id: &str,
    workflow_type: &str,
    terminal_status: &str,
    failed_nodes: &[FailedNode],
    limits: &OperatorPayloadLimits,
    r: Result<ValidatedOperatorPayload, OperatorValidationError>,
)
    requires
        failed_nodes@.len() > 0,
        workflow_type@.len() + run_id@.len() + failed_nodes@[0].name@.len()
            + failed_nodes@[0].error@.len() + more_failed((failed_nodes@.len() - 1) as nat).len()
            + 100 <= limits.max_summary_chars,
        limits.min_options <= 2 <= limits.max_options,
        limits.max_label_chars >= 11,
        render_failure_payload.ensures(
            (gate_id, run_id, workflow_type, terminal_status, failed_nodes, limits),
            r,
        ),
    ensures
        r is Ok,
        r->Ok_0.inner().gate_id@ == gate_id@,
        ({
            let head = if terminal_status@ == "budget_halted"@ {
                "Run halted: budget limit reached"@
            } else {
                "Run failed"@
            };
            r->Ok_0.inner().rendered_summary@ == head + ("\nWorkflow: "@ + workflow_type@) + (
            "\nRun: "@ + run_id@) + ("\nFailing node: "@ + failed_nodes@[0].name@ + " — "@
                + failed_nodes@[0].error@) + more_failed((failed_nodes@.len() - 1) as nat)
        }),
{
    reveal_strlit("Run halted: budget limit reached");
    reveal_strlit("Run failed");
    reveal_strlit("\nWorkflow: ");
    reveal_strlit("\nRun: ");
    reveal_strlit("\n");
    reveal_strlit("Failing node: ");
    reveal_strlit("\nFailing node: ");
    reveal_strlit(" — ");
    reveal_strlit("");
    reveal_strlit(" (+");
    reveal_strlit(" more failed node");
    reveal_strlit(" more failed node)");
    reveal_strlit(" more failed nodes)");
    reveal_strlit(")");
    reveal_strlit("s)");
    let nodes = failed_nodes@;
    let more = (nodes.len() - 1) as nat;
    let first = "Failing node: "@ + nodes[0].name@ + " — "@ + nodes[0].error@;
    assert(" more failed node"@ + ")"@ =~= " more failed node)"@);
    assert(" more failed node"@ + "s)"@ =~= " more failed nodes)"@);
    assert(node_line_of(nodes) =~= first + more_failed(more));
    assert("\n"@ + "Failing node: "@ =~= "\nFailing node: "@);
    law_failure_is_always_reportable(
        terminal_status@,
        workflow_type@,
        run_id@,
        nodes,
        *limits,
    );
    let head = if terminal_status@ == "budget_halted"@ {
        "Run halted: budget limit reached"@
    } else {
        "Run failed"@
    };
    assert(r->Ok_0.inner().rendered_summary@ =~= head + ("\nWorkflow: "@ + workflow_type@) + (
    "\nRun: "@ + run_id@) + ("\nFailing node: "@ + nodes[0].name@ + " — "@ + nodes[0].error@)
        + more_failed(more));
}

/// What a run's end is told as does not depend on the names or the errors of
/// the failed nodes behind the first.
pub proof fn law_other_failed_nodes_only_count(
    gate_id: &str,
    run_id: &str,
    workflow_type: &str,
    terminal_status: &str,
    failed_nodes: &[FailedNode],
    others: &[FailedNode],
    limits: &OperatorPayloadLimits,
    r: Result<ValidatedOperatorPayload, OperatorValidationError>,
    s: Result<ValidatedOperatorPayload, OperatorValidationError>,
)
    requires
        failed_nodes@.len() == others@.len(),
        failed_nodes@.len() > 0 ==> failed_nodes@[0].name@ == others@[0].name@
            && failed_nodes@[0].error@ == others@[0].error@,
        render_failure_payload.ensures(
            (gate_id, run_id, workflow_type, terminal_status, failed_nodes, limits),
            r,
        ),
        render_failure_payload.ensures(
            (gate_id, run_id, workflow_type, terminal_status, others, limits),
            s,
        ),
    ensures
        r is Ok == s is Ok,
        r is Ok ==> r->Ok_0.inner().rendered_summary@ == s->Ok_0.inner().rendered_summary@,
        r is Err ==> r->Err_0@ == s->Err_0@,
{
}

/// Of each way to end a run an operator is told exactly when the policy asks
/// for that one, and of any other never.
pub proof fn law_each_status_has_its_own_switch(
    status: &str,
    policy: &FailureNotifyPolicy,
    r: bool,
)
    requires
        should_notify.ensures((status, policy), r),
    ensures
        status@ == "failed"@ ==> r == policy.notify_on_statuses.failed,
        status@ == "budget_halted"@ ==> r == policy.notify_on_statuses.budget_halted,
        status@ == "cancelled"@ ==> r == policy.notify_on_statuses.cancelled,
        status@ == "succeeded"@ ==> r == policy.notify_on_statuses.succeeded,
        r ==> status@ == "failed"@ || status@ == "budget_halted"@ || status@ == "cancelled"@
            || status@ == "succeeded"@,
{
    reveal_strlit("failed");
    reveal_strlit("budget_halted");
    reveal_strlit("cancelled");
    reveal_strlit("succeeded");
    assert("failed"@.len() == 6);
    assert("budget_halted"@.len() == 13);
    assert("cancelled"@[0] != "succeeded"@[0]);
}

/// The three named bundles tell of the same ends of a run and differ in their
/// priority; no other name has one.
pub proof fn law_bundles_by_name(name: &str, r: Option<PartialFailureNotifyPolicy>)
    requires
        profile_by_name.ensures((name,), r),
    ensures
        name@ == "baseline"@ ==> r is Some && r->0.failure_item_priority == Some(0i32),
        name@ == "cheap-fast"@ ==> r is Some && r->0.failure_item_priority == Some(-5i32),
        name@ == "thorough"@ ==> r is Some && r->0.failure_item_priority == Some(5i32),
        name@ != "baseline"@ && name@ != "cheap-fast"@ && name@ != "thorough"@ ==> r is None,
        r is Some ==> {
            &&& r->0.notify_on_statuses is Some
            &&& r->0.notify_on_statuses->0.failed == Some(true)
            &&& r->0.notify_on_statuses->0.budget_halted == Some(true)
            &&& r->0.notify_on_statuses->0.cancelled == Some(false)
            &&& r->0.notify_on_statuses->0.succeeded == Some(false)
        },
{
    reveal_strlit("baseline");
    reveal_strlit("cheap-fast");
    reveal_strlit("thorough");
    assert("baseline"@.len() == 8);
    assert("cheap-fast"@.len() == 10);
    assert("thorough"@.len() == 8);
    assert("baseline"@[0] != "thorough"@[0]);
}

/// Without a harness file, each status has the event's value, else the default
/// one, whichever profile is named; the priority has the event's value, else
/// that of the profile, else the built-in one. An unknown name fails.
pub proof fn law_builtin_source_resolves_by_name<
    D: Fn(&Json) -> Result<PartialFailureNotifyPolicy, String>,
    E: Fn(&Json) -> Result<StringMap<PartialFailureNotifyPolicy>, String>,
>(
    file: &HarnessText,
    profile_name: Option<&str>,
    bundle: Option<PartialFailureNotifyPolicy>,
    event_override: Option<&PartialFailureNotifyPolicy>,
    decode: D,
    decode_profiles: E,
    r: Result<FailureNotifyPolicy, NodeError>,
)
    requires
        profile_name is Some ==> profile_by_name.ensures((profile_name->0,), bundle),
        profile_name is None ==> bundle is None,
        resolve_policy_for_run_from::<D, E>.ensures(
            (
                &PolicyConfigSource::Builtin,
                file,
                profile_name,
                event_override,
                decode,
                decode_profiles,
            ),
            r,
        ),
    ensures
        r is Err <==> profile_name is Some && bundle is None,
        r is Ok ==> {
            &&& r->Ok_0.failure_item_priority == (if event_override is Some
                && event_override->0.failure_item_priority is Some {
                event_override->0.failure_item_priority->0
            } else if bundle is Some && bundle->0.failure_item_priority is Some {
                bundle->0.failure_item_priority->0
            } else {
                0
            })
            &&& r->Ok_0.notify_on_statuses.failed == (if event_override is Some && event_override->0.notify_on_statuses is Some
                && event_override->0.notify_on_statuses->0.failed is Some {
                event_override->0.notify_on_statuses->0.failed->0
            } else {
                true
            })
            &&& r->Ok_0.notify_on_statuses.budget_halted == (if event_override is Some && event_override->0.notify_on_statuses is Some
                && event_override->0.notify_on_statuses->0.budget_halted is Some {
                event_override->0.notify_on_statuses->0.budget_halted->0
            } else {
                true
            })
            &&& r->Ok_0.notify_on_statuses.cancelled == (if event_override is Some && event_override->0.notify_on_statuses is Some
                && event_override->0.notify_on_statuses->0.cancelled is Some {
                event_override->0.notify_on_statuses->0.cancelled->0
            } else {
                false
            })
            &&& r->Ok_0.notify_on_statuses.succeeded == (if event_override is Some && event_override->0.notify_on_statuses is Some
                && event_override->0.notify_on_statuses->0.succeeded is Some {
                event_override->0.notify_on_statuses->0.succeeded->0
            } else {
                false
            })
        },
{
}

/// The document of a policy has each status and the priority under its own
/// name.
pub proof fn law_policy_document_has_every_knob(policy: &FailureNotifyPolicy, r: Json)
    requires
        policy_state.ensures((policy,), r),
    ensures
        r@.get("notify_on_statuses"@) matches Some(statuses) && {
            &&& statuses.get("failed"@) == Some(JsonView::Bool(policy.notify_on_statuses.failed))
            &&& statuses.get("budget_halted"@) == Some(
                JsonView::Bool(policy.notify_on_statuses.budget_halted),
            )
            &&& statuses.get("cancelled"@) == Some(
                JsonView::Bool(policy.notify_on_statuses.cancelled),
            )
            &&& statuses.get("succeeded"@) == Some(
                JsonView::Bool(policy.notify_on_statuses.succeeded),
            )
        },
        r@.get("failure_item_priority"@) matches Some(n) && n.as_i64() == Some(
            policy.failure_item_priority as i64,
        ),
{
    reveal_strlit("notify_on_statuses");
    reveal_strlit("failure_item_priority");
    reveal_strlit("failed");
    reveal_strlit("budget_halted");
    reveal_strlit("cancelled");
    reveal_strlit("succeeded");
    assert("notify_on_statuses"@.len() == 18);
    assert("failure_item_priority"@.len() == 21);
    assert("failed"@.len() == 6);
    assert("budget_halted"@.len() == 13);
    assert("cancelled"@.len() == 9);
    assert("succeeded"@.len() == 9);
    assert("cancelled"@[0] != "succeeded"@[0]);
}

/// A summary that is too long is cut at its end alone, and marked there: with
/// room for the header and the mark it is the beginning of the summary that
/// roomier limits give, and then the mark; one that fits is that summary. The
/// limits on the options aside, both are then told.
pub proof fn law_long_summary_is_cut_at_its_end(
    gate_id: &str,
    run_id: &str,
    workflow_type: &str,
    terminal_status: &str,
    failed_nodes: &[FailedNode],
    limits: &OperatorPayloadLimits,
    roomy: &OperatorPayloadLimits,
    r: Result<ValidatedOperatorPayload, OperatorValidationError>,
    s: Result<ValidatedOperatorPayload, OperatorValidationError>,
)
    requires
        limits.min_options <= 2 <= limits.max_options,
        limits.max_label_chars >= 11,
        workflow_type@.len() + run_id@.len() + 62 <= limits.max_summary_chars,
        s is Ok,
        s->Ok_0.inner().rendered_summary@.len() + 12 <= roomy.max_summary_chars,
        render_failure_payload.ensures(
            (gate_id, run_id, workflow_type, terminal_status, failed_nodes, limits),
            r,
        ),
        render_failure_payload.ensures(
            (gate_id, run_id, workflow_type, terminal_status, failed_nodes, roomy),
            s,
        ),
    ensures
        r is Ok,
        ({
            let cut = r->Ok_0.inner().rendered_summary@;
            let whole = s->Ok_0.inner().rendered_summary@;
            let max = limits.max_summary_chars;
            &&& whole.len() <= max ==> cut == whole
            &&& whole.len() > max ==> cut == whole.take(max - 12) + "…[truncated]"@
        }),
{
    reveal_strlit("Run halted: budget limit reached");
    reveal_strlit("Run failed");
    reveal_strlit("\nWorkflow: ");
    reveal_strlit("\nRun: ");
    reveal_strlit("\n");
    reveal_strlit("…[truncated]");
    assert("…[truncated]"@.len() == 12);
    let header = header_of(terminal_status@, workflow_type@, run_id@);
    let line = node_line_of(failed_nodes@);
    let max = limits.max_summary_chars as nat;
    law_failure_is_always_reportable(
        terminal_status@,
        workflow_type@,
        run_id@,
        failed_nodes@,
        *limits,
    );
    let whole = s->Ok_0.inner().rendered_summary@;
    if line.len() > roomy.max_summary_chars - header.len() {
        assert(whole.len() >= roomy.max_summary_chars);
    }
    assert(whole == header + line);
    let cut = r->Ok_0.inner().rendered_summary@;
    if whole.len() > max {
        assert(cut =~= whole.take(max - 12) + "…[truncated]"@);
    }
}

/// A header that does not fit is not cut: the summary is rejected as too long.
pub proof fn law_header_that_does_not_fit_is_rejected(
    gate_id: &str,
    run_id: &str,
    workflow_type: &str,
    terminal_status: &str,
    failed_nodes: &[FailedNode],
    limits: &OperatorPayloadLimits,
    r: Result<ValidatedOperatorPayload, OperatorValidationError>,
)
    requires
        workflow_type@.len() + run_id@.len() + 28 > limits.max_summary_chars,
        render_failure_payload.ensures(
            (gate_id, run_id, workflow_type, terminal_status, failed_nodes, limits),
            r,
        ),
    ensures
        r is Err && r->Err_0 is RenderedSummaryTooLong,
        r->Err_0->RenderedSummaryTooLong_max == limits.max_summary_chars,
{
    reveal_strlit("Run halted: budget limit reached");
    reveal_strlit("Run failed");
    reveal_strlit("\nWorkflow: ");
    reveal_strlit("\nRun: ");
    reveal_strlit("\n");
    let header = header_of(terminal_status@, workflow_type@, run_id@);
    let summary = summary_of(
        terminal_status@,
        workflow_type@,
        run_id@,
        failed_nodes@,
        limits.max_summary_chars as nat,
    );
    assert(header.len() > limits.max_summary_chars);
    assert(summary[0] == 'R');
    assert(!text::is_white(summary[0]));
    assert(!text::is_blank(summary));
}

/// A run without a failed node on record says so; and whatever failed, the
/// operator can acknowledge it or look at the run, in this order.
pub proof fn law_operator_can_acknowledge_or_look(
    gate_id: &str,
    run_id: &str,
    workflow_type: &str,
    terminal_status: &str,
    failed_nodes: &[FailedNode],
    limits: &OperatorPayloadLimits,
    r: Result<ValidatedOperatorPayload, OperatorValidationError>,
)
    requires
        r is Ok,
        render_failure_payload.ensures(
            (gate_id, run_id, workflow_type, terminal_status, failed_nodes, limits),
            r,
        ),
    ensures
        ({
            let p = r->Ok_0.inner();
            &&& p.gate_id@ == gate_id@
            &&& p.options@.len() == 2
            &&& p.options@[0].key@ == "acknowledge"@ && p.options@[0].label@ == "Acknowledge"@
            &&& p.options@[1].key@ == "view_run"@ && p.options@[1].label@ == "View run"@
            &&& failed_nodes@.len() == 0 && workflow_type@.len() + run_id@.len() + 84
                <= limits.max_summary_chars ==> p.rendered_summary@ == (if terminal_status@
                == "budget_halted"@ {
                "Run halted: budget limit reached"@
            } else {
                "Run failed"@
            }) + "\nWorkflow: "@ + workflow_type@ + "\nRun: "@ + run_id@ + "\n"@
                + "No specific node failure recorded."@
        }),
{
    reveal_strlit("Run halted: budget limit reached");
    reveal_strlit("Run failed");
    reveal_strlit("\nWorkflow: ");
    reveal_strlit("\nRun: ");
    reveal_strlit("\n");
    reveal_strlit("No specific node failure recorded.");
    let p = r->Ok_0.inner();
    assert(p.offered().len() == p.options@.len());
    assert(p.offered()[0] == p.options@[0]@);
    assert(p.offered()[1] == p.options@[1]@);
}

/// The defaults and the profiles of this policy are looked up in its own
/// section of the harness file, and a profile there before the built-in one.
pub proof fn law_own_section_is_read<
    D: Fn(&Json) -> Result<PartialFailureNotifyPolicy, String>,
    E: Fn(&Json) -> Result<StringMap<PartialFailureNotifyPolicy>, String>,
>(
    source: &PolicyConfigSource,
    file: &HarnessText,
    decode: D,
    decode_profiles: E,
    means: spec_fn(JsonView) -> Result<PartialFailureNotifyPolicy, String>,
    profiles_mean: spec_fn(JsonView) -> Result<StringMap<PartialFailureNotifyPolicy>, String>,
    name: Option<&str>,
    bundle: Option<PartialFailureNotifyPolicy>,
    key: &str,
    defaults: Result<Option<PartialFailureNotifyPolicy>, NodeError>,
    profiles: Result<Option<StringMap<PartialFailureNotifyPolicy>>, NodeError>,
    r: Result<Option<PartialFailureNotifyPolicy>, NodeError>,
    s: Result<Option<PartialFailureNotifyPolicy>, NodeError>,
)
    requires
        forall|doc: Json, d: Result<PartialFailureNotifyPolicy, String>| #[trigger]
            decode.ensures((&doc,), d) ==> d == means(doc@),
        forall|doc: Json, d: Result<StringMap<PartialFailureNotifyPolicy>, String>| #[trigger]
            decode_profiles.ensures((&doc,), d) ==> d == profiles_mean(doc@),
        key@ == "run_failure_notification"@,
        harness::read_harness_policy_defaults_from::<PartialFailureNotifyPolicy, D>.ensures(
            (source, file, key, decode),
            defaults,
        ),
        harness::read_harness_profiles_from::<PartialFailureNotifyPolicy, E>.ensures(
            (source, file, key, decode_profiles),
            profiles,
        ),
        name is Some ==> profile_by_name.ensures((name->0,), bundle),
        read_harness_policy_defaults_from::<D>.ensures((source, file, decode), r),
        resolve_profile_from::<E>.ensures((name, source, file, decode_profiles), s),
    ensures
        r is Ok == defaults is Ok,
        r is Ok ==> r->Ok_0 == defaults->Ok_0,
        name is None ==> s is Ok && s->Ok_0 is None,
        name is Some && profiles is Err ==> s is Err,
        name is Some && profiles is Ok ==> (if profiles->Ok_0 is Some
            && profiles->Ok_0->0@.contains_key(name->0@) {
            s is Ok && s->Ok_0 == Some(profiles->Ok_0->0@[name->0@])
        } else if bundle is Some {
            s is Ok && s->Ok_0 == bundle
        } else {
            s is Err
        }),
{
    if name is Some {
        let h = choose|h: Result<Option<StringMap<PartialFailureNotifyPolicy>>, NodeError>|
            {
                &&& #[trigger] harness::profiles_outcome(*source, *file, key@, decode_profiles, h)
                &&& match h {
                    Err(e) => s is Err && s->Err_0.message@ == e.message@,
                    Ok(Some(m)) if m@.contains_key(name->0@) => s == Ok::<
                        Option<PartialFailureNotifyPolicy>,
                        NodeError,
                    >(Some(m@[name->0@])),
                    _ => harness::builtin_outcome(name->0, key@, profile_by_name, s),
                }
            };
        assert(harness::profiles_outcome(*source, *file, key@, decode_profiles, profiles));
        assert(h is Ok == profiles is Ok);
        assert(h is Ok ==> h->Ok_0 == profiles->Ok_0);
    }
}

/// With room for the header but not for the whole mark, the header is followed
/// by as much of the mark as fits, unless the rest fits itself.
pub proof fn law_mark_is_cut_to_its_room(
    gate_id: &str,
    run_id: &str,
    workflow_type: &str,
    terminal_status: &str,
    failed_nodes: &[FailedNode],
    limits: &OperatorPayloadLimits,
    room: int,
    r: Result<ValidatedOperatorPayload, OperatorValidationError>,
)
    requires
        limits.min_options <= 2 <= limits.max_options,
        limits.max_label_chars >= 11,
        0 <= room < 12,
        workflow_type@.len() + run_id@.len() + (if terminal_status@ == "budget_halted"@ {
            50int
        } else {
            28
        }) + room == limits.max_summary_chars,
        render_failure_payload.ensures(
            (gate_id, run_id, workflow_type, terminal_status, failed_nodes, limits),
            r,
        ),
    ensures
        r is Ok,
        r->Ok_0.inner().rendered_summary@ == (if terminal_status@ == "budget_halted"@ {
            "Run halted: budget limit reached"@
        } else {
            "Run failed"@
        }) + "\nWorkflow: "@ + workflow_type@ + "\nRun: "@ + run_id@ + "\n"@
            + "…[truncated]"@.take(room),
{
    reveal_strlit("Run halted: budget limit reached");
    reveal_strlit("Run failed");
    reveal_strlit("\nWorkflow: ");
    reveal_strlit("\nRun: ");
    reveal_strlit("\n");
    reveal_strlit("…[truncated]");
    reveal_strlit("No specific node failure recorded.");
    reveal_strlit("Failing node: ");
    assert("…[truncated]"@.len() == 12);
    let header = header_of(terminal_status@, workflow_type@, run_id@);
    assert(header.len() + room == limits.max_summary_chars);
    assert(node_line_of(failed_nodes@).len() >= 14);
    law_failure_is_always_reportable(
        terminal_status@,
        workflow_type@,
        run_id@,
        failed_nodes@,
        *limits,
    );
    assert("…[truncated]"@.take(0) =~= Seq::<char>::empty());
}

} // verus!
