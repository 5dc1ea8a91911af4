//! The bounded, cancellable poll over a predicate on a terminal session.
use vstd::prelude::*;

use crate::contract::{put_result, TaskContext};
use crate::json;
use crate::json::{Json, JsonView};
use crate::node::{InputBinding, NodeError};
use crate::nodes::terminal::driver::Reply;
use crate::nodes::terminal::event;
use crate::nodes::terminal::event::event_policy;
use crate::nodes::terminal::identity::HasSessionInput;
use crate::nodes::terminal::predicate;
use crate::nodes::terminal::predicate::{
    evaluate, marker_path, AgentState, AwaitPredicate, MarkerObservation, Observation,
};
use crate::nodes::terminal::session;
use crate::nodes::terminal::upstream;
use crate::nodes::terminal::upstream::read_session;
use crate::patterns;
use crate::policy::profiles as harness;
use crate::policy::resolve;
use crate::policy::resolve::{merge_opt, Policy};
use crate::text;
use crate::text::{
    chars_of, concat2, concat3, concat4, find_from, owned, parse_i32, quoted, string_of, trimmed,
};
use crate::time;
use crate::time::{parse_rfc3339_parts, Duration, Timestamp, NANOS_PER_MILLI};

pub mod profiles;

verus! {

/// The identity this node runs and stamps its result under.
pub const NODE_NAME: &'static str = "TerminalAwaitNode";

/// What the terminal is asked for to learn whether the process has ended and
/// with which code.
pub const PANE_STATUS_FORMAT: &'static str = "#{pane_dead}:#{pane_dead_status}";

/// How often an await polls and how long it keeps trying.
#[derive(Clone, Copy, Debug, PartialEq, Eq)]
pub struct AwaitPolicy {
    /// Milliseconds between two polls.
    pub poll_interval_ms: u64,
    /// Milliseconds until the await gives up.
    pub timeout_ms: u64,
}

/// The built-in policy.
pub open spec fn builtin() -> AwaitPolicy {
    AwaitPolicy {
        poll_interval_ms: 1_000,
        timeout_ms: 600_000,
    }
}

impl Default for AwaitPolicy {
    fn default() -> (r: Self)
        ensures
            r == builtin(),
    {
        AwaitPolicy {
            poll_interval_ms: 1_000,
            timeout_ms: 600_000,
        }
    }
}

/// `AwaitPolicy` with every knob optional.
#[derive(Clone, Copy, Debug, PartialEq, Eq)]
pub struct PartialAwaitPolicy {
    pub poll_interval_ms: Option<u64>,
    pub timeout_ms: Option<u64>,
}

impl Default for PartialAwaitPolicy {
    fn default() -> (r: Self)
        ensures
            r == (PartialAwaitPolicy { poll_interval_ms: None, timeout_ms: None }),
    {
        PartialAwaitPolicy { poll_interval_ms: None, timeout_ms: None }
    }
}

impl Policy for AwaitPolicy {
    type Partial = PartialAwaitPolicy;

    open spec fn applied(self, over: PartialAwaitPolicy) -> Self {
        AwaitPolicy {
            poll_interval_ms: resolve::merged(self.poll_interval_ms, over.poll_interval_ms),
            timeout_ms: resolve::merged(self.timeout_ms, over.timeout_ms),
        }
    }

    fn apply(self, over: &PartialAwaitPolicy) -> (r: Self) {
        AwaitPolicy {
            poll_interval_ms: merge_opt(self.poll_interval_ms, over.poll_interval_ms),
            timeout_ms: merge_opt(self.timeout_ms, over.timeout_ms),
        }
    }
}

/// Resolve the layers: each knob has the event's value, else the profile's,
/// else the harness's, else the built-in one.
pub fn resolve(
    harness_defaults: Option<&PartialAwaitPolicy>,
    profile: Option<&PartialAwaitPolicy>,
    event_override: Option<&PartialAwaitPolicy>,
) -> (r: AwaitPolicy)
    ensures
        r == resolve::resolved(builtin(), harness_defaults, profile, event_override),
        r.poll_interval_ms == resolve::by_precedence(
            resolve::knob(event_override, |l: PartialAwaitPolicy| l.poll_interval_ms),
            resolve::knob(profile, |l: PartialAwaitPolicy| l.poll_interval_ms),
            resolve::knob(harness_defaults, |l: PartialAwaitPolicy| l.poll_interval_ms),
            builtin().poll_interval_ms,
        ),
        r.timeout_ms == resolve::by_precedence(
            resolve::knob(event_override, |l: PartialAwaitPolicy| l.timeout_ms),
            resolve::knob(profile, |l: PartialAwaitPolicy| l.timeout_ms),
            resolve::knob(harness_defaults, |l: PartialAwaitPolicy| l.timeout_ms),
            builtin().timeout_ms,
        ),
{
    resolve::resolve(AwaitPolicy::default(), harness_defaults, profile, event_override)
}

/// Selecting the baseline profile changes nothing.
pub proof fn law_baseline_is_no_op()
    ensures
        resolve::resolved(builtin(), None, Some(&profiles::baseline_bundle()), None)
            == resolve::resolved(builtin(), None, None, None),
{
}

/// Whether `r` is the failure of the node with this message.
pub open spec fn fails<T>(r: Result<T, NodeError>, message: Seq<char>) -> bool {
    r matches Err(e) && e.message@ == NODE_NAME@ + message
}

/// What the node says when the predicate lacks a field.
pub open spec fn lacks(field: Seq<char>) -> Seq<char> {
    ": ctx.event.predicate is missing `"@ + field + "`"@
}

/// Whether `r` is what a predicate of the event comes to.
pub open spec fn predicate_outcome<D: Fn(&str) -> Result<AgentState, String>>(
    doc: JsonView,
    decode_state: D,
    r: Result<AwaitPredicate, NodeError>,
) -> bool {
    if !(doc is Object) {
        fails(r, ": ctx.event.predicate must be an object"@)
    } else {
        match doc.get_str("type"@) {
            None => fails(r, ": ctx.event.predicate is missing `type`"@),
            Some(ty) => if ty == "marker"@ {
                match (doc.get_str("out"@), doc.get_str("nonce"@)) {
                    (Some(o), Some(n)) => r matches Ok(AwaitPredicate::Marker { out, nonce })
                        && out@ == o && nonce@ == n,
                    (None, _) => fails(r, lacks("out"@)),
                    (Some(_), None) => fails(r, lacks("nonce"@)),
                }
            } else if ty == "detect"@ {
                match doc.get_str("target"@) {
                    None => fails(r, lacks("target"@)),
                    Some(name) => exists|s: &str, d: Result<AgentState, String>| #[trigger]
                        decode_state.ensures((s,), d) && s@ == name && match d {
                            Ok(state) => r == Ok::<AwaitPredicate, NodeError>(
                                AwaitPredicate::Detect { target: state },
                            ),
                            Err(why) => fails(
                                r,
                                ": ctx.event.predicate.target is not a valid AgentState: "@ + why@,
                            ),
                        },
                }
            } else if ty == "regex"@ {
                match doc.get_str("pattern"@) {
                    None => fails(r, lacks("pattern"@)),
                    Some(p) => r matches Ok(AwaitPredicate::Regex { pattern }) && pattern@ == p,
                }
            } else if ty == "silence"@ {
                match doc.get("min_duration_ms"@) {
                    Some(v) => match v.as_u64() {
                        Some(ms) => r matches Ok(AwaitPredicate::Silence { min_duration })
                            && min_duration.nanos == ms * NANOS_PER_MILLI,
                        None => fails(
                            r,
                            ": ctx.event.predicate is missing numeric `min_duration_ms`"@,
                        ),
                    },
                    None => fails(
                        r,
                        ": ctx.event.predicate is missing numeric `min_duration_ms`"@,
                    ),
                }
            } else if ty == "exit_code"@ {
                r == Ok::<AwaitPredicate, NodeError>(
                    AwaitPredicate::ExitCode { expected: expected_code(doc) },
                )
            } else {
                fails(r, ": unknown ctx.event.predicate.type "@ + text::debug_text(ty))
            },
        }
    }
}

/// The exit code a predicate asks for, if it asks for one.
pub open spec fn expected_code(doc: JsonView) -> Option<i32> {
    match doc.get("expected"@) {
        Some(v) => match v.as_i64() {
            Some(n) => Some(n as i32),
            None => None,
        },
        None => None,
    }
}

fn fail<T>(message: &str) -> (r: Result<T, NodeError>)
    ensures
        fails(r, message@),
{
    Err(NodeError::new(concat2(NODE_NAME, message)))
}

fn required_str(doc: &Json, field: &str) -> (r: Result<String, NodeError>)
    ensures
        match doc@.get_str(field@) {
            Some(s) => r matches Ok(t) && t@ == s,
            None => fails(r, lacks(field@)),
        },
{
    match doc.get_str(field) {
        Some(s) => Ok(owned(s)),
        None => fail(concat3(": ctx.event.predicate is missing `", field, "`").as_str()),
    }
}

fn expected(doc: &Json) -> (r: Option<i32>)
    ensures
        r == expected_code(doc@),
{
    match doc.get("expected") {
        Some(v) => match v.as_i64() {
            Some(n) => {
                #[verifier::truncate]
                let code: i32 = n as i32;
                Some(code)
            },
            None => None,
        },
        None => None,
    }
}

/// The predicate of an event. `decode_state` reads the name of an agent's
/// state.
pub fn parse_predicate<D: Fn(&str) -> Result<AgentState, String>>(
    value: &Json,
    decode_state: &D,
) -> (r: Result<AwaitPredicate, NodeError>)
    requires
        forall|s: &str| decode_state.requires((s,)),
    ensures
        predicate_outcome(value@, *decode_state, r),
{
    match value {
        Json::Object(_) => {},
        _ => {
            return fail(": ctx.event.predicate must be an object");
        },
    }
    let ty = match value.get_str("type") {
        Some(ty) => ty,
        None => {
            return fail(": ctx.event.predicate is missing `type`");
        },
    };
    if *ty == *"marker" {
        let out = match required_str(value, "out") {
            Ok(out) => out,
            Err(e) => {
                return Err(e);
            },
        };
        return match required_str(value, "nonce") {
            Ok(nonce) => Ok(AwaitPredicate::Marker { out, nonce }),
            Err(e) => Err(e),
        };
    }
    if *ty == *"detect" {
        let target = match required_str(value, "target") {
            Ok(target) => target,
            Err(e) => {
                return Err(e);
            },
        };
        let name = target.as_str();
        let d = (*decode_state)(name);
        assert(decode_state.ensures((name,), d));
        return match d {
            Ok(state) => Ok(AwaitPredicate::Detect { target: state }),
            Err(why) => fail(
                concat2(
                    ": ctx.event.predicate.target is not a valid AgentState: ",
                    why.as_str(),
                ).as_str(),
            ),
        };
    }
    if *ty == *"regex" {
        return match required_str(value, "pattern") {
            Ok(pattern) => Ok(AwaitPredicate::Regex { pattern }),
            Err(e) => Err(e),
        };
    }
    if *ty == *"silence" {
        return match value.get("min_duration_ms") {
            Some(v) => match v.as_u64() {
                Some(ms) => Ok(
                    AwaitPredicate::Silence { min_duration: Duration::from_millis(ms) },
                ),
                None => fail(": ctx.event.predicate is missing numeric `min_duration_ms`"),
            },
            None => fail(": ctx.event.predicate is missing numeric `min_duration_ms`"),
        };
    }
    if *ty == *"exit_code" {
        return Ok(AwaitPredicate::ExitCode { expected: expected(value) });
    }
    fail(concat2(": unknown ctx.event.predicate.type ", quoted(ty).as_str()).as_str())
}

/// What the time a command was sent at comes to, given what parsing its text
/// came to.
pub open spec fn sent_time(raw: Seq<char>, parsed: Result<(i64, u32), Seq<char>>) -> Result<
    Timestamp,
    Seq<char>,
> {
    match parsed {
        Ok(parts) => Ok(Timestamp { secs: parts.0, nanos: parts.1 }),
        Err(why) => Err(": invalid `sent_at` "@ + text::debug_text(raw) + ": "@ + why),
    }
}

/// The time a command was sent at, given what parsing its text came to.
pub fn sent_at_of(raw: &str, parsed: Result<(i64, u32), String>) -> (r: Result<
    Timestamp,
    NodeError,
>)
    ensures
        match parsed {
            Ok(parts) => r == Ok::<Timestamp, NodeError>(
                Timestamp { secs: parts.0, nanos: parts.1 },
            ),
            Err(why) => fails(
                r,
                ": invalid `sent_at` "@ + text::debug_text(raw@) + ": "@ + why@,
            ),
        },
{
    match parsed {
        Ok((secs, nanos)) => Ok(Timestamp::from_unix(secs, nanos)),
        Err(why) => fail(
            concat4(": invalid `sent_at` ", quoted(raw).as_str(), ": ", why.as_str()).as_str(),
        ),
    }
}

/// The time an RFC 3339 text says.
pub fn parse_rfc3339(raw: &str) -> (r: Result<Timestamp, NodeError>)
    ensures
        match sent_time(raw@, time::rfc3339_parsed(raw@)) {
            Ok(at) => r == Ok::<Timestamp, NodeError>(at),
            Err(why) => fails(r, why),
        },
{
    sent_at_of(raw, parse_rfc3339_parts(raw))
}

/// What the time of the send comes to: what the event says, else the epoch,
/// except that waiting for a marker needs it.
pub open spec fn sent_at_outcome(
    event: JsonView,
    predicate: AwaitPredicate,
    r: Result<Timestamp, NodeError>,
) -> bool {
    match event.get_str("sent_at"@) {
        Some(raw) => match sent_time(raw, time::rfc3339_parsed(raw)) {
            Ok(at) => r == Ok::<Timestamp, NodeError>(at),
            Err(why) => fails(r, why),
        },
        None => if predicate is Marker {
            fails(r, ": ctx.event is missing `sent_at`, required for a Marker predicate"@)
        } else {
            r == Ok::<Timestamp, NodeError>(Timestamp { secs: 0, nanos: 0 })
        },
    }
}

fn read_sent_at(event: &Json, predicate: &AwaitPredicate) -> (r: Result<Timestamp, NodeError>)
    ensures
        sent_at_outcome(event@, *predicate, r),
{
    match event.get_str("sent_at") {
        Some(raw) => parse_rfc3339(raw),
        None => match predicate {
            AwaitPredicate::Marker { .. } => fail(
                ": ctx.event is missing `sent_at`, required for a Marker predicate",
            ),
            _ => Ok(Timestamp::from_unix(0, 0)),
        },
    }
}

/// What a wait is told: the session, what to wait for, when the command was
/// sent and how to poll.
#[derive(Debug, PartialEq, Eq)]
pub struct AwaitPlan {
    pub session_name: String,
    pub predicate: AwaitPredicate,
    pub sent_at: Timestamp,
    pub policy: AwaitPolicy,
}

/// The node.
#[derive(Debug, PartialEq, Eq)]
pub struct TerminalAwaitNode {
    session_input: InputBinding,
    harness_defaults: Option<PartialAwaitPolicy>,
    profile: Option<PartialAwaitPolicy>,
}

impl TerminalAwaitNode {
    /// Whose session the node watches.
    pub open spec fn input(self) -> InputBinding {
        self.session_input()
    }

    /// The harness's layer of the policy.
    pub closed spec fn defaults(self) -> Option<PartialAwaitPolicy> {
        self.harness_defaults
    }

    /// The profile's layer of the policy.
    pub closed spec fn profiled(self) -> Option<PartialAwaitPolicy> {
        self.profile
    }

    /// A node for the default session, with neither layer of its policy set.
    pub fn new() -> (r: Self)
        ensures
            r.input().bound_to() is None,
            r.defaults() is None,
            r.profiled() is None,
    {
        TerminalAwaitNode {
            session_input: InputBinding::unbound(),
            harness_defaults: None,
            profile: None,
        }
    }

    /// The node with the harness's layer set.
    pub fn with_harness_defaults(self, defaults: PartialAwaitPolicy) -> (r: Self)
        ensures
            r.input() == self.input(),
            r.defaults() == Some(defaults),
            r.profiled() == self.profiled(),
    {
        TerminalAwaitNode {
            session_input: self.session_input,
            harness_defaults: Some(defaults),
            profile: self.profile,
        }
    }

    /// The node with the profile's layer set.
    pub fn with_profile(self, profile: PartialAwaitPolicy) -> (r: Self)
        ensures
            r.input() == self.input(),
            r.defaults() == self.defaults(),
            r.profiled() == Some(profile),
    {
        TerminalAwaitNode {
            session_input: self.session_input,
            harness_defaults: self.harness_defaults,
            profile: Some(profile),
        }
    }

    /// The identity this node runs and stamps its result under.
    pub fn name(&self) -> (r: &'static str)
        ensures
            r@ == NODE_NAME@,
    {
        NODE_NAME
    }

    /// Whether `r` is what the node makes of a context: the first thing that
    /// is missing or invalid, else the plan.
    pub open spec fn planned<
        D: Fn(&str) -> Result<AgentState, String>,
        E: Fn(&Json) -> Result<PartialAwaitPolicy, String>,
    >(
        self,
        ctx: TaskContext,
        decode_state: D,
        decode_policy: E,
        r: Result<AwaitPlan, NodeError>,
    ) -> bool {
        match upstream::session_of(
            NODE_NAME@,
            session::NODE_NAME@,
            ctx,
            self.input().resolved(session::NODE_NAME@),
        ) {
            Err(why) => r matches Err(e) && e.message@ == why,
            Ok(session_name) => match ctx.event@.get("predicate"@) {
                None => fails(r, ": ctx.event is missing `predicate`"@),
                Some(doc) => exists|p: Result<AwaitPredicate, NodeError>|
                    {
                        &&& #[trigger] predicate_outcome(doc, decode_state, p)
                        &&& match p {
                            Err(err) => r matches Err(e) && e.message@ == err.message@,
                            Ok(predicate) => exists|at: Result<Timestamp, NodeError>|
                                {
                                    &&& #[trigger] sent_at_outcome(ctx.event@, predicate, at)
                                    &&& match at {
                                        Err(err) => r matches Err(e) && e.message@ == err.message@,
                                        Ok(sent_at) => self.plans(
                                            ctx,
                                            decode_policy,
                                            session_name,
                                            predicate,
                                            sent_at,
                                            r,
                                        ),
                                    }
                                },
                        }
                    },
            },
        }
    }

    /// Whether `r` is the plan once all but the policy is known.
    pub open spec fn plans<E: Fn(&Json) -> Result<PartialAwaitPolicy, String>>(
        self,
        ctx: TaskContext,
        decode_policy: E,
        session_name: Seq<char>,
        predicate: AwaitPredicate,
        sent_at: Timestamp,
        r: Result<AwaitPlan, NodeError>,
    ) -> bool {
        exists|over: Result<Option<PartialAwaitPolicy>, NodeError>|
            {
                &&& #[trigger] event::policy_outcome(NODE_NAME@, ctx.event@, decode_policy, over)
                &&& match over {
                    Err(err) => r matches Err(e) && e.message@ == err.message@,
                    Ok(over) => r matches Ok(plan) && {
                        &&& plan.session_name@ == session_name
                        &&& plan.predicate == predicate
                        &&& plan.sent_at == sent_at
                        &&& plan.policy == resolve::resolved(
                            builtin(),
                            harness::opt_ref(&self.defaults()),
                            harness::opt_ref(&self.profiled()),
                            harness::opt_ref(&over),
                        )
                    },
                }
            }
    }

    /// What the node makes of a context. `decode_state` reads the name of an
    /// agent's state, `decode_policy` the event's override of the policy.
    pub fn plan<
        D: Fn(&str) -> Result<AgentState, String>,
        E: Fn(&Json) -> Result<PartialAwaitPolicy, String>,
    >(&self, ctx: &TaskContext, decode_state: D, decode_policy: E) -> (r: Result<
        AwaitPlan,
        NodeError,
    >)
        requires
            forall|s: &str| decode_state.requires((s,)),
            forall|doc: &Json| decode_policy.requires((doc,)),
        ensures
            self.planned(*ctx, decode_state, decode_policy, r),
    {
        let bound = self.session_input.resolve(session::NODE_NAME);
        let session_name = match read_session(NODE_NAME, session::NODE_NAME, ctx, bound) {
            Ok(name) => name,
            Err(e) => {
                return Err(e);
            },
        };
        let doc = match ctx.event.get("predicate") {
            Some(doc) => doc,
            None => {
                return fail(": ctx.event is missing `predicate`");
            },
        };
        let parsed = parse_predicate(doc, &decode_state);
        assert(predicate_outcome(doc@, decode_state, parsed));
        let predicate = match parsed {
            Ok(predicate) => predicate,
            Err(e) => {
                return Err(e);
            },
        };
        let read = read_sent_at(&ctx.event, &predicate);
        assert(sent_at_outcome(ctx.event@, predicate, read));
        let sent_at = match read {
            Ok(at) => at,
            Err(e) => {
                return Err(e);
            },
        };
        let over = event_policy(NODE_NAME, &ctx.event, &decode_policy);
        assert(event::policy_outcome(NODE_NAME@, ctx.event@, decode_policy, over));
        match over {
            Err(e) => Err(e),
            Ok(over) => {
                let policy = resolve(
                    self.harness_defaults.as_ref(),
                    self.profile.as_ref(),
                    over.as_ref(),
                );
                Ok(AwaitPlan { session_name, predicate, sent_at, policy })
            },
        }
    }
}

impl Default for TerminalAwaitNode {
    fn default() -> (r: Self)
        ensures
            r.input().bound_to() is None,
            r.defaults() is None,
            r.profiled() is None,
    {
        TerminalAwaitNode::new()
    }
}

impl HasSessionInput for TerminalAwaitNode {
    closed spec fn session_input(&self) -> InputBinding {
        self.session_input
    }

    open spec fn differs_in_session_alone(&self, other: &Self) -> bool {
        self.defaults() == other.defaults() && self.profiled() == other.profiled()
    }

    fn session_input_mut(&mut self) -> (r: &mut InputBinding) {
        &mut self.session_input
    }
}

/// The exit code that the terminal's answer tells, if the process has ended.
pub open spec fn told_exit_code(raw: Seq<char>) -> Option<int> {
    let status = text::trim(raw);
    let colon = text::first_index(status, ':');
    if colon < status.len() && status.take(colon) == "1"@ {
        text::parsed_i32(status.skip(colon + 1))
    } else {
        None
    }
}

/// The exit code that the terminal's answer tells, if the process has ended.
pub fn exit_code_of(raw: &str) -> (r: Option<i32>)
    ensures
        match r {
            Some(code) => told_exit_code(raw@) == Some(code as int),
            None => told_exit_code(raw@) is None,
        },
{
    let status = trimmed(raw);
    let chars = chars_of(status.as_str());
    let colon = find_from(&chars, 0, ':');
    assert(status@.skip(0) =~= status@);
    if colon == chars.len() {
        return None;
    }
    let dead = string_of(&chars, 0, colon);
    let code = string_of(&chars, colon + 1, chars.len());
    assert(status@.subrange(0, colon as int) =~= status@.take(colon as int));
    assert(status@.subrange(colon + 1, status@.len() as int) =~= status@.skip(colon + 1));
    if *dead.as_str() == *"1" {
        parse_i32(code.as_str())
    } else {
        None
    }
}

/// The exit code that the terminal's answer tells, where it gave one.
pub open spec fn exit_code_told(status: Option<String>) -> Option<i32> {
    match status {
        Some(raw) => match told_exit_code(raw@) {
            Some(code) => Some(code as i32),
            None => None,
        },
        None => None,
    }
}

/// A wait under way. Times are read off a clock that never goes back.
#[derive(Debug, PartialEq, Eq)]
pub struct AwaitRun {
    pub plan: AwaitPlan,
    /// When the wait ends at the latest.
    pub deadline: Duration,
    /// The last screen seen.
    pub last_screen: Option<String>,
    /// When the screen last changed.
    pub last_change: Duration,
}

/// A wait that has asked for the screen of a tick.
#[derive(Debug, PartialEq, Eq)]
pub struct AwaitCapture {
    pub ctx: TaskContext,
    pub run: AwaitRun,
    /// When it asked.
    pub asked_at: Duration,
}

/// A wait that has the screen of a tick, and has yet to learn what else it is
/// for.
#[derive(Debug, PartialEq, Eq)]
pub struct AwaitLook {
    pub ctx: TaskContext,
    pub run: AwaitRun,
    /// The screen of the tick.
    pub screen: String,
    /// What the screen says of the agent; unknown unless the wait is for that.
    pub detected: AgentState,
    /// For how long the screen has been so.
    pub silence: Duration,
}

/// A wait that sleeps until the next tick.
#[derive(Debug, PartialEq, Eq)]
pub struct AwaitPause {
    pub ctx: TaskContext,
    pub run: AwaitRun,
}

/// Where a wait stands: it asks for one thing and goes on from the answer, or
/// is over. A tick begins with a capture and ends with a sleep.
#[derive(Debug, PartialEq, Eq)]
pub enum AwaitStep {
    /// Capture the screen of `session`.
    Capture { state: AwaitCapture, session: String },
    /// Read the marker file at `path`.
    ReadMarker { state: AwaitLook, path: String },
    /// Ask whether the process in `session` has ended.
    AskStatus { state: AwaitLook, session: String },
    /// Sleep for `span`, or be cancelled.
    Sleep { state: AwaitPause, span: Duration },
    /// The wait is over.
    Finished(Result<TaskContext, NodeError>),
}

impl AwaitStep {
    /// Whether the wait asks for the screen at `now`.
    pub open spec fn captures(self, ctx: TaskContext, run: AwaitRun, now: Duration) -> bool {
        self matches AwaitStep::Capture { state, session } && {
            &&& state.ctx == ctx
            &&& state.run == run
            &&& state.asked_at == now
            &&& session@ == run.plan.session_name@
        }
    }

    /// Whether the wait has ended, satisfied or at its deadline.
    pub open spec fn ends(self, ctx: TaskContext, plan: AwaitPlan, satisfied: bool) -> bool {
        self matches AwaitStep::Finished(Ok(done)) && done.stamped(
            ctx,
            NODE_NAME@,
            stamp(plan.session_name@, satisfied, plan.policy),
        )
    }
}

/// What the node stamps.
pub open spec fn stamp(session: Seq<char>, satisfied: bool, policy: AwaitPolicy) -> JsonView {
    JsonView::Object(
        json::json_object().insert("session_name"@, json::json_str(session)).insert(
            "satisfied"@,
            JsonView::Bool(satisfied),
        ).insert("timed_out"@, JsonView::Bool(!satisfied)).insert(
            "poll_interval_ms"@,
            json::json_u64(policy.poll_interval_ms),
        ).insert("timeout_ms"@, json::json_u64(policy.timeout_ms)),
    )
}

fn ask_for_screen(ctx: TaskContext, run: AwaitRun, now: Duration) -> (r: AwaitStep)
    ensures
        r.captures(ctx, run, now),
{
    let session = run.plan.session_name.clone();
    AwaitStep::Capture { state: AwaitCapture { ctx, run, asked_at: now }, session }
}

impl AwaitPlan {
    /// Begin to wait at `now`: with the screen of the first tick.
    pub fn begin(self, ctx: TaskContext, now: Duration) -> (r: AwaitStep)
        requires
            now.nanos + self.policy.timeout_ms * NANOS_PER_MILLI <= u128::MAX,
        ensures
            r matches AwaitStep::Capture { state, session } && {
                &&& r.captures(ctx, state.run, now)
                &&& state.run.plan == self
                &&& state.run.deadline.nanos == now.nanos + self.policy.timeout_ms
                    * NANOS_PER_MILLI
                &&& state.run.last_screen is None
                &&& state.run.last_change == now
            },
    {
        let timeout = Duration::from_millis(self.policy.timeout_ms);
        let run = AwaitRun {
            deadline: Duration { nanos: now.nanos + timeout.nanos },
            plan: self,
            last_screen: None,
            last_change: now,
        };
        ask_for_screen(ctx, run, now)
    }
}

impl AwaitRun {
    /// When the screen last changed, given what it shows at `now`.
    pub open spec fn changed_at(self, now: Duration, screen: Seq<char>) -> Duration {
        if text::opt_text(self.last_screen) == Some(screen) {
            self.last_change
        } else {
            now
        }
    }

    /// How long to sleep before the next tick: the poll interval, at least a
    /// millisecond, but not past the deadline.
    pub open spec fn pause(self, now: Duration) -> int {
        let interval = if self.plan.policy.poll_interval_ms >= 1 {
            self.plan.policy.poll_interval_ms * NANOS_PER_MILLI
        } else {
            NANOS_PER_MILLI as int
        };
        let remaining = if self.deadline.nanos > now.nanos {
            self.deadline.nanos - now.nanos
        } else {
            0
        };
        if interval <= remaining {
            interval
        } else {
            remaining
        }
    }

    /// How long to sleep at `now` before the next tick.
    pub fn sleep_for(&self, now: Duration) -> (r: Duration)
        ensures
            r.nanos == self.pause(now),
    {
        let ms: u64 = if self.plan.policy.poll_interval_ms >= 1 {
            self.plan.policy.poll_interval_ms
        } else {
            1
        };
        let interval = Duration::from_millis(ms);
        let remaining: u128 = if self.deadline.nanos > now.nanos {
            self.deadline.nanos - now.nanos
        } else {
            0
        };
        if interval.nanos <= remaining {
            interval
        } else {
            Duration { nanos: remaining }
        }
    }

    /// Whether `step` is what an observation comes to at `now`: the wait is
    /// over once what it is for holds, or at the deadline; else it sleeps.
    pub open spec fn decides(
        self,
        ctx: TaskContext,
        seen: Observation,
        now: Duration,
        step: AwaitStep,
    ) -> bool {
        if predicate::holds(self.plan.predicate, seen) {
            step.ends(ctx, self.plan, true)
        } else if now.nanos >= self.deadline.nanos {
            step.ends(ctx, self.plan, false)
        } else {
            step matches AwaitStep::Sleep { state, span } && {
                &&& state.ctx == ctx
                &&& state.run == self
                &&& span.nanos == self.pause(now)
            }
        }
    }

    fn stamped(&self, ctx: TaskContext, satisfied: bool) -> (r: AwaitStep)
        ensures
            r.ends(ctx, self.plan, satisfied),
    {
        let doc = Json::object().with(
            "session_name",
            Json::text(self.plan.session_name.as_str()),
        ).with("satisfied", Json::Bool(satisfied)).with("timed_out", Json::Bool(!satisfied)).with(
            "poll_interval_ms",
            Json::uint(self.plan.policy.poll_interval_ms),
        ).with("timeout_ms", Json::uint(self.plan.policy.timeout_ms));
        AwaitStep::Finished(Ok(put_result(ctx, NODE_NAME, doc)))
    }

    /// What an observation comes to at `now`.
    pub fn decide(self, ctx: TaskContext, seen: &Observation, now: Duration) -> (r: AwaitStep)
        ensures
            self.decides(ctx, *seen, now, r),
    {
        if evaluate(&self.plan.predicate, seen).is_satisfied() {
            return self.stamped(ctx, true);
        }
        if now.nanos >= self.deadline.nanos {
            return self.stamped(ctx, false);
        }
        let span = self.sleep_for(now);
        AwaitStep::Sleep { state: AwaitPause { ctx, run: self }, span }
    }
}

impl AwaitCapture {
    /// Whether `look` is the wait with `shown` as the screen of the tick: for
    /// its silence, for what it says of the agent, and for what the wait is
    /// for.
    pub open spec fn shows<D: Fn(&str) -> AgentState>(
        self,
        shown: Seq<char>,
        detect: D,
        look: AwaitLook,
    ) -> bool {
        let changed_at = self.run.changed_at(self.asked_at, shown);
        &&& look.ctx == self.ctx
        &&& look.run.plan == self.run.plan
        &&& look.run.deadline == self.run.deadline
        &&& text::opt_text(look.run.last_screen) == Some(shown)
        &&& look.run.last_change == changed_at
        &&& look.screen@ == shown
        &&& look.silence.nanos == (if self.asked_at.nanos > changed_at.nanos {
            self.asked_at.nanos - changed_at.nanos
        } else {
            0
        })
        &&& if self.run.plan.predicate is Detect {
            exists|screen: &str| screen@ == shown && #[trigger]
                detect.ensures((screen,), look.detected)
        } else {
            look.detected == AgentState::Unknown
        }
    }

    /// Whether `step` is how the wait goes on from the answer to its capture.
    pub open spec fn takes_in<D: Fn(&str) -> AgentState>(
        self,
        screen: Reply,
        detect: D,
        now: Duration,
        step: AwaitStep,
    ) -> bool {
        match screen {
            Err(f) => step matches AwaitStep::Finished(r) && fails(
                r,
                ": capture_pane failed: "@ + f.says(),
            ),
            Ok(shown) => exists|look: AwaitLook| #[trigger]
                self.shows(shown@, detect, look) && look.goes_on(now, step),
        }
    }

    /// Go on from the answer to the capture. `detect` tells what a screen says
    /// of the agent.
    pub fn captured<D: Fn(&str) -> AgentState>(self, screen: Reply, detect: D, now: Duration) -> (r:
        AwaitStep)
        requires
            forall|s: &str| detect.requires((s,)),
        ensures
            self.takes_in(screen, detect, now, r),
    {
        let shown = match screen {
            Ok(shown) => shown,
            Err(f) => {
                return AwaitStep::Finished(
                    fail(concat2(": capture_pane failed: ", f.message()).as_str()),
                );
            },
        };
        let same = match &self.run.last_screen {
            Some(last) => *last.as_str() == *shown.as_str(),
            None => false,
        };
        let last_change = if same {
            self.run.last_change
        } else {
            self.asked_at
        };
        let silence: u128 = if self.asked_at.nanos > last_change.nanos {
            self.asked_at.nanos - last_change.nanos
        } else {
            0
        };
        let detected = match &self.run.plan.predicate {
            AwaitPredicate::Detect { .. } => {
                let text = shown.as_str();
                let detected = detect(text);
                assert(detect.ensures((text,), detected));
                detected
            },
            _ => AgentState::Unknown,
        };
        let look = AwaitLook {
            ctx: self.ctx,
            run: AwaitRun {
                plan: self.run.plan,
                deadline: self.run.deadline,
                last_screen: Some(shown.clone()),
                last_change,
            },
            screen: shown,
            detected,
            silence: Duration { nanos: silence },
        };
        assert(self.shows(shown@, detect, look));
        look.next(now)
    }
}

impl AwaitLook {
    /// What was found at this tick.
    pub open spec fn observation(
        self,
        marker: MarkerObservation,
        exit_code: Option<i32>,
    ) -> Observation {
        Observation {
            screen: self.screen,
            detected: self.detected,
            marker,
            silence_duration: self.silence,
            exit_code,
            sent_at: self.run.plan.sent_at,
        }
    }

    /// Whether `step` is what the tick comes to.
    pub open spec fn comes_to(
        self,
        marker: MarkerObservation,
        exit_code: Option<i32>,
        now: Duration,
        step: AwaitStep,
    ) -> bool {
        self.run.decides(self.ctx, self.observation(marker, exit_code), now, step)
    }

    /// Whether `step` is how the wait goes on once it has the screen: it asks
    /// for the marker file or the end of the process where it is for that, and
    /// else decides.
    pub open spec fn goes_on(self, now: Duration, step: AwaitStep) -> bool {
        match self.run.plan.predicate {
            AwaitPredicate::Marker { out, nonce } => step matches AwaitStep::ReadMarker {
                state,
                path,
            } && state == self && path@ == predicate::marker_at(out@, nonce@),
            AwaitPredicate::ExitCode { .. } => step matches AwaitStep::AskStatus {
                state,
                session,
            } && state == self && session@ == self.run.plan.session_name@,
            _ => self.comes_to(predicate::no_marker(), None, now, step),
        }
    }

    fn next(self, now: Duration) -> (r: AwaitStep)
        ensures
            self.goes_on(now, r),
    {
        match &self.run.plan.predicate {
            AwaitPredicate::Marker { out, nonce } => {
                let path = marker_path(out.as_str(), nonce.as_str());
                AwaitStep::ReadMarker { state: self, path }
            },
            AwaitPredicate::ExitCode { .. } => {
                let session = self.run.plan.session_name.clone();
                AwaitStep::AskStatus { state: self, session }
            },
            _ => self.look_over(MarkerObservation::default(), None, now),
        }
    }

    fn look_over(self, marker: MarkerObservation, exit_code: Option<i32>, now: Duration) -> (r:
        AwaitStep)
        ensures
            self.comes_to(marker, exit_code, now, r),
    {
        let seen = Observation {
            screen: self.screen,
            detected: self.detected,
            marker,
            silence_duration: self.silence,
            exit_code,
            sent_at: self.run.plan.sent_at,
        };
        self.run.decide(self.ctx, &seen, now)
    }

    /// Go on from what was found of the marker file.
    pub fn marker_read(self, marker: MarkerObservation, now: Duration) -> (r: AwaitStep)
        ensures
            self.comes_to(marker, None, now, r),
    {
        self.look_over(marker, None, now)
    }

    /// Go on from the terminal's answer about the process, if it gave one.
    pub fn status_told(self, status: Option<String>, now: Duration) -> (r: AwaitStep)
        ensures
            self.comes_to(predicate::no_marker(), exit_code_told(status), now, r),
    {
        let exit_code = match &status {
            Some(raw) => exit_code_of(raw.as_str()),
            None => None,
        };
        self.look_over(MarkerObservation::default(), exit_code, now)
    }
}

impl AwaitPause {
    /// Go on after the sleep: with the screen of the next tick.
    pub fn slept(self, now: Duration) -> (r: AwaitStep)
        ensures
            r.captures(self.ctx, self.run, now),
    {
        ask_for_screen(self.ctx, self.run, now)
    }

    /// What a wait that is cancelled returns: the context as it was.
    pub fn cancelled(self) -> (r: Result<TaskContext, NodeError>)
        ensures
            r == Ok::<TaskContext, NodeError>(self.ctx),
    {
        Ok(self.ctx)
    }
}

/// A tick captures the screen once: from the answer to a capture the wait goes
/// on to sleep or to end, at most by way of one other question, and whatever it
/// decides, it decides of the screen that was captured.
pub proof fn law_one_capture_per_tick<D: Fn(&str) -> AgentState>(
    capture: AwaitCapture,
    screen: Reply,
    detect: D,
    now: Duration,
    step: AwaitStep,
    marker: MarkerObservation,
    status: Option<String>,
    later: Duration,
    next: AwaitStep,
)
    requires
        capture.takes_in(screen, detect, now, step),
        match step {
            AwaitStep::ReadMarker { state, path } => state.comes_to(marker, None, later, next),
            AwaitStep::AskStatus { state, session } => state.comes_to(
                predicate::no_marker(),
                exit_code_told(status),
                later,
                next,
            ),
            _ => next == step,
        },
    ensures
        !(step is Capture),
        next is Sleep || next is Finished,
        next matches AwaitStep::Sleep { state, span } ==> screen matches Ok(shown)
            && text::opt_text(state.run.last_screen) == Some(shown@),
        match step {
            AwaitStep::ReadMarker { state, path } => screen matches Ok(shown) && state.observation(
                marker,
                None,
            ).screen@ == shown@,
            AwaitStep::AskStatus { state, session } => screen matches Ok(shown)
                && state.observation(predicate::no_marker(), exit_code_told(status)).screen@
                == shown@,
            _ => true,
        },
{
}

/// A screen that the awaited expression matches ends the wait in the very tick
/// that captures it.
pub proof fn law_match_ends_the_wait<D: Fn(&str) -> AgentState>(
    capture: AwaitCapture,
    pattern: String,
    shown: String,
    detect: D,
    now: Duration,
    step: AwaitStep,
)
    requires
        capture.run.plan.predicate == (AwaitPredicate::Regex { pattern }),
        patterns::regex_matches(pattern@, shown@) == Some(true),
        capture.takes_in(Ok(shown), detect, now, step),
    ensures
        step.ends(capture.ctx, capture.run.plan, true),
{
}

/// A wait is bounded: an observation at or after the deadline ends it.
pub proof fn law_wait_is_bounded(
    run: AwaitRun,
    ctx: TaskContext,
    seen: Observation,
    now: Duration,
    step: AwaitStep,
)
    requires
        run.decides(ctx, seen, now, step),
        now.nanos >= run.deadline.nanos,
    ensures
        step is Finished,
{
}

/// No sleep goes past the deadline, and before the deadline every sleep takes
/// some time.
pub proof fn law_sleep_keeps_to_the_deadline(run: AwaitRun, now: Duration)
    requires
        now.nanos <= run.deadline.nanos,
    ensures
        now.nanos + run.pause(now) <= run.deadline.nanos,
        now.nanos < run.deadline.nanos ==> run.pause(now) > 0,
{
}

/// What a wait is for ends it whenever it is seen to hold, even past the
/// deadline, and is then never reported as a time-out.
pub proof fn law_satisfied_wins_over_timeout(
    run: AwaitRun,
    ctx: TaskContext,
    seen: Observation,
    now: Duration,
    step: AwaitStep,
)
    requires
        run.decides(ctx, seen, now, step),
        predicate::holds(run.plan.predicate, seen),
    ensures
        step.ends(ctx, run.plan, true),
{
}

/// Every knob has the value of the highest layer that sets it: the event's,
/// else the profile's, else the harness's, else the built-in one.
pub proof fn law_every_knob_goes_by_its_highest_layer(
    harness_defaults: Option<&PartialAwaitPolicy>,
    profile: Option<&PartialAwaitPolicy>,
    event_override: Option<&PartialAwaitPolicy>,
    r: AwaitPolicy,
)
    requires
        resolve.ensures((harness_defaults, profile, event_override), r),
    ensures
        r.poll_interval_ms == (if event_override is Some && event_override->0.poll_interval_ms is Some {
            event_override->0.poll_interval_ms->0
        } else if profile is Some && profile->0.poll_interval_ms is Some {
            profile->0.poll_interval_ms->0
        } else if harness_defaults is Some && harness_defaults->0.poll_interval_ms is Some {
            harness_defaults->0.poll_interval_ms->0
        } else {
            1_000
        }),
        r.timeout_ms == (if event_override is Some && event_override->0.timeout_ms is Some {
            event_override->0.timeout_ms->0
        } else if profile is Some && profile->0.timeout_ms is Some {
            profile->0.timeout_ms->0
        } else if harness_defaults is Some && harness_defaults->0.timeout_ms is Some {
            harness_defaults->0.timeout_ms->0
        } else {
            600_000
        }),
{
}

/// What a predicate of the event says is what is waited for, kind by kind; one
/// that lacks what its kind needs, or is of no kind, is refused.
pub proof fn law_predicate_is_read_by_kind<D: Fn(&str) -> Result<AgentState, String>>(
    value: &Json,
    decode_state: &D,
    r: Result<AwaitPredicate, NodeError>,
)
    requires
        parse_predicate::<D>.ensures((value, decode_state), r),
    ensures
        value@.get_str("type"@) is None ==> r is Err,
        value@.get_str("type"@) == Some("marker"@) ==> {
            let out = value@.get_str("out"@);
            let nonce = value@.get_str("nonce"@);
            if out is Some && nonce is Some {
                r is Ok && r->Ok_0 is Marker && r->Ok_0->Marker_out@ == out->0
                    && r->Ok_0->Marker_nonce@ == nonce->0
            } else {
                r is Err
            }
        },
        value@.get_str("type"@) == Some("regex"@) ==> match value@.get_str("pattern"@) {
            Some(p) => r is Ok && r->Ok_0 is Regex && r->Ok_0->pattern@ == p,
            None => r is Err,
        },
        value@.get_str("type"@) == Some("silence"@) ==> match value@.get("min_duration_ms"@) {
            Some(JsonView::Number(json::NumberView::PosInt(ms))) => r is Ok && r->Ok_0 is Silence
                && r->Ok_0->min_duration.nanos == ms * 1_000_000,
            _ => r is Err,
        },
        value@.get_str("type"@) == Some("exit_code"@) ==> {
            &&& r is Ok
            &&& r->Ok_0 is ExitCode
            &&& value@.get("expected"@) is None ==> r->Ok_0->expected is None
            &&& forall|n: i32|
                value@.get("expected"@) == Some(#[trigger] json::json_i64(n as i64))
                    ==> r->Ok_0->expected == Some(n)
        },
        value@.get_str("type"@) == Some("detect"@) ==> match value@.get_str("target"@) {
            None => r is Err,
            Some(name) => {
                &&& r is Ok ==> r->Ok_0 is Detect && exists|s: &str|
                    s@ == name && #[trigger] decode_state.ensures(
                        (s,),
                        Ok::<AgentState, String>(r->Ok_0->target),
                    )
                &&& r is Err ==> exists|s: &str, why: String|
                    s@ == name && #[trigger] decode_state.ensures(
                        (s,),
                        Err::<AgentState, String>(why),
                    )
            },
        },
        r is Ok ==> value@.get_str("type"@) == Some(
            match r->Ok_0 {
                AwaitPredicate::Marker { .. } => "marker"@,
                AwaitPredicate::Detect { .. } => "detect"@,
                AwaitPredicate::Regex { .. } => "regex"@,
                AwaitPredicate::Silence { .. } => "silence"@,
                AwaitPredicate::ExitCode { .. } => "exit_code"@,
            },
        ),
{
    reveal_strlit("marker");
    reveal_strlit("detect");
    reveal_strlit("regex");
    reveal_strlit("silence");
    reveal_strlit("exit_code");
    assert("marker"@.len() == 6);
    assert("detect"@.len() == 6);
    assert("regex"@.len() == 5);
    assert("silence"@.len() == 7);
    assert("exit_code"@.len() == 9);
    assert("marker"@[0] != "detect"@[0]);
}

/// The exit code of a process that has ended is the number that the terminal
/// wrote behind the mark for that, whatever white space stands around; a
/// process that has not ended has none.
pub proof fn law_exit_code_is_read_back(
    raw: &str,
    before: Seq<char>,
    mark: char,
    code: i32,
    after: Seq<char>,
    r: Option<i32>,
)
    requires
        exit_code_of.ensures((raw,), r),
        text::is_blank(before),
        text::is_blank(after),
        mark == '0' || mark == '1',
        raw@ == before + (seq![mark, ':'] + text::written(code as int)) + after,
    ensures
        mark == '1' ==> r == Some(code),
        mark == '0' ==> r is None,
{
    let status = seq![mark, ':'] + text::written(code as int);
    text::lemma_written(code as int);
    assert(status.last() == text::written(code as int).last());
    text::lemma_trim_padded(before, status, after);
    text::lemma_first_index(status, ':', 1);
    assert(status.skip(2) =~= text::written(code as int));
    reveal_strlit("1");
    assert(status.take(1)[0] == mark);
    if mark == '1' {
        assert(status.take(1) =~= "1"@);
    }
}

/// Whether `step` ends a wait with this outcome, and records it: the session,
/// the outcome and the policy that was kept to, in `ctx` otherwise unchanged.
pub open spec fn reports(
    step: AwaitStep,
    ctx: TaskContext,
    plan: AwaitPlan,
    satisfied: bool,
) -> bool {
    step matches AwaitStep::Finished(Ok(done)) && {
        &&& done.result_of(NODE_NAME@) matches Some(doc) && {
            &&& doc.get_str("session_name"@) == Some(plan.session_name@)
            &&& doc.get("satisfied"@) == Some(JsonView::Bool(satisfied))
            &&& doc.get("timed_out"@) == Some(JsonView::Bool(!satisfied))
            &&& doc.get("poll_interval_ms"@) == Some(
                JsonView::Number(json::NumberView::PosInt(plan.policy.poll_interval_ms)),
            )
            &&& doc.get("timeout_ms"@) == Some(
                JsonView::Number(json::NumberView::PosInt(plan.policy.timeout_ms)),
            )
        }
        &&& forall|key: Seq<char>| key != NODE_NAME@ ==> #[trigger] done.result_of(key)
            == ctx.result_of(key)
        &&& done.event == ctx.event
        &&& done.metadata == ctx.metadata
        &&& done.node_runs == ctx.node_runs
    }
}

proof fn lemma_ends_reports(step: AwaitStep, ctx: TaskContext, plan: AwaitPlan, satisfied: bool)
    requires
        step.ends(ctx, plan, satisfied),
    ensures
        reports(step, ctx, plan, satisfied),
{
    reveal_strlit("session_name");
    reveal_strlit("satisfied");
    reveal_strlit("timed_out");
    reveal_strlit("poll_interval_ms");
    reveal_strlit("timeout_ms");
    assert("session_name"@.len() == 12);
    assert("satisfied"@.len() == 9);
    assert("timed_out"@.len() == 9);
    assert("poll_interval_ms"@.len() == 16);
    assert("timeout_ms"@.len() == 10);
    assert("satisfied"@[0] != "timed_out"@[0]);
    let done = step->Finished_0->Ok_0;
    let doc = stamp(plan.session_name@, satisfied, plan.policy);
    assert(done.results() == ctx.results().insert(NODE_NAME@, doc));
}

/// An observation that satisfies what is waited for ends the wait as
/// satisfied; any other ends it as timed out from the deadline on, and before
/// lets it sleep: for the poll interval, at least a millisecond, or for the
/// time to the deadline where that is shorter.
pub proof fn law_observation_decides(
    run: AwaitRun,
    ctx: TaskContext,
    seen: &Observation,
    now: Duration,
    outcome: predicate::PredicateOutcome,
    step: AwaitStep,
)
    requires
        evaluate.ensures((&run.plan.predicate, seen), outcome),
        AwaitRun::decide.ensures((run, ctx, seen, now), step),
    ensures
        outcome is Satisfied ==> reports(step, ctx, run.plan, true),
        outcome is Pending && now.nanos >= run.deadline.nanos ==> reports(
            step,
            ctx,
            run.plan,
            false,
        ),
        outcome is Pending && now.nanos < run.deadline.nanos ==> {
            &&& step is Sleep
            &&& step->Sleep_state.ctx == ctx
            &&& step->Sleep_state.run == run
            &&& step->span.nanos <= run.deadline.nanos - now.nanos
            &&& run.plan.policy.poll_interval_ms >= 1 ==> step->span.nanos
                <= run.plan.policy.poll_interval_ms * 1_000_000
            &&& run.plan.policy.poll_interval_ms == 0 ==> step->span.nanos <= 1_000_000
            &&& step->span.nanos == run.deadline.nanos - now.nanos || step->span.nanos
                == run.plan.policy.poll_interval_ms * 1_000_000 || (
            run.plan.policy.poll_interval_ms == 0 && step->span.nanos == 1_000_000)
            &&& step->span.nanos > 0
        },
{
    if predicate::holds(run.plan.predicate, *seen) {
        lemma_ends_reports(step, ctx, run.plan, true);
    } else if now.nanos >= run.deadline.nanos {
        lemma_ends_reports(step, ctx, run.plan, false);
    }
}

/// A screen that cannot be captured ends the wait with a failure.
pub proof fn law_failed_capture_ends_the_wait<D: Fn(&str) -> AgentState>(
    capture: AwaitCapture,
    screen: Reply,
    detect: D,
    now: Duration,
    step: AwaitStep,
)
    requires
        screen is Err,
        AwaitCapture::captured::<D>.ensures((capture, screen, detect, now), step),
    ensures
        step matches AwaitStep::Finished(Err(e)) && e.message@ == NODE_NAME@
            + ": capture_pane failed: "@ + screen->Err_0.says(),
{
    assert(NODE_NAME@ + (": capture_pane failed: "@ + screen->Err_0.says()) =~= NODE_NAME@
        + ": capture_pane failed: "@ + screen->Err_0.says());
}

/// Silence lasts from the last change of the screen: a wait for silence ends
/// once the screen has been the same for the span, and a screen that has
/// changed starts the silence anew.
pub proof fn law_silence_runs_from_the_last_change<D: Fn(&str) -> AgentState>(
    capture: AwaitCapture,
    shown: String,
    detect: D,
    now: Duration,
    step: AwaitStep,
)
    requires
        capture.run.plan.predicate is Silence,
        AwaitCapture::captured::<D>.ensures((capture, Ok(shown), detect, now), step),
    ensures
        ({
            let span = capture.run.plan.predicate->min_duration.nanos;
            let same = capture.run.last_screen is Some && capture.run.last_screen->0@ == shown@;
            let silent_for = if same && capture.asked_at.nanos > capture.run.last_change.nanos {
                capture.asked_at.nanos - capture.run.last_change.nanos
            } else {
                0
            };
            &&& silent_for >= span ==> reports(step, capture.ctx, capture.run.plan, true)
            &&& silent_for < span && now.nanos >= capture.run.deadline.nanos ==> reports(
                step,
                capture.ctx,
                capture.run.plan,
                false,
            )
            &&& silent_for < span && now.nanos < capture.run.deadline.nanos ==> step is Sleep
            &&& step is Sleep ==> {
                let next = step->Sleep_state.run;
                &&& next.last_screen is Some && next.last_screen->0@ == shown@
                &&& same ==> next.last_change == capture.run.last_change
                &&& !same ==> next.last_change == capture.asked_at
                &&& next.deadline == capture.run.deadline
                &&& next.plan == capture.run.plan
                &&& step->Sleep_state.ctx == capture.ctx
            }
        }),
{
    let look = choose|look: AwaitLook| #[trigger]
        capture.shows(shown@, detect, look) && look.goes_on(now, step);
    let seen = look.observation(predicate::no_marker(), None);
    assert(look.comes_to(predicate::no_marker(), None, now, step));
    if predicate::holds(look.run.plan.predicate, seen) {
        lemma_ends_reports(step, capture.ctx, capture.run.plan, true);
    } else if now.nanos >= look.run.deadline.nanos {
        lemma_ends_reports(step, capture.ctx, capture.run.plan, false);
    }
}

/// A wait for a state ends in the tick whose screen shows that state, and in no
/// tick whose screen shows another.
pub proof fn law_state_is_read_off_the_screen<D: Fn(&str) -> AgentState>(
    capture: AwaitCapture,
    shown: String,
    detect: D,
    found: AgentState,
    now: Duration,
    step: AwaitStep,
)
    requires
        capture.run.plan.predicate is Detect,
        forall|s: &str, d: AgentState| #[trigger]
            detect.ensures((s,), d) && s@ == shown@ ==> d == found,
        AwaitCapture::captured::<D>.ensures((capture, Ok(shown), detect, now), step),
    ensures
        found == capture.run.plan.predicate->target ==> reports(
            step,
            capture.ctx,
            capture.run.plan,
            true,
        ),
        found != capture.run.plan.predicate->target && now.nanos >= capture.run.deadline.nanos
            ==> reports(step, capture.ctx, capture.run.plan, false),
        found != capture.run.plan.predicate->target && now.nanos < capture.run.deadline.nanos
            ==> step is Sleep,
{
    let look = choose|look: AwaitLook| #[trigger]
        capture.shows(shown@, detect, look) && look.goes_on(now, step);
    let seen = look.observation(predicate::no_marker(), None);
    assert(look.comes_to(predicate::no_marker(), None, now, step));
    if predicate::holds(look.run.plan.predicate, seen) {
        lemma_ends_reports(step, capture.ctx, capture.run.plan, true);
    } else if now.nanos >= look.run.deadline.nanos {
        lemma_ends_reports(step, capture.ctx, capture.run.plan, false);
    }
}

/// A wait for an expression ends in the tick whose screen it matches, and in no
/// other before the deadline.
pub proof fn law_expression_is_held_against_the_screen<D: Fn(&str) -> AgentState>(
    capture: AwaitCapture,
    shown: String,
    detect: D,
    now: Duration,
    step: AwaitStep,
)
    requires
        capture.run.plan.predicate is Regex,
        AwaitCapture::captured::<D>.ensures((capture, Ok(shown), detect, now), step),
    ensures
        ({
            let matches = patterns::regex_matches(
                capture.run.plan.predicate->pattern@,
                shown@,
            ) == Some(true);
            &&& matches ==> reports(step, capture.ctx, capture.run.plan, true)
            &&& !matches && now.nanos >= capture.run.deadline.nanos ==> reports(
                step,
                capture.ctx,
                capture.run.plan,
                false,
            )
            &&& !matches && now.nanos < capture.run.deadline.nanos ==> step is Sleep
        }),
{
    let look = choose|look: AwaitLook| #[trigger]
        capture.shows(shown@, detect, look) && look.goes_on(now, step);
    let seen = look.observation(predicate::no_marker(), None);
    assert(look.comes_to(predicate::no_marker(), None, now, step));
    if predicate::holds(look.run.plan.predicate, seen) {
        lemma_ends_reports(step, capture.ctx, capture.run.plan, true);
    } else if now.nanos >= look.run.deadline.nanos {
        lemma_ends_reports(step, capture.ctx, capture.run.plan, false);
    }
}

/// A wait for a marker reads the marker file of its send in every tick, and a
/// wait for an exit code asks about the process in its session; with the plan
/// and the context as they were.
pub proof fn law_tick_asks_for_what_it_waits_for<D: Fn(&str) -> AgentState>(
    capture: AwaitCapture,
    shown: String,
    detect: D,
    now: Duration,
    step: AwaitStep,
)
    requires
        AwaitCapture::captured::<D>.ensures((capture, Ok(shown), detect, now), step),
    ensures
        capture.run.plan.predicate is Marker ==> step is ReadMarker && step->path@
            == capture.run.plan.predicate->Marker_out@ + "."@
            + capture.run.plan.predicate->Marker_nonce@ + ".done"@ && step->ReadMarker_state.run.plan
            == capture.run.plan && step->ReadMarker_state.ctx == capture.ctx
            && step->ReadMarker_state.run.deadline == capture.run.deadline,
        capture.run.plan.predicate is ExitCode ==> step is AskStatus && step->AskStatus_session@
            == capture.run.plan.session_name@ && step->AskStatus_state.run.plan == capture.run.plan
            && step->AskStatus_state.ctx == capture.ctx && step->AskStatus_state.run.deadline
            == capture.run.deadline,
        step is ReadMarker ==> step->ReadMarker_state.screen@ == shown@
            && step->ReadMarker_state.detected is Unknown,
        step is AskStatus ==> step->AskStatus_state.screen@ == shown@
            && step->AskStatus_state.detected is Unknown,
{
}

/// The answer about the process decides a wait for an exit code: satisfied with
/// the code asked for, or with any where none is asked for.
pub proof fn law_status_decides(
    look: AwaitLook,
    status: Option<String>,
    raw: &str,
    told: Option<i32>,
    now: Duration,
    step: AwaitStep,
)
    requires
        look.run.plan.predicate is ExitCode,
        status is Some ==> raw@ == status->0@ && exit_code_of.ensures((raw,), told),
        status is None ==> told is None,
        AwaitLook::status_told.ensures((look, status, now), step),
    ensures
        ({
            let asked = look.run.plan.predicate->expected;
            let satisfied = told is Some && (asked is None || asked == told);
            &&& satisfied ==> reports(step, look.ctx, look.run.plan, true)
            &&& !satisfied && now.nanos >= look.run.deadline.nanos ==> reports(
                step,
                look.ctx,
                look.run.plan,
                false,
            )
            &&& !satisfied && now.nanos < look.run.deadline.nanos ==> step is Sleep
        }),
{
    let seen = look.observation(predicate::no_marker(), exit_code_told(status));
    assert(look.comes_to(predicate::no_marker(), exit_code_told(status), now, step));
    if predicate::holds(look.run.plan.predicate, seen) {
        lemma_ends_reports(step, look.ctx, look.run.plan, true);
    } else if now.nanos >= look.run.deadline.nanos {
        lemma_ends_reports(step, look.ctx, look.run.plan, false);
    }
}

/// The marker file decides a wait for a marker: satisfied by a file that holds
/// the nonce and was written after the send.
pub proof fn law_marker_decides(
    look: AwaitLook,
    marker: MarkerObservation,
    now: Duration,
    step: AwaitStep,
)
    requires
        look.run.plan.predicate is Marker,
        AwaitLook::marker_read.ensures((look, marker, now), step),
    ensures
        ({
            let satisfied = marker.exists && marker.content is Some && marker.content->0@
                == look.run.plan.predicate->Marker_nonce@ && marker.mtime is Some
                && marker.mtime->0.at() > look.run.plan.sent_at.at();
            &&& satisfied ==> reports(step, look.ctx, look.run.plan, true)
            &&& !satisfied && now.nanos >= look.run.deadline.nanos ==> reports(
                step,
                look.ctx,
                look.run.plan,
                false,
            )
            &&& !satisfied && now.nanos < look.run.deadline.nanos ==> step is Sleep
        }),
{
    let seen = look.observation(marker, None);
    assert(look.comes_to(marker, None, now, step));
    if predicate::holds(look.run.plan.predicate, seen) {
        lemma_ends_reports(step, look.ctx, look.run.plan, true);
    } else if now.nanos >= look.run.deadline.nanos {
        lemma_ends_reports(step, look.ctx, look.run.plan, false);
    }
}

/// A plan is for the session that the bound node recorded, for what the event's
/// predicate says, and by the policy in which the event's override counts
/// first, then the profile, then the harness's defaults.
pub proof fn law_plan_is_what_the_event_says<
    D: Fn(&str) -> Result<AgentState, String>,
    E: Fn(&Json) -> Result<PartialAwaitPolicy, String>,
>(
    node: &TerminalAwaitNode,
    ctx: &TaskContext,
    decode_state: D,
    decode_policy: E,
    bound: Seq<char>,
    over: Option<PartialAwaitPolicy>,
    r: Result<AwaitPlan, NodeError>,
)
    requires
        node.input().bound_to() is Some ==> bound == node.input().bound_to()->0,
        node.input().bound_to() is None ==> bound == session::NODE_NAME@,
        match ctx.event@.get("policy"@) {
            None => over is None,
            Some(v) => over is Some && forall|doc: Json, d: Result<PartialAwaitPolicy, String>| #[trigger]
                decode_policy.ensures((&doc,), d) && doc@ == v ==> d == Ok::<
                    PartialAwaitPolicy,
                    String,
                >(over->0),
        },
        TerminalAwaitNode::plan::<D, E>.ensures((node, ctx, decode_state, decode_policy), r),
    ensures
        ctx.result_of(bound) is None ==> r is Err,
        ctx.event@.get("predicate"@) is None ==> r is Err,
        r is Ok ==> {
            let plan = r->Ok_0;
            &&& ctx.result_of(bound)->0.get_str("session_name"@) == Some(plan.session_name@)
            &&& predicate_outcome(
                ctx.event@.get("predicate"@)->0,
                decode_state,
                Ok(plan.predicate),
            )
            &&& match ctx.event@.get_str("sent_at"@) {
                Some(raw) => time::rfc3339_parsed(raw) == Ok::<(i64, u32), Seq<char>>(
                    (plan.sent_at.secs, plan.sent_at.nanos),
                ),
                None => !(plan.predicate is Marker) && plan.sent_at.secs == 0
                    && plan.sent_at.nanos == 0,
            }
            &&& plan.policy.timeout_ms == (if over is Some && over->0.timeout_ms is Some {
                over->0.timeout_ms->0
            } else if node.profiled() is Some && node.profiled()->0.timeout_ms is Some {
                node.profiled()->0.timeout_ms->0
            } else if node.defaults() is Some && node.defaults()->0.timeout_ms is Some {
                node.defaults()->0.timeout_ms->0
            } else {
                600_000
            })
            &&& plan.policy.poll_interval_ms == (if over is Some && over->0.poll_interval_ms
                is Some {
                over->0.poll_interval_ms->0
            } else if node.profiled() is Some && node.profiled()->0.poll_interval_ms is Some {
                node.profiled()->0.poll_interval_ms->0
            } else if node.defaults() is Some && node.defaults()->0.poll_interval_ms is Some {
                node.defaults()->0.poll_interval_ms->0
            } else {
                1_000
            })
        },
{
}

/// A wait begins with a capture of its session, and ends at the latest when
/// its time is over, counted from the beginning; after a sleep it goes on with
/// a capture, and a cancelled wait leaves the context as it was.
pub proof fn law_wait_begins_with_its_whole_time(
    plan: AwaitPlan,
    ctx: TaskContext,
    now: Duration,
    first: AwaitStep,
    pause: AwaitPause,
    later: Duration,
    next: AwaitStep,
)
    requires
        AwaitPlan::begin.ensures((plan, ctx, now), first),
        AwaitPause::slept.ensures((pause, later), next),
    ensures
        first is Capture && first->Capture_session@ == plan.session_name@,
        first->Capture_state.run.deadline.nanos == now.nanos + plan.policy.timeout_ms * 1_000_000,
        first->Capture_state.run.plan == plan,
        first->Capture_state.run.last_screen is None,
        first->Capture_state.asked_at == now,
        first->Capture_state.ctx == ctx,
        next is Capture && next->Capture_session@ == pause.run.plan.session_name@,
        next->Capture_state.run == pause.run,
        next->Capture_state.asked_at == later,
        next->Capture_state.ctx == pause.ctx,
{
}

/// The time of a send is what its text says, to the nanosecond; a text that is
/// no time is refused, with the text and the reason.
pub proof fn law_sent_at_is_what_its_text_says(
    raw: &str,
    parsed: Result<(i64, u32), String>,
    given: Result<Timestamp, NodeError>,
    r: Result<Timestamp, NodeError>,
)
    requires
        sent_at_of.ensures((raw, parsed), given),
        parse_rfc3339.ensures((raw,), r),
    ensures
        parsed is Ok ==> given is Ok && given->Ok_0.secs == parsed->Ok_0.0 && given->Ok_0.nanos
            == parsed->Ok_0.1,
        parsed is Err ==> given is Err && given->Err_0.message@ == NODE_NAME@ + (
        ": invalid `sent_at` "@ + text::debug_text(raw@) + ": "@ + parsed->Err_0@),
        match time::rfc3339_parsed(raw@) {
            Ok(parts) => r is Ok && r->Ok_0.secs == parts.0 && r->Ok_0.nanos == parts.1,
            Err(_) => r is Err,
        },
{
}

/// A sleep lasts for the poll interval, at least a millisecond, or until the
/// deadline where that comes first.
pub proof fn law_sleep_is_the_shorter_span(run: &AwaitRun, now: Duration, r: Duration)
    requires
        AwaitRun::sleep_for.ensures((run, now), r),
    ensures
        now.nanos >= run.deadline.nanos ==> r.nanos == 0,
        now.nanos < run.deadline.nanos ==> {
            let remaining = run.deadline.nanos - now.nanos;
            let interval = if run.plan.policy.poll_interval_ms == 0 {
                1_000_000
            } else {
                run.plan.policy.poll_interval_ms * 1_000_000
            };
            &&& remaining <= interval ==> r.nanos == remaining
            &&& remaining > interval ==> r.nanos == interval
        },
{
}

/// From tick to tick a wait keeps its plan, its deadline and its context, and
/// remembers the screen and when it last changed.
pub proof fn law_wait_remembers_the_screen<D: Fn(&str) -> AgentState>(
    capture: AwaitCapture,
    shown: String,
    detect: D,
    now: Duration,
    step: AwaitStep,
)
    requires
        AwaitCapture::captured::<D>.ensures((capture, Ok(shown), detect, now), step),
    ensures
        !(step is Capture),
        ({
            let (ctx, run) = match step {
                AwaitStep::ReadMarker { state, path } => (state.ctx, state.run),
                AwaitStep::AskStatus { state, session } => (state.ctx, state.run),
                AwaitStep::Sleep { state, span } => (state.ctx, state.run),
                _ => (capture.ctx, capture.run),
            };
            let same = capture.run.last_screen is Some && capture.run.last_screen->0@ == shown@;
            step is ReadMarker || step is AskStatus || step is Sleep ==> {
                &&& ctx == capture.ctx
                &&& run.plan == capture.run.plan
                &&& run.deadline == capture.run.deadline
                &&& run.last_screen is Some && run.last_screen->0@ == shown@
                &&& same ==> run.last_change == capture.run.last_change
                &&& !same ==> run.last_change == capture.asked_at
            }
        }),
{
}

/// A wait that goes to sleep after its question goes on as it was when it
/// asked, and a wait that is cancelled returns its context as it was.
pub proof fn law_question_changes_nothing(
    look: AwaitLook,
    marker: MarkerObservation,
    status: Option<String>,
    now: Duration,
    after_marker: AwaitStep,
    after_status: AwaitStep,
    pause: AwaitPause,
    cancelled: Result<TaskContext, NodeError>,
)
    requires
        AwaitLook::marker_read.ensures((look, marker, now), after_marker),
        AwaitLook::status_told.ensures((look, status, now), after_status),
        AwaitPause::cancelled.ensures((pause,), cancelled),
    ensures
        after_marker is Sleep || after_marker is Finished,
        after_marker is Sleep ==> after_marker->Sleep_state.run == look.run
            && after_marker->Sleep_state.ctx == look.ctx,
        after_status is Sleep || after_status is Finished,
        after_status is Sleep ==> after_status->Sleep_state.run == look.run
            && after_status->Sleep_state.ctx == look.ctx,
        cancelled == Ok::<TaskContext, NodeError>(pause.ctx),
{
}

/// Where nothing is missing or invalid, there is a plan.
pub proof fn law_complete_event_has_a_plan<
    D: Fn(&str) -> Result<AgentState, String>,
    E: Fn(&Json) -> Result<PartialAwaitPolicy, String>,
>(
    node: &TerminalAwaitNode,
    ctx: &TaskContext,
    decode_state: D,
    decode_policy: E,
    bound: Seq<char>,
    r: Result<AwaitPlan, NodeError>,
)
    requires
        node.input().bound_to() is Some ==> bound == node.input().bound_to()->0,
        node.input().bound_to() is None ==> bound == session::NODE_NAME@,
        ctx.result_of(bound) matches Some(doc) && doc.get_str("session_name"@) is Some,
        ctx.event@.get("predicate"@) is Some,
        forall|p: Result<AwaitPredicate, NodeError>| #[trigger]
            predicate_outcome(ctx.event@.get("predicate"@)->0, decode_state, p) ==> p is Ok,
        match ctx.event@.get_str("sent_at"@) {
            Some(raw) => time::rfc3339_parsed(raw) is Ok,
            None => forall|p: Result<AwaitPredicate, NodeError>| #[trigger]
                predicate_outcome(ctx.event@.get("predicate"@)->0, decode_state, p) ==> !(p->Ok_0
                    is Marker),
        },
        ctx.event@.get("policy"@) is Some ==> forall|
            doc: Json,
            d: Result<PartialAwaitPolicy, String>,
        | #[trigger]
            decode_policy.ensures((&doc,), d) && doc@ == ctx.event@.get("policy"@)->0 ==> d is Ok,
        TerminalAwaitNode::plan::<D, E>.ensures((node, ctx, decode_state, decode_policy), r),
    ensures
        r is Ok,
{
}

/// What is missing or invalid is told, the first thing first: the session, the
/// predicate, what is wrong with it, the time of the send.
pub proof fn law_first_fault_is_told<
    D: Fn(&str) -> Result<AgentState, String>,
    E: Fn(&Json) -> Result<PartialAwaitPolicy, String>,
>(
    node: &TerminalAwaitNode,
    ctx: &TaskContext,
    decode_state: D,
    decode_policy: E,
    own: &str,
    after: &str,
    bound: &str,
    session: Result<String, NodeError>,
    said: Seq<char>,
    r: Result<AwaitPlan, NodeError>,
)
    requires
        own@ == NODE_NAME@,
        after@ == session::NODE_NAME@,
        node.input().bound_to() is Some ==> bound@ == node.input().bound_to()->0,
        node.input().bound_to() is None ==> bound@ == session::NODE_NAME@,
        read_session.ensures((own, after, ctx, bound), session),
        TerminalAwaitNode::plan::<D, E>.ensures((node, ctx, decode_state, decode_policy), r),
    ensures
        session is Err ==> r is Err && r->Err_0.message@ == session->Err_0.message@,
        session is Ok && ctx.event@.get("predicate"@) is None ==> r is Err && r->Err_0.message@
            == NODE_NAME@ + ": ctx.event is missing `predicate`"@,
        session is Ok && ctx.event@.get("predicate"@) is Some && (forall|
            p: Result<AwaitPredicate, NodeError>,
        | #[trigger]
            predicate_outcome(ctx.event@.get("predicate"@)->0, decode_state, p) ==> p is Err
                && p->Err_0.message@ == said) ==> r is Err && r->Err_0.message@ == said,
        session is Ok && ctx.event@.get("predicate"@) is Some && (forall|
            p: Result<AwaitPredicate, NodeError>,
        | #[trigger]
            predicate_outcome(ctx.event@.get("predicate"@)->0, decode_state, p) ==> p is Ok
                && p->Ok_0 is Marker) && ctx.event@.get_str("sent_at"@) is None ==> r is Err
            && r->Err_0.message@ == NODE_NAME@
            + ": ctx.event is missing `sent_at`, required for a Marker predicate"@,
{
}

/// A predicate that lacks what its kind needs is refused with the name of what
/// is missing.
pub proof fn law_missing_field_is_named<D: Fn(&str) -> Result<AgentState, String>>(
    value: &Json,
    decode_state: &D,
    r: Result<AwaitPredicate, NodeError>,
)
    requires
        value@ is Object,
        parse_predicate::<D>.ensures((value, decode_state), r),
    ensures
        value@.get_str("type"@) is None ==> r is Err && r->Err_0.message@ == NODE_NAME@
            + ": ctx.event.predicate is missing `type`"@,
        value@.get_str("type"@) == Some("marker"@) && value@.get_str("out"@) is None ==> r is Err
            && r->Err_0.message@ == NODE_NAME@ + (": ctx.event.predicate is missing `"@ + "out"@
            + "`"@),
        value@.get_str("type"@) == Some("marker"@) && value@.get_str("out"@) is Some
            && value@.get_str("nonce"@) is None ==> r is Err && r->Err_0.message@ == NODE_NAME@ + (
        ": ctx.event.predicate is missing `"@ + "nonce"@ + "`"@),
        value@.get_str("type"@) == Some("regex"@) && value@.get_str("pattern"@) is None ==> r
            is Err && r->Err_0.message@ == NODE_NAME@ + (": ctx.event.predicate is missing `"@
            + "pattern"@ + "`"@),
        value@.get_str("type"@) == Some("detect"@) && value@.get_str("target"@) is None ==> r
            is Err && r->Err_0.message@ == NODE_NAME@ + (": ctx.event.predicate is missing `"@
            + "target"@ + "`"@),
        value@.get_str("type"@) == Some("silence"@) && r is Err ==> r->Err_0.message@ == NODE_NAME@
            + ": ctx.event.predicate is missing numeric `min_duration_ms`"@,
{
    reveal_strlit("marker");
    reveal_strlit("detect");
    reveal_strlit("regex");
    reveal_strlit("silence");
    reveal_strlit("exit_code");
    assert("marker"@.len() == 6);
    assert("detect"@.len() == 6);
    assert("regex"@.len() == 5);
    assert("silence"@.len() == 7);
    assert("exit_code"@.len() == 9);
    assert("marker"@[0] != "detect"@[0]);
}

/// Telling the node whose session it watches changes nothing else of it.
pub proof fn law_session_is_rebound_alone(
    node: TerminalAwaitNode,
    upstream: &str,
    defaults: PartialAwaitPolicy,
    profile: PartialAwaitPolicy,
    rebound: TerminalAwaitNode,
    with_defaults: TerminalAwaitNode,
    with_profile: TerminalAwaitNode,
)
    requires
        <TerminalAwaitNode as crate::nodes::terminal::identity::WithSessionInput>::with_session_input_from.ensures(
            (node, upstream),
            rebound,
        ),
        TerminalAwaitNode::with_harness_defaults.ensures((node, defaults), with_defaults),
        TerminalAwaitNode::with_profile.ensures((node, profile), with_profile),
    ensures
        rebound.input().bound_to() == Some(upstream@),
        rebound.defaults() == node.defaults() && rebound.profiled() == node.profiled(),
        with_defaults.input() == node.input() && with_defaults.defaults() == Some(defaults)
            && with_defaults.profiled() == node.profiled(),
        with_profile.input() == node.input() && with_profile.defaults() == node.defaults()
            && with_profile.profiled() == Some(profile),
{
}

/// An exit code is asked for by any integer, and by nothing else.
pub proof fn law_exit_code_is_asked_for_by_an_integer<D: Fn(&str) -> Result<AgentState, String>>(
    value: &Json,
    decode_state: &D,
    r: Result<AwaitPredicate, NodeError>,
)
    requires
        value@.get_str("type"@) == Some("exit_code"@),
        parse_predicate::<D>.ensures((value, decode_state), r),
    ensures
        r is Ok && r->Ok_0 is ExitCode,
        match value@.get("expected"@) {
            Some(JsonView::Number(json::NumberView::NegInt(n))) => r->Ok_0->expected == Some(
                n as i32,
            ),
            Some(JsonView::Number(json::NumberView::PosInt(n))) => if n
                <= 9_223_372_036_854_775_807 {
                r->Ok_0->expected == Some((n as i64) as i32)
            } else {
                r->Ok_0->expected is None
            },
            _ => r->Ok_0->expected is None,
        },
{
    reveal_strlit("marker");
    reveal_strlit("detect");
    reveal_strlit("regex");
    reveal_strlit("silence");
    reveal_strlit("exit_code");
    assert("marker"@.len() == 6);
    assert("detect"@.len() == 6);
    assert("regex"@.len() == 5);
    assert("silence"@.len() == 7);
    assert("exit_code"@.len() == 9);
    assert("marker"@[0] != "detect"@[0]);
}

/// The answer about a process is its mark, a colon and its code: the code
/// counts where the mark says that the process has ended, and where it is a
/// number; an answer without a colon tells nothing.
pub proof fn law_answer_is_mark_and_code(
    raw: &str,
    answer: String,
    mark: Seq<char>,
    code: &str,
    parsed: Option<i32>,
    r: Option<i32>,
)
    requires
        trimmed.ensures((raw,), answer),
        parse_i32.ensures((code,), parsed),
        exit_code_of.ensures((raw,), r),
        !mark.contains(':'),
    ensures
        !answer@.contains(':') ==> r is None,
        answer@ == mark + seq![':'] + code@ && mark == seq!['1'] ==> r == parsed,
        answer@ == mark + seq![':'] + code@ && mark != seq!['1'] ==> r is None,
{
    let status = answer@;
    reveal_strlit("1");
    assert("1"@ =~= seq!['1']);
    text::lemma_first_index_bounds(status, ':');
    if !status.contains(':') {
        if text::first_index(status, ':') < status.len() {
            assert(status.contains(status[text::first_index(status, ':')]));
        }
    }
    if status == mark + seq![':'] + code@ {
        let n = mark.len() as int;
        assert forall|j: int| 0 <= j < n implies status[j] != ':' by {
            assert(mark.contains(mark[j]));
        }
        text::lemma_first_index(status, ':', n);
        assert(status.take(n) =~= mark);
        assert(status.skip(n + 1) =~= code@);
    }
}

} // verus!
