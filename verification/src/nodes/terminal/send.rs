//! The node that types a command into a session: refused where the command
//! floor denies it, done once per send identifier, and only under the lease.
use vstd::prelude::*;

use crate::contract;
use crate::contract::{put_result, read_run_id, TaskContext};
use crate::json;
use crate::json::{Json, JsonView};
use crate::node::{InputBinding, NodeError};
use crate::nodes::terminal::driver;
use crate::nodes::terminal::driver::{
    failed, namespaced_option, CallView, DriverCall, DriverFault, GuardedSendRequest, Reply,
    SendView, Step,
};
use crate::nodes::terminal::identity::HasSessionInput;
use crate::nodes::terminal::session;
use crate::nodes::terminal::session::DEFAULT_LEASE_TTL;
use crate::nodes::terminal::upstream;
use crate::nodes::terminal::upstream::read_leased_session;
use crate::text;
use crate::text::{concat2, concat3, concat5, owned, quoted};

verus! {

/// The identity this node runs and stamps its result under.
pub const NODE_NAME: &'static str = "TerminalSendNode";

/// The option that holds the last send a session accepted.
pub const LAST_SEND_ID_OPTION: &'static str = "@engine_last_send_id";

/// How long the lease is renewed for, in milliseconds.
pub const LEASE_TTL_MS: u64 = 300_000;

/// What the command floor says of a command.
#[derive(Debug, PartialEq, Eq)]
pub enum CommandDecision {
    Allow,
    Deny { reason: String, matched: String },
}

/// The node.
#[derive(Debug, PartialEq, Eq)]
pub struct TerminalSendNode {
    session_input: InputBinding,
}

/// How far the node has come: which call it is waiting for.
#[derive(Clone, Copy, Debug, PartialEq, Eq)]
pub enum SendStage {
    CheckingSendId,
    Sending,
    Recording,
}

/// A run of the node.
#[derive(Debug, PartialEq, Eq)]
pub struct SendRun {
    pub ctx: TaskContext,
    pub run_id: String,
    pub session_name: String,
    pub lease_nonce: String,
    pub command: String,
    pub send_id: String,
    pub stage: SendStage,
}

impl SendRun {
    /// This run, waiting for another call.
    pub open spec fn at(self, stage: SendStage) -> SendRun {
        SendRun { stage, ..self }
    }

    /// The option that holds the last send of the run's session.
    pub open spec fn last_send(self) -> Seq<char> {
        driver::option_for(LAST_SEND_ID_OPTION@, self.session_name@)
    }
}

/// What the node stamps.
pub open spec fn stamp(session: Seq<char>, send_id: Seq<char>, sent: bool) -> JsonView {
    JsonView::Object(
        json::json_object().insert("session_name"@, json::json_str(session)).insert(
            "send_id"@,
            json::json_str(send_id),
        ).insert("sent"@, JsonView::Bool(sent)).insert("deduplicated"@, JsonView::Bool(!sent)),
    )
}

/// The command and the send identifier of an event, or what the node says
/// where one is missing.
pub open spec fn send_args(event: JsonView) -> Result<(Seq<char>, Seq<char>), Seq<char>> {
    match event.get_str("command"@) {
        None => Err(NODE_NAME@ + ": ctx.event is missing `command`"@),
        Some(command) => match event.get_str("send_id"@) {
            None => Err(NODE_NAME@ + ": ctx.event is missing `send_id`"@),
            Some(send_id) => Ok((command, send_id)),
        },
    }
}

/// The command and the send identifier of an event.
pub fn read_send_args(event: &Json) -> (r: Result<(String, String), NodeError>)
    ensures
        match send_args(event@) {
            Ok(p) => r matches Ok(q) && q.0@ == p.0 && q.1@ == p.1,
            Err(why) => r matches Err(e) && e.message@ == why,
        },
{
    let command = match event.get_str("command") {
        Some(command) => owned(command),
        None => {
            return Err(NodeError::new(concat2(NODE_NAME, ": ctx.event is missing `command`")));
        },
    };
    match event.get_str("send_id") {
        Some(send_id) => Ok((command, owned(send_id))),
        None => Err(NodeError::new(concat2(NODE_NAME, ": ctx.event is missing `send_id`"))),
    }
}

/// What the node says when the terminal refuses the line.
pub open spec fn refusal(fault: DriverFault) -> Seq<char> {
    match fault {
        DriverFault::Lease(why) => NODE_NAME@ + ": send refused — lease is no longer ours: "@
            + why@,
        DriverFault::Hold(why) => NODE_NAME@ + ": send refused by operator hold: "@ + why@,
        DriverFault::Other(why) => NODE_NAME@ + ": send_keys failed: "@ + why@,
    }
}

impl TerminalSendNode {
    /// Whose session the node types into.
    pub open spec fn input(self) -> InputBinding {
        self.session_input()
    }

    /// A node that types into the session of the default session node.
    pub fn new() -> (r: Self)
        ensures
            r.input().bound_to() is None,
    {
        TerminalSendNode { session_input: InputBinding::unbound() }
    }

    /// The identity this node runs and stamps its result under.
    pub fn name(&self) -> (r: &'static str)
        ensures
            r@ == NODE_NAME@,
    {
        NODE_NAME
    }

    /// The node named as the session's owner.
    pub open spec fn bound(self) -> Seq<char> {
        self.input().resolved(session::NODE_NAME@)
    }

    /// Whether `step` is how the node starts on `ctx`: the first thing that is
    /// missing or denied ends it before any call; else it asks for the last
    /// send.
    pub open spec fn starts<F: Fn(&str) -> CommandDecision>(
        self,
        ctx: TaskContext,
        floor: F,
        step: Step<SendRun>,
    ) -> bool {
        match contract::run_id_of(ctx.metadata@) {
            None => step.fails(
                NODE_NAME@ + ": no run_id stamped on ctx.metadata — cannot verify the lease"@,
            ),
            Some(run_id) => match upstream::leased_session_of(
                NODE_NAME@,
                session::NODE_NAME@,
                ctx,
                self.bound(),
            ) {
                Err(why) => step.fails(why),
                Ok(leased) => match send_args(ctx.event@) {
                    Err(why) => step.fails(why),
                    Ok(args) => exists|command: &str, decision: CommandDecision| #[trigger]
                        floor.ensures((command,), decision) && command@ == args.0
                            && match decision {
                            CommandDecision::Deny { reason, matched } => step.fails(
                                NODE_NAME@ + ": command refused by the command floor ("@ + reason@
                                    + "): "@ + text::debug_text(matched@),
                            ),
                            CommandDecision::Allow => step matches Step::Call { state, call } && {
                                &&& state.ctx == ctx
                                &&& state.run_id@ == run_id
                                &&& state.session_name@ == leased.0
                                &&& state.lease_nonce@ == leased.1
                                &&& state.command@ == args.0
                                &&& state.send_id@ == args.1
                                &&& state.stage == SendStage::CheckingSendId
                                &&& call@ == CallView::ShowOption { name: state.last_send() }
                            },
                        },
                },
            },
        }
    }

    /// Start on `ctx`. `floor` is the command floor.
    pub fn start<F: Fn(&str) -> CommandDecision>(&self, ctx: TaskContext, floor: F) -> (r: Step<
        SendRun,
    >)
        requires
            forall|s: &str| floor.requires((s,)),
        ensures
            self.starts(ctx, floor, r),
    {
        let run_id = match read_run_id(&ctx.metadata) {
            Some(run_id) => run_id,
            None => {
                return failed(
                    concat2(
                        NODE_NAME,
                        ": no run_id stamped on ctx.metadata — cannot verify the lease",
                    ),
                );
            },
        };
        let bound = self.session_input.resolve(session::NODE_NAME);
        let (session_name, lease_nonce) = match read_leased_session(
            NODE_NAME,
            session::NODE_NAME,
            &ctx,
            bound,
        ) {
            Ok(leased) => leased,
            Err(e) => {
                return Step::Finished(Err(e));
            },
        };
        let (command, send_id) = match read_send_args(&ctx.event) {
            Ok(args) => args,
            Err(e) => {
                return Step::Finished(Err(e));
            },
        };
        let line = command.as_str();
        let decision = floor(line);
        assert(floor.ensures((line,), decision));
        match decision {
            CommandDecision::Deny { reason, matched } => {
                let shown = quoted(matched.as_str());
                return failed(
                    concat5(
                        NODE_NAME,
                        ": command refused by the command floor (",
                        reason.as_str(),
                        "): ",
                        shown.as_str(),
                    ),
                );
            },
            CommandDecision::Allow => {},
        }
        let call = DriverCall::ShowOption {
            name: namespaced_option(LAST_SEND_ID_OPTION, session_name.as_str()),
        };
        Step::Call {
            state: SendRun {
                ctx,
                run_id,
                session_name,
                lease_nonce,
                command,
                send_id,
                stage: SendStage::CheckingSendId,
            },
            call,
        }
    }

    /// Whether `step` is how the node goes on from `run`, given the reply.
    pub open spec fn resumes(run: SendRun, reply: Reply, now_ms: u64, step: Step<SendRun>) -> bool {
        match run.stage {
            SendStage::CheckingSendId => if reply matches Ok(recorded) && recorded@ == run.send_id@ {
                step matches Step::Finished(Ok(done)) && done.stamped(
                    run.ctx,
                    NODE_NAME@,
                    stamp(run.session_name@, run.send_id@, false),
                )
            } else {
                step matches Step::Call { state, call } && state == run.at(SendStage::Sending)
                    && call@ == CallView::SendKeys(
                    SendView {
                        session_name: run.session_name@,
                        keys: run.command@,
                        run_id: run.run_id@,
                        nonce: run.lease_nonce@,
                        identity: NODE_NAME@,
                        lease_expires_at_ms: (now_ms + LEASE_TTL_MS) as u64,
                        now_ms,
                    },
                )
            },
            SendStage::Sending => match reply {
                Err(f) => step.fails(refusal(f)),
                Ok(_) => step matches Step::Call { state, call } && state == run.at(
                    SendStage::Recording,
                ) && call@ == CallView::SetOption { name: run.last_send(), value: run.send_id@ },
            },
            SendStage::Recording => match reply {
                Err(f) => step.fails(
                    NODE_NAME@ + ": failed to record send_id "@ + run.last_send() + ": "@
                        + f.says(),
                ),
                Ok(_) => step matches Step::Finished(Ok(done)) && done.stamped(
                    run.ctx,
                    NODE_NAME@,
                    stamp(run.session_name@, run.send_id@, true),
                ),
            },
        }
    }

    /// Go on from `run`, given the reply to what it asked for and the present
    /// time in milliseconds.
    pub fn resume(&self, run: SendRun, reply: Reply, now_ms: u64) -> (r: Step<SendRun>)
        requires
            run.stage is CheckingSendId && !(reply matches Ok(recorded) && recorded@
                == run.send_id@) ==> now_ms + LEASE_TTL_MS <= u64::MAX,
        ensures
            TerminalSendNode::resumes(run, reply, now_ms, r),
    {
        let mut run = run;
        match run.stage {
            SendStage::CheckingSendId => {
                let already_sent = match &reply {
                    Ok(recorded) => *recorded.as_str() == *run.send_id.as_str(),
                    Err(_) => false,
                };
                if already_sent {
                    return finished(run, false);
                }
                run.stage = SendStage::Sending;
                let call = DriverCall::SendKeys(
                    GuardedSendRequest {
                        session_name: run.session_name.clone(),
                        keys: run.command.clone(),
                        run_id: run.run_id.clone(),
                        nonce: run.lease_nonce.clone(),
                        identity: owned(NODE_NAME),
                        lease_expires_at_ms: now_ms + LEASE_TTL_MS,
                        now_ms,
                    },
                );
                Step::Call { state: run, call }
            },
            SendStage::Sending => match reply {
                Err(DriverFault::Lease(why)) => failed(
                    concat3(NODE_NAME, ": send refused — lease is no longer ours: ", why.as_str()),
                ),
                Err(DriverFault::Hold(why)) => failed(
                    concat3(NODE_NAME, ": send refused by operator hold: ", why.as_str()),
                ),
                Err(DriverFault::Other(why)) => failed(
                    concat3(NODE_NAME, ": send_keys failed: ", why.as_str()),
                ),
                Ok(_) => {
                    run.stage = SendStage::Recording;
                    let call = DriverCall::SetOption {
                        name: namespaced_option(LAST_SEND_ID_OPTION, run.session_name.as_str()),
                        value: run.send_id.clone(),
                    };
                    Step::Call { state: run, call }
                },
            },
            SendStage::Recording => match reply {
                Err(f) => {
                    let option = namespaced_option(LAST_SEND_ID_OPTION, run.session_name.as_str());
                    failed(
                        concat5(
                            NODE_NAME,
                            ": failed to record send_id ",
                            option.as_str(),
                            ": ",
                            f.message(),
                        ),
                    )
                },
                Ok(_) => finished(run, true),
            },
        }
    }
}

/// The end of a run: the command was sent, or had been before.
fn finished(run: SendRun, sent: bool) -> (r: Step<SendRun>)
    ensures
        r matches Step::Finished(Ok(done)) && done.stamped(
            run.ctx,
            NODE_NAME@,
            stamp(run.session_name@, run.send_id@, sent),
        ),
{
    let doc = Json::object().with("session_name", Json::text(run.session_name.as_str())).with(
        "send_id",
        Json::text(run.send_id.as_str()),
    ).with("sent", Json::Bool(sent)).with("deduplicated", Json::Bool(!sent));
    Step::Finished(Ok(put_result(run.ctx, NODE_NAME, doc)))
}

impl Default for TerminalSendNode {
    fn default() -> (r: Self)
        ensures
            r.input().bound_to() is None,
    {
        TerminalSendNode::new()
    }
}

impl HasSessionInput for TerminalSendNode {
    closed spec fn session_input(&self) -> InputBinding {
        self.session_input
    }

    open spec fn differs_in_session_alone(&self, other: &Self) -> bool {
        true
    }

    fn session_input_mut(&mut self) -> (r: &mut InputBinding) {
        &mut self.session_input
    }
}

/// The lease is renewed for as long as a session node takes it by default.
pub proof fn law_lease_is_the_default()
    ensures
        LEASE_TTL_MS == DEFAULT_LEASE_TTL / 1_000_000,
{
}

/// A command that the floor denies reaches nothing: the node ends without a
/// call.
pub proof fn law_denied_command_reaches_nothing<F: Fn(&str) -> CommandDecision>(
    node: TerminalSendNode,
    ctx: TaskContext,
    floor: F,
    step: Step<SendRun>,
)
    requires
        node.starts(ctx, floor, step),
        forall|s: &str, d: CommandDecision| #[trigger]
            floor.ensures((s,), d) && ctx.event@.get_str("command"@) == Some(s@) ==> d is Deny,
    ensures
        step matches Step::Finished(r) && r is Err,
{
}

/// A send that the session has accepted before succeeds without a further
/// call, so that nothing is typed twice.
pub proof fn law_accepted_send_is_not_repeated(
    run: SendRun,
    reply: Reply,
    now_ms: u64,
    step: Step<SendRun>,
)
    requires
        run.stage == SendStage::CheckingSendId,
        reply matches Ok(recorded) && recorded@ == run.send_id@,
        TerminalSendNode::resumes(run, reply, now_ms, step),
    ensures
        step matches Step::Finished(r) && r is Ok,
{
}

/// How many calls a run has made when it waits at a stage.
pub open spec fn calls_made(stage: SendStage) -> int {
    match stage {
        SendStage::CheckingSendId => 1,
        SendStage::Sending => 2,
        SendStage::Recording => 3,
    }
}

/// A run types its line at most once, after the check of the send identifier,
/// and is over after three calls.
pub proof fn law_line_is_typed_once(run: SendRun, reply: Reply, now_ms: u64, step: Step<SendRun>)
    requires
        TerminalSendNode::resumes(run, reply, now_ms, step),
    ensures
        step matches Step::Call { state, call } ==> calls_made(state.stage) == calls_made(run.stage)
            + 1,
        step matches Step::Call { state, call } && call@ is SendKeys ==> run.stage
            == SendStage::CheckingSendId,
{
}

/// A send counts as accepted only once the line has been typed: the option is
/// set in no other case.
pub proof fn law_only_typed_sends_are_recorded(
    run: SendRun,
    reply: Reply,
    now_ms: u64,
    step: Step<SendRun>,
)
    requires
        TerminalSendNode::resumes(run, reply, now_ms, step),
        step matches Step::Call { state, call } && call@ is SetOption,
    ensures
        run.stage == SendStage::Sending,
        reply is Ok,
{
}

/// A command is typed only where the run, its leased session, the command and
/// the send identifier are all there and the floor allows the command; and then
/// as the event has it, into the session that was recorded.
pub proof fn law_send_starts_with_all_it_needs<F: Fn(&str) -> CommandDecision>(
    node: &TerminalSendNode,
    ctx: TaskContext,
    floor: F,
    bound: Seq<char>,
    step: Step<SendRun>,
)
    requires
        node.input().bound_to() is Some ==> bound == node.input().bound_to()->0,
        node.input().bound_to() is None ==> bound == session::NODE_NAME@,
        TerminalSendNode::start::<F>.ensures((node, ctx, floor), step),
    ensures
        step matches Step::Finished(r) ==> r is Err,
        step matches Step::Call { state, call } ==> {
            &&& Some(state.run_id@) == ctx.metadata@.get_str("run_id"@)
            &&& ctx.result_of(bound) matches Some(doc) && doc.get_str("session_name"@) == Some(
                state.session_name@,
            ) && doc.get_str("lease_nonce"@) == Some(state.lease_nonce@)
            &&& ctx.event@.get_str("command"@) == Some(state.command@)
            &&& ctx.event@.get_str("send_id"@) == Some(state.send_id@)
            &&& exists|command: &str|
                command@ == state.command@ && #[trigger] floor.ensures(
                    (command,),
                    CommandDecision::Allow,
                )
            &&& state.stage is CheckingSendId
            &&& state.ctx == ctx
            &&& call@ == (CallView::ShowOption {
                name: "@engine_last_send_id"@ + "@"@ + state.session_name@,
            })
        },
        ctx.metadata@.get_str("run_id"@) is Some && (ctx.result_of(bound) matches Some(doc)
            && doc.get_str("session_name"@) is Some && doc.get_str("lease_nonce"@) is Some)
            && ctx.event@.get_str("command"@) is Some && ctx.event@.get_str("send_id"@) is Some
            && (forall|s: &str, d: CommandDecision| #[trigger]
            floor.ensures((s,), d) && ctx.event@.get_str("command"@) == Some(s@) ==> d is Allow)
            ==> step is Call,
{
}

/// A command whose send identifier is not the one recorded last is typed as it
/// stands, under the run's lease, renewed for five minutes from now.
pub proof fn law_new_send_is_typed(
    node: &TerminalSendNode,
    run: SendRun,
    reply: Reply,
    now_ms: u64,
    step: Step<SendRun>,
)
    requires
        run.stage is CheckingSendId,
        reply is Ok ==> reply->Ok_0@ != run.send_id@,
        now_ms + 300_000 <= u64::MAX,
        TerminalSendNode::resume.ensures((node, run, reply, now_ms), step),
    ensures
        step matches Step::Call { state, call } && call@ matches CallView::SendKeys(q) && {
            &&& q.session_name == run.session_name@
            &&& q.keys == run.command@
            &&& q.run_id == run.run_id@
            &&& q.nonce == run.lease_nonce@
            &&& q.identity == NODE_NAME@
            &&& q.now_ms == now_ms
            &&& q.lease_expires_at_ms == now_ms + 300_000
            &&& state.stage is Sending
            &&& state.ctx == run.ctx && state.session_name == run.session_name && state.send_id
                == run.send_id
        },
{
}

/// What the node records: the session, the send identifier, and whether the
/// command was typed now or had been before, one of the two. It is recorded as
/// typed exactly where the typing and the note of it both succeeded.
pub proof fn law_send_is_recorded(
    node: &TerminalSendNode,
    run: SendRun,
    reply: Reply,
    now_ms: u64,
    step: Step<SendRun>,
)
    requires
        TerminalSendNode::resume.ensures((node, run, reply, now_ms), step),
    ensures
        run.stage is CheckingSendId && reply is Ok && reply->Ok_0@ == run.send_id@ ==> (
        step matches Step::Finished(r) && r is Ok),
        run.stage is Recording && reply is Ok ==> (step matches Step::Finished(r) && r is Ok),
        run.stage is Sending && reply is Ok ==> (step matches Step::Call { state, call } && call@
            == (CallView::SetOption {
            name: "@engine_last_send_id"@ + "@"@ + run.session_name@,
            value: run.send_id@,
        }) && state.stage is Recording && state.ctx == run.ctx),
        !(run.stage is CheckingSendId) && reply is Err ==> (step matches Step::Finished(r) && r
            is Err),
        step matches Step::Finished(Ok(done)) ==> {
            &&& done.result_of(NODE_NAME@) matches Some(doc) && {
                &&& doc.get_str("session_name"@) == Some(run.session_name@)
                &&& doc.get_str("send_id"@) == Some(run.send_id@)
                &&& doc.get("sent"@) == Some(JsonView::Bool(run.stage is Recording))
                &&& doc.get("deduplicated"@) == Some(JsonView::Bool(run.stage is CheckingSendId))
            }
            &&& forall|key: Seq<char>| key != NODE_NAME@ ==> #[trigger] done.result_of(key)
                == run.ctx.result_of(key)
            &&& done.event == run.ctx.event
            &&& done.metadata == run.ctx.metadata
            &&& done.node_runs == run.ctx.node_runs
        },
{
    reveal_strlit("session_name");
    reveal_strlit("send_id");
    reveal_strlit("sent");
    reveal_strlit("deduplicated");
    assert("session_name"@.len() == 12);
    assert("send_id"@.len() == 7);
    assert("sent"@.len() == 4);
    assert("deduplicated"@.len() == 12);
    assert("session_name"@[0] != "deduplicated"@[0]);
    if step is Finished && step->Finished_0 is Ok {
        let done = step->Finished_0->Ok_0;
        let doc = stamp(run.session_name@, run.send_id@, run.stage is Recording);
        assert(done.stamped(run.ctx, NODE_NAME@, doc));
        assert(done.results() == run.ctx.results().insert(NODE_NAME@, doc));
    }
}

/// A line that the terminal refuses is told with the reason: a lost lease and
/// an operator's hold are told apart from each other and from any other fault.
pub proof fn law_refusals_are_told_apart(
    node: &TerminalSendNode,
    run: SendRun,
    reply: Reply,
    now_ms: u64,
    step: Step<SendRun>,
)
    requires
        run.stage is Sending,
        reply is Err,
        TerminalSendNode::resume.ensures((node, run, reply, now_ms), step),
    ensures
        step matches Step::Finished(Err(e)) && match reply->Err_0 {
            DriverFault::Lease(why) => e.message@ == NODE_NAME@
                + ": send refused — lease is no longer ours: "@ + why@,
            DriverFault::Hold(why) => e.message@ == NODE_NAME@
                + ": send refused by operator hold: "@ + why@,
            DriverFault::Other(why) => e.message@ == NODE_NAME@ + ": send_keys failed: "@ + why@,
        },
{
}

/// A send needs both a command and an identifier, as texts of the event.
pub proof fn law_send_needs_command_and_identifier(
    event: &Json,
    r: Result<(String, String), NodeError>,
)
    requires
        read_send_args.ensures((event,), r),
    ensures
        r is Ok <==> event@.get_str("command"@) is Some && event@.get_str("send_id"@) is Some,
        r is Ok ==> Some(r->Ok_0.0@) == event@.get_str("command"@) && Some(r->Ok_0.1@)
            == event@.get_str("send_id"@),
        event@.get_str("command"@) is None ==> r->Err_0.message@ == NODE_NAME@
            + ": ctx.event is missing `command`"@,
        event@.get_str("command"@) is Some && event@.get_str("send_id"@) is None
            ==> r->Err_0.message@ == NODE_NAME@ + ": ctx.event is missing `send_id`"@,
{
}

/// Why nothing is typed is told: the run's identifier is missing, or the floor
/// denies the command, with its reason and what it matched.
pub proof fn law_refused_command_is_told<F: Fn(&str) -> CommandDecision>(
    node: &TerminalSendNode,
    ctx: TaskContext,
    floor: F,
    bound: Seq<char>,
    reason: Seq<char>,
    matched: Seq<char>,
    step: Step<SendRun>,
)
    requires
        node.input().bound_to() is Some ==> bound == node.input().bound_to()->0,
        node.input().bound_to() is None ==> bound == session::NODE_NAME@,
        forall|s: &str, d: CommandDecision| #[trigger]
            floor.ensures((s,), d) && ctx.event@.get_str("command"@) == Some(s@) ==> d is Deny
                && d->reason@ == reason && d->matched@ == matched,
        TerminalSendNode::start::<F>.ensures((node, ctx, floor), step),
    ensures
        step is Finished && step->Finished_0 is Err,
        ctx.metadata@.get_str("run_id"@) is None ==> step->Finished_0->Err_0.message@ == NODE_NAME@
            + ": no run_id stamped on ctx.metadata — cannot verify the lease"@,
        ctx.metadata@.get_str("run_id"@) is Some && (ctx.result_of(bound) matches Some(doc)
            && doc.get_str("session_name"@) is Some && doc.get_str("lease_nonce"@) is Some)
            && ctx.event@.get_str("command"@) is Some && ctx.event@.get_str("send_id"@) is Some
            ==> step->Finished_0->Err_0.message@ == NODE_NAME@
            + ": command refused by the command floor ("@ + reason + "): "@ + text::debug_text(
            matched,
        ),
{
}

} // verus!
