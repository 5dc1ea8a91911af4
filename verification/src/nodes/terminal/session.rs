//! The node that makes sure a session exists and takes its lease.
//!
//! What identifies the session is written to the terminal before anything else
//! is asked of it: should a later call fail, the session can still be found.
use vstd::prelude::*;

use crate::contract;
use crate::contract::{put_result, read_run_id, TaskContext};
use crate::json;
use crate::json::{Json, JsonView};
use crate::nodes::terminal::driver;
use crate::nodes::terminal::driver::{
    failed, namespaced_option, session_present, AcquireRequest, AcquireView, CallView, DriverCall,
    Reply, Step,
};
use crate::nodes::terminal::identity;
use crate::nodes::terminal::identity::session_name_for;
use crate::text;
use crate::text::{concat2, concat3, concat5, owned};
use crate::time::{Duration, NANOS_PER_MILLI};

verus! {

/// The identity this node runs and stamps its result under.
pub const NODE_NAME: &'static str = "TerminalSessionNode";

/// How long a lease is taken for unless told otherwise, in nanoseconds.
pub const DEFAULT_LEASE_TTL: u128 = 300_000_000_000;

/// The option that names the run a session belongs to.
pub const ENGINE_RUN_ID_OPTION: &'static str = "@engine_run_id";

/// The option that says when a session was created.
pub const ENGINE_CREATED_AT_OPTION: &'static str = "@engine_created_at";

/// A span in whole milliseconds, as leases are counted.
pub open spec fn ttl_ms(ttl: Duration) -> u64 {
    (ttl.nanos / NANOS_PER_MILLI) as u64
}

/// The node.
#[derive(Debug, PartialEq, Eq)]
pub struct TerminalSessionNode {
    dir: Option<String>,
    lease_ttl: Duration,
    steal_after: Option<Duration>,
}

/// How far the node has come: which call it is waiting for.
#[derive(Clone, Copy, Debug, PartialEq, Eq)]
pub enum SessionStage {
    StampingRunId,
    StampingCreatedAt,
    Listing,
    Creating,
    Acquiring { created: bool },
}

/// A run of the node.
#[derive(Debug, PartialEq, Eq)]
pub struct SessionRun {
    pub ctx: TaskContext,
    pub run_id: String,
    pub session_name: String,
    pub stage: SessionStage,
}

impl SessionRun {
    /// This run, waiting for another call.
    pub open spec fn at(self, stage: SessionStage) -> SessionRun {
        SessionRun { stage, ..self }
    }
}

/// What the node stamps.
pub open spec fn stamp(session: Seq<char>, nonce: Seq<char>, created: bool) -> JsonView {
    JsonView::Object(
        json::json_object().insert("session_name"@, json::json_str(session)).insert(
            "lease_nonce"@,
            json::json_str(nonce),
        ).insert("created"@, JsonView::Bool(created)),
    )
}

impl TerminalSessionNode {
    /// The directory a new session starts in.
    pub closed spec fn starts_in(self) -> Option<Seq<char>> {
        text::opt_text(self.dir)
    }

    /// How long the lease is taken for.
    pub closed spec fn ttl(self) -> Duration {
        self.lease_ttl
    }

    /// How long past its end a foreign lease may be taken over; none means
    /// never.
    pub closed spec fn steals_after(self) -> Option<Duration> {
        self.steal_after
    }

    /// A node without a directory, with the default lease, that never takes
    /// over a foreign lease.
    pub fn new() -> (r: Self)
        ensures
            r.starts_in() is None,
            r.ttl().nanos == DEFAULT_LEASE_TTL,
            r.steals_after() is None,
    {
        TerminalSessionNode {
            dir: None,
            lease_ttl: Duration { nanos: DEFAULT_LEASE_TTL },
            steal_after: None,
        }
    }

    /// The node, starting new sessions in `dir`.
    pub fn with_dir(self, dir: &str) -> (r: Self)
        ensures
            r.starts_in() == Some(dir@),
            r.ttl() == self.ttl(),
            r.steals_after() == self.steals_after(),
    {
        TerminalSessionNode {
            dir: Some(owned(dir)),
            lease_ttl: self.lease_ttl,
            steal_after: self.steal_after,
        }
    }

    /// The node, taking the lease for `ttl`.
    pub fn with_lease_ttl(self, ttl: Duration) -> (r: Self)
        ensures
            r.starts_in() == self.starts_in(),
            r.ttl() == ttl,
            r.steals_after() == self.steals_after(),
    {
        TerminalSessionNode { dir: self.dir, lease_ttl: ttl, steal_after: self.steal_after }
    }

    /// The node, taking over a foreign lease that ended `steal_after` ago.
    pub fn with_steal_after(self, steal_after: Duration) -> (r: Self)
        ensures
            r.starts_in() == self.starts_in(),
            r.ttl() == self.ttl(),
            r.steals_after() == Some(steal_after),
    {
        TerminalSessionNode {
            dir: self.dir,
            lease_ttl: self.lease_ttl,
            steal_after: Some(steal_after),
        }
    }

    /// The identity this node runs and stamps its result under.
    pub fn name(&self) -> (r: &'static str)
        ensures
            r@ == NODE_NAME@,
    {
        NODE_NAME
    }

    /// What the node asks for to take the lease.
    pub open spec fn acquire_call(self, run: SessionRun, now_ms: u64) -> CallView {
        CallView::Acquire(
            AcquireView {
                session_name: run.session_name@,
                run_id: run.run_id@,
                nonce: run.session_name@,
                identity: NODE_NAME@,
                expires_at_ms: (now_ms + ttl_ms(self.ttl())) as u64,
                now_ms,
                steal_after: self.steals_after(),
            },
        )
    }

    /// Whether `step` is how the node starts on `ctx`: with the option that
    /// names the run.
    pub open spec fn starts(self, ctx: TaskContext, step: Step<SessionRun>) -> bool {
        match contract::run_id_of(ctx.metadata@) {
            None => step.fails(
                NODE_NAME@
                    + ": no run_id stamped on ctx.metadata — cannot derive a session name"@,
            ),
            Some(run_id) => {
                let session = identity::session_name(run_id, NODE_NAME@);
                step matches Step::Call { state, call } && {
                    &&& state.ctx == ctx
                    &&& state.run_id@ == run_id
                    &&& state.session_name@ == session
                    &&& state.stage == SessionStage::StampingRunId
                    &&& call@ == CallView::SetOption {
                        name: driver::option_for(ENGINE_RUN_ID_OPTION@, session),
                        value: run_id,
                    }
                }
            },
        }
    }

    /// Whether `step` is how the node goes on from `run`, given the reply.
    pub open spec fn resumes<P: Fn(&str) -> Option<String>>(
        self,
        run: SessionRun,
        reply: Reply,
        created_at: Seq<char>,
        now_ms: u64,
        parse: P,
        step: Step<SessionRun>,
    ) -> bool {
        match (run.stage, reply) {
            (SessionStage::StampingRunId, Err(f)) => step.fails(
                NODE_NAME@ + ": failed to stamp "@ + ENGINE_RUN_ID_OPTION@ + ": "@ + f.says(),
            ),
            (SessionStage::StampingRunId, Ok(_)) => step matches Step::Call { state, call }
                && state == run.at(SessionStage::StampingCreatedAt) && call@
                == CallView::SetOption {
                name: driver::option_for(ENGINE_CREATED_AT_OPTION@, run.session_name@),
                value: created_at,
            },
            (SessionStage::StampingCreatedAt, Err(f)) => step.fails(
                NODE_NAME@ + ": failed to stamp "@ + ENGINE_CREATED_AT_OPTION@ + ": "@ + f.says(),
            ),
            (SessionStage::StampingCreatedAt, Ok(_)) => step matches Step::Call { state, call }
                && state == run.at(SessionStage::Listing) && call@ == CallView::ListSessions,
            (SessionStage::Listing, Err(f)) => step.fails(
                NODE_NAME@ + ": list_sessions failed: "@ + f.says(),
            ),
            (SessionStage::Listing, Ok(listing)) => exists|names: Seq<Option<String>>| #[trigger]
                driver::listed(listing@, parse, names) && if driver::names_it(
                    names,
                    run.session_name@,
                ) {
                    step matches Step::Call { state, call } && state == run.at(
                        SessionStage::Acquiring { created: false },
                    ) && call@ == self.acquire_call(run, now_ms)
                } else {
                    step matches Step::Call { state, call } && state == run.at(
                        SessionStage::Creating,
                    ) && call@ == CallView::NewSession {
                        name: run.session_name@,
                        dir: self.starts_in(),
                    }
                },
            (SessionStage::Creating, Err(f)) => step.fails(
                NODE_NAME@ + ": new_session failed: "@ + f.says(),
            ),
            (SessionStage::Creating, Ok(_)) => step matches Step::Call { state, call } && state
                == run.at(SessionStage::Acquiring { created: true }) && call@ == self.acquire_call(
                run,
                now_ms,
            ),
            (SessionStage::Acquiring { .. }, Err(f)) => step.fails(
                NODE_NAME@ + ": lease acquisition failed: "@ + f.says(),
            ),
            (SessionStage::Acquiring { created }, Ok(nonce)) => step matches Step::Finished(
                Ok(done),
            ) && done.stamped(run.ctx, NODE_NAME@, stamp(run.session_name@, nonce@, created)),
        }
    }

    fn acquire(&self, run: SessionRun, created: bool, now_ms: u64) -> (r: Step<SessionRun>)
        requires
            now_ms + ttl_ms(self.ttl()) <= u64::MAX,
        ensures
            r matches Step::Call { state, call } && state == run.at(
                SessionStage::Acquiring { created },
            ) && call@ == self.acquire_call(run, now_ms),
    {
        let call = DriverCall::Acquire(
            AcquireRequest {
                session_name: run.session_name.clone(),
                run_id: run.run_id.clone(),
                nonce: run.session_name.clone(),
                identity: owned(NODE_NAME),
                expires_at_ms: now_ms + self.lease_ttl.as_millis() as u64,
                now_ms,
                steal_after: self.steal_after,
            },
        );
        let mut state = run;
        state.stage = SessionStage::Acquiring { created };
        Step::Call { state, call }
    }

    /// Start on `ctx`.
    pub fn start(&self, ctx: TaskContext) -> (r: Step<SessionRun>)
        ensures
            self.starts(ctx, r),
    {
        let run_id = match read_run_id(&ctx.metadata) {
            Some(run_id) => run_id,
            None => {
                return failed(
                    concat2(
                        NODE_NAME,
                        ": no run_id stamped on ctx.metadata — cannot derive a session name",
                    ),
                );
            },
        };
        let session_name = session_name_for(run_id.as_str(), NODE_NAME);
        let call = DriverCall::SetOption {
            name: namespaced_option(ENGINE_RUN_ID_OPTION, session_name.as_str()),
            value: run_id.clone(),
        };
        Step::Call {
            state: SessionRun { ctx, run_id, session_name, stage: SessionStage::StampingRunId },
            call,
        }
    }

    /// Go on from `run`, given the reply to what it asked for. `created_at` is
    /// the present time as the session is to be stamped with it, `now_ms` the
    /// present time in milliseconds, and `parse` finds a session's name in a
    /// line of a listing.
    pub fn resume<P: Fn(&str) -> Option<String>>(
        &self,
        run: SessionRun,
        reply: Reply,
        created_at: &str,
        now_ms: u64,
        parse: P,
    ) -> (r: Step<SessionRun>)
        requires
            run.stage is Listing || run.stage is Creating ==> now_ms + ttl_ms(self.ttl())
                <= u64::MAX,
            forall|line: &str| parse.requires((line,)),
        ensures
            self.resumes(run, reply, created_at@, now_ms, parse, r),
    {
        let mut run = run;
        match run.stage {
            SessionStage::StampingRunId => match reply {
                Err(f) => failed(
                    not_stamped(ENGINE_RUN_ID_OPTION, f.message()),
                ),
                Ok(_) => {
                    run.stage = SessionStage::StampingCreatedAt;
                    let call = DriverCall::SetOption {
                        name: namespaced_option(
                            ENGINE_CREATED_AT_OPTION,
                            run.session_name.as_str(),
                        ),
                        value: owned(created_at),
                    };
                    Step::Call { state: run, call }
                },
            },
            SessionStage::StampingCreatedAt => match reply {
                Err(f) => failed(
                    not_stamped(ENGINE_CREATED_AT_OPTION, f.message()),
                ),
                Ok(_) => {
                    run.stage = SessionStage::Listing;
                    Step::Call { state: run, call: DriverCall::ListSessions }
                },
            },
            SessionStage::Listing => match reply {
                Err(f) => failed(concat3(NODE_NAME, ": list_sessions failed: ", f.message())),
                Ok(listing) => {
                    if session_present(listing.as_str(), run.session_name.as_str(), &parse) {
                        self.acquire(run, false, now_ms)
                    } else {
                        run.stage = SessionStage::Creating;
                        let call = DriverCall::NewSession {
                            name: run.session_name.clone(),
                            dir: self.dir.clone(),
                        };
                        Step::Call { state: run, call }
                    }
                },
            },
            SessionStage::Creating => match reply {
                Err(f) => failed(concat3(NODE_NAME, ": new_session failed: ", f.message())),
                Ok(_) => self.acquire(run, true, now_ms),
            },
            SessionStage::Acquiring { created } => match reply {
                Err(f) => failed(concat3(NODE_NAME, ": lease acquisition failed: ", f.message())),
                Ok(nonce) => {
                    let doc = Json::object().with(
                        "session_name",
                        Json::text(run.session_name.as_str()),
                    ).with("lease_nonce", Json::text(nonce.as_str())).with(
                        "created",
                        Json::Bool(created),
                    );
                    Step::Finished(Ok(put_result(run.ctx, NODE_NAME, doc)))
                },
            },
        }
    }
}

/// What the node says when an option cannot be stamped.
fn not_stamped(option: &str, why: &str) -> (r: String)
    ensures
        r@ == NODE_NAME@ + ": failed to stamp "@ + option@ + ": "@ + why@,
{
    concat5(NODE_NAME, ": failed to stamp ", option, ": ", why)
}

impl Default for TerminalSessionNode {
    fn default() -> (r: Self)
        ensures
            r.starts_in() is None,
            r.ttl().nanos == DEFAULT_LEASE_TTL,
            r.steals_after() is None,
    {
        TerminalSessionNode::new()
    }
}

/// The options that identify a session are set before anything else is asked
/// for: the first call sets the one, and whatever the reply to it, the next
/// call, if there is one, sets the other.
pub proof fn law_session_is_identified_first<P: Fn(&str) -> Option<String>>(
    node: TerminalSessionNode,
    ctx: TaskContext,
    first: Step<SessionRun>,
    reply: Reply,
    created_at: Seq<char>,
    now_ms: u64,
    parse: P,
    second: Step<SessionRun>,
)
    requires
        node.starts(ctx, first),
        first is Call ==> node.resumes(first->state, reply, created_at, now_ms, parse, second),
    ensures
        first matches Step::Call { state, call } ==> call@ is SetOption && match second {
            Step::Call { state: s, call: c } => c@ is SetOption && s.ctx == ctx,
            Step::Finished(r) => r is Err,
        },
{
}

/// The lease is taken under the session's own name, so that coming back to the
/// same session finds the same lease.
pub proof fn law_nonce_is_the_session(node: TerminalSessionNode, run: SessionRun, now_ms: u64)
    ensures
        node.acquire_call(run, now_ms) matches CallView::Acquire(q) && q.nonce == q.session_name,
{
}

/// The node starts exactly where the run has an identifier, with a session
/// named after the run and the node, and by stamping the run's identifier on
/// that session.
pub proof fn law_session_belongs_to_its_run(
    node: &TerminalSessionNode,
    ctx: TaskContext,
    run_id: &str,
    own: &str,
    name: String,
    step: Step<SessionRun>,
)
    requires
        own@ == NODE_NAME@,
        ctx.metadata@.get_str("run_id"@) == Some(run_id@),
        session_name_for.ensures((run_id, own), name),
        TerminalSessionNode::start.ensures((node, ctx), step),
    ensures
        step matches Step::Call { state, call } && {
            &&& state.session_name@ == name@
            &&& state.run_id@ == run_id@
            &&& state.ctx == ctx
            &&& call@ == (CallView::SetOption {
                name: "@engine_run_id"@ + "@"@ + name@,
                value: run_id@,
            })
        },
{
}

/// A run without an identifier has no session: the node fails at once.
pub proof fn law_no_run_no_session(
    node: &TerminalSessionNode,
    ctx: TaskContext,
    step: Step<SessionRun>,
)
    requires
        ctx.metadata@.get_str("run_id"@) is None,
        TerminalSessionNode::start.ensures((node, ctx), step),
    ensures
        step matches Step::Finished(r) && r is Err,
{
}

/// A call that fails ends the node, with what the terminal said; whatever the
/// stage.
pub proof fn law_failed_call_ends_the_node<P: Fn(&str) -> Option<String>>(
    node: &TerminalSessionNode,
    run: SessionRun,
    reply: Reply,
    created_at: &str,
    now_ms: u64,
    parse: P,
    step: Step<SessionRun>,
)
    requires
        reply is Err,
        TerminalSessionNode::resume::<P>.ensures(
            (node, run, reply, created_at, now_ms, parse),
            step,
        ),
    ensures
        step matches Step::Finished(Err(e)) && {
            let said = reply->Err_0.says();
            &&& e.message@.len() > said.len()
            &&& e.message@.skip(e.message@.len() - said.len()) == said
        },
{
    let said = reply->Err_0.says();
    reveal_strlit(": ");
    reveal_strlit(": list_sessions failed: ");
    reveal_strlit(": new_session failed: ");
    reveal_strlit(": lease acquisition failed: ");
    let message = step->Finished_0->Err_0.message@;
    assert(message.skip(message.len() - said.len()) =~= said);
}

/// A session that the listing names is adopted: its lease is asked for and
/// nothing is created.
pub proof fn law_listed_session_is_adopted<P: Fn(&str) -> Option<String>>(
    node: &TerminalSessionNode,
    run: SessionRun,
    reply: Reply,
    created_at: &str,
    now_ms: u64,
    parse: P,
    step: Step<SessionRun>,
    i: int,
)
    requires
        run.stage is Listing,
        reply is Ok,
        0 <= i < text::lines(reply->Ok_0@).len(),
        forall|line: &str, name: Option<String>| #[trigger]
            parse.ensures((line,), name) && line@ == text::lines(reply->Ok_0@)[i]
                ==> text::opt_text(name) == Some(run.session_name@),
        TerminalSessionNode::resume::<P>.ensures(
            (node, run, reply, created_at, now_ms, parse),
            step,
        ),
    ensures
        step matches Step::Call { state, call } && call@ is Acquire && state.stage == (
        SessionStage::Acquiring { created: false }) && state.ctx == run.ctx && state.session_name
            == run.session_name && state.run_id == run.run_id,
{
    let listing = reply->Ok_0@;
    assert forall|names: Seq<Option<String>>| #[trigger]
        driver::listed(listing, parse, names) implies driver::names_it(
        names,
        run.session_name@,
    ) by {
        assert(driver::found_in(text::lines(listing)[i], parse, names[i]));
    }
}

/// A session that no line of the listing names is created, under its own name
/// and in the node's directory, before its lease is asked for.
pub proof fn law_missing_session_is_created<P: Fn(&str) -> Option<String>>(
    node: &TerminalSessionNode,
    run: SessionRun,
    reply: Reply,
    created_at: &str,
    now_ms: u64,
    parse: P,
    step: Step<SessionRun>,
)
    requires
        run.stage is Listing,
        reply is Ok,
        forall|line: &str, name: Option<String>| #[trigger]
            parse.ensures((line,), name) && text::lines(reply->Ok_0@).contains(line@)
                ==> text::opt_text(name) != Some(run.session_name@),
        TerminalSessionNode::resume::<P>.ensures(
            (node, run, reply, created_at, now_ms, parse),
            step,
        ),
    ensures
        step matches Step::Call { state, call } && call@ == (CallView::NewSession {
            name: run.session_name@,
            dir: node.starts_in(),
        }) && state.stage is Creating && state.ctx == run.ctx && state.session_name
            == run.session_name && state.run_id == run.run_id,
{
    let listing = reply->Ok_0@;
    assert forall|names: Seq<Option<String>>| #[trigger]
        driver::listed(listing, parse, names) implies !driver::names_it(
        names,
        run.session_name@,
    ) by {
        if driver::names_it(names, run.session_name@) {
            let i = choose|i: int|
                0 <= i < names.len() && text::opt_text(#[trigger] names[i]) == Some(
                    run.session_name@,
                );
            assert(driver::found_in(text::lines(listing)[i], parse, names[i]));
            assert(text::lines(listing).contains(text::lines(listing)[i]));
        }
    }
}

/// Whenever the lease is asked for, it is for the run and its session, until
/// the node's span from now, under the session's own name; and a session that
/// was just created counts as the run's own.
pub proof fn law_lease_is_for_the_span<P: Fn(&str) -> Option<String>>(
    node: &TerminalSessionNode,
    run: SessionRun,
    reply: Reply,
    created_at: &str,
    now_ms: u64,
    parse: P,
    step: Step<SessionRun>,
)
    requires
        run.stage is Listing || run.stage is Creating ==> now_ms + ttl_ms(node.ttl()) <= u64::MAX,
        node.ttl().nanos / 1_000_000 <= u64::MAX,
        TerminalSessionNode::resume::<P>.ensures(
            (node, run, reply, created_at, now_ms, parse),
            step,
        ),
    ensures
        step matches Step::Call { state, call } ==> (call@ matches CallView::Acquire(q) ==> {
            &&& q.session_name == run.session_name@
            &&& q.run_id == run.run_id@
            &&& q.nonce == run.session_name@
            &&& q.identity == NODE_NAME@
            &&& q.now_ms == now_ms
            &&& q.expires_at_ms == now_ms + node.ttl().nanos / 1_000_000
            &&& q.steal_after == node.steals_after()
            &&& state.stage == (SessionStage::Acquiring { created: run.stage is Creating })
        }),
        run.stage is Creating && reply is Ok ==> (step matches Step::Call { state, call } && call@
            is Acquire),
{
}

/// The node ends well with the lease alone, and then records the session, the
/// nonce it was given and whether the session is the run's own.
pub proof fn law_lease_is_recorded<P: Fn(&str) -> Option<String>>(
    node: &TerminalSessionNode,
    run: SessionRun,
    reply: Reply,
    created_at: &str,
    now_ms: u64,
    parse: P,
    step: Step<SessionRun>,
)
    requires
        TerminalSessionNode::resume::<P>.ensures(
            (node, run, reply, created_at, now_ms, parse),
            step,
        ),
    ensures
        run.stage is Acquiring && reply is Ok ==> (step matches Step::Finished(r) && r is Ok),
        step matches Step::Finished(Ok(done)) ==> {
            &&& run.stage is Acquiring
            &&& reply is Ok
            &&& done.result_of(NODE_NAME@) matches Some(doc) && {
                &&& doc.get_str("session_name"@) == Some(run.session_name@)
                &&& doc.get_str("lease_nonce"@) == Some(reply->Ok_0@)
                &&& doc.get("created"@) == Some(JsonView::Bool(run.stage->created))
            }
            &&& forall|key: Seq<char>| key != NODE_NAME@ ==> #[trigger] done.result_of(key)
                == run.ctx.result_of(key)
            &&& done.event == run.ctx.event
            &&& done.metadata == run.ctx.metadata
            &&& done.node_runs == run.ctx.node_runs
        },
{
    reveal_strlit("session_name");
    reveal_strlit("lease_nonce");
    reveal_strlit("created");
    assert("session_name"@.len() == 12);
    assert("lease_nonce"@.len() == 11);
    assert("created"@.len() == 7);
    if step is Finished && step->Finished_0 is Ok {
        let done = step->Finished_0->Ok_0;
        let doc = stamp(run.session_name@, reply->Ok_0@, run.stage->created);
        assert(done.stamped(run.ctx, NODE_NAME@, doc));
        assert(done.results() == run.ctx.results().insert(NODE_NAME@, doc));
    }
}

/// After the run's identifier the time of creation is stamped on the session,
/// and then the sessions are listed.
pub proof fn law_creation_time_is_stamped<P: Fn(&str) -> Option<String>>(
    node: &TerminalSessionNode,
    run: SessionRun,
    reply: Reply,
    created_at: &str,
    now_ms: u64,
    parse: P,
    step: Step<SessionRun>,
)
    requires
        reply is Ok,
        TerminalSessionNode::resume::<P>.ensures(
            (node, run, reply, created_at, now_ms, parse),
            step,
        ),
    ensures
        run.stage is StampingRunId ==> (step matches Step::Call { state, call } && call@ == (
        CallView::SetOption {
            name: "@engine_created_at"@ + "@"@ + run.session_name@,
            value: created_at@,
        }) && state.stage is StampingCreatedAt),
        run.stage is StampingCreatedAt ==> (step matches Step::Call { state, call } && call@
            is ListSessions && state.stage is Listing),
{
}

/// Each failure tells the call that failed.
pub proof fn law_failure_tells_the_call<P: Fn(&str) -> Option<String>>(
    node: &TerminalSessionNode,
    run: SessionRun,
    reply: Reply,
    created_at: &str,
    now_ms: u64,
    parse: P,
    step: Step<SessionRun>,
)
    requires
        reply is Err,
        TerminalSessionNode::resume::<P>.ensures(
            (node, run, reply, created_at, now_ms, parse),
            step,
        ),
    ensures
        step is Finished && step->Finished_0 is Err && step->Finished_0->Err_0.message@ == (
        match run.stage {
            SessionStage::StampingRunId => NODE_NAME@ + ": failed to stamp "@ + "@engine_run_id"@
                + ": "@,
            SessionStage::StampingCreatedAt => NODE_NAME@ + ": failed to stamp "@
                + "@engine_created_at"@ + ": "@,
            SessionStage::Listing => NODE_NAME@ + ": list_sessions failed: "@,
            SessionStage::Creating => NODE_NAME@ + ": new_session failed: "@,
            SessionStage::Acquiring { .. } => NODE_NAME@ + ": lease acquisition failed: "@,
        }) + reply->Err_0.says(),
{
}

/// Each setting of the node is set alone.
pub proof fn law_settings_are_set_alone(
    node: TerminalSessionNode,
    dir: &str,
    ttl: Duration,
    steal_after: Duration,
    with_dir: TerminalSessionNode,
    with_ttl: TerminalSessionNode,
    with_steal: TerminalSessionNode,
)
    requires
        TerminalSessionNode::with_dir.ensures((node, dir), with_dir),
        TerminalSessionNode::with_lease_ttl.ensures((node, ttl), with_ttl),
        TerminalSessionNode::with_steal_after.ensures((node, steal_after), with_steal),
    ensures
        with_dir.starts_in() == Some(dir@) && with_dir.ttl() == node.ttl()
            && with_dir.steals_after() == node.steals_after(),
        with_ttl.starts_in() == node.starts_in() && with_ttl.ttl() == ttl
            && with_ttl.steals_after() == node.steals_after(),
        with_steal.starts_in() == node.starts_in() && with_steal.ttl() == node.ttl()
            && with_steal.steals_after() == Some(steal_after),
{
}

} // verus!
