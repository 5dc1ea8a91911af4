//! The node that looks at a session once: one capture, what the screen says of
//! the agent, and as much of the screen as may be kept.
use vstd::prelude::*;

use crate::contract::{put_result, TaskContext};
use crate::json;
use crate::json::{Json, JsonView};
use crate::node::{InputBinding, NodeError};
use crate::nodes::terminal::driver::{failed, CallView, DriverCall, Reply, Step};
use crate::nodes::terminal::identity::HasSessionInput;
use crate::nodes::terminal::pane;
use crate::nodes::terminal::pane::{
    bound_pane_tail, default_pane_tail_policy, PaneLimits, PaneTailPolicy, DEFAULT_MAX_BYTES,
    DEFAULT_MAX_LINES,
};
use crate::nodes::terminal::session;
use crate::nodes::terminal::upstream;
use crate::nodes::terminal::upstream::{recorded_by, recorded_text};
use crate::text;
use crate::text::concat3;

verus! {

/// The identity this node runs and stamps its result under.
pub const NODE_NAME: &'static str = "TerminalObserveNode";

/// What a screen says of the agent: the name of its state and, where it is
/// blocked, of the reason.
#[derive(Debug, PartialEq, Eq)]
pub struct AgentDetection {
    pub state: String,
    pub blocked_reason: Option<String>,
}

/// The node.
#[derive(Debug, PartialEq, Eq)]
pub struct TerminalObserveNode {
    session_input: InputBinding,
}

/// A run of the node, waiting for the capture.
#[derive(Debug, PartialEq, Eq)]
pub struct ObserveRun {
    pub ctx: TaskContext,
    pub session_name: String,
    pub created: bool,
}

/// The session a node finds recorded and whether the run created it, or what
/// it says where there is none.
pub open spec fn observed_session(ctx: TaskContext, bound: Seq<char>) -> Result<
    (Seq<char>, bool),
    Seq<char>,
> {
    match upstream::session_of(NODE_NAME@, session::NODE_NAME@, ctx, bound) {
        Err(why) => Err(why),
        Ok(name) => Ok(
            (
                name,
                match ctx.result_of(bound)->Some_0.get("created"@) {
                    Some(doc) => match doc.as_bool() {
                        Some(b) => b,
                        None => false,
                    },
                    None => false,
                },
            ),
        ),
    }
}

/// What is kept of a screen: of a session the run did not create, the digest
/// alone.
pub open spec fn kept_as(created: bool) -> PaneTailPolicy {
    if created {
        PaneTailPolicy::Text
    } else {
        PaneTailPolicy::HashOnly
    }
}

/// The default limits.
pub open spec fn limits() -> PaneLimits {
    PaneLimits { max_lines: DEFAULT_MAX_LINES, max_bytes: DEFAULT_MAX_BYTES }
}

/// What the node stamps.
pub open spec fn stamp(
    session: Seq<char>,
    created: bool,
    screen: Seq<char>,
    found: AgentDetection,
) -> JsonView {
    let shown = pane::redacted(pane::bounded(screen, limits()));
    let policy = kept_as(created);
    JsonView::Object(
        json::json_object().insert("session_name"@, json::json_str(session)).insert(
            "state"@,
            json::json_str(found.state@),
        ).insert(
            "blocked_reason"@,
            json::json_opt_str(text::opt_text(found.blocked_reason)),
        ).insert(
            "pane_tail"@,
            json::json_opt_str(
                if created {
                    Some(shown)
                } else {
                    None
                },
            ),
        ).insert(
            "pane_sha256"@,
            json::json_str(crate::hash::sha256_hex_of(vstd::utf8::encode_utf8(shown))),
        ).insert("pane_truncated"@, JsonView::Bool(pane::cut(screen, limits()))).insert(
            "pane_tail_policy"@,
            json::json_str(policy.named()),
        ).insert("usage"@, JsonView::Null),
    )
}

impl TerminalObserveNode {
    /// Whose session the node looks at.
    pub open spec fn input(self) -> InputBinding {
        self.session_input()
    }

    /// A node that looks at the session of the default session node.
    pub fn new() -> (r: Self)
        ensures
            r.input().bound_to() is None,
    {
        TerminalObserveNode { session_input: InputBinding::unbound() }
    }

    /// The identity this node runs and stamps its result under.
    pub fn name(&self) -> (r: &'static str)
        ensures
            r@ == NODE_NAME@,
    {
        NODE_NAME
    }

    /// The session to look at, and whether this run created it.
    pub fn read_upstream_session(&self, ctx: &TaskContext) -> (r: Result<(String, bool), NodeError>)
        ensures
            match observed_session(*ctx, self.input().resolved(session::NODE_NAME@)) {
                Ok(p) => r matches Ok(q) && q.0@ == p.0 && q.1 == p.1,
                Err(why) => r matches Err(e) && e.message@ == why,
            },
    {
        let bound = self.session_input.resolve(session::NODE_NAME);
        let stored = match recorded_by(NODE_NAME, session::NODE_NAME, ctx, bound) {
            Err(e) => {
                return Err(e);
            },
            Ok(stored) => stored,
        };
        let name = match recorded_text(NODE_NAME, bound, stored, "session_name") {
            Err(e) => {
                return Err(e);
            },
            Ok(name) => name,
        };
        let created = match stored.get("created") {
            Some(doc) => match doc.as_bool() {
                Some(b) => b,
                None => false,
            },
            None => false,
        };
        Ok((name, created))
    }

    /// Whether `step` is how the node starts on `ctx`: with the capture.
    pub open spec fn starts(self, ctx: TaskContext, step: Step<ObserveRun>) -> bool {
        match observed_session(ctx, self.input().resolved(session::NODE_NAME@)) {
            Err(why) => step.fails(why),
            Ok(p) => step matches Step::Call { state, call } && {
                &&& state.ctx == ctx
                &&& state.session_name@ == p.0
                &&& state.created == p.1
                &&& call@ == CallView::CapturePane { session: p.0 }
            },
        }
    }

    /// Start on `ctx`.
    pub fn start(&self, ctx: TaskContext) -> (r: Step<ObserveRun>)
        ensures
            self.starts(ctx, r),
    {
        match self.read_upstream_session(&ctx) {
            Err(e) => Step::Finished(Err(e)),
            Ok((session_name, created)) => {
                let call = DriverCall::CapturePane { session: session_name.clone() };
                Step::Call { state: ObserveRun { ctx, session_name, created }, call }
            },
        }
    }

    /// Whether `r` is what the node returns for the reply to the capture.
    pub open spec fn finishes<D: Fn(&str) -> AgentDetection>(
        run: ObserveRun,
        reply: Reply,
        detect: D,
        r: Result<TaskContext, NodeError>,
    ) -> bool {
        match reply {
            Err(f) => r matches Err(e) && e.message@ == NODE_NAME@ + ": capture_pane failed: "@
                + f.says(),
            Ok(screen) => exists|s: &str, found: AgentDetection| #[trigger]
                detect.ensures((s,), found) && s@ == screen@ && (r matches Ok(done) && done.stamped(
                    run.ctx,
                    NODE_NAME@,
                    stamp(run.session_name@, run.created, screen@, found),
                )),
        }
    }

    /// Finish with the reply to the capture. `detect` says what a screen tells
    /// of the agent.
    pub fn finish<D: Fn(&str) -> AgentDetection>(
        &self,
        run: ObserveRun,
        reply: Reply,
        detect: D,
    ) -> (r: Result<TaskContext, NodeError>)
        requires
            forall|s: &str| detect.requires((s,)),
        ensures
            TerminalObserveNode::finishes(run, reply, detect, r),
    {
        let screen = match reply {
            Ok(screen) => screen,
            Err(f) => {
                return Err(
                    NodeError::new(concat3(NODE_NAME, ": capture_pane failed: ", f.message())),
                );
            },
        };
        let shown = screen.as_str();
        let found = detect(shown);
        let adopted = !run.created;
        let policy = default_pane_tail_policy(adopted);
        let bounded = bound_pane_tail(shown, policy, PaneLimits::default());
        let sha = match &bounded.pane_sha256 {
            Some(digest) => Json::text(digest.as_str()),
            None => Json::Null,
        };
        let doc = Json::object().with("session_name", Json::text(run.session_name.as_str())).with(
            "state",
            Json::text(found.state.as_str()),
        ).with("blocked_reason", Json::opt_text(&found.blocked_reason)).with(
            "pane_tail",
            Json::opt_text(&bounded.pane_tail),
        ).with("pane_sha256", sha).with(
            "pane_truncated",
            Json::Bool(bounded.pane_truncated),
        ).with("pane_tail_policy", Json::text(policy.as_str())).with("usage", Json::Null);
        assert(detect.ensures((shown,), found));
        Ok(put_result(run.ctx, NODE_NAME, doc))
    }
}

impl Default for TerminalObserveNode {
    fn default() -> (r: Self)
        ensures
            r.input().bound_to() is None,
    {
        TerminalObserveNode::new()
    }
}

impl HasSessionInput for TerminalObserveNode {
    closed spec fn session_input(&self) -> InputBinding {
        self.session_input
    }

    open spec fn differs_in_session_alone(&self, other: &Self) -> bool {
        true
    }

    fn session_input_mut(&mut self) -> (r: &mut InputBinding) {
        &mut self.session_input
    }
}

/// The text of a session that the run did not create is never kept: only its
/// digest is.
pub proof fn law_adopted_text_is_not_kept(
    session: Seq<char>,
    screen: Seq<char>,
    found: AgentDetection,
)
    ensures
        stamp(session, false, screen, found).get("pane_tail"@) == Some(JsonView::Null),
        stamp(session, false, screen, found).get("pane_tail_policy"@) == Some(
            json::json_str("hash-only"@),
        ),
{
    lemma_names_differ();
}

proof fn lemma_names_differ()
    ensures
        "pane_tail"@ != "pane_sha256"@,
        "pane_tail"@ != "pane_truncated"@,
        "pane_tail"@ != "pane_tail_policy"@,
        "pane_tail"@ != "usage"@,
        "pane_tail_policy"@ != "usage"@,
{
    reveal_strlit("pane_tail");
    reveal_strlit("pane_sha256");
    reveal_strlit("pane_truncated");
    reveal_strlit("pane_tail_policy");
    reveal_strlit("usage");
    assert("pane_tail"@.len() == 9 && "pane_tail_policy"@.len() == 16 && "usage"@.len() == 5);
}

/// The node records the session it looked at, what the screen says of the
/// agent, and of the screen itself what may be kept: of a session the run
/// created the text, and of any the digest. Nothing else of the context
/// changes.
pub proof fn law_look_is_recorded<D: Fn(&str) -> AgentDetection>(
    node: &TerminalObserveNode,
    run: ObserveRun,
    reply: Reply,
    detect: D,
    found: AgentDetection,
    screen: &str,
    kept: pane::BoundedPane,
    r: Result<TaskContext, NodeError>,
)
    requires
        reply is Ok,
        screen@ == reply->Ok_0@,
        forall|s: &str, d: AgentDetection| #[trigger]
            detect.ensures((s,), d) && s@ == screen@ ==> d == found,
        bound_pane_tail.ensures(
            (
                screen,
                if run.created {
                    PaneTailPolicy::Text
                } else {
                    PaneTailPolicy::HashOnly
                },
                limits(),
            ),
            kept,
        ),
        TerminalObserveNode::finish::<D>.ensures((node, run, reply, detect), r),
    ensures
        r matches Ok(done) && done.result_of(NODE_NAME@) matches Some(doc) && {
            &&& doc.get_str("session_name"@) == Some(run.session_name@)
            &&& doc.get_str("state"@) == Some(found.state@)
            &&& doc.get("blocked_reason"@) == Some(
                match found.blocked_reason {
                    Some(why) => JsonView::Text(why@),
                    None => JsonView::Null,
                },
            )
            &&& run.created ==> doc.get_str("pane_tail"@) == text::opt_text(kept.pane_tail)
                && doc.get_str("pane_tail"@) is Some && doc.get_str("pane_tail_policy"@) == Some(
                "text"@,
            )
            &&& !run.created ==> doc.get("pane_tail"@) == Some(JsonView::Null) && doc.get_str(
                "pane_tail_policy"@,
            ) == Some("hash-only"@)
            &&& doc.get_str("pane_sha256"@) == text::opt_text(kept.pane_sha256)
            &&& doc.get("pane_truncated"@) == Some(JsonView::Bool(kept.pane_truncated))
            &&& doc.get("usage"@) == Some(JsonView::Null)
        },
        forall|key: Seq<char>| key != NODE_NAME@ ==> #[trigger] r->Ok_0.result_of(key)
            == run.ctx.result_of(key),
        r->Ok_0.event == run.ctx.event,
        r->Ok_0.metadata == run.ctx.metadata,
        r->Ok_0.node_runs == run.ctx.node_runs,
{
    reveal_strlit("session_name");
    reveal_strlit("state");
    reveal_strlit("blocked_reason");
    reveal_strlit("pane_tail");
    reveal_strlit("pane_sha256");
    reveal_strlit("pane_truncated");
    reveal_strlit("pane_tail_policy");
    reveal_strlit("usage");
    assert("session_name"@.len() == 12);
    assert("state"@.len() == 5);
    assert("blocked_reason"@.len() == 14);
    assert("pane_tail"@.len() == 9);
    assert("pane_sha256"@.len() == 11);
    assert("pane_truncated"@.len() == 14);
    assert("pane_tail_policy"@.len() == 16);
    assert("usage"@.len() == 5);
    assert("state"@[0] != "usage"@[0]);
    assert("blocked_reason"@[0] != "pane_truncated"@[0]);
    let doc = stamp(run.session_name@, run.created, screen@, found);
    assert(r->Ok_0.stamped(run.ctx, NODE_NAME@, doc));
    assert(r->Ok_0.results() == run.ctx.results().insert(NODE_NAME@, doc));
}

/// The node looks at the session that the bound node recorded, once; where a
/// capture fails, so does the node.
pub proof fn law_look_goes_to_the_recorded_session(
    node: &TerminalObserveNode,
    ctx: TaskContext,
    bound: Seq<char>,
    step: Step<ObserveRun>,
)
    requires
        node.input().bound_to() is Some ==> bound == node.input().bound_to()->0,
        node.input().bound_to() is None ==> bound == session::NODE_NAME@,
        TerminalObserveNode::start.ensures((node, ctx), step),
    ensures
        step is Call <==> (ctx.result_of(bound) matches Some(doc) && doc.get_str(
            "session_name"@,
        ) is Some),
        step matches Step::Call { state, call } ==> {
            let doc = ctx.result_of(bound)->0;
            &&& call@ == (CallView::CapturePane { session: doc.get_str("session_name"@)->0 })
            &&& state.session_name@ == doc.get_str("session_name"@)->0
            &&& state.created == (doc.get("created"@) == Some(JsonView::Bool(true)))
            &&& state.ctx == ctx
        },
        step matches Step::Finished(r) ==> r is Err,
{
}

/// The session and whether the run created it are read as the bound node
/// recorded them; only a recorded truth makes it the run's own.
pub proof fn law_created_is_read_as_recorded(
    node: &TerminalObserveNode,
    ctx: &TaskContext,
    bound: Seq<char>,
    r: Result<(String, bool), NodeError>,
)
    requires
        node.input().bound_to() is Some ==> bound == node.input().bound_to()->0,
        node.input().bound_to() is None ==> bound == session::NODE_NAME@,
        TerminalObserveNode::read_upstream_session.ensures((node, ctx), r),
    ensures
        r is Ok <==> (ctx.result_of(bound) matches Some(doc) && doc.get_str(
            "session_name"@,
        ) is Some),
        r is Ok ==> {
            let doc = ctx.result_of(bound)->0;
            &&& Some(r->Ok_0.0@) == doc.get_str("session_name"@)
            &&& r->Ok_0.1 == (doc.get("created"@) == Some(JsonView::Bool(true)))
        },
{
}

/// A capture that fails fails the node, with what the terminal said.
pub proof fn law_failed_capture_fails_the_node<D: Fn(&str) -> AgentDetection>(
    node: &TerminalObserveNode,
    run: ObserveRun,
    reply: Reply,
    detect: D,
    r: Result<TaskContext, NodeError>,
)
    requires
        reply is Err,
        TerminalObserveNode::finish::<D>.ensures((node, run, reply, detect), r),
    ensures
        r is Err && r->Err_0.message@ == NODE_NAME@ + ": capture_pane failed: "@
            + reply->Err_0.says(),
{
}

} // verus!
