//! A terminal session acquired once per run and carried across nodes.
use vstd::prelude::*;

use crate::contract;
use crate::contract::{put_result, read_run_id, TaskContext};
use crate::json;
use crate::json::{Json, JsonView};
use crate::node::NodeError;
use crate::nodes::terminal::driver;
use crate::nodes::terminal::driver::{
    session_present, AcquireRequest, AcquireView, CallView, DriverCall, DriverFault, Reply,
};
use crate::nodes::terminal::event;
use crate::nodes::terminal::event::event_policy;
use crate::nodes::terminal::identity;
use crate::nodes::terminal::identity::session_name_for;
use crate::policy::profiles as harness;
use crate::policy::profiles::{HarnessText, PolicyConfigSource};
use crate::policy::resolve;
use crate::policy::resolve::{merge_opt, Policy};
use crate::string_map::StringMap;
use crate::text;
use crate::text::{concat2, concat3, owned};
use crate::time::{Duration, NANOS_PER_MILLI};

pub mod profiles;

verus! {

/// The identity this node runs and stamps its result under, and the one its
/// session is named after.
pub const NODE_NAME: &'static str = "HeldSessionNode";

/// The harness section of this policy.
pub const WORKFLOW_KEY: &'static str = "held_session";

/// How long a held session lease lasts and how often it is renewed.
#[derive(Clone, Copy, Debug, PartialEq, Eq)]
pub struct HeldSessionPolicy {
    /// Milliseconds an acquired or renewed lease is valid for.
    pub lease_ttl_ms: u64,
    /// Milliseconds between two renewals.
    pub renew_interval_ms: u64,
}

/// The built-in policy.
pub open spec fn builtin() -> HeldSessionPolicy {
    HeldSessionPolicy {
        lease_ttl_ms: 300_000,
        renew_interval_ms: 100_000,
    }
}

impl Default for HeldSessionPolicy {
    fn default() -> (r: Self)
        ensures
            r == builtin(),
    {
        HeldSessionPolicy {
            lease_ttl_ms: 300_000,
            renew_interval_ms: 100_000,
        }
    }
}

/// `HeldSessionPolicy` with every knob optional.
#[derive(Clone, Copy, Debug, PartialEq, Eq)]
pub struct PartialHeldSessionPolicy {
    pub lease_ttl_ms: Option<u64>,
    pub renew_interval_ms: Option<u64>,
}

impl Default for PartialHeldSessionPolicy {
    fn default() -> (r: Self)
        ensures
            r == (PartialHeldSessionPolicy { lease_ttl_ms: None, renew_interval_ms: None }),
    {
        PartialHeldSessionPolicy { lease_ttl_ms: None, renew_interval_ms: None }
    }
}

impl Policy for HeldSessionPolicy {
    type Partial = PartialHeldSessionPolicy;

    open spec fn applied(self, over: PartialHeldSessionPolicy) -> Self {
        HeldSessionPolicy {
            lease_ttl_ms: resolve::merged(self.lease_ttl_ms, over.lease_ttl_ms),
            renew_interval_ms: resolve::merged(self.renew_interval_ms, over.renew_interval_ms),
        }
    }

    fn apply(self, over: &PartialHeldSessionPolicy) -> (r: Self) {
        HeldSessionPolicy {
            lease_ttl_ms: merge_opt(self.lease_ttl_ms, over.lease_ttl_ms),
            renew_interval_ms: merge_opt(self.renew_interval_ms, over.renew_interval_ms),
        }
    }
}

/// Resolve the layers: each knob has the event's value, else the profile's,
/// else the harness's, else the built-in one.
pub fn resolve(
    harness_defaults: Option<&PartialHeldSessionPolicy>,
    profile: Option<&PartialHeldSessionPolicy>,
    event_override: Option<&PartialHeldSessionPolicy>,
) -> (r: HeldSessionPolicy)
    ensures
        r == resolve::resolved(builtin(), harness_defaults, profile, event_override),
        r.lease_ttl_ms == resolve::by_precedence(
            resolve::knob(event_override, |l: PartialHeldSessionPolicy| l.lease_ttl_ms),
            resolve::knob(profile, |l: PartialHeldSessionPolicy| l.lease_ttl_ms),
            resolve::knob(harness_defaults, |l: PartialHeldSessionPolicy| l.lease_ttl_ms),
            builtin().lease_ttl_ms,
        ),
        r.renew_interval_ms == resolve::by_precedence(
            resolve::knob(event_override, |l: PartialHeldSessionPolicy| l.renew_interval_ms),
            resolve::knob(profile, |l: PartialHeldSessionPolicy| l.renew_interval_ms),
            resolve::knob(harness_defaults, |l: PartialHeldSessionPolicy| l.renew_interval_ms),
            builtin().renew_interval_ms,
        ),
{
    resolve::resolve(HeldSessionPolicy::default(), harness_defaults, profile, event_override)
}

/// Selecting the baseline profile changes nothing.
pub proof fn law_baseline_is_no_op()
    ensures
        resolve::resolved(builtin(), None, Some(&profiles::baseline_bundle()), None)
            == resolve::resolved(builtin(), None, None, None),
{
}

/// Resolve the policy of one workflow's run from what a source holds, a
/// profile name and the event's override.
pub fn resolve_for_workflow<
    D: Fn(&Json) -> Result<PartialHeldSessionPolicy, String>,
    E: Fn(&Json) -> Result<StringMap<PartialHeldSessionPolicy>, String>,
>(
    workflow_key: &str,
    source: &PolicyConfigSource,
    file: &HarnessText,
    profile_name: Option<&str>,
    event_override: Option<&PartialHeldSessionPolicy>,
    decode: D,
    decode_profiles: E,
) -> (r: Result<HeldSessionPolicy, NodeError>)
    requires
        forall|doc: &Json| decode.requires((doc,)),
        forall|doc: &Json| decode_profiles.requires((doc,)),
    ensures
        harness::run_outcome(
            builtin(),
            *source,
            *file,
            workflow_key@,
            profile_name,
            event_override,
            decode,
            decode_profiles,
            profiles::profile_by_name,
            r,
        ),
        *source is Builtin ==> match profile_name {
            None => r == Ok::<HeldSessionPolicy, NodeError>(
                resolve::resolved(builtin(), None, None, event_override),
            ),
            Some(name) => match profiles::bundle_named(name@) {
                Some(bundle) => r == Ok::<HeldSessionPolicy, NodeError>(
                    resolve::resolved(builtin(), None, Some(&bundle), event_override),
                ),
                None => r is Err && r->Err_0.message@ == harness::unknown_profile(
                    name@,
                    workflow_key@,
                ),
            },
        },
{
    harness::resolve_run(
        HeldSessionPolicy::default(),
        source,
        file,
        workflow_key,
        profile_name,
        event_override,
        decode,
        decode_profiles,
        profiles::profile_by_name,
    )
}

/// The sessions that this process holds, each with the nonce of its lease.
#[derive(Debug, PartialEq, Eq)]
pub struct HeldSessions {
    held: StringMap<String>,
}

impl HeldSessions {
    /// The nonce under which each session is held.
    pub closed spec fn nonces(self) -> Map<Seq<char>, Seq<char>> {
        self.held@.map_values(|nonce: String| nonce@)
    }

    /// No session is held.
    pub fn new() -> (r: Self)
        ensures
            r.nonces() == Map::<Seq<char>, Seq<char>>::empty(),
    {
        let r = HeldSessions { held: StringMap::new() };
        assert(r.nonces() =~= Map::<Seq<char>, Seq<char>>::empty());
        r
    }

    /// The nonce under which a session is held, if it is.
    pub fn lookup(&self, session_name: &str) -> (r: Option<&str>)
        ensures
            match r {
                Some(nonce) => self.nonces().contains_key(session_name@)
                    && self.nonces()[session_name@] == nonce@,
                None => !self.nonces().contains_key(session_name@),
            },
    {
        match self.held.get(session_name) {
            Some(nonce) => Some(nonce.as_str()),
            None => None,
        }
    }

    /// Hold a session under a nonce.
    pub fn register(&mut self, session_name: &str, nonce: &str)
        ensures
            final(self).nonces() == old(self).nonces().insert(session_name@, nonce@),
    {
        let ghost before = self.held@;
        let value = owned(nonce);
        self.held.insert(owned(session_name), value);
        assert(self.nonces() =~= before.map_values(|n: String| n@).insert(session_name@, nonce@));
    }
}

impl Default for HeldSessions {
    fn default() -> (r: Self)
        ensures
            r.nonces() == Map::<Seq<char>, Seq<char>>::empty(),
    {
        HeldSessions::new()
    }
}

/// What a renewal asks for.
#[derive(Debug, PartialEq, Eq)]
pub struct RenewRequest {
    pub session_name: String,
    pub nonce: String,
    pub expires_at_ms: u64,
    pub run_id: String,
    pub identity: String,
}

/// The loop that keeps a held session's lease alive: wait, renew, and so on
/// until a renewal fails.
#[derive(Debug, PartialEq, Eq)]
pub struct HeldSessionHandle {
    pub session_name: String,
    pub run_id: String,
    pub nonce: String,
    pub policy: HeldSessionPolicy,
}

impl HeldSessionHandle {
    /// How long to wait before the next renewal.
    pub fn pause(&self) -> (r: Duration)
        ensures
            r.nanos == self.policy.renew_interval_ms * NANOS_PER_MILLI,
    {
        Duration::from_millis(self.policy.renew_interval_ms)
    }

    /// What to ask for at `now_ms`: the lease, for its whole length from now.
    pub fn request(&self, now_ms: u64) -> (r: RenewRequest)
        requires
            now_ms + self.policy.lease_ttl_ms <= u64::MAX,
        ensures
            r.session_name@ == self.session_name@,
            r.nonce@ == self.nonce@,
            r.expires_at_ms == now_ms + self.policy.lease_ttl_ms,
            r.run_id@ == self.run_id@,
            r.identity@ == NODE_NAME@,
    {
        RenewRequest {
            session_name: self.session_name.clone(),
            nonce: self.nonce.clone(),
            expires_at_ms: now_ms + self.policy.lease_ttl_ms,
            run_id: self.run_id.clone(),
            identity: owned(NODE_NAME),
        }
    }

    /// Whether the loop goes on after a renewal that came to `renewed`.
    pub fn goes_on(&self, renewed: &Result<(), DriverFault>) -> (r: bool)
        ensures
            r == (*renewed is Ok),
    {
        match renewed {
            Ok(_) => true,
            Err(_) => false,
        }
    }
}

/// What the node stamps.
pub open spec fn stamp(
    session: Seq<char>,
    nonce: Seq<char>,
    created: bool,
    acquired_by_this_call: bool,
    policy: HeldSessionPolicy,
) -> JsonView {
    JsonView::Object(
        json::json_object().insert("session_name"@, json::json_str(session)).insert(
            "lease_nonce"@,
            json::json_str(nonce),
        ).insert("created"@, JsonView::Bool(created)).insert(
            "acquired_by_this_call"@,
            JsonView::Bool(acquired_by_this_call),
        ).insert("lease_ttl_ms"@, json::json_u64(policy.lease_ttl_ms)).insert(
            "renew_interval_ms"@,
            json::json_u64(policy.renew_interval_ms),
        ),
    )
}

/// Stamp the context.
fn stamped(
    ctx: TaskContext,
    session_name: &str,
    nonce: &str,
    created: bool,
    acquired_by_this_call: bool,
    policy: HeldSessionPolicy,
) -> (r: TaskContext)
    ensures
        r.stamped(
            ctx,
            NODE_NAME@,
            stamp(session_name@, nonce@, created, acquired_by_this_call, policy),
        ),
{
    let doc = Json::object().with("session_name", Json::text(session_name)).with(
        "lease_nonce",
        Json::text(nonce),
    ).with("created", Json::Bool(created)).with(
        "acquired_by_this_call",
        Json::Bool(acquired_by_this_call),
    ).with("lease_ttl_ms", Json::uint(policy.lease_ttl_ms)).with(
        "renew_interval_ms",
        Json::uint(policy.renew_interval_ms),
    );
    put_result(ctx, NODE_NAME, doc)
}

/// How far the node has come: which call it is waiting for.
#[derive(Clone, Copy, Debug, PartialEq, Eq)]
pub enum HeldStage {
    Listing,
    Creating,
    Acquiring { created: bool },
}

/// A run of the node.
#[derive(Debug, PartialEq, Eq)]
pub struct HeldRun {
    pub ctx: TaskContext,
    pub run_id: String,
    pub session_name: String,
    pub policy: HeldSessionPolicy,
    pub stage: HeldStage,
}

impl HeldRun {
    /// This run, waiting for another call.
    pub open spec fn at(self, stage: HeldStage) -> HeldRun {
        HeldRun { stage, ..self }
    }

    /// What the node asks for to take the lease.
    pub open spec fn acquire_call(self, now_ms: u64) -> CallView {
        CallView::Acquire(
            AcquireView {
                session_name: self.session_name@,
                run_id: self.run_id@,
                nonce: self.session_name@,
                identity: NODE_NAME@,
                expires_at_ms: (now_ms + self.policy.lease_ttl_ms) as u64,
                now_ms,
                steal_after: None,
            },
        )
    }
}

/// Where the node stands.
#[derive(Debug, PartialEq, Eq)]
pub enum HeldStep {
    /// It asks for `call` and goes on from `state`.
    Call { state: HeldRun, call: DriverCall },
    /// It has taken the lease and returned; from now on `renewal` keeps the
    /// lease.
    Holding { ctx: TaskContext, renewal: HeldSessionHandle },
    /// It has returned without taking a lease.
    Finished(Result<TaskContext, NodeError>),
}

impl HeldStep {
    /// Whether the node has failed with this message.
    pub open spec fn fails(self, message: Seq<char>) -> bool {
        self matches HeldStep::Finished(Err(e)) && e.message@ == message
    }
}

fn failed(message: String) -> (r: HeldStep)
    ensures
        r.fails(message@),
{
    HeldStep::Finished(Err(NodeError::new(message)))
}

/// The node: takes a session's lease once in a run, and finds it held ever
/// after.
#[derive(Debug, PartialEq, Eq)]
pub struct HeldSessionNode {
    dir: Option<String>,
    source: PolicyConfigSource,
}

impl HeldSessionNode {
    /// The directory a new session starts in.
    pub closed spec fn starts_in(self) -> Option<Seq<char>> {
        text::opt_text(self.dir)
    }

    /// Where the policy's section is looked up.
    pub closed spec fn config(self) -> PolicyConfigSource {
        self.source
    }

    /// A node without a directory that reads no harness file.
    pub fn new() -> (r: Self)
        ensures
            r.starts_in() is None,
            r.config() == PolicyConfigSource::Builtin,
    {
        HeldSessionNode { dir: None, source: PolicyConfigSource::Builtin }
    }

    /// The node, starting new sessions in `dir`.
    pub fn with_dir(self, dir: &str) -> (r: Self)
        ensures
            r.starts_in() == Some(dir@),
            r.config() == self.config(),
    {
        HeldSessionNode { dir: Some(owned(dir)), source: self.source }
    }

    /// The node, reading `source`.
    pub fn with_source(self, source: PolicyConfigSource) -> (r: Self)
        ensures
            r.starts_in() == self.starts_in(),
            r.config() == source,
    {
        HeldSessionNode { dir: self.dir, source }
    }

    /// The identity this node runs and stamps its result under.
    pub fn name(&self) -> (r: &'static str)
        ensures
            r@ == NODE_NAME@,
    {
        NODE_NAME
    }

    /// Whether `step` is how the node goes on once its policy is resolved: a
    /// session that is held is found so, and nothing is asked of the terminal;
    /// else the sessions are listed.
    pub open spec fn enters(
        ctx: TaskContext,
        run_id: Seq<char>,
        policy: HeldSessionPolicy,
        held: Map<Seq<char>, Seq<char>>,
        step: HeldStep,
    ) -> bool {
        let session = identity::session_name(run_id, NODE_NAME@);
        if held.contains_key(session) {
            step matches HeldStep::Finished(Ok(done)) && done.stamped(
                ctx,
                NODE_NAME@,
                stamp(session, held[session], false, false, policy),
            )
        } else {
            step matches HeldStep::Call { state, call } && {
                &&& state.ctx == ctx
                &&& state.run_id@ == run_id
                &&& state.session_name@ == session
                &&& state.policy == policy
                &&& state.stage == HeldStage::Listing
                &&& call@ == CallView::ListSessions
            }
        }
    }

    /// Whether `step` is how the node starts on `ctx`.
    pub open spec fn starts<
        D: Fn(&Json) -> Result<PartialHeldSessionPolicy, String>,
        E: Fn(&Json) -> Result<StringMap<PartialHeldSessionPolicy>, String>,
    >(
        self,
        ctx: TaskContext,
        file: HarnessText,
        decode: D,
        decode_profiles: E,
        held: Map<Seq<char>, Seq<char>>,
        step: HeldStep,
    ) -> bool {
        match contract::run_id_of(ctx.metadata@) {
            None => step.fails(
                NODE_NAME@
                    + ": no run_id stamped on ctx.metadata — cannot derive a session name"@,
            ),
            Some(run_id) => exists|e: Result<Option<PartialHeldSessionPolicy>, NodeError>|
                {
                    &&& #[trigger] event::policy_outcome(NODE_NAME@, ctx.event@, decode, e)
                    &&& match e {
                        Err(err) => step.fails(err.message@),
                        Ok(over) => exists|name: Option<&str>, p: Result<
                            HeldSessionPolicy,
                            NodeError,
                        >|
                            {
                                &&& text::opt_str(name) == ctx.event@.get_str("profile"@)
                                &&& #[trigger] harness::run_outcome(
                                    builtin(),
                                    self.config(),
                                    file,
                                    WORKFLOW_KEY@,
                                    name,
                                    harness::opt_ref(&over),
                                    decode,
                                    decode_profiles,
                                    profiles::profile_by_name,
                                    p,
                                )
                                &&& match p {
                                    Err(err) => step.fails(err.message@),
                                    Ok(policy) => HeldSessionNode::enters(
                                        ctx,
                                        run_id,
                                        policy,
                                        held,
                                        step,
                                    ),
                                }
                            },
                    }
                },
        }
    }

    /// Go on once the policy is resolved.
    fn enter(
        ctx: TaskContext,
        run_id: String,
        policy: HeldSessionPolicy,
        held: &HeldSessions,
    ) -> (r: HeldStep)
        ensures
            HeldSessionNode::enters(ctx, run_id@, policy, held.nonces(), r),
    {
        let session_name = session_name_for(run_id.as_str(), NODE_NAME);
        match held.lookup(session_name.as_str()) {
            Some(nonce) => HeldStep::Finished(
                Ok(stamped(ctx, session_name.as_str(), nonce, false, false, policy)),
            ),
            None => HeldStep::Call {
                state: HeldRun { ctx, run_id, session_name, policy, stage: HeldStage::Listing },
                call: DriverCall::ListSessions,
            },
        }
    }

    /// Start on `ctx`: with the text of the harness file, what its sections
    /// are decoded with, and the sessions that are held.
    pub fn start<
        D: Fn(&Json) -> Result<PartialHeldSessionPolicy, String>,
        E: Fn(&Json) -> Result<StringMap<PartialHeldSessionPolicy>, String>,
    >(
        &self,
        ctx: TaskContext,
        file: &HarnessText,
        decode: D,
        decode_profiles: E,
        held: &HeldSessions,
    ) -> (r: HeldStep)
        requires
            forall|doc: &Json| decode.requires((doc,)),
            forall|doc: &Json| decode_profiles.requires((doc,)),
        ensures
            self.starts(ctx, *file, decode, decode_profiles, held.nonces(), r),
    {
        let run_id = match read_run_id(&ctx.metadata) {
            Some(run_id) => run_id,
            None => {
                return failed(
                    concat2(
                        NODE_NAME,
                        ": no run_id stamped on ctx.metadata — cannot derive a session name",
                    ),
                );
            },
        };
        let read = event_policy(NODE_NAME, &ctx.event, &decode);
        let ghost e = read;
        assert(event::policy_outcome(NODE_NAME@, ctx.event@, decode, e));
        let over = match read {
            Ok(over) => over,
            Err(err) => {
                return HeldStep::Finished(Err(err));
            },
        };
        let p = {
            let name = ctx.event.get_str("profile");
            let p = resolve_for_workflow(
                WORKFLOW_KEY,
                &self.source,
                file,
                name,
                over.as_ref(),
                decode,
                decode_profiles,
            );
            assert(harness::run_outcome(
                builtin(),
                self.config(),
                *file,
                WORKFLOW_KEY@,
                name,
                harness::opt_ref(&over),
                decode,
                decode_profiles,
                profiles::profile_by_name,
                p,
            ));
            p
        };
        match p {
            Err(err) => HeldStep::Finished(Err(err)),
            Ok(policy) => HeldSessionNode::enter(ctx, run_id, policy, held),
        }
    }

    /// Whether `step` is how the node goes on from `run`, given the reply.
    pub open spec fn resumes<P: Fn(&str) -> Option<String>>(
        self,
        run: HeldRun,
        reply: Reply,
        now_ms: u64,
        parse: P,
        step: HeldStep,
    ) -> bool {
        match (run.stage, reply) {
            (HeldStage::Listing, Err(f)) => step.fails(
                NODE_NAME@ + ": list_sessions failed: "@ + f.says(),
            ),
            (HeldStage::Listing, Ok(listing)) => exists|names: Seq<Option<String>>| #[trigger]
                driver::listed(listing@, parse, names) && if driver::names_it(
                    names,
                    run.session_name@,
                ) {
                    step matches HeldStep::Call { state, call } && state == run.at(
                        HeldStage::Acquiring { created: false },
                    ) && call@ == run.acquire_call(now_ms)
                } else {
                    step matches HeldStep::Call { state, call } && state == run.at(
                        HeldStage::Creating,
                    ) && call@ == CallView::NewSession {
                        name: run.session_name@,
                        dir: self.starts_in(),
                    }
                },
            (HeldStage::Creating, Err(f)) => step.fails(
                NODE_NAME@ + ": new_session failed: "@ + f.says(),
            ),
            (HeldStage::Creating, Ok(_)) => step matches HeldStep::Call { state, call } && state
                == run.at(HeldStage::Acquiring { created: true }) && call@ == run.acquire_call(
                now_ms,
            ),
            (HeldStage::Acquiring { .. }, Err(f)) => step.fails(
                NODE_NAME@ + ": lease acquisition failed: "@ + f.says(),
            ),
            (HeldStage::Acquiring { created }, Ok(nonce)) => step matches HeldStep::Holding {
                ctx,
                renewal,
            } && {
                &&& ctx.stamped(
                    run.ctx,
                    NODE_NAME@,
                    stamp(run.session_name@, nonce@, created, true, run.policy),
                )
                &&& renewal.session_name@ == run.session_name@
                &&& renewal.run_id@ == run.run_id@
                &&& renewal.nonce@ == nonce@
                &&& renewal.policy == run.policy
            },
        }
    }

    /// What is held once the node stands at `step`: what was, and the session
    /// whose lease it has taken.
    pub open spec fn held_after(
        held: Map<Seq<char>, Seq<char>>,
        step: HeldStep,
    ) -> Map<Seq<char>, Seq<char>> {
        match step {
            HeldStep::Holding { ctx, renewal } => held.insert(
                renewal.session_name@,
                renewal.nonce@,
            ),
            _ => held,
        }
    }

    fn acquire(run: HeldRun, created: bool, now_ms: u64) -> (r: HeldStep)
        requires
            now_ms + run.policy.lease_ttl_ms <= u64::MAX,
        ensures
            r matches HeldStep::Call { state, call } && state == run.at(
                HeldStage::Acquiring { created },
            ) && call@ == run.acquire_call(now_ms),
    {
        let call = DriverCall::Acquire(
            AcquireRequest {
                session_name: run.session_name.clone(),
                run_id: run.run_id.clone(),
                nonce: run.session_name.clone(),
                identity: owned(NODE_NAME),
                expires_at_ms: now_ms + run.policy.lease_ttl_ms,
                now_ms,
                steal_after: None,
            },
        );
        let mut state = run;
        state.stage = HeldStage::Acquiring { created };
        HeldStep::Call { state, call }
    }

    /// Go on from `run`, given the reply to what it asked for, the present
    /// time in milliseconds, what finds a session's name in a line of a
    /// listing, and the sessions that are held.
    pub fn resume<P: Fn(&str) -> Option<String>>(
        &self,
        run: HeldRun,
        reply: Reply,
        now_ms: u64,
        parse: P,
        held: &mut HeldSessions,
    ) -> (r: HeldStep)
        requires
            run.stage is Listing || run.stage is Creating ==> now_ms + run.policy.lease_ttl_ms
                <= u64::MAX,
            forall|line: &str| parse.requires((line,)),
        ensures
            self.resumes(run, reply, now_ms, parse, r),
            final(held).nonces() == HeldSessionNode::held_after(old(held).nonces(), r),
    {
        let mut run = run;
        match run.stage {
            HeldStage::Listing => match reply {
                Err(f) => failed(concat3(NODE_NAME, ": list_sessions failed: ", f.message())),
                Ok(listing) => {
                    if session_present(listing.as_str(), run.session_name.as_str(), &parse) {
                        HeldSessionNode::acquire(run, false, now_ms)
                    } else {
                        run.stage = HeldStage::Creating;
                        let call = DriverCall::NewSession {
                            name: run.session_name.clone(),
                            dir: self.dir.clone(),
                        };
                        HeldStep::Call { state: run, call }
                    }
                },
            },
            HeldStage::Creating => match reply {
                Err(f) => failed(concat3(NODE_NAME, ": new_session failed: ", f.message())),
                Ok(_) => HeldSessionNode::acquire(run, true, now_ms),
            },
            HeldStage::Acquiring { created } => match reply {
                Err(f) => failed(concat3(NODE_NAME, ": lease acquisition failed: ", f.message())),
                Ok(nonce) => {
                    held.register(run.session_name.as_str(), nonce.as_str());
                    let ctx = stamped(
                        run.ctx,
                        run.session_name.as_str(),
                        nonce.as_str(),
                        created,
                        true,
                        run.policy,
                    );
                    let renewal = HeldSessionHandle {
                        session_name: run.session_name,
                        run_id: run.run_id,
                        nonce,
                        policy: run.policy,
                    };
                    HeldStep::Holding { ctx, renewal }
                },
            },
        }
    }
}

impl Default for HeldSessionNode {
    fn default() -> (r: Self)
        ensures
            r.starts_in() is None,
            r.config() == PolicyConfigSource::Builtin,
    {
        HeldSessionNode::new()
    }
}

/// A run that comes back to the node finds its session held, under the lease
/// it took the first time, and asks nothing of the terminal.
pub proof fn law_held_session_is_found_again<P: Fn(&str) -> Option<String>>(
    node: HeldSessionNode,
    run: HeldRun,
    nonce: String,
    now_ms: u64,
    parse: P,
    taken: HeldStep,
    held: Map<Seq<char>, Seq<char>>,
    later: TaskContext,
    run_id: Seq<char>,
    policy: HeldSessionPolicy,
    step: HeldStep,
)
    requires
        run.stage is Acquiring,
        run.session_name@ == identity::session_name(run_id, NODE_NAME@),
        node.resumes(run, Ok(nonce), now_ms, parse, taken),
        HeldSessionNode::enters(
            later,
            run_id,
            policy,
            HeldSessionNode::held_after(held, taken),
            step,
        ),
    ensures
        step matches HeldStep::Finished(Ok(done)) && done.stamped(
            later,
            NODE_NAME@,
            stamp(run.session_name@, nonce@, false, false, policy),
        ),
{
}

/// By default and in every named profile, a lease is renewed at least twice
/// before it could end.
pub proof fn law_leases_are_renewed_in_time(name: Seq<char>)
    ensures
        2 * builtin().renew_interval_ms < builtin().lease_ttl_ms,
        match profiles::bundle_named(name) {
            Some(bundle) => {
                let policy = resolve::resolved(builtin(), None, Some(&bundle), None);
                2 * policy.renew_interval_ms < policy.lease_ttl_ms
            },
            None => true,
        },
{
}

/// Every knob has the value of the highest layer that sets it: the event's,
/// else the profile's, else the harness's, else the built-in one.
pub proof fn law_every_knob_goes_by_its_highest_layer(
    harness_defaults: Option<&PartialHeldSessionPolicy>,
    profile: Option<&PartialHeldSessionPolicy>,
    event_override: Option<&PartialHeldSessionPolicy>,
    r: HeldSessionPolicy,
)
    requires
        resolve.ensures((harness_defaults, profile, event_override), r),
    ensures
        r.lease_ttl_ms == (if event_override is Some && event_override->0.lease_ttl_ms is Some {
            event_override->0.lease_ttl_ms->0
        } else if profile is Some && profile->0.lease_ttl_ms is Some {
            profile->0.lease_ttl_ms->0
        } else if harness_defaults is Some && harness_defaults->0.lease_ttl_ms is Some {
            harness_defaults->0.lease_ttl_ms->0
        } else {
            300_000
        }),
        r.renew_interval_ms == (if event_override is Some && event_override->0.renew_interval_ms is Some {
            event_override->0.renew_interval_ms->0
        } else if profile is Some && profile->0.renew_interval_ms is Some {
            profile->0.renew_interval_ms->0
        } else if harness_defaults is Some && harness_defaults->0.renew_interval_ms is Some {
            harness_defaults->0.renew_interval_ms->0
        } else {
            100_000
        }),
{
}

/// A session that was registered is found under its nonce, and every other
/// session as before.
pub proof fn law_registered_session_is_found(
    held: &mut HeldSessions,
    after: &HeldSessions,
    session_name: &str,
    nonce: &str,
    other: &str,
    r: Option<&str>,
    s: Option<&str>,
)
    requires
        HeldSessions::register.ensures((held, session_name, nonce), ()),
        *after == *final(held),
        HeldSessions::lookup.ensures((after, session_name), r),
        HeldSessions::lookup.ensures((after, other), s),
    ensures
        r is Some && r->0@ == nonce@,
        other@ != session_name@ ==> (s is Some <==> old(held).nonces().contains_key(other@)) && (s
            is Some ==> s->0@ == old(held).nonces()[other@]),
{
}

/// Without a harness file, a knob has the event's value, else that of the named
/// profile, else the built-in one; a name that no profile has fails.
pub proof fn law_builtin_source_resolves_by_name<
    D: Fn(&Json) -> Result<PartialHeldSessionPolicy, String>,
    E: Fn(&Json) -> Result<StringMap<PartialHeldSessionPolicy>, String>,
>(
    workflow_key: &str,
    file: &HarnessText,
    profile_name: Option<&str>,
    bundle: Option<PartialHeldSessionPolicy>,
    event_override: Option<&PartialHeldSessionPolicy>,
    decode: D,
    decode_profiles: E,
    r: Result<HeldSessionPolicy, NodeError>,
)
    requires
        profile_name is Some ==> profiles::profile_by_name.ensures((profile_name->0,), bundle),
        profile_name is None ==> bundle is None,
        resolve_for_workflow::<D, E>.ensures(
            (
                workflow_key,
                &PolicyConfigSource::Builtin,
                file,
                profile_name,
                event_override,
                decode,
                decode_profiles,
            ),
            r,
        ),
    ensures
        r is Err <==> profile_name is Some && bundle is None,
        r is Ok ==> {
            &&& r->Ok_0.lease_ttl_ms == (if event_override is Some
                && event_override->0.lease_ttl_ms is Some {
                event_override->0.lease_ttl_ms->0
            } else if bundle is Some && bundle->0.lease_ttl_ms is Some {
                bundle->0.lease_ttl_ms->0
            } else {
                300_000
            })
            &&& r->Ok_0.renew_interval_ms == (if event_override is Some
                && event_override->0.renew_interval_ms is Some {
                event_override->0.renew_interval_ms->0
            } else if bundle is Some && bundle->0.renew_interval_ms is Some {
                bundle->0.renew_interval_ms->0
            } else {
                100_000
            })
        },
{
}

/// A renewal asks for the held session's lease, under the nonce it is held
/// under, for its whole length from now; one that succeeds is followed by the
/// next, an interval later, and one that fails is the last.
pub proof fn law_renewals_keep_the_lease(
    handle: &HeldSessionHandle,
    now_ms: u64,
    request: RenewRequest,
    pause: Duration,
    renewed: &Result<(), DriverFault>,
    more: bool,
)
    requires
        HeldSessionHandle::request.ensures((handle, now_ms), request),
        HeldSessionHandle::pause.ensures((handle,), pause),
        HeldSessionHandle::goes_on.ensures((handle, renewed), more),
    ensures
        request.session_name@ == handle.session_name@,
        request.nonce@ == handle.nonce@,
        request.run_id@ == handle.run_id@,
        request.identity@ == NODE_NAME@,
        request.expires_at_ms - now_ms == handle.policy.lease_ttl_ms,
        pause.nanos == handle.policy.renew_interval_ms * 1_000_000,
        *renewed is Ok ==> more,
        *renewed is Err ==> !more,
{
}

/// Whether a context records a held session with these facts, and is otherwise
/// `ctx`.
pub open spec fn records_hold(
    done: TaskContext,
    ctx: TaskContext,
    session: Seq<char>,
    nonce: Seq<char>,
    created: bool,
    acquired: bool,
) -> bool {
    &&& done.result_of(NODE_NAME@) matches Some(doc) && {
        &&& doc.get_str("session_name"@) == Some(session)
        &&& doc.get_str("lease_nonce"@) == Some(nonce)
        &&& doc.get("created"@) == Some(JsonView::Bool(created))
        &&& doc.get("acquired_by_this_call"@) == Some(JsonView::Bool(acquired))
    }
    &&& forall|key: Seq<char>| key != NODE_NAME@ ==> #[trigger] done.result_of(key)
        == ctx.result_of(key)
    &&& done.event == ctx.event
    &&& done.metadata == ctx.metadata
    &&& done.node_runs == ctx.node_runs
}

proof fn lemma_records_hold(
    done: TaskContext,
    ctx: TaskContext,
    session: Seq<char>,
    nonce: Seq<char>,
    created: bool,
    acquired: bool,
    policy: HeldSessionPolicy,
)
    requires
        done.stamped(ctx, NODE_NAME@, stamp(session, nonce, created, acquired, policy)),
    ensures
        records_hold(done, ctx, session, nonce, created, acquired),
        done.result_of(NODE_NAME@)->0.get("lease_ttl_ms"@) == Some(
            JsonView::Number(json::NumberView::PosInt(policy.lease_ttl_ms)),
        ),
        done.result_of(NODE_NAME@)->0.get("renew_interval_ms"@) == Some(
            JsonView::Number(json::NumberView::PosInt(policy.renew_interval_ms)),
        ),
{
    reveal_strlit("session_name");
    reveal_strlit("lease_nonce");
    reveal_strlit("created");
    reveal_strlit("acquired_by_this_call");
    reveal_strlit("lease_ttl_ms");
    reveal_strlit("renew_interval_ms");
    assert("session_name"@.len() == 12);
    assert("lease_nonce"@.len() == 11);
    assert("created"@.len() == 7);
    assert("acquired_by_this_call"@.len() == 21);
    assert("lease_ttl_ms"@.len() == 12);
    assert("renew_interval_ms"@.len() == 17);
    assert("session_name"@[0] != "lease_ttl_ms"@[0]);
    let doc = stamp(session, nonce, created, acquired, policy);
    assert(done.results() == ctx.results().insert(NODE_NAME@, doc));
}

/// A run whose session is held asks nothing of the terminal and finds the
/// nonce it is held under, neither created nor taken now; a run whose session
/// is not held asks for the sessions. A run without an identifier fails.
pub proof fn law_node_starts_by_what_is_held<
    D: Fn(&Json) -> Result<PartialHeldSessionPolicy, String>,
    E: Fn(&Json) -> Result<StringMap<PartialHeldSessionPolicy>, String>,
>(
    node: &HeldSessionNode,
    ctx: TaskContext,
    file: &HarnessText,
    decode: D,
    decode_profiles: E,
    held: &HeldSessions,
    run_id: &str,
    own: &str,
    session: String,
    name: &str,
    nonce: Option<&str>,
    step: HeldStep,
)
    requires
        own@ == NODE_NAME@,
        session_name_for.ensures((run_id, own), session),
        name@ == session@,
        HeldSessions::lookup.ensures((held, name), nonce),
        HeldSessionNode::start::<D, E>.ensures(
            (node, ctx, file, decode, decode_profiles, held),
            step,
        ),
    ensures
        ctx.metadata@.get_str("run_id"@) is None ==> step is Finished && step->Finished_0 is Err,
        !(step is Holding),
        ctx.metadata@.get_str("run_id"@) == Some(run_id@) && step is Finished && step->Finished_0
            is Ok ==> nonce is Some && records_hold(
            step->Finished_0->Ok_0,
            ctx,
            session@,
            nonce->0@,
            false,
            false,
        ),
        ctx.metadata@.get_str("run_id"@) == Some(run_id@) && step is Call ==> {
            &&& nonce is None
            &&& step->call@ is ListSessions
            &&& step->state.session_name@ == session@
            &&& step->state.run_id@ == run_id@
            &&& step->state.ctx == ctx
            &&& step->state.stage is Listing
        },
        ctx.metadata@.get_str("run_id"@) is Some && node.config() is Builtin && ctx.event@.get(
            "policy"@,
        ) is None && ctx.event@.get_str("profile"@) is None ==> !(step is Finished
            && step->Finished_0 is Err),
{
    if step is Finished && step->Finished_0 is Ok && ctx.metadata@.get_str("run_id"@) == Some(
        run_id@,
    ) {
        let policy = choose|policy: HeldSessionPolicy| #[trigger]
            HeldSessionNode::enters(ctx, run_id@, policy, held.nonces(), step);
        assert(HeldSessionNode::enters(ctx, run_id@, policy, held.nonces(), step));
        lemma_records_hold(
            step->Finished_0->Ok_0,
            ctx,
            session@,
            held.nonces()[session@],
            false,
            false,
            policy,
        );
    }
}

/// A call that fails ends the node; nothing is held that was not held before.
pub proof fn law_failed_call_holds_nothing<P: Fn(&str) -> Option<String>>(
    node: &HeldSessionNode,
    run: HeldRun,
    reply: Reply,
    now_ms: u64,
    parse: P,
    held: &mut HeldSessions,
    step: HeldStep,
)
    requires
        reply is Err,
        HeldSessionNode::resume::<P>.ensures((node, run, reply, now_ms, parse, held), step),
    ensures
        step is Finished && step->Finished_0 is Err,
        final(held).nonces() == old(held).nonces(),
{
}

/// The lease that is given is held from then on, under the nonce that came
/// with it, recorded as taken now, and kept by renewals for the same session,
/// run, nonce and policy. Until then nothing more is held.
pub proof fn law_given_lease_is_held<P: Fn(&str) -> Option<String>>(
    node: &HeldSessionNode,
    run: HeldRun,
    reply: Reply,
    now_ms: u64,
    parse: P,
    held: &mut HeldSessions,
    step: HeldStep,
)
    requires
        reply is Ok,
        HeldSessionNode::resume::<P>.ensures((node, run, reply, now_ms, parse, held), step),
    ensures
        run.stage is Acquiring ==> {
            &&& step is Holding
            &&& records_hold(
                step->ctx,
                run.ctx,
                run.session_name@,
                reply->Ok_0@,
                run.stage->created,
                true,
            )
            &&& step->ctx.result_of(NODE_NAME@)->0.get("lease_ttl_ms"@) == Some(
                JsonView::Number(json::NumberView::PosInt(run.policy.lease_ttl_ms)),
            )
            &&& step->ctx.result_of(NODE_NAME@)->0.get("renew_interval_ms"@) == Some(
                JsonView::Number(json::NumberView::PosInt(run.policy.renew_interval_ms)),
            )
            &&& step->renewal.session_name@ == run.session_name@
            &&& step->renewal.run_id@ == run.run_id@
            &&& step->renewal.nonce@ == reply->Ok_0@
            &&& step->renewal.policy == run.policy
            &&& final(held).nonces().contains_key(run.session_name@)
            &&& final(held).nonces()[run.session_name@] == reply->Ok_0@
            &&& forall|other: Seq<char>|
                other != run.session_name@ ==> final(held).nonces().contains_key(other) == old(
                    held,
                ).nonces().contains_key(other) && (old(held).nonces().contains_key(other)
                    ==> #[trigger] final(held).nonces()[other] == old(held).nonces()[other])
        },
        !(run.stage is Acquiring) ==> step is Call && final(held).nonces() == old(held).nonces(),
{
    if run.stage is Acquiring {
        lemma_records_hold(
            step->ctx,
            run.ctx,
            run.session_name@,
            reply->Ok_0@,
            run.stage->created,
            true,
            run.policy,
        );
    }
}

/// A session that the listing names is adopted, and any other is created, in
/// the node's directory, before its lease is asked for.
pub proof fn law_session_is_created_only_where_missing<P: Fn(&str) -> Option<String>>(
    node: &HeldSessionNode,
    run: HeldRun,
    reply: Reply,
    now_ms: u64,
    parse: P,
    held: &mut HeldSessions,
    step: HeldStep,
    i: int,
)
    requires
        run.stage is Listing,
        reply is Ok,
        HeldSessionNode::resume::<P>.ensures((node, run, reply, now_ms, parse, held), step),
    ensures
        0 <= i < text::lines(reply->Ok_0@).len() && (forall|line: &str, name: Option<String>| #[trigger]
            parse.ensures((line,), name) && line@ == text::lines(reply->Ok_0@)[i]
                ==> text::opt_text(name) == Some(run.session_name@)) ==> step is Call && step->call@
            is Acquire && step->state.stage == (HeldStage::Acquiring { created: false }),
        (forall|line: &str, name: Option<String>| #[trigger]
            parse.ensures((line,), name) && text::lines(reply->Ok_0@).contains(line@)
                ==> text::opt_text(name) != Some(run.session_name@)) ==> step is Call && step->call@
            == (CallView::NewSession { name: run.session_name@, dir: node.starts_in() })
            && step->state.stage is Creating,
        step is Call ==> step->state.ctx == run.ctx && step->state.session_name
            == run.session_name && step->state.run_id == run.run_id && step->state.policy
            == run.policy,
{
    let listing = reply->Ok_0@;
    let names = choose|names: Seq<Option<String>>| #[trigger]
        driver::listed(listing, parse, names) && if driver::names_it(names, run.session_name@) {
            step matches HeldStep::Call { state, call } && state == run.at(
                HeldStage::Acquiring { created: false },
            ) && call@ == run.acquire_call(now_ms)
        } else {
            step matches HeldStep::Call { state, call } && state == run.at(HeldStage::Creating)
                && call@ == CallView::NewSession { name: run.session_name@, dir: node.starts_in() }
        };
    if 0 <= i < text::lines(listing).len() {
        assert(driver::found_in(text::lines(listing)[i], parse, names[i]));
    }
    if driver::names_it(names, run.session_name@) {
        let k = choose|k: int|
            0 <= k < names.len() && text::opt_text(#[trigger] names[k]) == Some(run.session_name@);
        assert(driver::found_in(text::lines(listing)[k], parse, names[k]));
        assert(text::lines(listing).contains(text::lines(listing)[k]));
    }
}

/// Whenever the lease is asked for, it is for the run and its session, for the
/// policy's length from now, and never over a lease of someone else's.
pub proof fn law_lease_lasts_as_the_policy_says<P: Fn(&str) -> Option<String>>(
    node: &HeldSessionNode,
    run: HeldRun,
    reply: Reply,
    now_ms: u64,
    parse: P,
    held: &mut HeldSessions,
    step: HeldStep,
)
    requires
        run.stage is Listing || run.stage is Creating ==> now_ms + run.policy.lease_ttl_ms
            <= u64::MAX,
        HeldSessionNode::resume::<P>.ensures((node, run, reply, now_ms, parse, held), step),
    ensures
        run.stage is Creating && reply is Ok ==> step is Call && step->call@ is Acquire,
        step matches HeldStep::Call { state, call } ==> (call@ matches CallView::Acquire(q) ==> {
            &&& q.session_name == run.session_name@
            &&& q.run_id == run.run_id@
            &&& q.nonce == run.session_name@
            &&& q.identity == NODE_NAME@
            &&& q.now_ms == now_ms
            &&& q.expires_at_ms == now_ms + run.policy.lease_ttl_ms
            &&& q.steal_after is None
            &&& state.stage == (HeldStage::Acquiring { created: run.stage is Creating })
        }),
{
}

/// What failed is told: a run without an identifier, and each call with what
/// the terminal said of it.
pub proof fn law_failure_tells_the_call<P: Fn(&str) -> Option<String>>(
    node: &HeldSessionNode,
    run: HeldRun,
    reply: Reply,
    now_ms: u64,
    parse: P,
    held: &mut HeldSessions,
    step: HeldStep,
)
    requires
        reply is Err,
        HeldSessionNode::resume::<P>.ensures((node, run, reply, now_ms, parse, held), step),
    ensures
        step is Finished && step->Finished_0 is Err && step->Finished_0->Err_0.message@ == (
        match run.stage {
            HeldStage::Listing => NODE_NAME@ + ": list_sessions failed: "@,
            HeldStage::Creating => NODE_NAME@ + ": new_session failed: "@,
            HeldStage::Acquiring { .. } => NODE_NAME@ + ": lease acquisition failed: "@,
        }) + reply->Err_0.says(),
{
}

} // verus!
