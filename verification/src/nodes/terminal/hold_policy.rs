//! The policy over an operator hold and a stale session lease.
use vstd::prelude::*;

use crate::contract::{put_result, TaskContext};
use crate::json;
use crate::json::{Json, JsonView};
use crate::node::NodeError;
use crate::nodes::terminal::event;
use crate::nodes::terminal::event::event_policy;
use crate::policy::profiles as harness;
use crate::policy::profiles::{HarnessText, PolicyConfigSource};
use crate::policy::resolve;
use crate::policy::resolve::{merge_opt, Policy};
use crate::string_map::StringMap;
use crate::text;
use crate::text::owned;
use crate::time::{Duration, NANOS_PER_MILLI};

pub mod profiles;

verus! {

/// The identity this node runs and stamps its result under.
pub const NODE_NAME: &'static str = "HoldPolicyNode";

/// How an operator hold and a stale lease are treated.
#[derive(Clone, Copy, Debug, PartialEq, Eq)]
pub struct HoldPolicy {
    /// Milliseconds of grace after an operator detaches.
    pub grace_ms: u64,
    /// Milliseconds past its end after which a foreign lease may be taken over; none means never.
    pub steal_after_ms: Option<u64>,
}

/// The built-in policy.
pub open spec fn builtin() -> HoldPolicy {
    HoldPolicy {
        grace_ms: 60_000,
        steal_after_ms: None::<u64>,
    }
}

impl Default for HoldPolicy {
    fn default() -> (r: Self)
        ensures
            r == builtin(),
    {
        HoldPolicy {
            grace_ms: 60_000,
            steal_after_ms: None::<u64>,
        }
    }
}

impl HoldPolicy {
    /// The grace after an operator detaches.
    pub fn grace(&self) -> (r: Duration)
        ensures
            r.nanos == self.grace_ms * NANOS_PER_MILLI,
    {
        Duration::from_millis(self.grace_ms)
    }

    /// How long past its end a foreign lease must have aged before it may be
    /// taken over; none means never.
    pub fn steal_after(&self) -> (r: Option<Duration>)
        ensures
            match self.steal_after_ms {
                Some(ms) => r is Some && r->0.nanos == ms * NANOS_PER_MILLI,
                None => r is None,
            },
    {
        match self.steal_after_ms {
            Some(ms) => Some(Duration::from_millis(ms)),
            None => None,
        }
    }
}

/// `HoldPolicy` with every knob optional. A layer that sets `steal_after_ms`
/// to none asserts that a foreign lease is never taken over; a layer that
/// does not set it leaves it to the layers below.
#[derive(Clone, Copy, Debug, PartialEq, Eq)]
pub struct PartialHoldPolicy {
    pub grace_ms: Option<u64>,
    pub steal_after_ms: Option<Option<u64>>,
}

impl Default for PartialHoldPolicy {
    fn default() -> (r: Self)
        ensures
            r == (PartialHoldPolicy { grace_ms: None, steal_after_ms: None }),
    {
        PartialHoldPolicy { grace_ms: None, steal_after_ms: None }
    }
}

impl Policy for HoldPolicy {
    type Partial = PartialHoldPolicy;

    open spec fn applied(self, over: PartialHoldPolicy) -> Self {
        HoldPolicy {
            grace_ms: resolve::merged(self.grace_ms, over.grace_ms),
            steal_after_ms: resolve::merged(self.steal_after_ms, over.steal_after_ms),
        }
    }

    fn apply(self, over: &PartialHoldPolicy) -> (r: Self) {
        HoldPolicy {
            grace_ms: merge_opt(self.grace_ms, over.grace_ms),
            steal_after_ms: merge_opt(self.steal_after_ms, over.steal_after_ms),
        }
    }
}

/// Resolve the layers: each knob has the event's value, else the profile's,
/// else the harness's, else the built-in one.
pub fn resolve(
    harness_defaults: Option<&PartialHoldPolicy>,
    profile: Option<&PartialHoldPolicy>,
    event_override: Option<&PartialHoldPolicy>,
) -> (r: HoldPolicy)
    ensures
        r == resolve::resolved(builtin(), harness_defaults, profile, event_override),
        r.grace_ms == resolve::by_precedence(
            resolve::knob(event_override, |l: PartialHoldPolicy| l.grace_ms),
            resolve::knob(profile, |l: PartialHoldPolicy| l.grace_ms),
            resolve::knob(harness_defaults, |l: PartialHoldPolicy| l.grace_ms),
            builtin().grace_ms,
        ),
        r.steal_after_ms == resolve::by_precedence(
            resolve::knob(event_override, |l: PartialHoldPolicy| l.steal_after_ms),
            resolve::knob(profile, |l: PartialHoldPolicy| l.steal_after_ms),
            resolve::knob(harness_defaults, |l: PartialHoldPolicy| l.steal_after_ms),
            builtin().steal_after_ms,
        ),
{
    resolve::resolve(HoldPolicy::default(), harness_defaults, profile, event_override)
}

/// Selecting the baseline profile changes nothing.
pub proof fn law_baseline_is_no_op()
    ensures
        resolve::resolved(builtin(), None, Some(&profiles::baseline_bundle()), None)
            == resolve::resolved(builtin(), None, None, None),
{
}

/// An explicit refusal to take over a lease wins over any lower layer.
pub proof fn law_explicit_refusal_wins(
    harness_defaults: Option<&PartialHoldPolicy>,
    profile: Option<&PartialHoldPolicy>,
    event_override: &PartialHoldPolicy,
)
    requires
        event_override.steal_after_ms == Some(None::<u64>),
    ensures
        resolve::resolved(
            builtin(),
            harness_defaults,
            profile,
            Some(event_override),
        ).steal_after_ms is None,
{
}

/// Resolve the policy of one workflow's run from what a source holds, a
/// profile name and the event's override.
pub fn resolve_for_workflow<
    D: Fn(&Json) -> Result<PartialHoldPolicy, String>,
    E: Fn(&Json) -> Result<StringMap<PartialHoldPolicy>, String>,
>(
    workflow_key: &str,
    source: &PolicyConfigSource,
    file: &HarnessText,
    profile_name: Option<&str>,
    event_override: Option<&PartialHoldPolicy>,
    decode: D,
    decode_profiles: E,
) -> (r: Result<HoldPolicy, NodeError>)
    requires
        forall|doc: &Json| decode.requires((doc,)),
        forall|doc: &Json| decode_profiles.requires((doc,)),
    ensures
        harness::run_outcome(
            builtin(),
            *source,
            *file,
            workflow_key@,
            profile_name,
            event_override,
            decode,
            decode_profiles,
            profiles::profile_by_name,
            r,
        ),
        *source is Builtin ==> match profile_name {
            None => r == Ok::<HoldPolicy, NodeError>(
                resolve::resolved(builtin(), None, None, event_override),
            ),
            Some(name) => match profiles::bundle_named(name@) {
                Some(bundle) => r == Ok::<HoldPolicy, NodeError>(
                    resolve::resolved(builtin(), None, Some(&bundle), event_override),
                ),
                None => r is Err && r->Err_0.message@ == harness::unknown_profile(
                    name@,
                    workflow_key@,
                ),
            },
        },
{
    harness::resolve_run(
        HoldPolicy::default(),
        source,
        file,
        workflow_key,
        profile_name,
        event_override,
        decode,
        decode_profiles,
        profiles::profile_by_name,
    )
}

/// What the node stamps: the workflow and the resolved knobs.
pub open spec fn stamp(workflow_key: Seq<char>, policy: HoldPolicy) -> JsonView {
    JsonView::Object(
        json::json_object().insert("workflow_key"@, json::json_str(workflow_key)).insert(
            "grace_ms"@,
            json::json_u64(policy.grace_ms),
        ).insert("steal_after_ms"@, json::json_opt_u64(policy.steal_after_ms)),
    )
}

/// Resolves a run's hold policy for one workflow and stamps it.
#[derive(Debug, PartialEq, Eq)]
pub struct HoldPolicyNode {
    workflow_key: String,
    source: PolicyConfigSource,
}

impl HoldPolicyNode {
    /// The workflow whose section is read.
    pub closed spec fn key(self) -> Seq<char> {
        self.workflow_key@
    }

    /// Where the section is looked up.
    pub closed spec fn config(self) -> PolicyConfigSource {
        self.source
    }

    /// A node for `workflow_key` that reads no harness file.
    pub fn new(workflow_key: &str) -> (r: Self)
        ensures
            r.key() == workflow_key@,
            r.config() == PolicyConfigSource::Builtin,
    {
        HoldPolicyNode { workflow_key: owned(workflow_key), source: PolicyConfigSource::Builtin }
    }

    /// The node, reading `source` instead.
    pub fn with_source(self, source: PolicyConfigSource) -> (r: Self)
        ensures
            r.key() == self.key(),
            r.config() == source,
    {
        let mut node = self;
        node.source = source;
        node
    }

    /// The workflow whose section is read.
    pub fn workflow_key(&self) -> (r: &str)
        ensures
            r@ == self.key(),
    {
        self.workflow_key.as_str()
    }

    /// Whether `r` is a possible outcome of running this node on `ctx`: the
    /// first failure of the event's override, the defaults or the profile;
    /// else the context with the resolved policy stamped.
    pub open spec fn outcome<
        D: Fn(&Json) -> Result<PartialHoldPolicy, String>,
        E: Fn(&Json) -> Result<StringMap<PartialHoldPolicy>, String>,
    >(
        self,
        ctx: TaskContext,
        file: HarnessText,
        decode: D,
        decode_profiles: E,
        r: Result<TaskContext, NodeError>,
    ) -> bool {
        exists|e: Result<Option<PartialHoldPolicy>, NodeError>|
            {
                &&& #[trigger] event::policy_outcome(NODE_NAME@, ctx.event@, decode, e)
                &&& match e {
                    Err(err) => r is Err && r->Err_0.message@ == err.message@,
                    Ok(over) => exists|name: Option<&str>, p: Result<HoldPolicy, NodeError>|
                        {
                            &&& text::opt_str(name) == ctx.event@.get_str("profile"@)
                            &&& #[trigger] harness::run_outcome(
                                builtin(),
                                self.config(),
                                file,
                                self.key(),
                                name,
                                harness::opt_ref(&over),
                                decode,
                                decode_profiles,
                                profiles::profile_by_name,
                                p,
                            )
                            &&& match p {
                                Err(err) => r is Err && r->Err_0.message@ == err.message@,
                                Ok(policy) => r is Ok && r->Ok_0.stamped(
                                    ctx,
                                    NODE_NAME@,
                                    stamp(self.key(), policy),
                                ),
                            }
                        },
                }
            }
    }

    /// Run the node: resolve the policy and stamp it.
    pub fn process<
        D: Fn(&Json) -> Result<PartialHoldPolicy, String>,
        E: Fn(&Json) -> Result<StringMap<PartialHoldPolicy>, String>,
    >(&self, ctx: TaskContext, file: &HarnessText, decode: D, decode_profiles: E) -> (r: Result<
        TaskContext,
        NodeError,
    >)
        requires
            forall|doc: &Json| decode.requires((doc,)),
            forall|doc: &Json| decode_profiles.requires((doc,)),
        ensures
            self.outcome(ctx, *file, decode, decode_profiles, r),
    {
        let read = event_policy(NODE_NAME, &ctx.event, &decode);
        let ghost e = read;
        assert(event::policy_outcome(NODE_NAME@, ctx.event@, decode, e));
        let over = match read {
            Ok(over) => over,
            Err(err) => {
                return Err(err);
            },
        };
        let p = {
            let name = ctx.event.get_str("profile");
            let p = resolve_for_workflow(
                self.workflow_key.as_str(),
                &self.source,
                file,
                name,
                over.as_ref(),
                decode,
                decode_profiles,
            );
            assert(harness::run_outcome(
                builtin(),
                self.config(),
                *file,
                self.key(),
                name,
                harness::opt_ref(&over),
                decode,
                decode_profiles,
                profiles::profile_by_name,
                p,
            ));
            p
        };
        match p {
            Err(err) => Err(err),
            Ok(policy) => {
                let result = Json::object().with(
                    "workflow_key",
                    Json::text(self.workflow_key.as_str()),
                ).with("grace_ms", Json::uint(policy.grace_ms)).with(
                    "steal_after_ms",
                    Json::opt_uint(policy.steal_after_ms),
                );
                Ok(put_result(ctx, NODE_NAME, result))
            },
        }
    }
}

/// Every knob has the value of the highest layer that sets it: the event's,
/// else the profile's, else the harness's, else the built-in one.
pub proof fn law_every_knob_goes_by_its_highest_layer(
    harness_defaults: Option<&PartialHoldPolicy>,
    profile: Option<&PartialHoldPolicy>,
    event_override: Option<&PartialHoldPolicy>,
    r: HoldPolicy,
)
    requires
        resolve.ensures((harness_defaults, profile, event_override), r),
    ensures
        r.grace_ms == (if event_override is Some && event_override->0.grace_ms is Some {
            event_override->0.grace_ms->0
        } else if profile is Some && profile->0.grace_ms is Some {
            profile->0.grace_ms->0
        } else if harness_defaults is Some && harness_defaults->0.grace_ms is Some {
            harness_defaults->0.grace_ms->0
        } else {
            60_000
        }),
        r.steal_after_ms == (if event_override is Some && event_override->0.steal_after_ms is Some {
            event_override->0.steal_after_ms->0
        } else if profile is Some && profile->0.steal_after_ms is Some {
            profile->0.steal_after_ms->0
        } else if harness_defaults is Some && harness_defaults->0.steal_after_ms is Some {
            harness_defaults->0.steal_after_ms->0
        } else {
            None::<u64>
        }),
{
}

/// Without a harness file, a knob has the event's value, else that of the named
/// profile, else the built-in one; a name that no profile has fails.
pub proof fn law_builtin_source_resolves_by_name<
    D: Fn(&Json) -> Result<PartialHoldPolicy, String>,
    E: Fn(&Json) -> Result<StringMap<PartialHoldPolicy>, String>,
>(
    workflow_key: &str,
    file: &HarnessText,
    profile_name: Option<&str>,
    bundle: Option<PartialHoldPolicy>,
    event_override: Option<&PartialHoldPolicy>,
    decode: D,
    decode_profiles: E,
    r: Result<HoldPolicy, NodeError>,
)
    requires
        profile_name is Some ==> profiles::profile_by_name.ensures((profile_name->0,), bundle),
        profile_name is None ==> bundle is None,
        resolve_for_workflow::<D, E>.ensures(
            (
                workflow_key,
                &PolicyConfigSource::Builtin,
                file,
                profile_name,
                event_override,
                decode,
                decode_profiles,
            ),
            r,
        ),
    ensures
        r is Err <==> profile_name is Some && bundle is None,
        r is Ok ==> {
            &&& r->Ok_0.grace_ms == (if event_override is Some && event_override->0.grace_ms
                is Some {
                event_override->0.grace_ms->0
            } else if bundle is Some && bundle->0.grace_ms is Some {
                bundle->0.grace_ms->0
            } else {
                60_000
            })
            &&& r->Ok_0.steal_after_ms == (if event_override is Some
                && event_override->0.steal_after_ms is Some {
                event_override->0.steal_after_ms->0
            } else if bundle is Some && bundle->0.steal_after_ms is Some {
                bundle->0.steal_after_ms->0
            } else {
                None
            })
        },
{
}

/// What the node records is the workflow and the policy that resolving gave;
/// nothing else of the context changes.
pub proof fn law_resolved_policy_is_recorded<
    D: Fn(&Json) -> Result<PartialHoldPolicy, String>,
    E: Fn(&Json) -> Result<StringMap<PartialHoldPolicy>, String>,
>(
    node: &HoldPolicyNode,
    ctx: TaskContext,
    file: &HarnessText,
    decode: D,
    decode_profiles: E,
    r: Result<TaskContext, NodeError>,
)
    requires
        HoldPolicyNode::process::<D, E>.ensures((node, ctx, file, decode, decode_profiles), r),
    ensures
        r is Ok ==> {
            &&& r->Ok_0.result_of(NODE_NAME@) matches Some(doc) && {
                &&& doc.get_str("workflow_key"@) == Some(node.key())
                &&& doc.get("grace_ms"@) matches Some(grace) && grace.as_u64() is Some
                &&& doc.get("steal_after_ms"@) matches Some(steal) && (steal is Null
                    || steal.as_u64() is Some)
            }
            &&& forall|key: Seq<char>| key != NODE_NAME@ ==> #[trigger] r->Ok_0.result_of(key)
                == ctx.result_of(key)
            &&& r->Ok_0.event == ctx.event
            &&& r->Ok_0.metadata == ctx.metadata
            &&& r->Ok_0.node_runs == ctx.node_runs
        },
        node.config() is Builtin && ctx.event@.get("policy"@) is None && ctx.event@.get_str(
            "profile"@,
        ) is None ==> r is Ok && r->Ok_0.result_of(NODE_NAME@)->0.get("grace_ms"@) == Some(
            json::json_u64(60_000),
        ) && r->Ok_0.result_of(NODE_NAME@)->0.get("steal_after_ms"@) == Some(JsonView::Null),
{
    reveal_strlit("workflow_key");
    reveal_strlit("grace_ms");
    reveal_strlit("steal_after_ms");
    assert("workflow_key"@.len() == 12);
    assert("grace_ms"@.len() == 8);
    assert("steal_after_ms"@.len() == 14);
    let (e, name, p) = choose|
        e: Result<Option<PartialHoldPolicy>, NodeError>,
        name: Option<&str>,
        p: Result<HoldPolicy, NodeError>,
    |
        #![trigger event::policy_outcome(NODE_NAME@, ctx.event@, decode, e), harness::run_outcome(
            builtin(),
            node.config(),
            *file,
            node.key(),
            name,
            harness::opt_ref(&e->Ok_0),
            decode,
            decode_profiles,
            profiles::profile_by_name,
            p,
        )]
        event::policy_outcome(NODE_NAME@, ctx.event@, decode, e) && e is Ok && text::opt_str(name)
            == ctx.event@.get_str("profile"@) && harness::run_outcome(
            builtin(),
            node.config(),
            *file,
            node.key(),
            name,
            harness::opt_ref(&e->Ok_0),
            decode,
            decode_profiles,
            profiles::profile_by_name,
            p,
        ) && match p {
            Err(err) => r is Err && r->Err_0.message@ == err.message@,
            Ok(policy) => r is Ok && r->Ok_0.stamped(ctx, NODE_NAME@, stamp(node.key(), policy)),
        };
    if r is Ok {
        let doc = stamp(node.key(), p->Ok_0);
        assert(r->Ok_0.stamped(ctx, NODE_NAME@, doc));
        assert(r->Ok_0.results() == ctx.results().insert(NODE_NAME@, doc));
    }
}

/// The spans of a policy are its milliseconds.
pub proof fn law_spans_are_those_of_the_policy(
    policy: &HoldPolicy,
    grace: Duration,
    steal: Option<Duration>,
)
    requires
        HoldPolicy::grace.ensures((policy,), grace),
        HoldPolicy::steal_after.ensures((policy,), steal),
    ensures
        grace.nanos == policy.grace_ms * 1_000_000,
        policy.steal_after_ms is None <==> steal is None,
        steal is Some ==> steal->0.nanos == policy.steal_after_ms->0 * 1_000_000,
{
}

/// Without a harness file the recorded policy goes by the event: its override
/// counts first, then the profile it names, then the built-in value. An
/// override that does not decode and a profile that nobody has fail the node.
pub proof fn law_event_decides_the_recorded_policy<
    D: Fn(&Json) -> Result<PartialHoldPolicy, String>,
    E: Fn(&Json) -> Result<StringMap<PartialHoldPolicy>, String>,
>(
    node: &HoldPolicyNode,
    ctx: TaskContext,
    file: &HarnessText,
    decode: D,
    decode_profiles: E,
    means: spec_fn(JsonView) -> Result<PartialHoldPolicy, String>,
    over: Option<PartialHoldPolicy>,
    bundle: Option<PartialHoldPolicy>,
    r: Result<TaskContext, NodeError>,
)
    requires
        node.config() is Builtin,
        forall|doc: Json, d: Result<PartialHoldPolicy, String>| #[trigger]
            decode.ensures((&doc,), d) ==> d == means(doc@),
        match ctx.event@.get("policy"@) {
            Some(doc) => means(doc) is Ok && over == Some(means(doc)->Ok_0),
            None => over is None,
        },
        forall|name: &str, b: Option<PartialHoldPolicy>| #[trigger]
            profiles::profile_by_name.ensures((name,), b) && ctx.event@.get_str("profile"@) == Some(
                name@,
            ) ==> b == bundle,
        ctx.event@.get_str("profile"@) is None ==> bundle is None,
        HoldPolicyNode::process::<D, E>.ensures((node, ctx, file, decode, decode_profiles), r),
    ensures
        r is Ok <==> ctx.event@.get_str("profile"@) is None || bundle is Some,
        r is Ok ==> {
            let doc = r->Ok_0.result_of(NODE_NAME@)->0;
            &&& doc.get("grace_ms"@) == Some(json::json_u64((if over is Some && over->0.grace_ms is Some {
            over->0.grace_ms->0
        } else if bundle is Some && bundle->0.grace_ms is Some {
            bundle->0.grace_ms->0
        } else {
            60_000
        })))
            &&& doc.get("steal_after_ms"@) == Some(json::json_opt_u64((if over is Some && over->0.steal_after_ms is Some {
            over->0.steal_after_ms->0
        } else if bundle is Some && bundle->0.steal_after_ms is Some {
            bundle->0.steal_after_ms->0
        } else {
            None
        })))
        },
{
    reveal_strlit("workflow_key");
    reveal_strlit("grace_ms");
    reveal_strlit("steal_after_ms");
    assert("workflow_key"@.len() == 12);
    assert("grace_ms"@.len() == 8);
    assert("steal_after_ms"@.len() == 14);
    let e = choose|e: Result<Option<PartialHoldPolicy>, NodeError>|
        {
            &&& #[trigger] event::policy_outcome(NODE_NAME@, ctx.event@, decode, e)
            &&& match e {
                Err(err) => r is Err && r->Err_0.message@ == err.message@,
                Ok(o) => exists|name: Option<&str>, p: Result<HoldPolicy, NodeError>|
                    {
                        &&& text::opt_str(name) == ctx.event@.get_str("profile"@)
                        &&& #[trigger] harness::run_outcome(
                            builtin(),
                            node.config(),
                            *file,
                            node.key(),
                            name,
                            harness::opt_ref(&o),
                            decode,
                            decode_profiles,
                            profiles::profile_by_name,
                            p,
                        )
                        &&& match p {
                            Err(err) => r is Err && r->Err_0.message@ == err.message@,
                            Ok(policy) => r is Ok && r->Ok_0.stamped(
                                ctx,
                                NODE_NAME@,
                                stamp(node.key(), policy),
                            ),
                        }
                    },
            }
        };
    assert(e == Ok::<Option<PartialHoldPolicy>, NodeError>(over));
    let (name, p) = choose|name: Option<&str>, p: Result<HoldPolicy, NodeError>|
        {
            &&& text::opt_str(name) == ctx.event@.get_str("profile"@)
            &&& #[trigger] harness::run_outcome(
                builtin(),
                node.config(),
                *file,
                node.key(),
                name,
                harness::opt_ref(&over),
                decode,
                decode_profiles,
                profiles::profile_by_name,
                p,
            )
            &&& match p {
                Err(err) => r is Err && r->Err_0.message@ == err.message@,
                Ok(policy) => r is Ok && r->Ok_0.stamped(
                    ctx,
                    NODE_NAME@,
                    stamp(node.key(), policy),
                ),
            }
        };
    if r is Ok {
        let doc = stamp(node.key(), p->Ok_0);
        assert(r->Ok_0.results() == ctx.results().insert(NODE_NAME@, doc));
        assert(r->Ok_0.result_of(NODE_NAME@) == Some(doc));
    }
}

} // verus!
