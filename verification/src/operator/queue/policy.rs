//! The policy of the operator queue.
use vstd::prelude::*;

use crate::json::{Json, JsonView};
use crate::node::NodeError;
use crate::policy::profiles as harness;
use crate::policy::profiles::{HarnessText, PolicyConfigSource};
use crate::policy::resolve;
use crate::policy::resolve::{merge_opt, Policy};
use crate::string_map::StringMap;

verus! {

/// How the operator queue delivers its items.
#[derive(Clone, Copy, Debug, PartialEq, Eq)]
pub struct OperatorQueuePolicy {
    /// How many items may be open at once.
    pub operator_queue_depth: u32,
    /// Seconds an open item waits for its answer.
    pub answer_timeout_secs: i64,
    /// Seconds within which arrivals collapse into one digest.
    pub suppression_window_secs: i64,
    /// Seconds between two digests.
    pub digest_schedule_secs: i64,
}

/// The built-in policy.
pub open spec fn builtin() -> OperatorQueuePolicy {
    OperatorQueuePolicy {
        operator_queue_depth: 1,
        answer_timeout_secs: 900,
        suppression_window_secs: 60,
        digest_schedule_secs: 3600,
    }
}

impl Default for OperatorQueuePolicy {
    fn default() -> (r: Self)
        ensures
            r == builtin(),
    {
        OperatorQueuePolicy {
            operator_queue_depth: 1,
            answer_timeout_secs: 900,
            suppression_window_secs: 60,
            digest_schedule_secs: 3600,
        }
    }
}

/// `OperatorQueuePolicy` with every knob optional.
#[derive(Clone, Copy, Debug, PartialEq, Eq)]
pub struct PartialOperatorQueuePolicy {
    pub operator_queue_depth: Option<u32>,
    pub answer_timeout_secs: Option<i64>,
    pub suppression_window_secs: Option<i64>,
    pub digest_schedule_secs: Option<i64>,
}

impl Default for PartialOperatorQueuePolicy {
    fn default() -> (r: Self)
        ensures
            r == (PartialOperatorQueuePolicy { operator_queue_depth: None, answer_timeout_secs: None, suppression_window_secs: None, digest_schedule_secs: None }),
    {
        PartialOperatorQueuePolicy { operator_queue_depth: None, answer_timeout_secs: None, suppression_window_secs: None, digest_schedule_secs: None }
    }
}

impl Policy for OperatorQueuePolicy {
    type Partial = PartialOperatorQueuePolicy;

    open spec fn applied(self, over: PartialOperatorQueuePolicy) -> Self {
        OperatorQueuePolicy {
            operator_queue_depth: resolve::merged(self.operator_queue_depth, over.operator_queue_depth),
            answer_timeout_secs: resolve::merged(self.answer_timeout_secs, over.answer_timeout_secs),
            suppression_window_secs: resolve::merged(self.suppression_window_secs, over.suppression_window_secs),
            digest_schedule_secs: resolve::merged(self.digest_schedule_secs, over.digest_schedule_secs),
        }
    }

    fn apply(self, over: &PartialOperatorQueuePolicy) -> (r: Self) {
        OperatorQueuePolicy {
            operator_queue_depth: merge_opt(self.operator_queue_depth, over.operator_queue_depth),
            answer_timeout_secs: merge_opt(self.answer_timeout_secs, over.answer_timeout_secs),
            suppression_window_secs: merge_opt(self.suppression_window_secs, over.suppression_window_secs),
            digest_schedule_secs: merge_opt(self.digest_schedule_secs, over.digest_schedule_secs),
        }
    }
}

/// Each knob of the resolved policy has the event's value, else the profile's,
/// else the harness's, else the built-in one.
pub proof fn law_precedence(
    harness_defaults: Option<&PartialOperatorQueuePolicy>,
    profile: Option<&PartialOperatorQueuePolicy>,
    event_override: Option<&PartialOperatorQueuePolicy>,
    r: OperatorQueuePolicy,
)
    requires
        r == resolve::resolved(builtin(), harness_defaults, profile, event_override),
    ensures
        r.operator_queue_depth == resolve::by_precedence(
            resolve::knob(event_override, |l: PartialOperatorQueuePolicy| l.operator_queue_depth),
            resolve::knob(profile, |l: PartialOperatorQueuePolicy| l.operator_queue_depth),
            resolve::knob(harness_defaults, |l: PartialOperatorQueuePolicy| l.operator_queue_depth),
            builtin().operator_queue_depth,
        ),
        r.answer_timeout_secs == resolve::by_precedence(
            resolve::knob(event_override, |l: PartialOperatorQueuePolicy| l.answer_timeout_secs),
            resolve::knob(profile, |l: PartialOperatorQueuePolicy| l.answer_timeout_secs),
            resolve::knob(harness_defaults, |l: PartialOperatorQueuePolicy| l.answer_timeout_secs),
            builtin().answer_timeout_secs,
        ),
        r.suppression_window_secs == resolve::by_precedence(
            resolve::knob(event_override, |l: PartialOperatorQueuePolicy| l.suppression_window_secs),
            resolve::knob(profile, |l: PartialOperatorQueuePolicy| l.suppression_window_secs),
            resolve::knob(harness_defaults, |l: PartialOperatorQueuePolicy| l.suppression_window_secs),
            builtin().suppression_window_secs,
        ),
        r.digest_schedule_secs == resolve::by_precedence(
            resolve::knob(event_override, |l: PartialOperatorQueuePolicy| l.digest_schedule_secs),
            resolve::knob(profile, |l: PartialOperatorQueuePolicy| l.digest_schedule_secs),
            resolve::knob(harness_defaults, |l: PartialOperatorQueuePolicy| l.digest_schedule_secs),
            builtin().digest_schedule_secs,
        ),
{
}

/// Selecting the baseline profile changes nothing.
pub proof fn law_baseline_is_no_op()
    ensures
        resolve::resolved(builtin(), None, Some(&baseline_bundle()), None)
            == resolve::resolved(builtin(), None, None, None),
{
}

/// The baseline bundle restates the built-in policy.
pub open spec fn baseline_bundle() -> PartialOperatorQueuePolicy {
    PartialOperatorQueuePolicy {
        operator_queue_depth: Some(builtin().operator_queue_depth),
        answer_timeout_secs: Some(builtin().answer_timeout_secs),
        suppression_window_secs: Some(builtin().suppression_window_secs),
        digest_schedule_secs: Some(builtin().digest_schedule_secs),
    }
}

/// The bundle that favours cost and latency.
pub open spec fn cheap_fast_bundle() -> PartialOperatorQueuePolicy {
    PartialOperatorQueuePolicy {
        operator_queue_depth: Some(1),
        answer_timeout_secs: Some(300),
        suppression_window_secs: Some(120),
        digest_schedule_secs: Some(7200),
    }
}

/// The bundle that favours quality.
pub open spec fn thorough_bundle() -> PartialOperatorQueuePolicy {
    PartialOperatorQueuePolicy {
        operator_queue_depth: Some(1),
        answer_timeout_secs: Some(1800),
        suppression_window_secs: Some(30),
        digest_schedule_secs: Some(1800),
    }
}

/// The bundle of a name, if it is one of the three.
pub open spec fn bundle_named(name: Seq<char>) -> Option<PartialOperatorQueuePolicy> {
    if name == "baseline"@ {
        Some(baseline_bundle())
    } else if name == "cheap-fast"@ {
        Some(cheap_fast_bundle())
    } else if name == "thorough"@ {
        Some(thorough_bundle())
    } else {
        None
    }
}

/// The built-in policy, restated: selecting it changes nothing.
pub fn baseline() -> (r: PartialOperatorQueuePolicy)
    ensures
        r == baseline_bundle(),
{
    let default = OperatorQueuePolicy::default();
    PartialOperatorQueuePolicy {
        operator_queue_depth: Some(default.operator_queue_depth),
        answer_timeout_secs: Some(default.answer_timeout_secs),
        suppression_window_secs: Some(default.suppression_window_secs),
        digest_schedule_secs: Some(default.digest_schedule_secs),
    }
}

/// A short wait, wide suppression and rare digests.
pub fn cheap_fast() -> (r: PartialOperatorQueuePolicy)
    ensures
        r == cheap_fast_bundle(),
{
    PartialOperatorQueuePolicy {
        operator_queue_depth: Some(1),
        answer_timeout_secs: Some(300),
        suppression_window_secs: Some(120),
        digest_schedule_secs: Some(7200),
    }
}

/// A long wait, narrow suppression and frequent digests.
pub fn thorough() -> (r: PartialOperatorQueuePolicy)
    ensures
        r == thorough_bundle(),
{
    PartialOperatorQueuePolicy {
        operator_queue_depth: Some(1),
        answer_timeout_secs: Some(1800),
        suppression_window_secs: Some(30),
        digest_schedule_secs: Some(1800),
    }
}

/// Look up one of the three names; any other has no bundle.
pub fn profile_by_name(name: &str) -> (r: Option<PartialOperatorQueuePolicy>)
    ensures
        r == bundle_named(name@),
{
    if *name == *"baseline" {
        Some(baseline())
    } else if *name == *"cheap-fast" {
        Some(cheap_fast())
    } else if *name == *"thorough" {
        Some(thorough())
    } else {
        None
    }
}

/// The harness section this policy's knobs live under.
pub const WORKFLOW_KEY: &'static str = "operator_queue";

/// Read this policy's defaults out of what a source holds.
pub fn read_harness_policy_defaults_from<D: Fn(&Json) -> Result<PartialOperatorQueuePolicy, String>>(
    source: &PolicyConfigSource,
    file: &HarnessText,
    decode: D,
) -> (r: Result<Option<PartialOperatorQueuePolicy>, NodeError>)
    requires
        forall|doc: &Json| decode.requires((doc,)),
    ensures
        harness::defaults_outcome(*source, *file, WORKFLOW_KEY@, decode, r),
{
    harness::read_harness_policy_defaults_from(source, file, WORKFLOW_KEY, decode)
}

/// Resolve a profile name, preferring the harness's profile of that name to
/// the built-in one.
pub fn resolve_profile_from<D: Fn(&Json) -> Result<StringMap<PartialOperatorQueuePolicy>, String>>(
    profile_name: Option<&str>,
    source: &PolicyConfigSource,
    file: &HarnessText,
    decode: D,
) -> (r: Result<Option<PartialOperatorQueuePolicy>, NodeError>)
    requires
        forall|doc: &Json| decode.requires((doc,)),
    ensures
        harness::profile_outcome(
            profile_name,
            *source,
            *file,
            WORKFLOW_KEY@,
            decode,
            profile_by_name,
            r,
        ),
{
    harness::resolve_profile_from(profile_name, source, file, WORKFLOW_KEY, decode, profile_by_name)
}

/// Resolve the policy of a run from what a source holds, a profile name and
/// the event's override.
pub fn resolve_policy_for_run_from<
    D: Fn(&Json) -> Result<PartialOperatorQueuePolicy, String>,
    E: Fn(&Json) -> Result<StringMap<PartialOperatorQueuePolicy>, String>,
>(
    source: &PolicyConfigSource,
    file: &HarnessText,
    profile_name: Option<&str>,
    event_override: Option<&PartialOperatorQueuePolicy>,
    decode: D,
    decode_profiles: E,
) -> (r: Result<OperatorQueuePolicy, NodeError>)
    requires
        forall|doc: &Json| decode.requires((doc,)),
        forall|doc: &Json| decode_profiles.requires((doc,)),
    ensures
        harness::run_outcome(
            builtin(),
            *source,
            *file,
            WORKFLOW_KEY@,
            profile_name,
            event_override,
            decode,
            decode_profiles,
            profile_by_name,
            r,
        ),
        *source is Builtin ==> match profile_name {
            None => r == Ok::<OperatorQueuePolicy, NodeError>(
                resolve::resolved(builtin(), None, None, event_override),
            ),
            Some(name) => match bundle_named(name@) {
                Some(bundle) => r == Ok::<OperatorQueuePolicy, NodeError>(
                    resolve::resolved(builtin(), None, Some(&bundle), event_override),
                ),
                None => r is Err && r->Err_0.message@ == harness::unknown_profile(
                    name@,
                    WORKFLOW_KEY@,
                ),
            },
        },
{
    harness::resolve_run(
        OperatorQueuePolicy::default(),
        source,
        file,
        WORKFLOW_KEY,
        profile_name,
        event_override,
        decode,
        decode_profiles,
        profile_by_name,
    )
}

/// There are three named bundles, each with every knob set, and no other name
/// has one.
pub proof fn law_bundles_by_name(name: &str, r: Option<PartialOperatorQueuePolicy>)
    requires
        profile_by_name.ensures((name,), r),
    ensures
        name@ == "baseline"@ ==> r == Some(PartialOperatorQueuePolicy { operator_queue_depth: Some(1), answer_timeout_secs: Some(900), suppression_window_secs: Some(60), digest_schedule_secs: Some(3_600) }),
        name@ == "cheap-fast"@ ==> r == Some(PartialOperatorQueuePolicy { operator_queue_depth: Some(1), answer_timeout_secs: Some(300), suppression_window_secs: Some(120), digest_schedule_secs: Some(7_200) }),
        name@ == "thorough"@ ==> r == Some(PartialOperatorQueuePolicy { operator_queue_depth: Some(1), answer_timeout_secs: Some(1_800), suppression_window_secs: Some(30), digest_schedule_secs: Some(1_800) }),
        name@ != "baseline"@ && name@ != "cheap-fast"@ && name@ != "thorough"@ ==> r is None,
{
    reveal_strlit("baseline");
    reveal_strlit("cheap-fast");
    reveal_strlit("thorough");
    assert("baseline"@.len() == 8);
    assert("cheap-fast"@.len() == 10);
    assert("thorough"@.len() == 8);
    assert("baseline"@[0] != "thorough"@[0]);
}

/// Without a harness file, a knob has the event's value, else that of the named
/// profile, else the built-in one; a name that no profile has fails.
pub proof fn law_builtin_source_resolves_by_name<
    D: Fn(&Json) -> Result<PartialOperatorQueuePolicy, String>,
    E: Fn(&Json) -> Result<StringMap<PartialOperatorQueuePolicy>, String>,
>(
    file: &HarnessText,
    profile_name: Option<&str>,
    bundle: Option<PartialOperatorQueuePolicy>,
    event_override: Option<&PartialOperatorQueuePolicy>,
    decode: D,
    decode_profiles: E,
    r: Result<OperatorQueuePolicy, NodeError>,
)
    requires
        profile_name is Some ==> profile_by_name.ensures((profile_name->0,), bundle),
        profile_name is None ==> bundle is None,
        resolve_policy_for_run_from::<D, E>.ensures(
            (
                &PolicyConfigSource::Builtin,
                file,
                profile_name,
                event_override,
                decode,
                decode_profiles,
            ),
            r,
        ),
    ensures
        r is Err <==> profile_name is Some && bundle is None,
        r is Ok ==> {
            &&& r->Ok_0.operator_queue_depth == (if event_override is Some && event_override->0.operator_queue_depth is Some {
                event_override->0.operator_queue_depth->0
            } else if bundle is Some && bundle->0.operator_queue_depth is Some {
                bundle->0.operator_queue_depth->0
            } else {
                1
            })
            &&& r->Ok_0.answer_timeout_secs == (if event_override is Some && event_override->0.answer_timeout_secs is Some {
                event_override->0.answer_timeout_secs->0
            } else if bundle is Some && bundle->0.answer_timeout_secs is Some {
                bundle->0.answer_timeout_secs->0
            } else {
                900
            })
            &&& r->Ok_0.suppression_window_secs == (if event_override is Some && event_override->0.suppression_window_secs is Some {
                event_override->0.suppression_window_secs->0
            } else if bundle is Some && bundle->0.suppression_window_secs is Some {
                bundle->0.suppression_window_secs->0
            } else {
                60
            })
            &&& r->Ok_0.digest_schedule_secs == (if event_override is Some && event_override->0.digest_schedule_secs is Some {
                event_override->0.digest_schedule_secs->0
            } else if bundle is Some && bundle->0.digest_schedule_secs is Some {
                bundle->0.digest_schedule_secs->0
            } else {
                3_600
            })
        },
{
}

/// The defaults and the profiles of this policy are looked up in its own
/// section of the harness file, and a profile there before the built-in one.
pub proof fn law_own_section_is_read<
    D: Fn(&Json) -> Result<PartialOperatorQueuePolicy, String>,
    E: Fn(&Json) -> Result<StringMap<PartialOperatorQueuePolicy>, String>,
>(
    source: &PolicyConfigSource,
    file: &HarnessText,
    decode: D,
    decode_profiles: E,
    means: spec_fn(JsonView) -> Result<PartialOperatorQueuePolicy, String>,
    profiles_mean: spec_fn(JsonView) -> Result<StringMap<PartialOperatorQueuePolicy>, String>,
    name: Option<&str>,
    bundle: Option<PartialOperatorQueuePolicy>,
    key: &str,
    defaults: Result<Option<PartialOperatorQueuePolicy>, NodeError>,
    profiles: Result<Option<StringMap<PartialOperatorQueuePolicy>>, NodeError>,
    r: Result<Option<PartialOperatorQueuePolicy>, NodeError>,
    s: Result<Option<PartialOperatorQueuePolicy>, NodeError>,
)
    requires
        forall|doc: Json, d: Result<PartialOperatorQueuePolicy, String>| #[trigger]
            decode.ensures((&doc,), d) ==> d == means(doc@),
        forall|doc: Json, d: Result<StringMap<PartialOperatorQueuePolicy>, String>| #[trigger]
            decode_profiles.ensures((&doc,), d) ==> d == profiles_mean(doc@),
        key@ == "operator_queue"@,
        harness::read_harness_policy_defaults_from::<PartialOperatorQueuePolicy, D>.ensures(
            (source, file, key, decode),
            defaults,
        ),
        harness::read_harness_profiles_from::<PartialOperatorQueuePolicy, E>.ensures(
            (source, file, key, decode_profiles),
            profiles,
        ),
        name is Some ==> profile_by_name.ensures((name->0,), bundle),
        read_harness_policy_defaults_from::<D>.ensures((source, file, decode), r),
        resolve_profile_from::<E>.ensures((name, source, file, decode_profiles), s),
    ensures
        r is Ok == defaults is Ok,
        r is Ok ==> r->Ok_0 == defaults->Ok_0,
        name is None ==> s is Ok && s->Ok_0 is None,
        name is Some && profiles is Err ==> s is Err,
        name is Some && profiles is Ok ==> (if profiles->Ok_0 is Some
            && profiles->Ok_0->0@.contains_key(name->0@) {
            s is Ok && s->Ok_0 == Some(profiles->Ok_0->0@[name->0@])
        } else if bundle is Some {
            s is Ok && s->Ok_0 == bundle
        } else {
            s is Err
        }),
{
    if name is Some {
        let h = choose|h: Result<Option<StringMap<PartialOperatorQueuePolicy>>, NodeError>|
            {
                &&& #[trigger] harness::profiles_outcome(*source, *file, key@, decode_profiles, h)
                &&& match h {
                    Err(e) => s is Err && s->Err_0.message@ == e.message@,
                    Ok(Some(m)) if m@.contains_key(name->0@) => s == Ok::<
                        Option<PartialOperatorQueuePolicy>,
                        NodeError,
                    >(Some(m@[name->0@])),
                    _ => harness::builtin_outcome(name->0, key@, profile_by_name, s),
                }
            };
        assert(harness::profiles_outcome(*source, *file, key@, decode_profiles, profiles));
        assert(h is Ok == profiles is Ok);
        assert(h is Ok ==> h->Ok_0 == profiles->Ok_0);
    }
}

} // verus!
