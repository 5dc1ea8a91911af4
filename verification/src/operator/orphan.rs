//! The policy for runs left behind by a dead process.
use vstd::prelude::*;

use crate::json;
use crate::json::{Json, JsonView};
use crate::node::NodeError;
use crate::policy::profiles as harness;
use crate::policy::profiles::{HarnessText, PolicyConfigSource};
use crate::policy::resolve;
use crate::policy::resolve::{merge_opt, Policy};
use crate::string_map::StringMap;

verus! {

/// The priority of an item that can wait.
pub const LOW_PRIORITY: i32 = -5;

/// The priority of an item that should come early.
pub const HIGH_PRIORITY: i32 = 5;

/// How runs left behind by a dead process are treated.
#[derive(Clone, Copy, Debug, PartialEq, Eq)]
pub struct OrphanPolicy {
    /// Whether the boot sweep reconciles them.
    pub reconcile_on_boot: bool,
    /// Seconds without progress after which a run is stale.
    pub stale_run_alarm_secs: u64,
    /// The priority of the operator item for one.
    pub orphan_item_priority: i32,
    /// How many runs one sweep looks at.
    pub orphan_scan_limit: i64,
}

/// The built-in policy.
pub open spec fn builtin() -> OrphanPolicy {
    OrphanPolicy {
        reconcile_on_boot: true,
        stale_run_alarm_secs: 3600,
        orphan_item_priority: 0,
        orphan_scan_limit: 200,
    }
}

impl Default for OrphanPolicy {
    fn default() -> (r: Self)
        ensures
            r == builtin(),
    {
        OrphanPolicy {
            reconcile_on_boot: true,
            stale_run_alarm_secs: 3600,
            orphan_item_priority: 0,
            orphan_scan_limit: 200,
        }
    }
}

/// `OrphanPolicy` with every knob optional.
#[derive(Clone, Copy, Debug, PartialEq, Eq)]
pub struct PartialOrphanPolicy {
    pub reconcile_on_boot: Option<bool>,
    pub stale_run_alarm_secs: Option<u64>,
    pub orphan_item_priority: Option<i32>,
    pub orphan_scan_limit: Option<i64>,
}

impl Default for PartialOrphanPolicy {
    fn default() -> (r: Self)
        ensures
            r == (PartialOrphanPolicy { reconcile_on_boot: None, stale_run_alarm_secs: None, orphan_item_priority: None, orphan_scan_limit: None }),
    {
        PartialOrphanPolicy { reconcile_on_boot: None, stale_run_alarm_secs: None, orphan_item_priority: None, orphan_scan_limit: None }
    }
}

impl Policy for OrphanPolicy {
    type Partial = PartialOrphanPolicy;

    open spec fn applied(self, over: PartialOrphanPolicy) -> Self {
        OrphanPolicy {
            reconcile_on_boot: resolve::merged(self.reconcile_on_boot, over.reconcile_on_boot),
            stale_run_alarm_secs: resolve::merged(self.stale_run_alarm_secs, over.stale_run_alarm_secs),
            orphan_item_priority: resolve::merged(self.orphan_item_priority, over.orphan_item_priority),
            orphan_scan_limit: resolve::merged(self.orphan_scan_limit, over.orphan_scan_limit),
        }
    }

    fn apply(self, over: &PartialOrphanPolicy) -> (r: Self) {
        OrphanPolicy {
            reconcile_on_boot: merge_opt(self.reconcile_on_boot, over.reconcile_on_boot),
            stale_run_alarm_secs: merge_opt(self.stale_run_alarm_secs, over.stale_run_alarm_secs),
            orphan_item_priority: merge_opt(self.orphan_item_priority, over.orphan_item_priority),
            orphan_scan_limit: merge_opt(self.orphan_scan_limit, over.orphan_scan_limit),
        }
    }
}

/// Each knob of the resolved policy has the event's value, else the profile's,
/// else the harness's, else the built-in one.
pub proof fn law_precedence(
    harness_defaults: Option<&PartialOrphanPolicy>,
    profile: Option<&PartialOrphanPolicy>,
    event_override: Option<&PartialOrphanPolicy>,
    r: OrphanPolicy,
)
    requires
        r == resolve::resolved(builtin(), harness_defaults, profile, event_override),
    ensures
        r.reconcile_on_boot == resolve::by_precedence(
            resolve::knob(event_override, |l: PartialOrphanPolicy| l.reconcile_on_boot),
            resolve::knob(profile, |l: PartialOrphanPolicy| l.reconcile_on_boot),
            resolve::knob(harness_defaults, |l: PartialOrphanPolicy| l.reconcile_on_boot),
            builtin().reconcile_on_boot,
        ),
        r.stale_run_alarm_secs == resolve::by_precedence(
            resolve::knob(event_override, |l: PartialOrphanPolicy| l.stale_run_alarm_secs),
            resolve::knob(profile, |l: PartialOrphanPolicy| l.stale_run_alarm_secs),
            resolve::knob(harness_defaults, |l: PartialOrphanPolicy| l.stale_run_alarm_secs),
            builtin().stale_run_alarm_secs,
        ),
        r.orphan_item_priority == resolve::by_precedence(
            resolve::knob(event_override, |l: PartialOrphanPolicy| l.orphan_item_priority),
            resolve::knob(profile, |l: PartialOrphanPolicy| l.orphan_item_priority),
            resolve::knob(harness_defaults, |l: PartialOrphanPolicy| l.orphan_item_priority),
            builtin().orphan_item_priority,
        ),
        r.orphan_scan_limit == resolve::by_precedence(
            resolve::knob(event_override, |l: PartialOrphanPolicy| l.orphan_scan_limit),
            resolve::knob(profile, |l: PartialOrphanPolicy| l.orphan_scan_limit),
            resolve::knob(harness_defaults, |l: PartialOrphanPolicy| l.orphan_scan_limit),
            builtin().orphan_scan_limit,
        ),
{
}

/// Selecting the baseline profile changes nothing.
pub proof fn law_baseline_is_no_op()
    ensures
        resolve::resolved(builtin(), None, Some(&baseline_bundle()), None)
            == resolve::resolved(builtin(), None, None, None),
{
}

/// The baseline bundle restates the built-in policy.
pub open spec fn baseline_bundle() -> PartialOrphanPolicy {
    PartialOrphanPolicy {
        reconcile_on_boot: Some(builtin().reconcile_on_boot),
        stale_run_alarm_secs: Some(builtin().stale_run_alarm_secs),
        orphan_item_priority: Some(builtin().orphan_item_priority),
        orphan_scan_limit: Some(builtin().orphan_scan_limit),
    }
}

/// The bundle that favours cost and latency.
pub open spec fn cheap_fast_bundle() -> PartialOrphanPolicy {
    PartialOrphanPolicy {
        reconcile_on_boot: Some(true),
        stale_run_alarm_secs: Some(1800),
        orphan_item_priority: Some(LOW_PRIORITY),
        orphan_scan_limit: Some(100),
    }
}

/// The bundle that favours quality.
pub open spec fn thorough_bundle() -> PartialOrphanPolicy {
    PartialOrphanPolicy {
        reconcile_on_boot: Some(true),
        stale_run_alarm_secs: Some(7200),
        orphan_item_priority: Some(HIGH_PRIORITY),
        orphan_scan_limit: Some(500),
    }
}

/// The bundle of a name, if it is one of the three.
pub open spec fn bundle_named(name: Seq<char>) -> Option<PartialOrphanPolicy> {
    if name == "baseline"@ {
        Some(baseline_bundle())
    } else if name == "cheap-fast"@ {
        Some(cheap_fast_bundle())
    } else if name == "thorough"@ {
        Some(thorough_bundle())
    } else {
        None
    }
}

/// The built-in policy, restated: selecting it changes nothing.
pub fn baseline() -> (r: PartialOrphanPolicy)
    ensures
        r == baseline_bundle(),
{
    let default = OrphanPolicy::default();
    PartialOrphanPolicy {
        reconcile_on_boot: Some(default.reconcile_on_boot),
        stale_run_alarm_secs: Some(default.stale_run_alarm_secs),
        orphan_item_priority: Some(default.orphan_item_priority),
        orphan_scan_limit: Some(default.orphan_scan_limit),
    }
}

/// A tighter alarm, a lower priority and a smaller sweep.
pub fn cheap_fast() -> (r: PartialOrphanPolicy)
    ensures
        r == cheap_fast_bundle(),
{
    PartialOrphanPolicy {
        reconcile_on_boot: Some(true),
        stale_run_alarm_secs: Some(1800),
        orphan_item_priority: Some(LOW_PRIORITY),
        orphan_scan_limit: Some(100),
    }
}

/// A patient alarm, a higher priority and a larger sweep.
pub fn thorough() -> (r: PartialOrphanPolicy)
    ensures
        r == thorough_bundle(),
{
    PartialOrphanPolicy {
        reconcile_on_boot: Some(true),
        stale_run_alarm_secs: Some(7200),
        orphan_item_priority: Some(HIGH_PRIORITY),
        orphan_scan_limit: Some(500),
    }
}

/// Look up one of the three names; any other has no bundle.
pub fn profile_by_name(name: &str) -> (r: Option<PartialOrphanPolicy>)
    ensures
        r == bundle_named(name@),
{
    if *name == *"baseline" {
        Some(baseline())
    } else if *name == *"cheap-fast" {
        Some(cheap_fast())
    } else if *name == *"thorough" {
        Some(thorough())
    } else {
        None
    }
}

/// The harness section this policy's knobs live under.
pub const WORKFLOW_KEY: &'static str = "orphan_recovery";

/// Read this policy's defaults out of what a source holds.
pub fn read_harness_policy_defaults_from<D: Fn(&Json) -> Result<PartialOrphanPolicy, String>>(
    source: &PolicyConfigSource,
    file: &HarnessText,
    decode: D,
) -> (r: Result<Option<PartialOrphanPolicy>, NodeError>)
    requires
        forall|doc: &Json| decode.requires((doc,)),
    ensures
        harness::defaults_outcome(*source, *file, WORKFLOW_KEY@, decode, r),
{
    harness::read_harness_policy_defaults_from(source, file, WORKFLOW_KEY, decode)
}

/// Resolve a profile name, preferring the harness's profile of that name to
/// the built-in one.
pub fn resolve_profile_from<D: Fn(&Json) -> Result<StringMap<PartialOrphanPolicy>, String>>(
    profile_name: Option<&str>,
    source: &PolicyConfigSource,
    file: &HarnessText,
    decode: D,
) -> (r: Result<Option<PartialOrphanPolicy>, NodeError>)
    requires
        forall|doc: &Json| decode.requires((doc,)),
    ensures
        harness::profile_outcome(
            profile_name,
            *source,
            *file,
            WORKFLOW_KEY@,
            decode,
            profile_by_name,
            r,
        ),
{
    harness::resolve_profile_from(profile_name, source, file, WORKFLOW_KEY, decode, profile_by_name)
}

/// Resolve the policy of a run from what a source holds, a profile name and
/// the event's override.
pub fn resolve_policy_for_run_from<
    D: Fn(&Json) -> Result<PartialOrphanPolicy, String>,
    E: Fn(&Json) -> Result<StringMap<PartialOrphanPolicy>, String>,
>(
    source: &PolicyConfigSource,
    file: &HarnessText,
    profile_name: Option<&str>,
    event_override: Option<&PartialOrphanPolicy>,
    decode: D,
    decode_profiles: E,
) -> (r: Result<OrphanPolicy, NodeError>)
    requires
        forall|doc: &Json| decode.requires((doc,)),
        forall|doc: &Json| decode_profiles.requires((doc,)),
    ensures
        harness::run_outcome(
            builtin(),
            *source,
            *file,
            WORKFLOW_KEY@,
            profile_name,
            event_override,
            decode,
            decode_profiles,
            profile_by_name,
            r,
        ),
        *source is Builtin ==> match profile_name {
            None => r == Ok::<OrphanPolicy, NodeError>(
                resolve::resolved(builtin(), None, None, event_override),
            ),
            Some(name) => match bundle_named(name@) {
                Some(bundle) => r == Ok::<OrphanPolicy, NodeError>(
                    resolve::resolved(builtin(), None, Some(&bundle), event_override),
                ),
                None => r is Err && r->Err_0.message@ == harness::unknown_profile(
                    name@,
                    WORKFLOW_KEY@,
                ),
            },
        },
{
    harness::resolve_run(
        OrphanPolicy::default(),
        source,
        file,
        WORKFLOW_KEY,
        profile_name,
        event_override,
        decode,
        decode_profiles,
        profile_by_name,
    )
}

/// The document of a resolved policy.
pub open spec fn policy_document(policy: OrphanPolicy) -> JsonView {
    JsonView::Object(
        json::json_object().insert(
            "reconcile_on_boot"@,
            JsonView::Bool(policy.reconcile_on_boot),
        ).insert("stale_run_alarm_secs"@, json::json_u64(policy.stale_run_alarm_secs)).insert(
            "orphan_item_priority"@,
            json::json_i64(policy.orphan_item_priority as i64),
        ).insert("orphan_scan_limit"@, json::json_i64(policy.orphan_scan_limit)),
    )
}

/// The resolved policy as a document to stamp.
pub fn policy_state(policy: &OrphanPolicy) -> (r: Json)
    ensures
        r@ == policy_document(*policy),
{
    Json::object().with("reconcile_on_boot", Json::Bool(policy.reconcile_on_boot)).with(
        "stale_run_alarm_secs",
        Json::uint(policy.stale_run_alarm_secs),
    ).with("orphan_item_priority", Json::sint(policy.orphan_item_priority as i64)).with(
        "orphan_scan_limit",
        Json::sint(policy.orphan_scan_limit),
    )
}

/// There are three named bundles, each with every knob set, and no other name
/// has one.
pub proof fn law_bundles_by_name(name: &str, r: Option<PartialOrphanPolicy>)
    requires
        profile_by_name.ensures((name,), r),
    ensures
        name@ == "baseline"@ ==> r == Some(PartialOrphanPolicy { reconcile_on_boot: Some(true), stale_run_alarm_secs: Some(3_600), orphan_item_priority: Some(0), orphan_scan_limit: Some(200) }),
        name@ == "cheap-fast"@ ==> r == Some(PartialOrphanPolicy { reconcile_on_boot: Some(true), stale_run_alarm_secs: Some(1_800), orphan_item_priority: Some(-5i32), orphan_scan_limit: Some(100) }),
        name@ == "thorough"@ ==> r == Some(PartialOrphanPolicy { reconcile_on_boot: Some(true), stale_run_alarm_secs: Some(7_200), orphan_item_priority: Some(5), orphan_scan_limit: Some(500) }),
        name@ != "baseline"@ && name@ != "cheap-fast"@ && name@ != "thorough"@ ==> r is None,
{
    reveal_strlit("baseline");
    reveal_strlit("cheap-fast");
    reveal_strlit("thorough");
    assert("baseline"@.len() == 8);
    assert("cheap-fast"@.len() == 10);
    assert("thorough"@.len() == 8);
    assert("baseline"@[0] != "thorough"@[0]);
}

/// Without a harness file, a knob has the event's value, else that of the named
/// profile, else the built-in one; a name that no profile has fails.
pub proof fn law_builtin_source_resolves_by_name<
    D: Fn(&Json) -> Result<PartialOrphanPolicy, String>,
    E: Fn(&Json) -> Result<StringMap<PartialOrphanPolicy>, String>,
>(
    file: &HarnessText,
    profile_name: Option<&str>,
    bundle: Option<PartialOrphanPolicy>,
    event_override: Option<&PartialOrphanPolicy>,
    decode: D,
    decode_profiles: E,
    r: Result<OrphanPolicy, NodeError>,
)
    requires
        profile_name is Some ==> profile_by_name.ensures((profile_name->0,), bundle),
        profile_name is None ==> bundle is None,
        resolve_policy_for_run_from::<D, E>.ensures(
            (
                &PolicyConfigSource::Builtin,
                file,
                profile_name,
                event_override,
                decode,
                decode_profiles,
            ),
            r,
        ),
    ensures
        r is Err <==> profile_name is Some && bundle is None,
        r is Ok ==> {
            &&& r->Ok_0.reconcile_on_boot == (if event_override is Some && event_override->0.reconcile_on_boot is Some {
                event_override->0.reconcile_on_boot->0
            } else if bundle is Some && bundle->0.reconcile_on_boot is Some {
                bundle->0.reconcile_on_boot->0
            } else {
                true
            })
            &&& r->Ok_0.stale_run_alarm_secs == (if event_override is Some && event_override->0.stale_run_alarm_secs is Some {
                event_override->0.stale_run_alarm_secs->0
            } else if bundle is Some && bundle->0.stale_run_alarm_secs is Some {
                bundle->0.stale_run_alarm_secs->0
            } else {
                3_600
            })
            &&& r->Ok_0.orphan_item_priority == (if event_override is Some && event_override->0.orphan_item_priority is Some {
                event_override->0.orphan_item_priority->0
            } else if bundle is Some && bundle->0.orphan_item_priority is Some {
                bundle->0.orphan_item_priority->0
            } else {
                0
            })
            &&& r->Ok_0.orphan_scan_limit == (if event_override is Some && event_override->0.orphan_scan_limit is Some {
                event_override->0.orphan_scan_limit->0
            } else if bundle is Some && bundle->0.orphan_scan_limit is Some {
                bundle->0.orphan_scan_limit->0
            } else {
                200
            })
        },
{
}

/// The document of a policy has each knob under its own name.
pub proof fn law_policy_document_has_every_knob(policy: &OrphanPolicy, r: Json)
    requires
        policy_state.ensures((policy,), r),
    ensures
        r@.get("reconcile_on_boot"@) == Some(JsonView::Bool(policy.reconcile_on_boot)),
        r@.get("stale_run_alarm_secs"@) == Some(json::json_u64(policy.stale_run_alarm_secs)),
        r@.get("orphan_item_priority"@) matches Some(n) && n.as_i64() == Some(
            policy.orphan_item_priority as i64,
        ),
        r@.get("orphan_scan_limit"@) matches Some(n) && n.as_i64() == Some(
            policy.orphan_scan_limit,
        ),
{
    reveal_strlit("reconcile_on_boot");
    reveal_strlit("stale_run_alarm_secs");
    reveal_strlit("orphan_item_priority");
    reveal_strlit("orphan_scan_limit");
    assert("reconcile_on_boot"@.len() == 17);
    assert("stale_run_alarm_secs"@.len() == 20);
    assert("orphan_item_priority"@.len() == 20);
    assert("orphan_scan_limit"@.len() == 17);
    assert("reconcile_on_boot"@[0] != "orphan_scan_limit"@[0]);
    assert("stale_run_alarm_secs"@[0] != "orphan_item_priority"@[0]);
}

/// The defaults and the profiles of this policy are looked up in its own
/// section of the harness file, and a profile there before the built-in one.
pub proof fn law_own_section_is_read<
    D: Fn(&Json) -> Result<PartialOrphanPolicy, String>,
    E: Fn(&Json) -> Result<StringMap<PartialOrphanPolicy>, String>,
>(
    source: &PolicyConfigSource,
    file: &HarnessText,
    decode: D,
    decode_profiles: E,
    means: spec_fn(JsonView) -> Result<PartialOrphanPolicy, String>,
    profiles_mean: spec_fn(JsonView) -> Result<StringMap<PartialOrphanPolicy>, String>,
    name: Option<&str>,
    bundle: Option<PartialOrphanPolicy>,
    key: &str,
    defaults: Result<Option<PartialOrphanPolicy>, NodeError>,
    profiles: Result<Option<StringMap<PartialOrphanPolicy>>, NodeError>,
    r: Result<Option<PartialOrphanPolicy>, NodeError>,
    s: Result<Option<PartialOrphanPolicy>, NodeError>,
)
    requires
        forall|doc: Json, d: Result<PartialOrphanPolicy, String>| #[trigger]
            decode.ensures((&doc,), d) ==> d == means(doc@),
        forall|doc: Json, d: Result<StringMap<PartialOrphanPolicy>, String>| #[trigger]
            decode_profiles.ensures((&doc,), d) ==> d == profiles_mean(doc@),
        key@ == "orphan_recovery"@,
        harness::read_harness_policy_defaults_from::<PartialOrphanPolicy, D>.ensures(
            (source, file, key, decode),
            defaults,
        ),
        harness::read_harness_profiles_from::<PartialOrphanPolicy, E>.ensures(
            (source, file, key, decode_profiles),
            profiles,
        ),
        name is Some ==> profile_by_name.ensures((name->0,), bundle),
        read_harness_policy_defaults_from::<D>.ensures((source, file, decode), r),
        resolve_profile_from::<E>.ensures((name, source, file, decode_profiles), s),
    ensures
        r is Ok == defaults is Ok,
        r is Ok ==> r->Ok_0 == defaults->Ok_0,
        name is None ==> s is Ok && s->Ok_0 is None,
        name is Some && profiles is Err ==> s is Err,
        name is Some && profiles is Ok ==> (if profiles->Ok_0 is Some
            && profiles->Ok_0->0@.contains_key(name->0@) {
            s is Ok && s->Ok_0 == Some(profiles->Ok_0->0@[name->0@])
        } else if bundle is Some {
            s is Ok && s->Ok_0 == bundle
        } else {
            s is Err
        }),
{
    if name is Some {
        let h = choose|h: Result<Option<StringMap<PartialOrphanPolicy>>, NodeError>|
            {
                &&& #[trigger] harness::profiles_outcome(*source, *file, key@, decode_profiles, h)
                &&& match h {
                    Err(e) => s is Err && s->Err_0.message@ == e.message@,
                    Ok(Some(m)) if m@.contains_key(name->0@) => s == Ok::<
                        Option<PartialOrphanPolicy>,
                        NodeError,
                    >(Some(m@[name->0@])),
                    _ => harness::builtin_outcome(name->0, key@, profile_by_name, s),
                }
            };
        assert(harness::profiles_outcome(*source, *file, key@, decode_profiles, profiles));
        assert(h is Ok == profiles is Ok);
        assert(h is Ok ==> h->Ok_0 == profiles->Ok_0);
    }
}

} // verus!
