//! The named bundles of this policy's knobs.
use vstd::prelude::*;

use crate::nodes::terminal::held_session;
use crate::nodes::terminal::held_session::{HeldSessionPolicy, PartialHeldSessionPolicy};

verus! {

/// The baseline bundle restates the built-in policy.
pub open spec fn baseline_bundle() -> PartialHeldSessionPolicy {
    PartialHeldSessionPolicy {
        lease_ttl_ms: Some(held_session::builtin().lease_ttl_ms),
        renew_interval_ms: Some(held_session::builtin().renew_interval_ms),
    }
}

/// The bundle that favours cost and latency.
pub open spec fn cheap_fast_bundle() -> PartialHeldSessionPolicy {
    PartialHeldSessionPolicy {
        lease_ttl_ms: Some(60_000),
        renew_interval_ms: Some(20_000),
    }
}

/// The bundle that favours quality.
pub open spec fn thorough_bundle() -> PartialHeldSessionPolicy {
    PartialHeldSessionPolicy {
        lease_ttl_ms: Some(900_000),
        renew_interval_ms: Some(300_000),
    }
}

/// The bundle of a name, if it is one of the three.
pub open spec fn bundle_named(name: Seq<char>) -> Option<PartialHeldSessionPolicy> {
    if name == "baseline"@ {
        Some(baseline_bundle())
    } else if name == "cheap-fast"@ {
        Some(cheap_fast_bundle())
    } else if name == "thorough"@ {
        Some(thorough_bundle())
    } else {
        None
    }
}

/// The built-in policy, restated: selecting it changes nothing.
pub fn baseline() -> (r: PartialHeldSessionPolicy)
    ensures
        r == baseline_bundle(),
{
    let default = HeldSessionPolicy::default();
    PartialHeldSessionPolicy {
        lease_ttl_ms: Some(default.lease_ttl_ms),
        renew_interval_ms: Some(default.renew_interval_ms),
    }
}

/// A short lease, renewed often.
pub fn cheap_fast() -> (r: PartialHeldSessionPolicy)
    ensures
        r == cheap_fast_bundle(),
{
    PartialHeldSessionPolicy {
        lease_ttl_ms: Some(60_000),
        renew_interval_ms: Some(20_000),
    }
}

/// A long lease, renewed rarely.
pub fn thorough() -> (r: PartialHeldSessionPolicy)
    ensures
        r == thorough_bundle(),
{
    PartialHeldSessionPolicy {
        lease_ttl_ms: Some(900_000),
        renew_interval_ms: Some(300_000),
    }
}

/// Look up one of the three names; any other has no bundle.
pub fn profile_by_name(name: &str) -> (r: Option<PartialHeldSessionPolicy>)
    ensures
        r == bundle_named(name@),
{
    if *name == *"baseline" {
        Some(baseline())
    } else if *name == *"cheap-fast" {
        Some(cheap_fast())
    } else if *name == *"thorough" {
        Some(thorough())
    } else {
        None
    }
}

/// There are three named bundles, each with every knob set, and no other name
/// has one.
pub proof fn law_bundles_by_name(name: &str, r: Option<PartialHeldSessionPolicy>)
    requires
        profile_by_name.ensures((name,), r),
    ensures
        name@ == "baseline"@ ==> r == Some(PartialHeldSessionPolicy { lease_ttl_ms: Some(300_000), renew_interval_ms: Some(100_000) }),
        name@ == "cheap-fast"@ ==> r == Some(PartialHeldSessionPolicy { lease_ttl_ms: Some(60_000), renew_interval_ms: Some(20_000) }),
        name@ == "thorough"@ ==> r == Some(PartialHeldSessionPolicy { lease_ttl_ms: Some(900_000), renew_interval_ms: Some(300_000) }),
        name@ != "baseline"@ && name@ != "cheap-fast"@ && name@ != "thorough"@ ==> r is None,
{
    reveal_strlit("baseline");
    reveal_strlit("cheap-fast");
    reveal_strlit("thorough");
    assert("baseline"@.len() == 8);
    assert("cheap-fast"@.len() == 10);
    assert("thorough"@.len() == 8);
    assert("baseline"@[0] != "thorough"@[0]);
}

} // verus!
