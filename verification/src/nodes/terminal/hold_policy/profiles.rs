//! The named bundles of this policy's knobs.
use vstd::prelude::*;

use crate::nodes::terminal::hold_policy;
use crate::nodes::terminal::hold_policy::{HoldPolicy, PartialHoldPolicy};

verus! {

/// The baseline bundle restates the built-in policy.
pub open spec fn baseline_bundle() -> PartialHoldPolicy {
    PartialHoldPolicy {
        grace_ms: Some(hold_policy::builtin().grace_ms),
        steal_after_ms: Some(hold_policy::builtin().steal_after_ms),
    }
}

/// The bundle that favours cost and latency.
pub open spec fn cheap_fast_bundle() -> PartialHoldPolicy {
    PartialHoldPolicy {
        grace_ms: Some(15_000),
        steal_after_ms: Some(Some(15_000u64)),
    }
}

/// The bundle that favours quality.
pub open spec fn thorough_bundle() -> PartialHoldPolicy {
    PartialHoldPolicy {
        grace_ms: Some(300_000),
        steal_after_ms: Some(None::<u64>),
    }
}

/// The bundle of a name, if it is one of the three.
pub open spec fn bundle_named(name: Seq<char>) -> Option<PartialHoldPolicy> {
    if name == "baseline"@ {
        Some(baseline_bundle())
    } else if name == "cheap-fast"@ {
        Some(cheap_fast_bundle())
    } else if name == "thorough"@ {
        Some(thorough_bundle())
    } else {
        None
    }
}

/// The built-in policy, restated: selecting it changes nothing.
pub fn baseline() -> (r: PartialHoldPolicy)
    ensures
        r == baseline_bundle(),
{
    let default = HoldPolicy::default();
    PartialHoldPolicy {
        grace_ms: Some(default.grace_ms),
        steal_after_ms: Some(default.steal_after_ms),
    }
}

/// A short grace and a quick takeover of a stale lease.
pub fn cheap_fast() -> (r: PartialHoldPolicy)
    ensures
        r == cheap_fast_bundle(),
{
    PartialHoldPolicy {
        grace_ms: Some(15_000),
        steal_after_ms: Some(Some(15_000u64)),
    }
}

/// A long grace, and still no takeover.
pub fn thorough() -> (r: PartialHoldPolicy)
    ensures
        r == thorough_bundle(),
{
    PartialHoldPolicy {
        grace_ms: Some(300_000),
        steal_after_ms: Some(None::<u64>),
    }
}

/// Look up one of the three names; any other has no bundle.
pub fn profile_by_name(name: &str) -> (r: Option<PartialHoldPolicy>)
    ensures
        r == bundle_named(name@),
{
    if *name == *"baseline" {
        Some(baseline())
    } else if *name == *"cheap-fast" {
        Some(cheap_fast())
    } else if *name == *"thorough" {
        Some(thorough())
    } else {
        None
    }
}

/// There are three named bundles, each with every knob set, and no other name
/// has one.
pub proof fn law_bundles_by_name(name: &str, r: Option<PartialHoldPolicy>)
    requires
        profile_by_name.ensures((name,), r),
    ensures
        name@ == "baseline"@ ==> r == Some(PartialHoldPolicy { grace_ms: Some(60_000), steal_after_ms: Some(None::<u64>) }),
        name@ == "cheap-fast"@ ==> r == Some(PartialHoldPolicy { grace_ms: Some(15_000), steal_after_ms: Some(Some(15_000u64)) }),
        name@ == "thorough"@ ==> r == Some(PartialHoldPolicy { grace_ms: Some(300_000), steal_after_ms: Some(None::<u64>) }),
        name@ != "baseline"@ && name@ != "cheap-fast"@ && name@ != "thorough"@ ==> r is None,
{
    reveal_strlit("baseline");
    reveal_strlit("cheap-fast");
    reveal_strlit("thorough");
    assert("baseline"@.len() == 8);
    assert("cheap-fast"@.len() == 10);
    assert("thorough"@.len() == 8);
    assert("baseline"@[0] != "thorough"@[0]);
}

} // verus!
