//! The named bundles of this policy's knobs.
use vstd::prelude::*;

use crate::nodes::terminal::admission;
use crate::nodes::terminal::admission::{AdmissionPolicy, PartialAdmissionPolicy};

verus! {

/// The baseline bundle restates the built-in policy.
pub open spec fn baseline_bundle() -> PartialAdmissionPolicy {
    PartialAdmissionPolicy {
        max_concurrent_terminal_runs: Some(admission::builtin().max_concurrent_terminal_runs),
    }
}

/// The bundle that favours cost and latency.
pub open spec fn cheap_fast_bundle() -> PartialAdmissionPolicy {
    PartialAdmissionPolicy {
        max_concurrent_terminal_runs: Some(2),
    }
}

/// The bundle that favours quality.
pub open spec fn thorough_bundle() -> PartialAdmissionPolicy {
    PartialAdmissionPolicy {
        max_concurrent_terminal_runs: Some(32),
    }
}

/// The bundle of a name, if it is one of the three.
pub open spec fn bundle_named(name: Seq<char>) -> Option<PartialAdmissionPolicy> {
    if name == "baseline"@ {
        Some(baseline_bundle())
    } else if name == "cheap-fast"@ {
        Some(cheap_fast_bundle())
    } else if name == "thorough"@ {
        Some(thorough_bundle())
    } else {
        None
    }
}

/// The built-in policy, restated: selecting it changes nothing.
pub fn baseline() -> (r: PartialAdmissionPolicy)
    ensures
        r == baseline_bundle(),
{
    let default = AdmissionPolicy::default();
    PartialAdmissionPolicy {
        max_concurrent_terminal_runs: Some(default.max_concurrent_terminal_runs),
    }
}

/// A tight ceiling.
pub fn cheap_fast() -> (r: PartialAdmissionPolicy)
    ensures
        r == cheap_fast_bundle(),
{
    PartialAdmissionPolicy {
        max_concurrent_terminal_runs: Some(2),
    }
}

/// A generous ceiling.
pub fn thorough() -> (r: PartialAdmissionPolicy)
    ensures
        r == thorough_bundle(),
{
    PartialAdmissionPolicy {
        max_concurrent_terminal_runs: Some(32),
    }
}

/// Look up one of the three names; any other has no bundle.
pub fn profile_by_name(name: &str) -> (r: Option<PartialAdmissionPolicy>)
    ensures
        r == bundle_named(name@),
{
    if *name == *"baseline" {
        Some(baseline())
    } else if *name == *"cheap-fast" {
        Some(cheap_fast())
    } else if *name == *"thorough" {
        Some(thorough())
    } else {
        None
    }
}

/// There are three named bundles, each with every knob set, and no other name
/// has one.
pub proof fn law_bundles_by_name(name: &str, r: Option<PartialAdmissionPolicy>)
    requires
        profile_by_name.ensures((name,), r),
    ensures
        name@ == "baseline"@ ==> r == Some(PartialAdmissionPolicy { max_concurrent_terminal_runs: Some(8) }),
        name@ == "cheap-fast"@ ==> r == Some(PartialAdmissionPolicy { max_concurrent_terminal_runs: Some(2) }),
        name@ == "thorough"@ ==> r == Some(PartialAdmissionPolicy { max_concurrent_terminal_runs: Some(32) }),
        name@ != "baseline"@ && name@ != "cheap-fast"@ && name@ != "thorough"@ ==> r is None,
{
    reveal_strlit("baseline");
    reveal_strlit("cheap-fast");
    reveal_strlit("thorough");
    assert("baseline"@.len() == 8);
    assert("cheap-fast"@.len() == 10);
    assert("thorough"@.len() == 8);
    assert("baseline"@[0] != "thorough"@[0]);
}

} // verus!
