//! The named bundles of this policy's knobs.
use vstd::prelude::*;

use crate::nodes::terminal::no_match_alarm;
use crate::nodes::terminal::no_match_alarm::{NoMatchAlarmPolicy, PartialNoMatchAlarmPolicy};

verus! {

/// The baseline bundle restates the built-in policy.
pub open spec fn baseline_bundle() -> PartialNoMatchAlarmPolicy {
    PartialNoMatchAlarmPolicy {
        consecutive_unmatched_threshold: Some(no_match_alarm::builtin().consecutive_unmatched_threshold),
    }
}

/// The bundle that favours cost and latency.
pub open spec fn cheap_fast_bundle() -> PartialNoMatchAlarmPolicy {
    PartialNoMatchAlarmPolicy {
        consecutive_unmatched_threshold: Some(2),
    }
}

/// The bundle that favours quality.
pub open spec fn thorough_bundle() -> PartialNoMatchAlarmPolicy {
    PartialNoMatchAlarmPolicy {
        consecutive_unmatched_threshold: Some(10),
    }
}

/// The bundle of a name, if it is one of the three.
pub open spec fn bundle_named(name: Seq<char>) -> Option<PartialNoMatchAlarmPolicy> {
    if name == "baseline"@ {
        Some(baseline_bundle())
    } else if name == "cheap-fast"@ {
        Some(cheap_fast_bundle())
    } else if name == "thorough"@ {
        Some(thorough_bundle())
    } else {
        None
    }
}

/// The built-in policy, restated: selecting it changes nothing.
pub fn baseline() -> (r: PartialNoMatchAlarmPolicy)
    ensures
        r == baseline_bundle(),
{
    let default = NoMatchAlarmPolicy::default();
    PartialNoMatchAlarmPolicy {
        consecutive_unmatched_threshold: Some(default.consecutive_unmatched_threshold),
    }
}

/// Alarm on a short streak.
pub fn cheap_fast() -> (r: PartialNoMatchAlarmPolicy)
    ensures
        r == cheap_fast_bundle(),
{
    PartialNoMatchAlarmPolicy {
        consecutive_unmatched_threshold: Some(2),
    }
}

/// Alarm on a long streak only.
pub fn thorough() -> (r: PartialNoMatchAlarmPolicy)
    ensures
        r == thorough_bundle(),
{
    PartialNoMatchAlarmPolicy {
        consecutive_unmatched_threshold: Some(10),
    }
}

/// Look up one of the three names; any other has no bundle.
pub fn profile_by_name(name: &str) -> (r: Option<PartialNoMatchAlarmPolicy>)
    ensures
        r == bundle_named(name@),
{
    if *name == *"baseline" {
        Some(baseline())
    } else if *name == *"cheap-fast" {
        Some(cheap_fast())
    } else if *name == *"thorough" {
        Some(thorough())
    } else {
        None
    }
}

/// There are three named bundles, each with every knob set, and no other name
/// has one.
pub proof fn law_bundles_by_name(name: &str, r: Option<PartialNoMatchAlarmPolicy>)
    requires
        profile_by_name.ensures((name,), r),
    ensures
        name@ == "baseline"@ ==> r == Some(PartialNoMatchAlarmPolicy { consecutive_unmatched_threshold: Some(5) }),
        name@ == "cheap-fast"@ ==> r == Some(PartialNoMatchAlarmPolicy { consecutive_unmatched_threshold: Some(2) }),
        name@ == "thorough"@ ==> r == Some(PartialNoMatchAlarmPolicy { consecutive_unmatched_threshold: Some(10) }),
        name@ != "baseline"@ && name@ != "cheap-fast"@ && name@ != "thorough"@ ==> r is None,
{
    reveal_strlit("baseline");
    reveal_strlit("cheap-fast");
    reveal_strlit("thorough");
    assert("baseline"@.len() == 8);
    assert("cheap-fast"@.len() == 10);
    assert("thorough"@.len() == 8);
    assert("baseline"@[0] != "thorough"@[0]);
}

} // verus!
