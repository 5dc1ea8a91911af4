//! The named bundles of this policy's knobs.
use vstd::prelude::*;

use crate::nodes::terminal::await_node;
use crate::nodes::terminal::await_node::{AwaitPolicy, PartialAwaitPolicy};

verus! {

/// The baseline bundle restates the built-in policy.
pub open spec fn baseline_bundle() -> PartialAwaitPolicy {
    PartialAwaitPolicy {
        poll_interval_ms: Some(await_node::builtin().poll_interval_ms),
        timeout_ms: Some(await_node::builtin().timeout_ms),
    }
}

/// The bundle that favours cost and latency.
pub open spec fn cheap_fast_bundle() -> PartialAwaitPolicy {
    PartialAwaitPolicy {
        poll_interval_ms: Some(2_000),
        timeout_ms: Some(120_000),
    }
}

/// The bundle that favours quality.
pub open spec fn thorough_bundle() -> PartialAwaitPolicy {
    PartialAwaitPolicy {
        poll_interval_ms: Some(500),
        timeout_ms: Some(1_800_000),
    }
}

/// The bundle of a name, if it is one of the three.
pub open spec fn bundle_named(name: Seq<char>) -> Option<PartialAwaitPolicy> {
    if name == "baseline"@ {
        Some(baseline_bundle())
    } else if name == "cheap-fast"@ {
        Some(cheap_fast_bundle())
    } else if name == "thorough"@ {
        Some(thorough_bundle())
    } else {
        None
    }
}

/// The built-in policy, restated: selecting it changes nothing.
pub fn baseline() -> (r: PartialAwaitPolicy)
    ensures
        r == baseline_bundle(),
{
    let default = AwaitPolicy::default();
    PartialAwaitPolicy {
        poll_interval_ms: Some(default.poll_interval_ms),
        timeout_ms: Some(default.timeout_ms),
    }
}

/// Fewer polls and a short bound.
pub fn cheap_fast() -> (r: PartialAwaitPolicy)
    ensures
        r == cheap_fast_bundle(),
{
    PartialAwaitPolicy {
        poll_interval_ms: Some(2_000),
        timeout_ms: Some(120_000),
    }
}

/// Tighter polling and a long bound, for a slow build.
pub fn thorough() -> (r: PartialAwaitPolicy)
    ensures
        r == thorough_bundle(),
{
    PartialAwaitPolicy {
        poll_interval_ms: Some(500),
        timeout_ms: Some(1_800_000),
    }
}

/// Look up one of the three names; any other has no bundle.
pub fn profile_by_name(name: &str) -> (r: Option<PartialAwaitPolicy>)
    ensures
        r == bundle_named(name@),
{
    if *name == *"baseline" {
        Some(baseline())
    } else if *name == *"cheap-fast" {
        Some(cheap_fast())
    } else if *name == *"thorough" {
        Some(thorough())
    } else {
        None
    }
}

/// There are three named bundles, each with every knob set, and no other name
/// has one.
pub proof fn law_bundles_by_name(name: &str, r: Option<PartialAwaitPolicy>)
    requires
        profile_by_name.ensures((name,), r),
    ensures
        name@ == "baseline"@ ==> r == Some(PartialAwaitPolicy { poll_interval_ms: Some(1_000), timeout_ms: Some(600_000) }),
        name@ == "cheap-fast"@ ==> r == Some(PartialAwaitPolicy { poll_interval_ms: Some(2_000), timeout_ms: Some(120_000) }),
        name@ == "thorough"@ ==> r == Some(PartialAwaitPolicy { poll_interval_ms: Some(500), timeout_ms: Some(1_800_000) }),
        name@ != "baseline"@ && name@ != "cheap-fast"@ && name@ != "thorough"@ ==> r is None,
{
    reveal_strlit("baseline");
    reveal_strlit("cheap-fast");
    reveal_strlit("thorough");
    assert("baseline"@.len() == 8);
    assert("cheap-fast"@.len() == 10);
    assert("thorough"@.len() == 8);
    assert("baseline"@[0] != "thorough"@[0]);
}

} // verus!
