//! Admission control: a bound on how many terminal runs are in flight.
use vstd::prelude::*;

use crate::policy::resolve;
use crate::policy::resolve::{merge_opt, Policy};

pub mod profiles;

verus! {

/// How many terminal runs may be in flight at once.
#[derive(Clone, Copy, Debug, PartialEq, Eq)]
pub struct AdmissionPolicy {
    /// Further runs wait until one of these ends.
    pub max_concurrent_terminal_runs: u32,
}

/// The built-in policy.
pub open spec fn builtin() -> AdmissionPolicy {
    AdmissionPolicy {
        max_concurrent_terminal_runs: 8,
    }
}

impl Default for AdmissionPolicy {
    fn default() -> (r: Self)
        ensures
            r == builtin(),
    {
        AdmissionPolicy {
            max_concurrent_terminal_runs: 8,
        }
    }
}

/// `AdmissionPolicy` with every knob optional.
#[derive(Clone, Copy, Debug, PartialEq, Eq)]
pub struct PartialAdmissionPolicy {
    pub max_concurrent_terminal_runs: Option<u32>,
}

impl Default for PartialAdmissionPolicy {
    fn default() -> (r: Self)
        ensures
            r == (PartialAdmissionPolicy { max_concurrent_terminal_runs: None }),
    {
        PartialAdmissionPolicy { max_concurrent_terminal_runs: None }
    }
}

impl Policy for AdmissionPolicy {
    type Partial = PartialAdmissionPolicy;

    open spec fn applied(self, over: PartialAdmissionPolicy) -> Self {
        AdmissionPolicy {
            max_concurrent_terminal_runs: resolve::merged(self.max_concurrent_terminal_runs, over.max_concurrent_terminal_runs),
        }
    }

    fn apply(self, over: &PartialAdmissionPolicy) -> (r: Self) {
        AdmissionPolicy {
            max_concurrent_terminal_runs: merge_opt(self.max_concurrent_terminal_runs, over.max_concurrent_terminal_runs),
        }
    }
}

/// Resolve the layers: each knob has the event's value, else the profile's,
/// else the harness's, else the built-in one.
pub fn resolve(
    harness_defaults: Option<&PartialAdmissionPolicy>,
    profile: Option<&PartialAdmissionPolicy>,
    event_override: Option<&PartialAdmissionPolicy>,
) -> (r: AdmissionPolicy)
    ensures
        r == resolve::resolved(builtin(), harness_defaults, profile, event_override),
        r.max_concurrent_terminal_runs == resolve::by_precedence(
            resolve::knob(event_override, |l: PartialAdmissionPolicy| l.max_concurrent_terminal_runs),
            resolve::knob(profile, |l: PartialAdmissionPolicy| l.max_concurrent_terminal_runs),
            resolve::knob(harness_defaults, |l: PartialAdmissionPolicy| l.max_concurrent_terminal_runs),
            builtin().max_concurrent_terminal_runs,
        ),
{
    resolve::resolve(AdmissionPolicy::default(), harness_defaults, profile, event_override)
}

/// Selecting the baseline profile changes nothing.
pub proof fn law_baseline_is_no_op()
    ensures
        resolve::resolved(builtin(), None, Some(&profiles::baseline_bundle()), None)
            == resolve::resolved(builtin(), None, None, None),
{
}

impl AdmissionPolicy {
    /// How many slots a control that goes by this policy starts with.
    pub fn permits(&self) -> (r: usize)
        ensures
            r == self.max_concurrent_terminal_runs,
    {
        self.max_concurrent_terminal_runs as usize
    }
}

/// Every knob has the value of the highest layer that sets it: the event's,
/// else the profile's, else the harness's, else the built-in one.
pub proof fn law_every_knob_goes_by_its_highest_layer(
    harness_defaults: Option<&PartialAdmissionPolicy>,
    profile: Option<&PartialAdmissionPolicy>,
    event_override: Option<&PartialAdmissionPolicy>,
    r: AdmissionPolicy,
)
    requires
        resolve.ensures((harness_defaults, profile, event_override), r),
    ensures
        r.max_concurrent_terminal_runs == (if event_override is Some && event_override->0.max_concurrent_terminal_runs is Some {
            event_override->0.max_concurrent_terminal_runs->0
        } else if profile is Some && profile->0.max_concurrent_terminal_runs is Some {
            profile->0.max_concurrent_terminal_runs->0
        } else if harness_defaults is Some && harness_defaults->0.max_concurrent_terminal_runs is Some {
            harness_defaults->0.max_concurrent_terminal_runs->0
        } else {
            8
        }),
{
}

} // verus!
