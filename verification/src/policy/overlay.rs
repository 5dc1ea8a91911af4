//! Merging an all-optional mirror of a type onto a base value, knob by knob.
use vstd::prelude::*;

use crate::policy::resolve;
use crate::policy::tier::LocalConfig;

verus! {

/// A type with an all-optional mirror that can be merged onto it.
pub trait Overlay: Sized {
    type Partial;

    /// Whether `r` is this value with `over` merged onto it.
    spec fn overlaid(self, over: Self::Partial, r: Self) -> bool;

    /// Merge one override layer: a knob the layer sets wins, any other keeps
    /// its value.
    fn overlay(self, over: &Self::Partial) -> (r: Self)
        ensures
            self.overlaid(*over, r),
    ;
}

/// `higher` when it is present, `lower` otherwise.
pub fn merge_opt<T>(lower: T, higher: Option<T>) -> (r: T)
    ensures
        r == resolve::merged(lower, higher),
{
    higher.unwrap_or(lower)
}

/// `LocalConfig` with every knob optional.
#[derive(Clone, Debug, PartialEq, Eq)]
pub struct PartialLocalConfig {
    pub endpoint: Option<String>,
    pub model: Option<String>,
    pub constrained_json: Option<bool>,
}

impl Default for PartialLocalConfig {
    fn default() -> (r: Self)
        ensures
            r == (PartialLocalConfig { endpoint: None, model: None, constrained_json: None }),
    {
        PartialLocalConfig { endpoint: None, model: None, constrained_json: None }
    }
}

/// `base` with the knobs that `over` sets.
pub open spec fn local_merged(base: LocalConfig, over: PartialLocalConfig) -> LocalConfig {
    LocalConfig {
        endpoint: resolve::merged(base.endpoint, over.endpoint),
        model: resolve::merged(base.model, over.model),
        constrained_json: resolve::merged(base.constrained_json, over.constrained_json),
    }
}

/// Merge `over` onto `base`, knob by knob.
pub fn merge_local(base: LocalConfig, over: &PartialLocalConfig) -> (r: LocalConfig)
    ensures
        r == local_merged(base, *over),
{
    let mut base = base;
    if let Some(v) = &over.endpoint {
        base.endpoint = v.clone();
    }
    if let Some(v) = &over.model {
        base.model = v.clone();
    }
    if let Some(v) = over.constrained_json {
        base.constrained_json = v;
    }
    base
}

impl Overlay for LocalConfig {
    type Partial = PartialLocalConfig;

    open spec fn overlaid(self, over: PartialLocalConfig, r: Self) -> bool {
        r == local_merged(self, over)
    }

    fn overlay(self, over: &PartialLocalConfig) -> (r: Self) {
        merge_local(self, over)
    }
}

/// A layer that sets nothing changes nothing.
pub proof fn law_empty_overlay_is_identity(base: LocalConfig)
    ensures
        local_merged(
            base,
            PartialLocalConfig { endpoint: None, model: None, constrained_json: None },
        ) == base,
{
}

/// Each knob that the layer sets has the layer's value, and any other keeps its
/// own, by either way to merge.
pub proof fn law_each_knob_is_merged_on_its_own(
    base: LocalConfig,
    over: &PartialLocalConfig,
    r: LocalConfig,
    lower: bool,
    higher: Option<bool>,
    one: bool,
)
    requires
        merge_local.ensures((base, over), r),
        merge_opt::<bool>.ensures((lower, higher), one),
    ensures
        r.endpoint@ == (if over.endpoint is Some {
            over.endpoint->0@
        } else {
            base.endpoint@
        }),
        r.model@ == (if over.model is Some {
            over.model->0@
        } else {
            base.model@
        }),
        r.constrained_json == (if over.constrained_json is Some {
            over.constrained_json->0
        } else {
            base.constrained_json
        }),
        one == (if higher is Some {
            higher->0
        } else {
            lower
        }),
{
}

/// Merging through the trait is merging.
pub proof fn law_overlay_is_the_merge(
    base: LocalConfig,
    over: &PartialLocalConfig,
    r: LocalConfig,
    s: LocalConfig,
)
    requires
        merge_local.ensures((base, over), r),
        <LocalConfig as Overlay>::overlay.ensures((base, over), s),
    ensures
        r == s,
{
}

} // verus!
