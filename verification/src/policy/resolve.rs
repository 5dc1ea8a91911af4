//! The four layers a run policy is resolved from, lowest first: the built-in
//! value, the harness defaults, a named profile, and the event's override.
use vstd::prelude::*;

verus! {

/// A policy that override layers can be applied to. `Partial` mirrors the
/// policy with every knob optional.
pub trait Policy: Sized {
    type Partial;

    /// This policy with one override layer on top.
    spec fn applied(self, over: Self::Partial) -> Self;

    /// Apply one override layer: a knob the layer sets wins, any other keeps
    /// its value.
    fn apply(self, over: &Self::Partial) -> (r: Self)
        ensures
            r == self.applied(*over),
    ;
}

/// `base` with an optional layer on top.
pub open spec fn layered<P: Policy>(base: P, over: Option<&P::Partial>) -> P {
    match over {
        Some(o) => base.applied(*o),
        None => base,
    }
}

/// The policy that the four layers resolve to.
pub open spec fn resolved<P: Policy>(
    builtin: P,
    harness_defaults: Option<&P::Partial>,
    profile: Option<&P::Partial>,
    event_override: Option<&P::Partial>,
) -> P {
    layered(layered(layered(builtin, harness_defaults), profile), event_override)
}

/// Resolve the four layers: the event's override is applied last, so it has
/// the highest precedence, and the built-in value the lowest.
pub fn resolve<P: Policy>(
    builtin: P,
    harness_defaults: Option<&P::Partial>,
    profile: Option<&P::Partial>,
    event_override: Option<&P::Partial>,
) -> (r: P)
    ensures
        r == resolved(builtin, harness_defaults, profile, event_override),
{
    let mut current = builtin;
    if let Some(harness) = harness_defaults {
        current = current.apply(harness);
    }
    if let Some(named) = profile {
        current = current.apply(named);
    }
    if let Some(event) = event_override {
        current = current.apply(event);
    }
    current
}

/// The value of a knob that a layer may set.
pub open spec fn merged<T>(lower: T, higher: Option<T>) -> T {
    match higher {
        Some(v) => v,
        None => lower,
    }
}

/// `higher` when it is present, `lower` otherwise.
pub fn merge_opt<T>(lower: T, higher: Option<T>) -> (r: T)
    ensures
        r == merged(lower, higher),
{
    higher.unwrap_or(lower)
}

/// What an optional layer sets a knob to.
pub open spec fn knob<L, T>(layer: Option<&L>, read: spec_fn(L) -> Option<T>) -> Option<T> {
    match layer {
        Some(l) => read(*l),
        None => None,
    }
}

/// The value of a knob by precedence: the event's, else the profile's, else
/// the harness's, else the built-in one.
pub open spec fn by_precedence<T>(
    event: Option<T>,
    profile: Option<T>,
    harness: Option<T>,
    builtin: T,
) -> T {
    match event {
        Some(v) => v,
        None => match profile {
            Some(v) => v,
            None => match harness {
                Some(v) => v,
                None => builtin,
            },
        },
    }
}

/// With no override layer at all, a policy resolves to its built-in value.
pub proof fn law_no_layers_is_builtin<P: Policy>(builtin: P)
    ensures
        resolved(builtin, None, None, None) == builtin,
{
}

/// Each layer is applied over what the layers below it resolve to: the event's
/// override over the profile, the profile over the harness's defaults, and
/// these over the built-in value. A layer that is not there changes nothing.
pub proof fn law_layers_are_applied_in_order<P: Policy>(
    builtin: P,
    harness: Option<&P::Partial>,
    profile: Option<&P::Partial>,
    event: Option<&P::Partial>,
    bare: P,
    with_harness: P,
    with_profile: P,
    r: P,
)
    requires
        resolve::<P>.ensures((builtin, None, None, None), bare),
        resolve::<P>.ensures((builtin, harness, None, None), with_harness),
        resolve::<P>.ensures((builtin, harness, profile, None), with_profile),
        resolve::<P>.ensures((builtin, harness, profile, event), r),
    ensures
        bare == builtin,
        with_harness == match harness {
            Some(over) => builtin.applied(*over),
            None => builtin,
        },
        with_profile == match profile {
            Some(over) => with_harness.applied(*over),
            None => with_harness,
        },
        r == match event {
            Some(over) => with_profile.applied(*over),
            None => with_profile,
        },
{
}

/// A knob that a layer sets has the layer's value, and any other keeps its own.
pub proof fn law_set_knob_wins<T>(lower: T, higher: Option<T>, r: T)
    requires
        merge_opt::<T>.ensures((lower, higher), r),
    ensures
        higher is Some ==> r == higher->0,
        higher is None ==> r == lower,
{
}

} // verus!
