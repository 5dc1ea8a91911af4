//! Which gated actions each permission profile allows.
use vstd::prelude::*;

verus! {

/// The gated actions of the engine.
#[derive(Clone, Copy, Debug, PartialEq, Eq, Structural)]
pub enum GatedAction {
    /// Closing an operator gate. No profile allows it.
    ClearOperatorGate,
    /// Installing a built binary on the target machine.
    InstallOnMini,
    /// Pushing to `main`.
    PushToMain,
    /// Writing across repositories.
    CrossRepoWrite,
}

/// The permission levels, tightest first.
#[derive(Clone, Copy, Debug, PartialEq, Eq, Structural)]
pub enum PermissionProfile {
    /// No side effect outside the working tree.
    Locked,
    /// Lands changes and pushes, never installs.
    Standard,
    /// Everything but clearing an operator gate.
    Unrestricted,
}

/// The profile a run resolves to when nothing overrides it.
pub const DEFAULT_PROFILE: PermissionProfile = PermissionProfile::Standard;

/// How one action is graded under one profile.
#[derive(Clone, Copy, Debug, PartialEq, Eq, Structural)]
pub enum Decision {
    Permit,
    Deny,
}

/// Whether `profile` allows `action`.
pub open spec fn permits(profile: PermissionProfile, action: GatedAction) -> bool {
    match action {
        GatedAction::ClearOperatorGate => false,
        GatedAction::InstallOnMini => profile == PermissionProfile::Unrestricted,
        GatedAction::PushToMain | GatedAction::CrossRepoWrite => profile
            != PermissionProfile::Locked,
    }
}

/// Grade `action` under `profile`.
pub fn decide(profile: PermissionProfile, action: GatedAction) -> (r: Decision)
    ensures
        r == (if permits(profile, action) {
            Decision::Permit
        } else {
            Decision::Deny
        }),
{
    if matches!(action, GatedAction::ClearOperatorGate) {
        return Decision::Deny;
    }
    match (profile, action) {
        (PermissionProfile::Locked, _) => Decision::Deny,
        (PermissionProfile::Standard, GatedAction::InstallOnMini) => Decision::Deny,
        (PermissionProfile::Standard, _) => Decision::Permit,
        (PermissionProfile::Unrestricted, _) => Decision::Permit,
    }
}

/// Clearing an operator gate is denied at every level.
pub proof fn law_operator_gate_is_never_cleared(profile: PermissionProfile)
    ensures
        !permits(profile, GatedAction::ClearOperatorGate),
{
}

/// How permissive a profile is.
pub open spec fn rank(profile: PermissionProfile) -> int {
    match profile {
        PermissionProfile::Locked => 0,
        PermissionProfile::Standard => 1,
        PermissionProfile::Unrestricted => 2,
    }
}

/// What one profile allows, every more permissive profile allows too.
pub proof fn law_levels_are_ordered(
    tighter: PermissionProfile,
    looser: PermissionProfile,
    action: GatedAction,
)
    requires
        rank(tighter) <= rank(looser),
        permits(tighter, action),
    ensures
        permits(looser, action),
{
}

/// Every action but clearing a gate is graded: the tightest profile denies
/// it and the most permissive one allows it.
pub proof fn law_other_actions_are_graded(action: GatedAction)
    requires
        action != GatedAction::ClearOperatorGate,
    ensures
        !permits(PermissionProfile::Locked, action),
        permits(PermissionProfile::Unrestricted, action),
{
}

/// The default profile is not the most permissive one.
pub proof fn law_default_is_not_most_permissive()
    ensures
        rank(DEFAULT_PROFILE) < rank(PermissionProfile::Unrestricted),
{
}

/// What each profile allows: none lets an operator gate be cleared, the tightest
/// allows nothing, the middle one everything but to install, and the most
/// permissive one everything else.
pub proof fn law_each_profile_allows(profile: PermissionProfile, action: GatedAction, r: Decision)
    requires
        decide.ensures((profile, action), r),
    ensures
        action is ClearOperatorGate ==> r is Deny,
        profile is Locked ==> r is Deny,
        profile is Standard && action is InstallOnMini ==> r is Deny,
        profile is Standard && action is PushToMain ==> r is Permit,
        profile is Standard && action is CrossRepoWrite ==> r is Permit,
        profile is Unrestricted && !(action is ClearOperatorGate) ==> r is Permit,
{
}

} // verus!
