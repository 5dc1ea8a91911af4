//! The knobs that policies share: backends, tiers, overlays, permissions and
//! the shaping of calls.
use engine_core::config::Config;
use engine_core::policy::agent_backend::AgentBackend;
use engine_core::policy::overlay::{merge_local, merge_opt, Overlay, PartialLocalConfig};
use engine_core::policy::permission::{
    decide, Decision, GatedAction, PermissionProfile, DEFAULT_PROFILE,
};
use engine_core::policy::shaping::{
    apply_call_timeout, apply_model_tier, apply_prompt_cache, apply_verbosity_directive,
    verbosity_directive,
};
use engine_core::policy::tier::{
    model_tier_to_model_string, LocalConfig, ModelTier, OutputVerbosity, PiConfig,
    DEFAULT_PI_TOOLS,
};
use engine_core::time::Duration;

const ALL_PROFILES: [PermissionProfile; 3] = [
    PermissionProfile::Locked,
    PermissionProfile::Standard,
    PermissionProfile::Unrestricted,
];

const ALL_ACTIONS: [GatedAction; 4] = [
    GatedAction::ClearOperatorGate,
    GatedAction::InstallOnMini,
    GatedAction::PushToMain,
    GatedAction::CrossRepoWrite,
];

#[test]
fn default_is_claude_cli() {
    assert_eq!(AgentBackend::default(), AgentBackend::ClaudeCli);
}

#[test]
fn merge_opt_some_wins_over_lower() {
    assert_eq!(merge_opt(5, Some(9)), 9);
}

#[test]
fn merge_opt_none_falls_through_to_lower() {
    assert_eq!(merge_opt(5, None), 5);
}

#[test]
fn local_config_overlay_merges_field_by_field_without_clobbering_untouched_fields() {
    let base = LocalConfig {
        endpoint: "http://localhost:11434".to_string(),
        model: "qwen2.5-coder:7b".to_string(),
        constrained_json: false,
    };
    let over = PartialLocalConfig {
        endpoint: Some("http://localhost:8080".to_string()),
        model: None,
        constrained_json: Some(true),
    };

    let merged = base.clone().overlay(&over);

    assert_eq!(merged.endpoint, "http://localhost:8080");
    assert_eq!(merged.model, base.model);
    assert!(merged.constrained_json);
}

#[test]
fn local_config_overlay_with_all_none_partial_is_a_no_op() {
    let base = LocalConfig::default();
    let over = PartialLocalConfig::default();

    let merged = base.clone().overlay(&over);

    assert_eq!(merged, base);
}

#[test]
fn merge_local_free_function_matches_overlay_trait_impl() {
    let base = LocalConfig::default();
    let over = PartialLocalConfig {
        model: Some("custom-model:1b".to_string()),
        ..Default::default()
    };

    let via_free_fn = merge_local(base.clone(), &over);
    let via_trait = base.overlay(&over);

    assert_eq!(via_free_fn, via_trait);
}

#[test]
fn clear_operator_gate_is_denied_at_every_profile_level() {
    for profile in ALL_PROFILES {
        assert_eq!(
            decide(profile, GatedAction::ClearOperatorGate),
            Decision::Deny,
            "clear-operator-gate must be denied at profile {profile:?}"
        );
    }
}

#[test]
fn decision_matrix_matches_docs_permission_profiles_grading_table() {

    let expected: [(PermissionProfile, GatedAction, Decision); 12] = [
        (PermissionProfile::Locked, GatedAction::ClearOperatorGate, Decision::Deny),
        (PermissionProfile::Locked, GatedAction::InstallOnMini, Decision::Deny),
        (PermissionProfile::Locked, GatedAction::PushToMain, Decision::Deny),
        (PermissionProfile::Locked, GatedAction::CrossRepoWrite, Decision::Deny),
        (PermissionProfile::Standard, GatedAction::ClearOperatorGate, Decision::Deny),
        (PermissionProfile::Standard, GatedAction::InstallOnMini, Decision::Deny),
        (PermissionProfile::Standard, GatedAction::PushToMain, Decision::Permit),
        (PermissionProfile::Standard, GatedAction::CrossRepoWrite, Decision::Permit),
        (PermissionProfile::Unrestricted, GatedAction::ClearOperatorGate, Decision::Deny),
        (PermissionProfile::Unrestricted, GatedAction::InstallOnMini, Decision::Permit),
        (PermissionProfile::Unrestricted, GatedAction::PushToMain, Decision::Permit),
        (PermissionProfile::Unrestricted, GatedAction::CrossRepoWrite, Decision::Permit),
    ];

    for (profile, action, want) in expected {
        assert_eq!(
            decide(profile, action),
            want,
            "mismatch at (profile={profile:?}, action={action:?}): expected {want:?}"
        );
    }

    assert_eq!(expected.len(), ALL_PROFILES.len() * ALL_ACTIONS.len());
}

#[test]
fn default_profile_is_not_most_permissive() {
    assert_ne!(
        DEFAULT_PROFILE,
        PermissionProfile::Unrestricted,
        "the default must never be the most permissive profile"
    );
    assert_eq!(
        DEFAULT_PROFILE,
        PermissionProfile::Standard,
        "the default is the standard profile"
    );
}

#[test]
fn each_graded_action_has_both_a_permit_and_a_deny_profile() {
    for action in [
        GatedAction::InstallOnMini,
        GatedAction::PushToMain,
        GatedAction::CrossRepoWrite,
    ] {
        let mut saw_permit = false;
        let mut saw_deny = false;
        for profile in ALL_PROFILES {
            match decide(profile, action) {
                Decision::Permit => saw_permit = true,
                Decision::Deny => saw_deny = true,
            }
        }
        assert!(
            saw_permit,
            "{action:?} must be permitted at at least one profile"
        );
        assert!(
            saw_deny,
            "{action:?} must be denied at at least one profile"
        );
    }
}

#[test]
fn clear_operator_gate_is_never_permitted_anywhere_not_graded() {
    for profile in ALL_PROFILES {
        assert_eq!(
            decide(profile, GatedAction::ClearOperatorGate),
            Decision::Deny
        );
    }
}

#[test]
fn decide_match_is_exercised_over_every_action_variant() {
    for action in ALL_ACTIONS {
        for profile in ALL_PROFILES {
            let _ = decide(profile, action);
        }
    }
}

#[test]
fn apply_model_tier_sets_config_model() {
    let config = apply_model_tier(Config::default(), ModelTier::Haiku, "family", "qwen2.5-coder:7b");
    assert_eq!(config.model.as_deref(), Some("family-haiku-4-5"));
}

#[test]
fn apply_model_tier_local_uses_local_model_name() {
    let config = apply_model_tier(Config::default(), ModelTier::Local, "family", "qwen2.5-coder:7b");
    assert_eq!(config.model.as_deref(), Some("qwen2.5-coder:7b"));
}

#[test]
fn apply_prompt_cache_sets_system_prompt_when_enabled() {
    let config = apply_prompt_cache(Config::default(), true, "stable prefix");
    assert_eq!(config.system_prompt.as_deref(), Some("stable prefix"));
}

#[test]
fn apply_prompt_cache_is_noop_when_disabled() {
    let config = apply_prompt_cache(Config::default(), false, "stable prefix");
    assert_eq!(config.system_prompt, None);
}

#[test]
fn apply_call_timeout_is_noop_when_none() {
    let config = apply_call_timeout(Config::default(), None);
    assert_eq!(config.timeout, None);
}

#[test]
fn apply_call_timeout_sets_duration_when_some() {
    let config = apply_call_timeout(Config::default(), Some(30));
    assert_eq!(config.timeout, Some(Duration::from_secs(30)));
}

#[test]
fn apply_call_timeout_none_leaves_a_preexisting_timeout_alone() {
    let base = Config {
        timeout: Some(Duration::from_secs(45)),
        ..Config::default()
    };
    let config = apply_call_timeout(base, None);
    assert_eq!(config.timeout, Some(Duration::from_secs(45)));
}

#[test]
fn verbosity_directive_normal_is_none() {
    assert_eq!(verbosity_directive(OutputVerbosity::Normal), None);
}

#[test]
fn verbosity_directive_terse_and_verbose_are_some_and_distinct() {
    let terse = verbosity_directive(OutputVerbosity::Terse).unwrap();
    let verbose = verbosity_directive(OutputVerbosity::Verbose).unwrap();
    assert_ne!(terse, verbose);
}

#[test]
fn apply_verbosity_directive_appends_to_prompt() {
    let prompt = apply_verbosity_directive("base prompt".to_string(), OutputVerbosity::Terse);
    assert!(prompt.starts_with("base prompt"));
    assert!(prompt.contains("Be terse"));
}

#[test]
fn apply_verbosity_directive_normal_leaves_prompt_unchanged() {
    let prompt = apply_verbosity_directive("base prompt".to_string(), OutputVerbosity::Normal);
    assert_eq!(prompt, "base prompt");
}

#[test]
fn maps_each_tier_to_its_model_string() {
    let local = LocalConfig::default();
    assert_eq!(
        model_tier_to_model_string(ModelTier::Sonnet, "family", &local.model),
        "family-sonnet-4-5"
    );
    assert_eq!(
        model_tier_to_model_string(ModelTier::Haiku, "family", &local.model),
        "family-haiku-4-5"
    );
    assert_eq!(
        model_tier_to_model_string(ModelTier::Opus, "family", &local.model),
        "family-opus-4-8"
    );
    assert_eq!(
        model_tier_to_model_string(ModelTier::Local, "family", &local.model),
        "qwen2.5:7b-instruct"
    );
}

#[test]
fn local_tier_uses_supplied_local_model_name() {
    assert_eq!(
        model_tier_to_model_string(ModelTier::Local, "family", "custom-model:1b"),
        "custom-model:1b"
    );
}

#[test]
fn output_verbosity_default_is_normal() {
    assert_eq!(OutputVerbosity::default(), OutputVerbosity::Normal);
}

#[test]
fn model_tier_default_is_sonnet() {
    assert_eq!(ModelTier::default(), ModelTier::Sonnet);
}

#[test]
fn local_config_default_matches_pre_hoist_baseline() {
    let local = LocalConfig::default();
    assert_eq!(local.endpoint, "http://localhost:11434");
    assert_eq!(local.model, "qwen2.5:7b-instruct");
    assert!(!local.constrained_json);
}

#[test]
fn pi_config_default_fixes_the_verified_context_leak_and_scopes_tools() {
    let pi = PiConfig::default();
    assert!(pi.no_context_files);
    assert!(pi.no_session);
    assert_eq!(
        pi.tools,
        DEFAULT_PI_TOOLS
            .iter()
            .map(|s| (*s).to_string())
            .collect::<Vec<_>>()
    );
    for excluded in ["web_search", "ask", "submit_plan", "jobs", "hub"] {
        assert!(
            !pi.tools.iter().any(|t| t == excluded),
            "default PiConfig::tools must exclude `{excluded}`: {:?}",
            pi.tools
        );
    }
}
