//! Applying a resolved policy to a model node's call settings and prompt.
use vstd::prelude::*;

use crate::config::Config;
use crate::policy::tier;
use crate::policy::tier::{model_tier_to_model_string, ModelTier, OutputVerbosity};
use crate::text;
use crate::text::owned;
use crate::time::Duration;

verus! {

/// The directive that asks for a short answer.
pub const TERSE_DIRECTIVE: &'static str =
    "\n\nBe terse: keep your response as short as possible while still satisfying the request. Target well under 200 output tokens where the task allows it.";

/// The directive that asks for a detailed answer.
pub const VERBOSE_DIRECTIVE: &'static str =
    "\n\nBe thorough: explain your reasoning and any trade-offs in detail before giving the final answer.";

/// Ask for the model of `tier`.
pub fn apply_model_tier(config: Config, tier: ModelTier, family: &str, local_model: &str) -> (r: Config)
    ensures
        r.model is Some,
        r.model->0@ == tier::model_name(tier, family@, local_model@),
        r == (Config { model: r.model, ..config }),
{
    let mut config = config;
    config.model = Some(model_tier_to_model_string(tier, family, local_model));
    config
}

/// When `enabled`, put a stable system prompt that calls can cache against;
/// otherwise leave the settings as they are.
pub fn apply_prompt_cache(config: Config, enabled: bool, stable_system_prompt: &str) -> (r: Config)
    ensures
        r == (Config { system_prompt: r.system_prompt, ..config }),
        if enabled {
            r.system_prompt is Some && r.system_prompt->0@ == stable_system_prompt@
        } else {
            r.system_prompt == config.system_prompt
        },
{
    let mut config = config;
    if enabled {
        config.system_prompt = Some(owned(stable_system_prompt));
    }
    config
}

/// When a timeout is given, bound the whole call by it; otherwise leave the
/// settings as they are.
pub fn apply_call_timeout(config: Config, timeout_secs: Option<u64>) -> (r: Config)
    ensures
        r == (Config { timeout: r.timeout, ..config }),
        match timeout_secs {
            Some(secs) => r.timeout is Some && r.timeout->0.nanos == secs
                * crate::time::NANOS_PER_SEC,
            None => r.timeout == config.timeout,
        },
{
    let mut config = config;
    if let Some(secs) = timeout_secs {
        config.timeout = Some(Duration::from_secs(secs));
    }
    config
}

/// The directive for a verbosity; the normal one has none.
pub open spec fn directive(verbosity: OutputVerbosity) -> Option<Seq<char>> {
    match verbosity {
        OutputVerbosity::Normal => None,
        OutputVerbosity::Terse => Some(TERSE_DIRECTIVE@),
        OutputVerbosity::Verbose => Some(VERBOSE_DIRECTIVE@),
    }
}

/// The prompt directive for a verbosity; the normal one has none.
pub fn verbosity_directive(verbosity: OutputVerbosity) -> (r: Option<&'static str>)
    ensures
        text::opt_str(r) == directive(verbosity),
{
    match verbosity {
        OutputVerbosity::Normal => None,
        OutputVerbosity::Terse => Some(TERSE_DIRECTIVE),
        OutputVerbosity::Verbose => Some(VERBOSE_DIRECTIVE),
    }
}

/// Append the directive for a verbosity, if it has one, to `prompt`.
pub fn apply_verbosity_directive(prompt: String, verbosity: OutputVerbosity) -> (r: String)
    ensures
        r@ == match directive(verbosity) {
            Some(d) => prompt@ + d,
            None => prompt@,
        },
{
    match verbosity_directive(verbosity) {
        Some(d) => prompt.concat(d),
        None => prompt,
    }
}

/// Setting the model, the cached prompt or the time bound sets just that, and
/// the latter two only where they are asked for.
pub proof fn law_settings_are_independent(
    config: Config,
    tier: ModelTier,
    family: &str,
    local_model: &str,
    model: String,
    tiered: Config,
    enabled: bool,
    prompt: &str,
    cached: Config,
    timeout_secs: Option<u64>,
    bounded: Config,
)
    requires
        model_tier_to_model_string.ensures((tier, family, local_model), model),
        apply_model_tier.ensures((config, tier, family, local_model), tiered),
        apply_prompt_cache.ensures((config, enabled, prompt), cached),
        apply_call_timeout.ensures((config, timeout_secs), bounded),
    ensures
        tiered.model is Some && tiered.model->0@ == model@,
        tiered.system_prompt == config.system_prompt && tiered.timeout == config.timeout
            && tiered.continue_session == config.continue_session && tiered.resume == config.resume
            && tiered.json_schema == config.json_schema && tiered.dangerously_skip_permissions
            == config.dangerously_skip_permissions,
        enabled ==> cached.system_prompt is Some && cached.system_prompt->0@ == prompt@,
        !enabled ==> cached.system_prompt == config.system_prompt,
        cached.model == config.model && cached.timeout == config.timeout && cached.continue_session
            == config.continue_session && cached.resume == config.resume && cached.json_schema
            == config.json_schema && cached.dangerously_skip_permissions
            == config.dangerously_skip_permissions,
        timeout_secs is Some ==> bounded.timeout is Some && bounded.timeout->0.nanos
            == timeout_secs->0 * 1_000_000_000,
        timeout_secs is None ==> bounded.timeout == config.timeout,
        bounded.model == config.model && bounded.system_prompt == config.system_prompt
            && bounded.continue_session == config.continue_session && bounded.resume
            == config.resume && bounded.json_schema == config.json_schema
            && bounded.dangerously_skip_permissions == config.dangerously_skip_permissions,
{
}

/// The normal verbosity leaves a prompt as it is; each of the others adds its
/// own directive at the end.
pub proof fn law_directive_follows_the_prompt(
    prompt: String,
    verbosity: OutputVerbosity,
    directive_text: Option<&'static str>,
    r: String,
)
    requires
        verbosity_directive.ensures((verbosity,), directive_text),
        apply_verbosity_directive.ensures((prompt, verbosity), r),
    ensures
        verbosity is Normal ==> directive_text is None && r@ == prompt@,
        verbosity is Terse ==> directive_text is Some && directive_text->0@ == TERSE_DIRECTIVE@
            && r@ == prompt@ + TERSE_DIRECTIVE@,
        verbosity is Verbose ==> directive_text is Some && directive_text->0@ == VERBOSE_DIRECTIVE@
            && r@ == prompt@ + VERBOSE_DIRECTIVE@,
{
}

} // verus!
