//! The settings of one call of the coding agent.
use vstd::prelude::*;

use crate::json::Json;
use crate::time::Duration;

verus! {

/// What a call of the coding agent is configured with.
#[derive(Debug, PartialEq, Eq)]
pub struct Config {
    /// The model to ask for.
    pub model: Option<String>,
    /// A system prompt in place of the agent's own.
    pub system_prompt: Option<String>,
    /// How long the whole call may take.
    pub timeout: Option<Duration>,
    /// Continue the last session.
    pub continue_session: bool,
    /// Resume the session of this identifier.
    pub resume: Option<String>,
    /// The schema the answer has to meet.
    pub json_schema: Option<Json>,
    /// Run without asking for permissions.
    pub dangerously_skip_permissions: bool,
}

/// A call with nothing set.
pub open spec fn default_config() -> Config {
    Config {
        model: None,
        system_prompt: None,
        timeout: None,
        continue_session: false,
        resume: None,
        json_schema: None,
        dangerously_skip_permissions: false,
    }
}

impl Default for Config {
    fn default() -> (r: Self)
        ensures
            r == default_config(),
    {
        Config {
            model: None,
            system_prompt: None,
            timeout: None,
            continue_session: false,
            resume: None,
            json_schema: None,
            dangerously_skip_permissions: false,
        }
    }
}

} // verus!
