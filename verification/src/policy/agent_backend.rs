//! Which coding-agent transport an implementation stage dispatches to.
use vstd::prelude::*;

verus! {

/// A coding-agent transport.
#[derive(Clone, Copy, Debug, PartialEq, Eq, Structural)]
pub enum AgentBackend {
    /// The billed command line.
    ClaudeCli,
    /// `pi` against a local model.
    Pi,
    /// `aider` against a local model.
    Aider,
}

impl Default for AgentBackend {
    fn default() -> (r: Self)
        ensures
            r == AgentBackend::ClaudeCli,
    {
        AgentBackend::ClaudeCli
    }
}

} // verus!
