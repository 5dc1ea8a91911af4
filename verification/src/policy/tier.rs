//! Model tiers, output verbosity, and the settings of the local transports.
use vstd::prelude::*;

use crate::text::{concat2, owned};

verus! {

/// How verbose a model node asks the model to be.
#[derive(Clone, Copy, Debug, PartialEq, Eq, Structural)]
pub enum OutputVerbosity {
    Terse,
    Normal,
    Verbose,
}

impl Default for OutputVerbosity {
    fn default() -> (r: Self)
        ensures
            r == OutputVerbosity::Normal,
    {
        OutputVerbosity::Normal
    }
}

/// The model tier a stage can be resolved to. `Local` goes to a local
/// transport; every other tier names a cloud model.
#[derive(Clone, Copy, Debug, PartialEq, Eq, Structural)]
pub enum ModelTier {
    Sonnet,
    Haiku,
    Opus,
    Local,
}

impl Default for ModelTier {
    fn default() -> (r: Self)
        ensures
            r == ModelTier::Sonnet,
    {
        ModelTier::Sonnet
    }
}

/// The model name of a tier: the family's name and the tier's release; the local
/// tier has the name given for it.
pub open spec fn model_name(
    tier: ModelTier,
    family: Seq<char>,
    local_model: Seq<char>,
) -> Seq<char> {
    match tier {
        ModelTier::Sonnet => family + "-sonnet-4-5"@,
        ModelTier::Haiku => family + "-haiku-4-5"@,
        ModelTier::Opus => family + "-opus-4-8"@,
        ModelTier::Local => local_model,
    }
}

/// The model name of a tier; `family` is the name the hosted models share,
/// `local_model` the name of the local one.
pub fn model_tier_to_model_string(tier: ModelTier, family: &str, local_model: &str) -> (r: String)
    ensures
        r@ == model_name(tier, family@, local_model@),
{
    match tier {
        ModelTier::Sonnet => concat2(family, "-sonnet-4-5"),
        ModelTier::Haiku => concat2(family, "-haiku-4-5"),
        ModelTier::Opus => concat2(family, "-opus-4-8"),
        ModelTier::Local => owned(local_model),
    }
}

/// The settings of the local tier's transport.
#[derive(Debug, PartialEq, Eq)]
pub struct LocalConfig {
    /// Base address of the endpoint.
    pub endpoint: String,
    /// Name of the model to request.
    pub model: String,
    /// Whether a stage's JSON schema constrains decoding.
    pub constrained_json: bool,
}

impl Default for LocalConfig {
    fn default() -> (r: Self)
        ensures
            r.endpoint@ == "http://localhost:11434"@,
            r.model@ == "qwen2.5:7b-instruct"@,
            !r.constrained_json,
    {
        LocalConfig {
            endpoint: owned("http://localhost:11434"),
            model: owned("qwen2.5:7b-instruct"),
            constrained_json: false,
        }
    }
}

impl Clone for LocalConfig {
    fn clone(&self) -> (r: Self)
        ensures
            r == *self,
    {
        LocalConfig {
            endpoint: self.endpoint.clone(),
            model: self.model.clone(),
            constrained_json: self.constrained_json,
        }
    }
}

/// The tools a `pi` run is allowed by default: reading, writing and editing
/// files, the shell, code search and navigation, and the task list.
pub const DEFAULT_PI_TOOLS: [&'static str; 12] = [
    "read",
    "write",
    "edit",
    "hashline_edit",
    "bash",
    "grep",
    "find",
    "ls",
    "ast_grep",
    "ast_edit",
    "lsp",
    "todo",
];

/// The flags of the `pi` transport.
#[derive(Clone, Debug, PartialEq, Eq)]
pub struct PiConfig {
    /// Do not let `pi` pick up context files of ancestor directories.
    pub no_context_files: bool,
    /// Do not let `pi` persist its session.
    pub no_session: bool,
    /// The tools allowed; none means that `pi` applies its own set.
    pub tools: Vec<String>,
}

impl Default for PiConfig {
    fn default() -> (r: Self)
        ensures
            r.no_context_files,
            r.no_session,
            r.tools@.len() == DEFAULT_PI_TOOLS@.len(),
            forall|i: int|
                0 <= i < r.tools@.len() ==> (#[trigger] r.tools@[i])@ == DEFAULT_PI_TOOLS@[i]@,
    {
        let mut tools: Vec<String> = Vec::new();
        let mut i: usize = 0;
        while i < 12
            invariant
                i <= 12,
                tools@.len() == i,
                forall|j: int| 0 <= j < i ==> (#[trigger] tools@[j])@ == DEFAULT_PI_TOOLS@[j]@,
            decreases 12 - i,
        {
            tools.push(owned(DEFAULT_PI_TOOLS[i]));
            i += 1;
        }
        PiConfig { no_context_files: true, no_session: true, tools }
    }
}

/// The local tier has the name of the local model, and every other tier a name
/// of its own in the family.
pub proof fn law_tiers_have_their_models(
    tier: ModelTier,
    other: ModelTier,
    family: &str,
    local_model: &str,
    r: String,
    s: String,
)
    requires
        model_tier_to_model_string.ensures((tier, family, local_model), r),
        model_tier_to_model_string.ensures((other, family, local_model), s),
    ensures
        tier is Local ==> r@ == local_model@,
        tier is Sonnet ==> r@ == family@ + "-sonnet-4-5"@,
        tier is Haiku ==> r@ == family@ + "-haiku-4-5"@,
        tier is Opus ==> r@ == family@ + "-opus-4-8"@,
        tier != other && !(tier is Local) && !(other is Local) ==> r@ != s@,
{
    reveal_strlit("-sonnet-4-5");
    reveal_strlit("-haiku-4-5");
    reveal_strlit("-opus-4-8");
    let n = family@.len() as int;
    if tier != other && !(tier is Local) && !(other is Local) {
        assert(r@[n + 1] != s@[n + 1]);
    }
}

} // verus!
