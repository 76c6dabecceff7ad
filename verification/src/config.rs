//! The bridge's view of the engine configuration.
//!
//! Only what the bridge's own decisions read is modelled: the active provider
//! and model, the current risk-control settings, the provider table, and the
//! named configuration profiles.

use vstd::prelude::*;
use crate::text::str_eq;

verus! {

/// When the engine must ask before running a risky action.
#[derive(Clone, Copy, PartialEq, Eq, Structural, Debug)]
pub enum ApprovalPolicy {
    UnlessTrusted,
    OnFailure,
    OnRequest,
    Never,
}

/// How far the engine's sandbox lets an action reach.
#[derive(Clone, Copy, PartialEq, Eq, Structural, Debug)]
pub enum SandboxPolicy {
    ReadOnly,
    WorkspaceWrite,
    DangerFullAccess,
}

/// The reasoning-effort level of a model selection.
#[derive(Clone, Copy, PartialEq, Eq, Structural, Debug)]
pub enum ReasoningEffort {
    Minimal,
    Low,
    Medium,
    High,
}

/// One entry of the provider table.
pub struct ModelProvider {
    pub id: String,
    pub name: String,
}

/// A named configuration profile: an optional model selection.
pub struct ConfigProfile {
    pub model: Option<String>,
    pub model_provider: Option<String>,
    pub model_reasoning_effort: Option<ReasoningEffort>,
}

/// The engine configuration, reduced to the fields the bridge reads.
pub struct Config {
    pub model_provider_id: String,
    pub model_provider_name: String,
    pub model: String,
    pub approval_policy: ApprovalPolicy,
    pub sandbox_policy: SandboxPolicy,
    pub model_reasoning_effort: Option<ReasoningEffort>,
    pub cwd: String,
    pub model_providers: Vec<ModelProvider>,
}

impl Config {
    /// Provider ids are unique, as they are in the configuration file's
    /// provider table.
    pub open spec fn wf(self) -> bool {
        forall|i: int, j: int|
            0 <= i < j < self.model_providers@.len() ==> (
            #[trigger] self.model_providers@[i]).id@ != (
            #[trigger] self.model_providers@[j]).id@
    }

    /// Whether a provider with this id is configured.
    pub open spec fn has_provider(self, id: Seq<char>) -> bool {
        exists|i: int|
            0 <= i < self.model_providers@.len() && (#[trigger] self.model_providers@[i]).id@
                == id
    }

    /// The display name of the provider with this id.
    pub open spec fn provider_name_spec(self, id: Seq<char>) -> Seq<char> {
        let i = choose|i: int|
            0 <= i < self.model_providers@.len() && (#[trigger] self.model_providers@[i]).id@
                == id;
        self.model_providers@[i].name@
    }

    /// Look a provider up by id.
    pub fn find_provider(&self, id: &str) -> (r: Option<&ModelProvider>)
        requires
            self.wf(),
        ensures
            match r {
                Some(p) => self.has_provider(id@) && p.id@ == id@ && p.name@
                    == self.provider_name_spec(id@),
                None => !self.has_provider(id@),
            },
    {
        let n = self.model_providers.len();
        let mut i: usize = 0;
        while i < n
            invariant
                i <= n,
                n == self.model_providers@.len(),
                self.wf(),
                forall|j: int| 0 <= j < i ==> (#[trigger] self.model_providers@[j]).id@ != id@,
            decreases n - i,
        {
            let p = &self.model_providers[i];
            if str_eq(p.id.as_str(), id) {
                return Some(p);
            }
            i = i + 1;
        }
        None
    }
}

} // verus!
