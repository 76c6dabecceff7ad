//! The fixed preset table tying a session mode id to an approval policy and
//! a sandbox policy, and the lookups the bridge performs on it.

use vstd::prelude::*;
use vstd::string::*;
use crate::config::{ApprovalPolicy, Config, SandboxPolicy};
use crate::text::str_eq;

verus! {

/// One preset: a named bundle of an approval policy and a sandbox policy.
pub struct ApprovalPreset {
    pub id: String,
    pub label: String,
    pub description: String,
    pub approval: ApprovalPolicy,
    pub sandbox: SandboxPolicy,
}

/// A mode as advertised to the client.
pub struct SessionMode {
    pub id: String,
    pub name: String,
    pub description: Option<String>,
}

/// The current mode id together with every available mode.
pub struct SessionModeState {
    pub current_mode_id: String,
    pub available_modes: Vec<SessionMode>,
}

/// The settings each mode id stands for; `None` for an id outside the table.
pub open spec fn preset_for_mode(id: Seq<char>) -> Option<(ApprovalPolicy, SandboxPolicy)> {
    if id == "read-only"@ {
        Some((ApprovalPolicy::OnRequest, SandboxPolicy::ReadOnly))
    } else if id == "auto"@ {
        Some((ApprovalPolicy::OnRequest, SandboxPolicy::WorkspaceWrite))
    } else if id == "full-access"@ {
        Some((ApprovalPolicy::Never, SandboxPolicy::DangerFullAccess))
    } else {
        None
    }
}

/// The first mode id whose preset carries exactly these settings; `None`
/// when no preset does.
pub open spec fn mode_for_settings(a: ApprovalPolicy, s: SandboxPolicy) -> Option<Seq<char>> {
    if a == ApprovalPolicy::OnRequest && s == SandboxPolicy::ReadOnly {
        Some("read-only"@)
    } else if a == ApprovalPolicy::OnRequest && s == SandboxPolicy::WorkspaceWrite {
        Some("auto"@)
    } else if a == ApprovalPolicy::Never && s == SandboxPolicy::DangerFullAccess {
        Some("full-access"@)
    } else {
        None
    }
}

/// The settings of a mode id from the table round-trip back to that id.
pub proof fn lemma_mode_round_trip(id: Seq<char>)
    requires
        preset_for_mode(id) is Some,
    ensures
        ({
            let p = preset_for_mode(id)->Some_0;
            mode_for_settings(p.0, p.1) == Some(id)
        }),
{
    reveal_strlit("read-only");
    reveal_strlit("auto");
    reveal_strlit("full-access");
}

/// The display label of each mode id in the table.
pub open spec fn mode_label(id: Seq<char>) -> Seq<char> {
    if id == "read-only"@ {
        "Read Only"@
    } else if id == "auto"@ {
        "Auto"@
    } else {
        "Full Access"@
    }
}

/// The description text of each mode id in the table.
pub open spec fn mode_description(id: Seq<char>) -> Seq<char> {
    if id == "read-only"@ {
        "The agent can read files and answer questions; edits, running commands, and network access need approval"@
    } else if id == "auto"@ {
        "The agent can read files, make edits, and run commands in the workspace; work outside the workspace needs approval"@
    } else {
        "The agent can read, edit, and run commands with network access, without approval"@
    }
}

/// What the advertised mode list guarantees: one mode per preset, in table
/// order, named by the preset's label, with a description exactly when the
/// preset's description is non-empty.
pub open spec fn modes_list_ok(r: Seq<SessionMode>) -> bool {
    &&& r.len() == 3
    &&& r[0].id@ == "read-only"@
    &&& r[1].id@ == "auto"@
    &&& r[2].id@ == "full-access"@
    &&& forall|i: int| 0 <= i < 3 ==> (#[trigger] r[i]).name@ == mode_label(r[i].id@)
    &&& forall|i: int|
        0 <= i < 3 ==> match (#[trigger] r[i]).description {
            Some(d) => d@ == mode_description(r[i].id@) && d@.len() > 0,
            None => mode_description(r[i].id@).len() == 0,
        }
}

/// The full preset table, in the order the client sees it.
pub fn builtin_approval_presets() -> (r: Vec<ApprovalPreset>)
    ensures
        r@.len() == 3,
        r@[0].id@ == "read-only"@ && r@[0].approval == ApprovalPolicy::OnRequest && r@[0].sandbox
            == SandboxPolicy::ReadOnly,
        r@[1].id@ == "auto"@ && r@[1].approval == ApprovalPolicy::OnRequest && r@[1].sandbox
            == SandboxPolicy::WorkspaceWrite,
        r@[2].id@ == "full-access"@ && r@[2].approval == ApprovalPolicy::Never && r@[2].sandbox
            == SandboxPolicy::DangerFullAccess,
        forall|i: int|
            0 <= i < 3 ==> preset_for_mode(#[trigger] r@[i].id@) == Some(
                (r@[i].approval, r@[i].sandbox),
            ),
        forall|i: int| 0 <= i < 3 ==> (#[trigger] r@[i]).label@ == mode_label(r@[i].id@),
        forall|i: int|
            0 <= i < 3 ==> (#[trigger] r@[i]).description@ == mode_description(r@[i].id@),
        forall|i: int| 0 <= i < 3 ==> (#[trigger] r@[i]).label@.len() > 0,
    {
        proof {
            reveal_strlit("read-only");
            reveal_strlit("auto");
            reveal_strlit("full-access");
            reveal_strlit("Read Only");
            reveal_strlit("Auto");
            reveal_strlit("Full Access");
        }
        let mut r: Vec<ApprovalPreset> = Vec::new();
        r.push(
            ApprovalPreset {
                id: String::from_str("read-only"),
                label: String::from_str("Read Only"),
                description: String::from_str(
                    "The agent can read files and answer questions; edits, running commands, and network access need approval",
                ),
                approval: ApprovalPolicy::OnRequest,
                sandbox: SandboxPolicy::ReadOnly,
            },
        );
        r.push(
            ApprovalPreset {
                id: String::from_str("auto"),
                label: String::from_str("Auto"),
                description: String::from_str(
                    "The agent can read files, make edits, and run commands in the workspace; work outside the workspace needs approval",
                ),
                approval: ApprovalPolicy::OnRequest,
                sandbox: SandboxPolicy::WorkspaceWrite,
            },
        );
        r.push(
            ApprovalPreset {
                id: String::from_str("full-access"),
                label: String::from_str("Full Access"),
                description: String::from_str(
                    "The agent can read, edit, and run commands with network access, without approval",
                ),
                approval: ApprovalPolicy::Never,
                sandbox: SandboxPolicy::DangerFullAccess,
            },
        );
        proof {
            assert(r@[0].id@ == "read-only"@);
            assert(r@[1].id@ == "auto"@);
            assert(r@[2].id@ == "full-access"@);
            assert(preset_for_mode("read-only"@) == Some(
                (ApprovalPolicy::OnRequest, SandboxPolicy::ReadOnly),
            ));
            assert(preset_for_mode("auto"@) == Some(
                (ApprovalPolicy::OnRequest, SandboxPolicy::WorkspaceWrite),
            ));
            assert(preset_for_mode("full-access"@) == Some(
                (ApprovalPolicy::Never, SandboxPolicy::DangerFullAccess),
            ));
            assert forall|i: int|
                0 <= i < 3 implies preset_for_mode(#[trigger] r@[i].id@) == Some(
                (r@[i].approval, r@[i].sandbox),
            ) by {
                if i == 0 {
                    assert(preset_for_mode(r@[i].id@) == preset_for_mode("read-only"@));
                } else if i == 1 {
                    assert(preset_for_mode(r@[i].id@) == preset_for_mode("auto"@));
                } else {
                    assert(preset_for_mode(r@[i].id@) == preset_for_mode("full-access"@));
                }
            }
            assert forall|i: int|
                0 <= i < 3 implies (#[trigger] r@[i]).label@ == mode_label(r@[i].id@) && r@[
                i
            ].description@ == mode_description(r@[i].id@) && r@[i].label@.len() > 0 by {
                if i == 0 {
                    assert(mode_label(r@[i].id@) == "Read Only"@);
                    assert(mode_description(r@[i].id@) == mode_description("read-only"@));
                } else if i == 1 {
                    assert(mode_label(r@[i].id@) == "Auto"@);
                    assert(mode_description(r@[i].id@) == mode_description("auto"@));
                } else {
                    assert(mode_label(r@[i].id@) == "Full Access"@);
                    assert(mode_description(r@[i].id@) == mode_description("full-access"@));
                }
            }
        }
        r
    }

/// Find the preset a mode id names.
pub fn find_preset_by_mode_id(mode_id: &str) -> (r: Option<ApprovalPreset>)
    ensures
        match r {
            Some(p) => preset_for_mode(mode_id@) == Some((p.approval, p.sandbox)) && p.id@
                == mode_id@,
            None => preset_for_mode(mode_id@) is None,
        },
{
    if str_eq(mode_id, "read-only") {
        let mut v = builtin_approval_presets();
        Some(v.remove(0))
    } else if str_eq(mode_id, "auto") {
        let mut v = builtin_approval_presets();
        Some(v.remove(1))
    } else if str_eq(mode_id, "full-access") {
        let mut v = builtin_approval_presets();
        Some(v.remove(2))
    } else {
        None
    }
}

/// Whether a mode id names the read-only preset.
pub fn is_read_only_mode(mode_id: &str) -> (r: bool)
    ensures
        r == (mode_id@ == "read-only"@),
{
    str_eq(mode_id, "read-only")
}

/// The modes advertised to the client: one per preset, in table order,
/// named by the preset's label, with the preset's description exactly when
/// it is non-empty.
pub fn available_modes() -> (r: Vec<SessionMode>)
    ensures
        modes_list_ok(r@),
        forall|i: int| 0 <= i < 3 ==> preset_for_mode(#[trigger] r@[i].id@) is Some,
{
    let presets = builtin_approval_presets();
    let mut r: Vec<SessionMode> = Vec::new();
    let n = presets.len();
    let mut i: usize = 0;
    while i < n
        invariant
            i <= n,
            n == 3,
            presets@.len() == 3,
            forall|j: int| 0 <= j < 3 ==> (#[trigger] presets@[j]).label@ == mode_label(presets@[j].id@),
            forall|j: int|
                0 <= j < 3 ==> (#[trigger] presets@[j]).description@ == mode_description(
                    presets@[j].id@,
                ),
            r@.len() == i,
            forall|j: int| 0 <= j < i ==> (#[trigger] r@[j]).id@ == presets@[j].id@,
            forall|j: int| 0 <= j < i ==> (#[trigger] r@[j]).name@ == presets@[j].label@,
            forall|j: int|
                0 <= j < i ==> match (#[trigger] r@[j]).description {
                    Some(d) => d@ == mode_description(r@[j].id@) && d@.len() > 0,
                    None => mode_description(r@[j].id@).len() == 0,
                },
        decreases n - i,
    {
        let p = &presets[i];
        let description = if p.description.as_str().is_empty() {
            None
        } else {
            Some(p.description.clone())
        };
        r.push(
            SessionMode { id: p.id.clone(), name: p.label.clone(), description },
        );
        i = i + 1;
    }
    r
}

/// The current mode id the configuration's settings stand for, when some
/// preset carries exactly those settings.
pub fn current_mode_id_for_config(config: &Config) -> (r: Option<String>)
    ensures
        match r {
            Some(id) => mode_for_settings(config.approval_policy, config.sandbox_policy) == Some(
                id@,
            ),
            None => mode_for_settings(config.approval_policy, config.sandbox_policy) is None,
        },
{
    let presets = builtin_approval_presets();
    if config.approval_policy == ApprovalPolicy::OnRequest && config.sandbox_policy
        == SandboxPolicy::ReadOnly {
        Some(String::from_str("read-only"))
    } else if config.approval_policy == ApprovalPolicy::OnRequest && config.sandbox_policy
        == SandboxPolicy::WorkspaceWrite {
        Some(String::from_str("auto"))
    } else if config.approval_policy == ApprovalPolicy::Never && config.sandbox_policy
        == SandboxPolicy::DangerFullAccess {
        Some(String::from_str("full-access"))
    } else {
        None
    }
}

/// The mode state advertised on session creation: the configuration's
/// current mode and the full mode list, when the configuration's settings
/// match a preset.
pub fn session_modes_for_config(config: &Config) -> (r: Option<SessionModeState>)
    ensures
        match r {
            Some(st) => mode_for_settings(config.approval_policy, config.sandbox_policy) == Some(
                st.current_mode_id@,
            ) && modes_list_ok(st.available_modes@),
            None => mode_for_settings(config.approval_policy, config.sandbox_policy) is None,
        },
{
    match current_mode_id_for_config(config) {
        Some(current_mode_id) => Some(
            SessionModeState { current_mode_id, available_modes: available_modes() },
        ),
        None => None,
    }
}

/// Whether a provider id names a custom (non-builtin) provider.
pub fn is_custom_provider(provider_id: &str) -> (r: bool)
    ensures
        r == (provider_id@ != "openai"@),
{
    !str_eq(provider_id, "openai")
}

} // verus!
