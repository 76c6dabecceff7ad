use codex_acp::config::{ApprovalPolicy, Config, ModelProvider, ReasoningEffort, SandboxPolicy};
use codex_acp::presets::{
    available_modes, builtin_approval_presets, current_mode_id_for_config, find_preset_by_mode_id,
    is_custom_provider, is_read_only_mode, session_modes_for_config,
};

fn config_with(approval: ApprovalPolicy, sandbox: SandboxPolicy) -> Config {
    Config {
        model_provider_id: String::from("openai"),
        model_provider_name: String::from("OpenAI"),
        model: String::from("gpt-5"),
        approval_policy: approval,
        sandbox_policy: sandbox,
        model_reasoning_effort: Some(ReasoningEffort::Medium),
        cwd: String::from("/work"),
        model_providers: vec![ModelProvider {
            id: String::from("openai"),
            name: String::from("OpenAI"),
        }],
    }
}

#[test]
fn preset_table_has_three_fixed_entries() {
    let presets = builtin_approval_presets();
    assert_eq!(presets.len(), 3);
    assert_eq!(presets[0].id, "read-only");
    assert_eq!(presets[0].approval, ApprovalPolicy::OnRequest);
    assert_eq!(presets[0].sandbox, SandboxPolicy::ReadOnly);
    assert_eq!(presets[1].id, "auto");
    assert_eq!(presets[1].approval, ApprovalPolicy::OnRequest);
    assert_eq!(presets[1].sandbox, SandboxPolicy::WorkspaceWrite);
    assert_eq!(presets[2].id, "full-access");
    assert_eq!(presets[2].approval, ApprovalPolicy::Never);
    assert_eq!(presets[2].sandbox, SandboxPolicy::DangerFullAccess);
}

#[test]
fn find_preset_by_mode_id_matches_the_table() {
    let auto = find_preset_by_mode_id("auto").unwrap();
    assert_eq!(auto.approval, ApprovalPolicy::OnRequest);
    assert_eq!(auto.sandbox, SandboxPolicy::WorkspaceWrite);
    let ro = find_preset_by_mode_id("read-only").unwrap();
    assert_eq!(ro.sandbox, SandboxPolicy::ReadOnly);
    let full = find_preset_by_mode_id("full-access").unwrap();
    assert_eq!(full.approval, ApprovalPolicy::Never);
    assert!(find_preset_by_mode_id("yolo").is_none());
    assert!(find_preset_by_mode_id("").is_none());
}

#[test]
fn is_read_only_mode_only_accepts_read_only() {
    assert!(is_read_only_mode("read-only"));
    assert!(!is_read_only_mode("auto"));
    assert!(!is_read_only_mode("full-access"));
    assert!(!is_read_only_mode("read-only "));
}

#[test]
fn available_modes_advertises_every_preset() {
    let modes = available_modes();
    assert_eq!(modes.len(), 3);
    assert_eq!(modes[0].id, "read-only");
    assert_eq!(modes[0].name, "Read Only");
    assert_eq!(modes[1].id, "auto");
    assert_eq!(modes[2].id, "full-access");
    for mode in &modes {
        assert!(mode.description.is_some());
    }
}

#[test]
fn current_mode_id_reflects_the_settings() {
    let auto = config_with(ApprovalPolicy::OnRequest, SandboxPolicy::WorkspaceWrite);
    assert_eq!(current_mode_id_for_config(&auto), Some(String::from("auto")));
    let ro = config_with(ApprovalPolicy::OnRequest, SandboxPolicy::ReadOnly);
    assert_eq!(current_mode_id_for_config(&ro), Some(String::from("read-only")));
    let full = config_with(ApprovalPolicy::Never, SandboxPolicy::DangerFullAccess);
    assert_eq!(current_mode_id_for_config(&full), Some(String::from("full-access")));
    let odd = config_with(ApprovalPolicy::UnlessTrusted, SandboxPolicy::WorkspaceWrite);
    assert_eq!(current_mode_id_for_config(&odd), None);
}

#[test]
fn session_modes_for_config_pairs_current_with_available() {
    let auto = config_with(ApprovalPolicy::OnRequest, SandboxPolicy::WorkspaceWrite);
    let state = session_modes_for_config(&auto).unwrap();
    assert_eq!(state.current_mode_id, "auto");
    assert_eq!(state.available_modes.len(), 3);
    let odd = config_with(ApprovalPolicy::OnFailure, SandboxPolicy::ReadOnly);
    assert!(session_modes_for_config(&odd).is_none());
}

#[test]
fn is_custom_provider_rejects_only_the_builtin() {
    assert!(!is_custom_provider("openai"));
    assert!(is_custom_provider("openrouter"));
    assert!(is_custom_provider(""));
    assert!(is_custom_provider("OpenAI"));
}
