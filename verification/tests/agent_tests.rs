use codex_acp::agent::{AuthSnapshot, CodexAgent, PromptStart};
use codex_acp::config::{
    ApprovalPolicy, Config, ConfigProfile, ModelProvider, ReasoningEffort, SandboxPolicy,
};
use codex_acp::protocol::{AcpError, ContentBlock, EngineOp};
use codex_acp::store::ClientCapabilities;

fn custom_config() -> Config {
    Config {
        model_provider_id: String::from("acme"),
        model_provider_name: String::from("Acme AI"),
        model: String::from("acme-large"),
        approval_policy: ApprovalPolicy::OnRequest,
        sandbox_policy: SandboxPolicy::WorkspaceWrite,
        model_reasoning_effort: Some(ReasoningEffort::Medium),
        cwd: String::from("/work"),
        model_providers: vec![
            ModelProvider {
                id: String::from("acme"),
                name: String::from("Acme AI"),
            },
            ModelProvider {
                id: String::from("zeta"),
                name: String::from("Zeta Labs"),
            },
        ],
    }
}

fn builtin_config() -> Config {
    Config {
        model_provider_id: String::from("openai"),
        model_provider_name: String::from("OpenAI"),
        model: String::from("gpt-5"),
        approval_policy: ApprovalPolicy::OnRequest,
        sandbox_policy: SandboxPolicy::WorkspaceWrite,
        model_reasoning_effort: None,
        cwd: String::from("/work"),
        model_providers: vec![ModelProvider {
            id: String::from("openai"),
            name: String::from("OpenAI"),
        }],
    }
}

fn zeta_profile() -> (String, ConfigProfile) {
    (
        String::from("fast"),
        ConfigProfile {
            model: Some(String::from("zeta-mini")),
            model_provider: Some(String::from("zeta")),
            model_reasoning_effort: Some(ReasoningEffort::Low),
        },
    )
}

fn caps() -> ClientCapabilities {
    ClientCapabilities {
        read_text_file: true,
        write_text_file: true,
        terminal: false,
    }
}

#[test]
fn initialize_advertises_fixed_capabilities_and_auth_methods() {
    let mut agent = CodexAgent::with_config(builtin_config(), vec![]);
    let r = agent.initialize(caps());
    assert!(r.prompt_image);
    assert!(!r.prompt_audio);
    assert!(r.prompt_embedded_context);
    assert!(r.mcp_http && r.mcp_sse);
    assert!(!r.load_session);
    assert_eq!(r.auth_methods.len(), 2);
    assert_eq!(r.auth_methods[0].id, "chatgpt");
    assert_eq!(r.auth_methods[1].id, "apikey");
}

#[test]
fn initialize_adds_a_custom_provider_auth_method() {
    let mut agent = CodexAgent::with_config(custom_config(), vec![]);
    let r = agent.initialize(caps());
    assert_eq!(r.auth_methods.len(), 3);
    assert_eq!(r.auth_methods[2].id, "acme");
    assert_eq!(r.auth_methods[2].name, "Acme AI");
}

#[test]
fn authenticate_api_key_needs_a_credential() {
    let agent = CodexAgent::with_config(builtin_config(), vec![]);
    let ok = agent.authenticate(
        "apikey",
        AuthSnapshot {
            present: true,
            chatgpt: false,
        },
    );
    assert!(ok.is_ok());
    let err = agent.authenticate(
        "apikey",
        AuthSnapshot {
            present: false,
            chatgpt: false,
        },
    );
    assert!(matches!(err, Err(AcpError::AuthRequired(_))));
}

#[test]
fn authenticate_chatgpt_needs_a_chatgpt_login() {
    let agent = CodexAgent::with_config(builtin_config(), vec![]);
    let ok = agent.authenticate(
        "chatgpt",
        AuthSnapshot {
            present: true,
            chatgpt: true,
        },
    );
    assert!(ok.is_ok());
    let wrong_kind = agent.authenticate(
        "chatgpt",
        AuthSnapshot {
            present: true,
            chatgpt: false,
        },
    );
    assert!(matches!(wrong_kind, Err(AcpError::AuthRequired(_))));
}

#[test]
fn authenticate_custom_provider_is_invalid_for_the_builtin_provider() {
    let agent = CodexAgent::with_config(builtin_config(), vec![]);
    let err = agent.authenticate(
        "custom_provider",
        AuthSnapshot {
            present: true,
            chatgpt: false,
        },
    );
    assert!(matches!(err, Err(AcpError::InvalidParams(_))));
}

#[test]
fn authenticate_custom_provider_accepts_a_configured_credential() {
    let agent = CodexAgent::with_config(custom_config(), vec![]);
    let ok = agent.authenticate(
        "custom_provider",
        AuthSnapshot {
            present: true,
            chatgpt: false,
        },
    );
    assert!(ok.is_ok());
    let err = agent.authenticate(
        "custom_provider",
        AuthSnapshot {
            present: false,
            chatgpt: false,
        },
    );
    assert!(matches!(err, Err(AcpError::AuthRequired(_))));
}

#[test]
fn authenticate_rejects_unknown_methods() {
    let agent = CodexAgent::with_config(builtin_config(), vec![]);
    let err = agent.authenticate(
        "oauth-dance",
        AuthSnapshot {
            present: true,
            chatgpt: true,
        },
    );
    assert!(matches!(err, Err(AcpError::InvalidParams(_))));
}

#[test]
fn new_session_registers_state_and_advertises_modes() {
    let mut agent = CodexAgent::with_config(builtin_config(), vec![]);
    let r = agent.new_session(String::from("conv-1")).expect("new session");
    assert_eq!(r.session_id, "conv-1");
    assert_eq!(r.fs_session_id.len(), 36);
    let modes = r.modes.expect("modes");
    assert_eq!(modes.current_mode_id, "auto");
    assert_eq!(modes.available_modes.len(), 3);
    // No model advertisement for the builtin provider.
    assert!(r.models.is_none());
    assert_eq!(r.available_commands.len(), 2);
    let state = agent.session_manager().get("conv-1").expect("stored");
    assert_eq!(state.fs_session_id, r.fs_session_id);
    assert!(state.conversation);
    assert_eq!(state.current_mode, "auto");
}

#[test]
fn new_session_advertises_models_for_custom_providers() {
    let mut agent = CodexAgent::with_config(custom_config(), vec![zeta_profile()]);
    let r = agent.new_session(String::from("conv-2")).expect("new session");
    let models = r.models.expect("models");
    assert_eq!(models.current_model_id, "acme@acme-large");
    assert_eq!(models.available_models.len(), 2);
    assert_eq!(models.available_models[0].model_id, "acme@acme-large");
    assert_eq!(models.available_models[1].model_id, "zeta@zeta-mini");
}

#[test]
fn new_session_rejects_a_duplicate_conversation_id() {
    let mut agent = CodexAgent::with_config(builtin_config(), vec![]);
    agent.new_session(String::from("conv-1")).expect("first");
    let dup = agent.new_session(String::from("conv-1"));
    assert!(matches!(dup, Err(AcpError::InvalidParams(_))));
}

#[test]
fn load_session_reports_the_stored_mode_and_model() {
    let mut agent = CodexAgent::with_config(custom_config(), vec![]);
    agent.new_session(String::from("conv-1")).expect("new session");
    let v = agent.load_session("conv-1").expect("load");
    assert_eq!(v.current_mode_id, "auto");
    assert_eq!(v.available_modes.len(), 3);
    assert_eq!(v.available_modes[0].id, "read-only");
    assert_eq!(v.available_modes[0].name, "Read Only");
    let models = v.models.expect("models");
    assert_eq!(models.current_model_id, "acme@acme-large");
    assert!(matches!(
        agent.load_session("conv-9"),
        Err(AcpError::InvalidParams(_))
    ));
}

#[test]
fn set_session_mode_swaps_the_triple_and_keeps_the_model() {
    let mut agent = CodexAgent::with_config(custom_config(), vec![]);
    agent.new_session(String::from("conv-1")).expect("new session");
    let op = agent
        .set_session_mode("conv-1", "read-only")
        .expect("mode change");
    match op {
        EngineOp::OverrideTurnContext {
            approval_policy,
            sandbox_policy,
            model,
            effort,
            cwd,
            summary,
        } => {
            assert_eq!(approval_policy, Some(ApprovalPolicy::OnRequest));
            assert_eq!(sandbox_policy, Some(SandboxPolicy::ReadOnly));
            assert_eq!(model.as_deref(), Some("acme@acme-large"));
            assert_eq!(effort, Some(Some(ReasoningEffort::Medium)));
            assert!(cwd.is_none() && summary.is_none());
        }
        _ => panic!("expected a turn-context override"),
    }
    let state = agent.session_manager().get("conv-1").unwrap();
    assert_eq!(state.current_mode, "read-only");
    assert_eq!(state.current_approval, ApprovalPolicy::OnRequest);
    assert_eq!(state.current_sandbox, SandboxPolicy::ReadOnly);
    // The model selection is untouched.
    assert_eq!(state.current_model.as_deref(), Some("acme@acme-large"));
    assert_eq!(state.current_effort, Some(ReasoningEffort::Medium));
}

#[test]
fn set_session_mode_rejects_unknown_modes_and_sessions() {
    let mut agent = CodexAgent::with_config(builtin_config(), vec![]);
    agent.new_session(String::from("conv-1")).expect("new session");
    assert!(matches!(
        agent.set_session_mode("conv-1", "warp-speed"),
        Err(AcpError::InvalidParams(_))
    ));
    assert!(matches!(
        agent.set_session_mode("conv-9", "auto"),
        Err(AcpError::InvalidParams(_))
    ));
}

#[test]
fn set_session_model_swaps_the_selection_and_keeps_the_triple() {
    let mut agent = CodexAgent::with_config(custom_config(), vec![zeta_profile()]);
    agent.new_session(String::from("conv-1")).expect("new session");
    let op = agent
        .set_session_model("conv-1", "zeta@zeta-mini")
        .expect("model change");
    match op {
        EngineOp::OverrideTurnContext {
            approval_policy,
            sandbox_policy,
            model,
            effort,
            ..
        } => {
            assert_eq!(approval_policy, Some(ApprovalPolicy::OnRequest));
            assert_eq!(sandbox_policy, Some(SandboxPolicy::WorkspaceWrite));
            assert_eq!(model.as_deref(), Some("zeta@zeta-mini"));
            assert_eq!(effort, Some(Some(ReasoningEffort::Low)));
        }
        _ => panic!("expected a turn-context override"),
    }
    let state = agent.session_manager().get("conv-1").unwrap();
    assert_eq!(state.current_model.as_deref(), Some("zeta@zeta-mini"));
    assert_eq!(state.current_effort, Some(ReasoningEffort::Low));
    // The mode triple is untouched.
    assert_eq!(state.current_mode, "auto");
    assert_eq!(state.current_approval, ApprovalPolicy::OnRequest);
    assert_eq!(state.current_sandbox, SandboxPolicy::WorkspaceWrite);
}

#[test]
fn set_session_model_is_rejected_for_the_builtin_provider() {
    let mut agent = CodexAgent::with_config(builtin_config(), vec![]);
    agent.new_session(String::from("conv-1")).expect("new session");
    assert!(matches!(
        agent.set_session_model("conv-1", "openai@gpt-5"),
        Err(AcpError::InvalidParams(_))
    ));
}

#[test]
fn set_session_model_rejects_malformed_and_unknown_ids() {
    let mut agent = CodexAgent::with_config(custom_config(), vec![zeta_profile()]);
    agent.new_session(String::from("conv-1")).expect("new session");
    assert!(matches!(
        agent.set_session_model("conv-1", "no-separator"),
        Err(AcpError::InvalidParams(_))
    ));
    assert!(matches!(
        agent.set_session_model("conv-1", "ghost@model"),
        Err(AcpError::InvalidParams(_))
    ));
    assert!(matches!(
        agent.set_session_model("conv-1", "zeta@unlisted-model"),
        Err(AcpError::InvalidParams(_))
    ));
}

#[test]
fn help_prompt_yields_a_directive_with_no_engine_operation() {
    let mut agent = CodexAgent::with_config(builtin_config(), vec![]);
    agent.new_session(String::from("conv-1")).expect("new session");
    let prompt = vec![ContentBlock::Text {
        text: String::from("/help"),
    }];
    match agent.start_prompt("conv-1", &prompt).expect("prompt") {
        PromptStart::Directive => {}
        _ => panic!("expected a directive: the turn ends with no engine operation"),
    }
}

#[test]
fn ordinary_prompts_submit_user_input() {
    let mut agent = CodexAgent::with_config(builtin_config(), vec![]);
    agent.new_session(String::from("conv-1")).expect("new session");
    let prompt = vec![ContentBlock::Text {
        text: String::from("write a test"),
    }];
    match agent.start_prompt("conv-1", &prompt).expect("prompt") {
        PromptStart::Submit { op } => match op {
            EngineOp::UserInput { items } => assert_eq!(items.len(), 1),
            _ => panic!("expected user input"),
        },
        _ => panic!("expected a submission"),
    }
    assert!(matches!(
        agent.start_prompt("conv-9", &prompt),
        Err(AcpError::InvalidParams(_))
    ));
}

#[test]
fn cancel_produces_an_interrupt_for_known_sessions() {
    let mut agent = CodexAgent::with_config(builtin_config(), vec![]);
    agent.new_session(String::from("conv-1")).expect("new session");
    assert!(matches!(agent.cancel("conv-1"), Ok(EngineOp::Interrupt)));
    assert!(matches!(
        agent.cancel("conv-9"),
        Err(AcpError::InvalidParams(_))
    ));
}

#[test]
fn prompt_machine_is_wired_to_the_session_and_config() {
    let mut agent = CodexAgent::with_config(builtin_config(), vec![]);
    agent.new_session(String::from("conv-1")).expect("new session");
    let m = agent.prompt_machine(String::from("conv-1"), String::from("sub-1"));
    assert_eq!(m.session_id, "conv-1");
    assert_eq!(m.submit_id, "sub-1");
    assert_eq!(m.handler.cwd, "/work");
    assert!(!m.handler.support_terminal);
}

#[test]
fn error_codes_match_the_protocol() {
    assert_eq!(AcpError::InvalidParams(String::from("x")).code(), -32602);
    assert_eq!(AcpError::AuthRequired(String::from("x")).code(), -32000);
    assert_eq!(AcpError::Internal(String::from("x")).code(), -32603);
    assert_eq!(AcpError::AuthRequired(String::from("why")).message(), "why");
}
