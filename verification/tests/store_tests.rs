use codex_acp::config::{ApprovalPolicy, Config, ModelProvider, ReasoningEffort, SandboxPolicy};
use codex_acp::protocol::TokenUsage;
use codex_acp::store::{ClientCapabilities, ConversationAccess, SessionManager, SessionState};

fn test_config() -> Config {
    Config {
        model_provider_id: String::from("openai"),
        model_provider_name: String::from("OpenAI"),
        model: String::from("gpt-5"),
        approval_policy: ApprovalPolicy::OnRequest,
        sandbox_policy: SandboxPolicy::WorkspaceWrite,
        model_reasoning_effort: Some(ReasoningEffort::Medium),
        cwd: String::from("/work"),
        model_providers: vec![ModelProvider {
            id: String::from("openai"),
            name: String::from("OpenAI"),
        }],
    }
}

fn state(fs_id: &str) -> SessionState {
    SessionState::new(
        String::from(fs_id),
        false,
        &test_config(),
        String::from("auto"),
    )
}

#[test]
fn session_state_new_reads_the_config() {
    let s = state("fs-1");
    assert_eq!(s.fs_session_id, "fs-1");
    assert!(!s.conversation);
    assert_eq!(s.current_approval, ApprovalPolicy::OnRequest);
    assert_eq!(s.current_sandbox, SandboxPolicy::WorkspaceWrite);
    assert_eq!(s.current_mode, "auto");
    assert_eq!(s.current_model.as_deref(), Some("openai@gpt-5"));
    assert_eq!(s.current_effort, Some(ReasoningEffort::Medium));
    assert!(s.token_usage.is_none());
}

#[test]
fn create_rejects_duplicate_primary_ids() {
    let mut store = SessionManager::new();
    assert!(store.create(String::from("p-1"), state("fs-1")));
    assert!(!store.create(String::from("p-1"), state("fs-2")));
    assert_eq!(store.sessions().len(), 1);
}

#[test]
fn get_is_exact_primary_lookup() {
    let mut store = SessionManager::new();
    store.create(String::from("p-1"), state("fs-1"));
    assert!(store.get("p-1").is_some());
    // The secondary id does not resolve through the exact lookup.
    assert!(store.get("fs-1").is_none());
    assert!(store.get("p-2").is_none());
}

#[test]
fn resolving_by_secondary_id_finds_the_same_session() {
    let mut store = SessionManager::new();
    store.create(String::from("p-1"), state("fs-1"));
    store.create(String::from("p-2"), state("fs-2"));
    let by_primary = store.resolve("p-2").expect("primary resolution");
    let primary_fs = by_primary.fs_session_id.clone();
    let by_secondary = store.resolve("fs-2").expect("secondary resolution");
    assert_eq!(by_secondary.fs_session_id, primary_fs);
    assert_eq!(by_secondary.current_mode, "auto");
    assert!(store.resolve("nowhere").is_none());
}

#[test]
fn resolve_acp_session_id_normalizes_to_the_primary_id() {
    let mut store = SessionManager::new();
    store.create(String::from("p-1"), state("fs-1"));
    assert_eq!(store.resolve_acp_session_id("p-1"), Some(String::from("p-1")));
    assert_eq!(store.resolve_acp_session_id("fs-1"), Some(String::from("p-1")));
    assert_eq!(store.resolve_acp_session_id("fs-9"), None);
}

#[test]
fn current_mode_and_read_only_resolve_either_id() {
    let mut store = SessionManager::new();
    let mut s = state("fs-1");
    s.current_mode = String::from("read-only");
    store.create(String::from("p-1"), s);
    assert_eq!(store.current_mode("p-1"), Some(String::from("read-only")));
    assert_eq!(store.current_mode("fs-1"), Some(String::from("read-only")));
    assert!(store.is_read_only("p-1"));
    assert!(store.is_read_only("fs-1"));
    assert!(!store.is_read_only("unknown"));
}

#[test]
fn conversation_handles_are_cached_after_binding() {
    let mut store = SessionManager::new();
    store.create(String::from("p-1"), state("fs-1"));
    assert!(matches!(
        store.get_conversation("p-1"),
        Ok(ConversationAccess::MustLoad)
    ));
    assert!(store.bind_conversation("p-1"));
    assert!(matches!(
        store.get_conversation("p-1"),
        Ok(ConversationAccess::Cached)
    ));
    assert!(store.get_conversation("p-9").is_err());
    assert!(!store.bind_conversation("p-9"));
}

#[test]
fn token_usage_is_overwritten_wholesale() {
    let mut store = SessionManager::new();
    store.create(String::from("p-1"), state("fs-1"));
    let first = TokenUsage {
        input_tokens: 1,
        cached_input_tokens: 0,
        output_tokens: 1,
        reasoning_output_tokens: 0,
        total_tokens: 2,
    };
    let second = TokenUsage {
        input_tokens: 100,
        cached_input_tokens: 7,
        output_tokens: 50,
        reasoning_output_tokens: 3,
        total_tokens: 160,
    };
    assert!(store.set_token_usage("p-1", first));
    assert!(store.set_token_usage("p-1", second));
    let s = store.get("p-1").unwrap();
    assert_eq!(s.token_usage, Some(second));
    assert!(!store.set_token_usage("p-9", first));
}

#[test]
fn mode_state_changes_leave_the_model_selection_alone() {
    let mut store = SessionManager::new();
    store.create(String::from("p-1"), state("fs-1"));
    assert!(store.set_mode_state(
        "p-1",
        String::from("read-only"),
        ApprovalPolicy::OnRequest,
        SandboxPolicy::ReadOnly,
    ));
    let s = store.get("p-1").unwrap();
    assert_eq!(s.current_mode, "read-only");
    assert_eq!(s.current_approval, ApprovalPolicy::OnRequest);
    assert_eq!(s.current_sandbox, SandboxPolicy::ReadOnly);
    assert_eq!(s.current_model.as_deref(), Some("openai@gpt-5"));
    assert_eq!(s.current_effort, Some(ReasoningEffort::Medium));
}

#[test]
fn model_state_changes_leave_the_mode_triple_alone() {
    let mut store = SessionManager::new();
    store.create(String::from("p-1"), state("fs-1"));
    assert!(store.set_model_state(
        "p-1",
        String::from("other@m-2"),
        Some(ReasoningEffort::High),
    ));
    let s = store.get("p-1").unwrap();
    assert_eq!(s.current_model.as_deref(), Some("other@m-2"));
    assert_eq!(s.current_effort, Some(ReasoningEffort::High));
    assert_eq!(s.current_mode, "auto");
    assert_eq!(s.current_approval, ApprovalPolicy::OnRequest);
    assert_eq!(s.current_sandbox, SandboxPolicy::WorkspaceWrite);
}

#[test]
fn mutating_one_session_leaves_the_others_unchanged() {
    let mut store = SessionManager::new();
    store.create(String::from("p-1"), state("fs-1"));
    store.create(String::from("p-2"), state("fs-2"));
    store.set_mode_state(
        "p-1",
        String::from("full-access"),
        ApprovalPolicy::Never,
        SandboxPolicy::DangerFullAccess,
    );
    let other = store.get("p-2").unwrap();
    assert_eq!(other.current_mode, "auto");
    assert_eq!(other.current_sandbox, SandboxPolicy::WorkspaceWrite);
}

#[test]
fn client_capabilities_are_stored_and_read_back() {
    let mut store = SessionManager::new();
    assert!(!store.support_terminal());
    store.set_client_capabilities(ClientCapabilities {
        read_text_file: true,
        write_text_file: false,
        terminal: true,
    });
    assert!(store.support_terminal());
    assert!(store.client_capabilities().read_text_file);
    assert!(!store.client_capabilities().write_text_file);
}
