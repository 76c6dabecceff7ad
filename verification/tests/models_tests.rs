use codex_acp::config::{
    ApprovalPolicy, Config, ConfigProfile, ModelProvider, ReasoningEffort, SandboxPolicy,
};
use codex_acp::models::{
    available_models_from_profiles, build_model_info, current_model_id_from_config,
    parse_and_validate_model,
};

fn config() -> Config {
    Config {
        model_provider_id: String::from("acme"),
        model_provider_name: String::from("Acme AI"),
        model: String::from("acme-large"),
        approval_policy: ApprovalPolicy::OnRequest,
        sandbox_policy: SandboxPolicy::WorkspaceWrite,
        model_reasoning_effort: Some(ReasoningEffort::High),
        cwd: String::from("/work"),
        model_providers: vec![
            ModelProvider {
                id: String::from("acme"),
                name: String::from("Acme AI"),
            },
            ModelProvider {
                id: String::from("zeta"),
                name: String::from("Zeta Labs"),
            },
            ModelProvider {
                id: String::from("openai"),
                name: String::from("OpenAI"),
            },
        ],
    }
}

fn profile(model: &str, provider: &str, effort: Option<ReasoningEffort>) -> (String, ConfigProfile) {
    (
        format!("{provider}-{model}"),
        ConfigProfile {
            model: Some(String::from(model)),
            model_provider: Some(String::from(provider)),
            model_reasoning_effort: effort,
        },
    )
}

#[test]
fn current_model_id_is_provider_at_model() {
    assert_eq!(current_model_id_from_config(&config()), "acme@acme-large");
}

#[test]
fn build_model_info_uses_the_provider_display_name() {
    let info = build_model_info(&config(), "zeta", "zeta-mini").expect("info");
    assert_eq!(info.model_id, "zeta@zeta-mini");
    assert_eq!(info.name, "Zeta Labs@zeta-mini");
    assert_eq!(
        info.description.as_deref(),
        Some("Provider: Zeta Labs, Model: zeta-mini")
    );
    assert!(build_model_info(&config(), "ghost", "m").is_none());
}

#[test]
fn available_models_lists_config_first_then_sorted_profiles() {
    let profiles = vec![
        profile("zz-last", "zeta", None),
        profile("aa-first", "zeta", Some(ReasoningEffort::Low)),
        profile("mid", "acme", None),
    ];
    let models = available_models_from_profiles(&config(), &profiles);
    let ids: Vec<&str> = models.iter().map(|m| m.model_id.as_str()).collect();
    assert_eq!(
        ids,
        vec!["acme@acme-large", "acme@mid", "zeta@aa-first", "zeta@zz-last"]
    );
}

#[test]
fn available_models_deduplicates_by_model_id() {
    let profiles = vec![
        profile("acme-large", "acme", None),
        profile("zeta-mini", "zeta", None),
        profile("zeta-mini", "zeta", Some(ReasoningEffort::High)),
    ];
    let models = available_models_from_profiles(&config(), &profiles);
    let ids: Vec<&str> = models.iter().map(|m| m.model_id.as_str()).collect();
    assert_eq!(ids, vec!["acme@acme-large", "zeta@zeta-mini"]);
}

#[test]
fn available_models_skips_builtin_and_unconfigured_providers() {
    let profiles = vec![
        profile("gpt-5", "openai", None),
        profile("mystery", "ghost", None),
        profile("zeta-mini", "zeta", None),
    ];
    let models = available_models_from_profiles(&config(), &profiles);
    let ids: Vec<&str> = models.iter().map(|m| m.model_id.as_str()).collect();
    assert_eq!(ids, vec!["acme@acme-large", "zeta@zeta-mini"]);
}

#[test]
fn parse_and_validate_accepts_the_config_selection() {
    let r = parse_and_validate_model(&config(), &vec![], "acme@acme-large").expect("parsed");
    assert_eq!(r.0, "acme");
    assert_eq!(r.1, "acme-large");
    assert_eq!(r.2, Some(ReasoningEffort::High));
}

#[test]
fn parse_and_validate_accepts_profile_models_with_their_effort() {
    let profiles = vec![profile("zeta-mini", "zeta", Some(ReasoningEffort::Low))];
    let r = parse_and_validate_model(&config(), &profiles, "zeta@zeta-mini").expect("parsed");
    assert_eq!(r.0, "zeta");
    assert_eq!(r.1, "zeta-mini");
    assert_eq!(r.2, Some(ReasoningEffort::Low));
}

#[test]
fn parse_and_validate_rejects_bad_ids() {
    let profiles = vec![profile("zeta-mini", "zeta", None)];
    // No separator.
    assert!(parse_and_validate_model(&config(), &profiles, "zeta-mini").is_none());
    // Unknown provider.
    assert!(parse_and_validate_model(&config(), &profiles, "ghost@m").is_none());
    // Known provider, but no profile or config entry for the model.
    assert!(parse_and_validate_model(&config(), &profiles, "zeta@unknown").is_none());
}

#[test]
fn parse_and_validate_splits_at_the_first_separator() {
    let profiles = vec![profile("m@x", "zeta", None)];
    let r = parse_and_validate_model(&config(), &profiles, "zeta@m@x").expect("parsed");
    assert_eq!(r.0, "zeta");
    assert_eq!(r.1, "m@x");
}

#[test]
fn parse_and_validate_takes_the_first_matching_profile_effort() {
    // Two profiles name the same pair with different efforts: the first wins.
    let profiles = vec![
        profile("zeta-mini", "zeta", Some(ReasoningEffort::Low)),
        profile("zeta-mini", "zeta", Some(ReasoningEffort::High)),
    ];
    let r = parse_and_validate_model(&config(), &profiles, "zeta@zeta-mini").expect("parsed");
    assert_eq!(r.2, Some(ReasoningEffort::Low));
}
