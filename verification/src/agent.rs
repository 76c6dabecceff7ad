//! The agent: the client-facing operations of the bridge.
//!
//! Each operation is the decision part of one protocol request: it reads
//! and updates the session store and says exactly what must be submitted to
//! the engine or returned to the client. The surrounding process performs
//! the engine calls and the transport, hands the results in as plain
//! values, and submits the operations this module returns.

use vstd::prelude::*;
use vstd::string::*;

use crate::config::{Config, ConfigProfile};
use crate::models::{
    available_models_from_profiles, config_model_id, current_model_id_from_config,
    model_id_resolvable, models_list_ok, parse_and_validate_model, profile_matches,
    SessionModelState,
};
use crate::presets::{
    available_modes, find_preset_by_mode_id, mode_for_settings, modes_list_ok, preset_for_mode,
    session_modes_for_config, SessionMode, SessionModeState,
};
use crate::protocol::{AcpError, AvailableCommand, ContentBlock, EngineOp};
use crate::store::{ClientCapabilities, ConversationAccess, SessionManager, SessionState};
use crate::text::split_once_spec;
use crate::turn::{available_slash_commands, begin_turn, TurnMachine, TurnStart};

verus! {

/// What the engine's credential store reported after a reload: whether any
/// credential is present, and whether it is a ChatGPT login.
#[derive(Clone, Copy, PartialEq, Eq, Structural, Debug)]
pub struct AuthSnapshot {
    pub present: bool,
    pub chatgpt: bool,
}

/// One advertised authentication method.
pub struct AuthMethod {
    pub id: String,
    pub name: String,
    pub description: Option<String>,
}

/// What the bridge advertises at initialization.
pub struct InitializeResponse {
    pub auth_methods: Vec<AuthMethod>,
    pub prompt_image: bool,
    pub prompt_audio: bool,
    pub prompt_embedded_context: bool,
    pub mcp_http: bool,
    pub mcp_sse: bool,
    pub load_session: bool,
}

/// What a new session advertises to the client.
pub struct NewSessionResult {
    pub session_id: String,
    pub fs_session_id: String,
    pub modes: Option<SessionModeState>,
    pub models: Option<SessionModelState>,
    pub available_commands: Vec<AvailableCommand>,
}

/// What loading a session reports.
pub struct LoadSessionView {
    pub current_mode_id: String,
    pub available_modes: Vec<SessionMode>,
    pub models: Option<SessionModelState>,
}

/// How a prompt turn starts: a consumed directive (the turn ends at once,
/// with no engine operation) or an operation to submit.
pub enum PromptStart {
    Directive,
    Submit { op: EngineOp },
}

/// Relies on `uuid::Uuid::new_v4` and its `Display` form: a fresh random
/// version-4 UUID, rendered as the 36-character hyphenated lowercase form.
/// The value is random, so nothing but its length is promised.
#[verifier::external_body]
fn fresh_secondary_id() -> (r: String)
    ensures
        r@.len() == 36,
{
    uuid::Uuid::new_v4().to_string()
}

/// The bridge between the client protocol and the conversation engine.
pub struct CodexAgent {
    pub session_manager: SessionManager,
    pub config: Config,
    pub profiles: Vec<(String, ConfigProfile)>,
}

impl CodexAgent {
    /// An agent over this configuration and these profiles, with an empty
    /// session store.
    pub fn with_config(config: Config, profiles: Vec<(String, ConfigProfile)>) -> (r: CodexAgent)
        ensures
            r.session_manager.wf(),
            r.session_manager.sessions_view().len() == 0,
            r.config == config,
            r.profiles == profiles,
    {
        CodexAgent { session_manager: SessionManager::new(), config, profiles }
    }

    /// The session store.
    pub fn session_manager(&self) -> (r: &SessionManager)
        ensures
            r == &self.session_manager,
    {
        &self.session_manager
    }

    /// Record the client's capabilities and advertise the bridge's own:
    /// prompts may carry images and embedded context but no audio, both MCP
    /// transports are accepted, sessions cannot be loaded over the
    /// protocol, and the ChatGPT and API-key methods are offered — plus the
    /// configured provider's own method when it is a custom one.
    pub fn initialize(&mut self, client_capabilities: ClientCapabilities) -> (r:
        InitializeResponse)
        ensures
            final(self).session_manager.sessions_view() == old(self).session_manager.sessions_view(),
            final(self).session_manager.caps_view() == client_capabilities,
            final(self).config == old(self).config,
            final(self).profiles == old(self).profiles,
            r.prompt_image && !r.prompt_audio && r.prompt_embedded_context,
            r.mcp_http && r.mcp_sse,
            !r.load_session,
            r.auth_methods@.len() == (if old(self).config.model_provider_id@ != "openai"@ {
                3int
            } else {
                2int
            }),
            r.auth_methods@[0].id@ == "chatgpt"@,
            r.auth_methods@[1].id@ == "apikey"@,
            old(self).config.model_provider_id@ != "openai"@ ==> r.auth_methods@[2].id@ == old(self).config.model_provider_id@ && r.auth_methods@[2].name@ == old(self).config.model_provider_name@,
    {
        self.session_manager.set_client_capabilities(client_capabilities);
        let mut auth_methods: Vec<AuthMethod> = Vec::new();
        auth_methods.push(
            AuthMethod {
                id: String::from_str("chatgpt"),
                name: String::from_str("ChatGPT"),
                description: Some(String::from_str("Sign in with ChatGPT to use your plan")),
            },
        );
        auth_methods.push(
            AuthMethod {
                id: String::from_str("apikey"),
                name: String::from_str("OpenAI API Key"),
                description: Some(
                    String::from_str("Use OPENAI_API_KEY from environment or auth.json"),
                ),
            },
        );
        if crate::presets::is_custom_provider(self.config.model_provider_id.as_str()) {
            let description = String::from_str("Authenticate with custom provider: ").concat(
                self.config.model_provider_id.as_str(),
            );
            auth_methods.push(
                AuthMethod {
                    id: self.config.model_provider_id.clone(),
                    name: self.config.model_provider_name.clone(),
                    description: Some(description),
                },
            );
        }
        InitializeResponse {
            auth_methods,
            prompt_image: true,
            prompt_audio: false,
            prompt_embedded_context: true,
            mcp_http: true,
            mcp_sse: true,
            load_session: false,
        }
    }

    /// Decide an authentication request against the credential snapshot the
    /// caller took after reloading the credential store. The API-key method
    /// needs any credential; the ChatGPT method needs a ChatGPT login; the
    /// custom-provider method needs a custom, configured provider and any
    /// credential; every other method id is invalid.
    pub fn authenticate(&self, method_id: &str, auth: AuthSnapshot) -> (r: Result<(), AcpError>)
        requires
            self.config.wf(),
        ensures
            match r {
                Ok(()) => {
                    ||| (method_id@ == "apikey"@ && auth.present)
                    ||| (method_id@ == "chatgpt"@ && auth.present && auth.chatgpt)
                    ||| (method_id@ == "custom_provider"@ && self.config.model_provider_id@
                        != "openai"@ && self.config.has_provider(self.config.model_provider_id@)
                        && auth.present)
                },
                Err(e) => {
                    &&& (method_id@ == "apikey"@ ==> !auth.present && e
                        matches AcpError::AuthRequired(_))
                    &&& (method_id@ == "chatgpt"@ ==> !(auth.present && auth.chatgpt) && e
                        matches AcpError::AuthRequired(_))
                    &&& (method_id@ == "custom_provider"@ ==> (if self.config.model_provider_id@
                        == "openai"@ {
                        e matches AcpError::InvalidParams(_)
                    } else {
                        (!self.config.has_provider(self.config.model_provider_id@)
                            || !auth.present) && e matches AcpError::AuthRequired(_)
                    }))
                    &&& (method_id@ != "apikey"@ && method_id@ != "chatgpt"@ && method_id@
                        != "custom_provider"@ ==> e matches AcpError::InvalidParams(_))
                },
            },
    {
        proof {
            // The three method names have pairwise different lengths, so the
            // branches below are mutually exclusive.
            reveal_strlit("apikey");
            reveal_strlit("chatgpt");
            reveal_strlit("custom_provider");
            assert("apikey"@.len() == 6);
            assert("chatgpt"@.len() == 7);
            assert("custom_provider"@.len() == 15);
        }
        if crate::text::str_eq(method_id, "apikey") {
            if auth.present {
                Ok(())
            } else {
                Err(AcpError::AuthRequired(String::from_str("Failed to load API key auth")))
            }
        } else if crate::text::str_eq(method_id, "chatgpt") {
            if auth.present && auth.chatgpt {
                Ok(())
            } else {
                Err(
                    AcpError::AuthRequired(
                        String::from_str(
                            "ChatGPT login not found. Run `codex login` to connect your plan.",
                        ),
                    ),
                )
            }
        } else if crate::text::str_eq(method_id, "custom_provider") {
            if !crate::presets::is_custom_provider(self.config.model_provider_id.as_str()) {
                Err(
                    AcpError::InvalidParams(
                        String::from_str(
                            "Custom provider auth method is only available for custom providers",
                        ),
                    ),
                )
            } else if self.config.find_provider(
                self.config.model_provider_id.as_str(),
            ).is_none() {
                Err(
                    AcpError::AuthRequired(
                        String::from_str(
                            "Custom provider is not configured in model_providers",
                        ),
                    ),
                )
            } else if auth.present {
                Ok(())
            } else {
                Err(
                    AcpError::AuthRequired(
                        String::from_str(
                            "Custom provider requires authentication. Please configure API credentials in your Codex config.",
                        ),
                    ),
                )
            }
        } else {
            Err(AcpError::InvalidParams(String::from_str("unknown auth method")))
        }
    }

    /// Register a session the engine just created under its conversation
    /// id, give it a fresh secondary id for the filesystem bridge, and
    /// report the mode and model state to advertise. The session's mode is
    /// the configuration's preset, or the automatic preset when the
    /// configured settings match none; models are advertised only for a
    /// custom provider.
    pub fn new_session(&mut self, conversation_id: String) -> (r: Result<
        NewSessionResult,
        AcpError,
    >)
        requires
            old(self).session_manager.wf(),
            old(self).config.wf(),
        ensures
            final(self).session_manager.wf(),
            final(self).config == old(self).config,
            final(self).profiles == old(self).profiles,
            final(self).session_manager.caps_view() == old(self).session_manager.caps_view(),
            match r {
                Ok(res) => {
                    &&& !old(self).session_manager.has_primary(conversation_id@)
                    &&& res.session_id@ == conversation_id@
                    &&& res.fs_session_id@.len() == 36
                    &&& final(self).session_manager.sessions_view() == old(self).session_manager.sessions_view().push(
                        (res.session_id, final(self).session_manager.sessions_view().last().1),
                    )
                    &&& ({
                        let st = final(self).session_manager.sessions_view().last().1;
                        &&& st.fs_session_id@ == res.fs_session_id@
                        &&& st.conversation
                        &&& st.current_approval == old(self).config.approval_policy
                        &&& st.current_sandbox == old(self).config.sandbox_policy
                        &&& st.current_mode@ == (match mode_for_settings(
                            old(self).config.approval_policy,
                            old(self).config.sandbox_policy,
                        ) {
                            Some(m) => m,
                            None => "auto"@,
                        })
                        &&& (st.current_model matches Some(m) && m@ == config_model_id(
                            old(self).config,
                        ))
                        &&& st.current_effort == old(self).config.model_reasoning_effort
                        &&& st.token_usage is None
                    })
                    &&& (match res.modes {
                        Some(ms) => mode_for_settings(
                            old(self).config.approval_policy,
                            old(self).config.sandbox_policy,
                        ) == Some(ms.current_mode_id@) && modes_list_ok(ms.available_modes@),
                        None => mode_for_settings(
                            old(self).config.approval_policy,
                            old(self).config.sandbox_policy,
                        ) is None,
                    })
                    &&& (match res.models {
                        Some(ms) => old(self).config.model_provider_id@ != "openai"@
                            && ms.current_model_id@ == config_model_id(old(self).config)
                            && models_list_ok(
                            old(self).config,
                            old(self).profiles@,
                            ms.available_models@,
                        ),
                        None => old(self).config.model_provider_id@ == "openai"@,
                    })
                    &&& res.available_commands@.len() == 2
                },
                Err(e) => {
                    &&& old(self).session_manager.has_primary(conversation_id@)
                    &&& e matches AcpError::InvalidParams(_)
                    &&& final(self).session_manager.sessions_view() == old(self).session_manager.sessions_view()
                },
            },
    {
        let fs_session_id = fresh_secondary_id();
        let modes = session_modes_for_config(&self.config);
        let current_mode = match &modes {
            Some(m) => m.current_mode_id.clone(),
            None => String::from_str("auto"),
        };
        let state = SessionState::new(fs_session_id.clone(), true, &self.config, current_mode);
        let session_id = conversation_id.clone();
        if !self.session_manager.create(conversation_id, state) {
            return Err(AcpError::InvalidParams(String::from_str("session already exists")));
        }
        let models = if crate::presets::is_custom_provider(self.config.model_provider_id.as_str()) {
            Some(
                SessionModelState {
                    current_model_id: current_model_id_from_config(&self.config),
                    available_models: available_models_from_profiles(&self.config, &self.profiles),
                },
            )
        } else {
            None
        };
        Ok(
            NewSessionResult {
                session_id,
                fs_session_id,
                modes,
                models,
                available_commands: available_slash_commands(),
            },
        )
    }

    /// Report an existing session's mode and model state. The stored model
    /// is preferred; without one the configuration's selection is shown.
    pub fn load_session(&self, session_id: &str) -> (r: Result<LoadSessionView, AcpError>)
        requires
            self.session_manager.wf(),
            self.config.wf(),
        ensures
            match r {
                Ok(v) => {
                    &&& self.session_manager.has_primary(session_id@)
                    &&& v.current_mode_id@ == self.session_manager.session_at(
                        session_id@,
                    ).current_mode@
                    &&& modes_list_ok(v.available_modes@)
                    &&& (match v.models {
                        Some(ms) => self.config.model_provider_id@ != "openai"@
                            && ms.current_model_id@ == (match self.session_manager.session_at(
                            session_id@,
                        ).current_model {
                            Some(m) => m@,
                            None => config_model_id(self.config),
                        }) && models_list_ok(self.config, self.profiles@, ms.available_models@),
                        None => self.config.model_provider_id@ == "openai"@,
                    })
                },
                Err(e) => !self.session_manager.has_primary(session_id@) && e
                    matches AcpError::InvalidParams(_),
            },
    {
        let (current_mode, current_model) = match self.session_manager.get(session_id) {
            Some(state) => {
                let model = match &state.current_model {
                    Some(m) => Some(m.clone()),
                    None => None,
                };
                (state.current_mode.clone(), model)
            },
            None => {
                return Err(AcpError::InvalidParams(String::from_str("session not found")));
            },
        };
        let current_model_id = match current_model {
            Some(stored) => stored,
            None => current_model_id_from_config(&self.config),
        };
        let models = if crate::presets::is_custom_provider(self.config.model_provider_id.as_str()) {
            Some(
                SessionModelState {
                    current_model_id,
                    available_models: available_models_from_profiles(&self.config, &self.profiles),
                },
            )
        } else {
            None
        };
        Ok(
            LoadSessionView {
                current_mode_id: current_mode,
                available_modes: available_modes(),
                models,
            },
        )
    }

    /// Change a session's mode: replace the approval policy, sandbox policy
    /// and mode id together with the requested preset, leaving the model
    /// selection untouched, and return the turn-context override the caller
    /// must submit to the engine.
    ///
    /// The store is updated before the caller submits the returned
    /// override; if the engine then rejects the submission, the caller must
    /// surface that failure itself — the stored state already reflects the
    /// change.
    pub fn set_session_mode(&mut self, session_id: &str, mode_id: &str) -> (r: Result<
        EngineOp,
        AcpError,
    >)
        requires
            old(self).session_manager.wf(),
        ensures
            final(self).session_manager.wf(),
            final(self).config == old(self).config,
            final(self).profiles == old(self).profiles,
            final(self).session_manager.caps_view() == old(self).session_manager.caps_view(),
            match r {
                Ok(op) => {
                    &&& preset_for_mode(mode_id@) is Some
                    &&& old(self).session_manager.has_primary(session_id@)
                    &&& ({
                        let preset = preset_for_mode(mode_id@)->Some_0;
                        let i = old(self).session_manager.primary_index(session_id@);
                        let before = old(self).session_manager.sessions_view()[i].1;
                        let after = final(self).session_manager.sessions_view()[i].1;
                        &&& final(self).session_manager.sessions_view().len() == old(self).session_manager.sessions_view().len()
                        &&& (forall|j: int|
                            0 <= j < old(self).session_manager.sessions_view().len() && j != i
                                ==> final(self).session_manager.sessions_view()[j] == old(self).session_manager.sessions_view()[j])
                        &&& final(self).session_manager.sessions_view()[i].0 == old(self).session_manager.sessions_view()[i].0
                        &&& after.current_approval == preset.0
                        &&& after.current_sandbox == preset.1
                        &&& after.current_mode@ == mode_id@
                        &&& after.current_model == before.current_model
                        &&& after.current_effort == before.current_effort
                        &&& after.fs_session_id == before.fs_session_id
                        &&& after.conversation == before.conversation
                        &&& after.token_usage == before.token_usage
                        &&& (op matches EngineOp::OverrideTurnContext {
                            approval_policy,
                            sandbox_policy,
                            model,
                            effort,
                            cwd,
                            summary,
                        } && approval_policy == Some(preset.0) && sandbox_policy == Some(preset.1)
                            && (match model {
                            Some(m) => before.current_model matches Some(bm) && bm@ == m@,
                            None => before.current_model is None,
                        }) && effort == Some(before.current_effort) && cwd is None
                            && summary is None)
                    })
                },
                Err(e) => {
                    &&& (preset_for_mode(mode_id@) is None || !old(self).session_manager.has_primary(session_id@))
                    &&& e matches AcpError::InvalidParams(_)
                    &&& final(self).session_manager.sessions_view() == old(self).session_manager.sessions_view()
                },
            },
    {
        let preset = match find_preset_by_mode_id(mode_id) {
            Some(p) => p,
            None => {
                return Err(AcpError::InvalidParams(String::from_str("invalid mode id")));
            },
        };
        let (model, effort) = match self.session_manager.get(session_id) {
            Some(state) => {
                let model = match &state.current_model {
                    Some(m) => Some(m.clone()),
                    None => None,
                };
                (model, state.current_effort)
            },
            None => {
                return Err(AcpError::InvalidParams(String::from_str("session not found")));
            },
        };
        let op = EngineOp::OverrideTurnContext {
            approval_policy: Some(preset.approval),
            sandbox_policy: Some(preset.sandbox),
            model,
            effort: Some(effort),
            cwd: None,
            summary: None,
        };
        let updated = self.session_manager.set_mode_state(
            session_id,
            String::from_str(mode_id),
            preset.approval,
            preset.sandbox,
        );
        assert(updated);
        Ok(op)
    }

    /// Change a session's model: only for a custom provider, only to a
    /// custom provider's model that the configuration or a profile knows.
    /// The model id and reasoning effort are replaced together, the
    /// approval and sandbox policies are left untouched, and the
    /// turn-context override the caller must submit is returned.
    ///
    /// The store is updated before the caller submits the returned
    /// override; if the engine then rejects the submission, the caller must
    /// surface that failure itself — the stored state already reflects the
    /// change.
    pub fn set_session_model(&mut self, session_id: &str, model_id: &str) -> (r: Result<
        EngineOp,
        AcpError,
    >)
        requires
            old(self).session_manager.wf(),
            old(self).config.wf(),
        ensures
            final(self).session_manager.wf(),
            final(self).config == old(self).config,
            final(self).profiles == old(self).profiles,
            final(self).session_manager.caps_view() == old(self).session_manager.caps_view(),
            old(self).config.model_provider_id@ == "openai"@ ==> r is Err && final(self).session_manager.sessions_view() == old(self).session_manager.sessions_view(),
            match r {
                Ok(op) => {
                    &&& old(self).config.model_provider_id@ != "openai"@
                    &&& old(self).session_manager.has_primary(session_id@)
                    &&& ({
                        let i = old(self).session_manager.primary_index(session_id@);
                        let before = old(self).session_manager.sessions_view()[i].1;
                        let after = final(self).session_manager.sessions_view()[i].1;
                        exists|pid: Seq<char>, m: Seq<char>|
                            {
                                &&& #[trigger] split_once_spec(model_id@, '@') == Some((pid, m))
                                &&& pid != "openai"@
                                &&& old(self).config.has_provider(pid)
                                &&& final(self).session_manager.sessions_view().len() == old(self).session_manager.sessions_view().len()
                                &&& (forall|j: int|
                                    0 <= j < old(self).session_manager.sessions_view().len() && j
                                        != i ==> final(self).session_manager.sessions_view()[j]
                                        == old(self).session_manager.sessions_view()[j])
                                &&& final(self).session_manager.sessions_view()[i].0 == old(self).session_manager.sessions_view()[i].0
                                &&& (after.current_model matches Some(am) && am@ == pid + "@"@ + m)
                                &&& after.current_approval == before.current_approval
                                &&& after.current_sandbox == before.current_sandbox
                                &&& after.current_mode == before.current_mode
                                &&& after.fs_session_id == before.fs_session_id
                                &&& after.conversation == before.conversation
                                &&& after.token_usage == before.token_usage
                                &&& (if pid == old(self).config.model_provider_id@ && m == old(self).config.model@ {
                                    after.current_effort == old(self).config.model_reasoning_effort
                                } else {
                                    exists|pi: int|
                                        {
                                            &&& 0 <= pi < old(self).profiles@.len()
                                            &&& profile_matches(
                                                (#[trigger] old(self).profiles@[pi]).1,
                                                pid,
                                                m,
                                            )
                                            &&& old(self).profiles@[pi].1.model_reasoning_effort
                                                == after.current_effort
                                            &&& forall|pj: int|
                                                0 <= pj < pi ==> !profile_matches(
                                                    (#[trigger] old(self).profiles@[pj]).1,
                                                    pid,
                                                    m,
                                                )
                                        }
                                })
                                &&& (op matches EngineOp::OverrideTurnContext {
                                    approval_policy,
                                    sandbox_policy,
                                    model,
                                    effort,
                                    cwd,
                                    summary,
                                } && approval_policy == Some(before.current_approval)
                                    && sandbox_policy == Some(before.current_sandbox) && (model
                                    matches Some(ms) && ms@ == pid + "@"@ + m) && effort == Some(
                                    after.current_effort,
                                ) && cwd is None && summary is None)
                            }
                    })
                },
                Err(e) => {
                    &&& ({
                        ||| old(self).config.model_provider_id@ == "openai"@
                        ||| !model_id_resolvable(
                            old(self).config,
                            old(self).profiles@,
                            model_id@,
                        )
                        ||| (split_once_spec(model_id@, '@') matches Some(sp) && sp.0
                            == "openai"@)
                        ||| !old(self).session_manager.has_primary(session_id@)
                    })
                    &&& e matches AcpError::InvalidParams(_)
                    &&& final(self).session_manager.sessions_view() == old(self).session_manager.sessions_view()
                },
            },
    {
        if !crate::presets::is_custom_provider(self.config.model_provider_id.as_str()) {
            return Err(
                AcpError::InvalidParams(
                    String::from_str(
                        "set_session_model is only available when using a custom provider",
                    ),
                ),
            );
        }
        let (provider_id, model_name, effort) = match parse_and_validate_model(
            &self.config,
            &self.profiles,
            model_id,
        ) {
            Some(parts) => parts,
            None => {
                return Err(
                    AcpError::InvalidParams(
                        String::from_str("invalid model id format or provider/model not found"),
                    ),
                );
            },
        };
        if !crate::presets::is_custom_provider(provider_id.as_str()) {
            return Err(
                AcpError::InvalidParams(
                    String::from_str("Cannot switch to a builtin provider model"),
                ),
            );
        }
        let (approval, sandbox) = match self.session_manager.get(session_id) {
            Some(state) => (state.current_approval, state.current_sandbox),
            None => {
                return Err(AcpError::InvalidParams(String::from_str("session not found")));
            },
        };
        let new_model = provider_id.clone().concat("@").concat(model_name.as_str());
        let op = EngineOp::OverrideTurnContext {
            approval_policy: Some(approval),
            sandbox_policy: Some(sandbox),
            model: Some(new_model.clone()),
            effort: Some(effort),
            cwd: None,
            summary: None,
        };
        let updated = self.session_manager.set_model_state(session_id, new_model, effort);
        assert(updated);
        proof {
            assert(split_once_spec(model_id@, '@') == Some((provider_id@, model_name@)));
        }
        Ok(op)
    }

    /// Decide how a prompt turn starts for this session: an error when the
    /// session is unknown, a consumed slash directive that ends the turn at
    /// once with no engine operation, or the user-input operation to
    /// submit.
    pub fn start_prompt(&self, session_id: &str, prompt: &Vec<ContentBlock>) -> (r: Result<
        PromptStart,
        AcpError,
    >)
        requires
            self.session_manager.wf(),
        ensures
            match r {
                Ok(start) => {
                    &&& self.session_manager.has_primary(session_id@)
                    &&& ({
                        let directive = if prompt@.len() > 0 {
                            match prompt@[0] {
                                ContentBlock::Text { text } => crate::turn::slash_name_spec(
                                    text@,
                                ),
                                _ => None,
                            }
                        } else {
                            None
                        };
                        match directive {
                            Some(_) => start is Directive,
                            None => start matches PromptStart::Submit { op } && (op
                                matches EngineOp::UserInput { items } && crate::turn::inputs_view(
                                items@,
                            ) == crate::turn::inputs_for_blocks(prompt@)),
                        }
                    })
                },
                Err(e) => !self.session_manager.has_primary(session_id@) && e
                    matches AcpError::InvalidParams(_),
            },
    {
        match self.session_manager.get_conversation(session_id) {
            Ok(_) => {},
            Err(e) => {
                return Err(e);
            },
        }
        match begin_turn(prompt) {
            TurnStart::Directive { name: _ } => Ok(PromptStart::Directive),
            TurnStart::Submit { op } => Ok(PromptStart::Submit { op }),
        }
    }

    /// The state machine for one prompt turn, once the caller has submitted
    /// the operation and knows its correlation id.
    pub fn prompt_machine(&self, session_id: String, submit_id: String) -> (r: TurnMachine)
        ensures
            r.session_id@ == session_id@,
            r.submit_id@ == submit_id@,
            r.handler.cwd@ == self.config.cwd@,
            r.handler.support_terminal == self.session_manager.caps_view().terminal,
            r.reason.is_drained(),
            !r.saw_message_delta,
            r.phase is Streaming,
    {
        TurnMachine::new(
            session_id,
            submit_id,
            self.config.cwd.clone(),
            self.session_manager.support_terminal(),
        )
    }

    /// Cancel a session's in-flight turn: an interrupt operation for the
    /// caller to submit. Cancellation is cooperative — the turn itself still
    /// ends through its terminal event.
    pub fn cancel(&self, session_id: &str) -> (r: Result<EngineOp, AcpError>)
        requires
            self.session_manager.wf(),
        ensures
            match r {
                Ok(op) => self.session_manager.has_primary(session_id@) && op
                    matches EngineOp::Interrupt,
                Err(e) => !self.session_manager.has_primary(session_id@) && e
                    matches AcpError::InvalidParams(_),
            },
    {
        match self.session_manager.get_conversation(session_id) {
            Ok(_) => Ok(EngineOp::Interrupt),
            Err(e) => Err(e),
        }
    }

    /// Whether the session's engine handle must still be loaded, under the
    /// session's primary id.
    pub fn conversation_access(&self, session_id: &str) -> (r: Result<ConversationAccess, AcpError>)
        requires
            self.session_manager.wf(),
        ensures
            match r {
                Ok(a) => self.session_manager.has_primary(session_id@) && a == (
                if self.session_manager.session_at(session_id@).conversation {
                    ConversationAccess::Cached
                } else {
                    ConversationAccess::MustLoad
                }),
                Err(e) => !self.session_manager.has_primary(session_id@) && e
                    matches AcpError::InvalidParams(_),
            },
    {
        self.session_manager.get_conversation(session_id)
    }
}

} // verus!
