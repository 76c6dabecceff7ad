//! Per-session state and the store that owns it.
//!
//! The store maps a primary (engine-assigned) session id to the session's
//! state. A session can also be resolved through its secondary id, the one
//! handed to the collaborating filesystem bridge. All mutation goes through
//! the store's methods, so a reader never observes a partially updated
//! session: the mode/approval/sandbox triple and the model/effort pair each
//! change together.

use vstd::prelude::*;
use vstd::string::*;
use crate::config::{ApprovalPolicy, Config, ReasoningEffort, SandboxPolicy};
use crate::protocol::{AcpError, TokenUsage};
use crate::text::str_eq;

verus! {

/// What the client negotiated at initialization.
#[derive(Clone, Copy, PartialEq, Eq, Structural, Debug)]
pub struct ClientCapabilities {
    pub read_text_file: bool,
    pub write_text_file: bool,
    pub terminal: bool,
}

/// The state of one session.
pub struct SessionState {
    /// The secondary id, used by the filesystem bridge.
    pub fs_session_id: String,
    /// Whether an engine conversation handle is bound to this session.
    pub conversation: bool,
    pub current_approval: ApprovalPolicy,
    pub current_sandbox: SandboxPolicy,
    pub current_mode: String,
    pub current_model: Option<String>,
    pub current_effort: Option<ReasoningEffort>,
    pub token_usage: Option<TokenUsage>,
}

impl SessionState {
    /// A fresh session state initialized from the configuration.
    pub fn new(
        fs_session_id: String,
        conversation: bool,
        config: &Config,
        current_mode: String,
    ) -> (r: SessionState)
        ensures
            r.fs_session_id@ == fs_session_id@,
            r.conversation == conversation,
            r.current_approval == config.approval_policy,
            r.current_sandbox == config.sandbox_policy,
            r.current_mode@ == current_mode@,
            r.current_model matches Some(m) && m@ == config.model_provider_id@ + "@"@
                + config.model@,
            r.current_effort == config.model_reasoning_effort,
            r.token_usage is None,
    {
        let model = config.model_provider_id.clone().concat("@").concat(config.model.as_str());
        SessionState {
            fs_session_id,
            conversation,
            current_approval: config.approval_policy,
            current_sandbox: config.sandbox_policy,
            current_mode,
            current_model: Some(model),
            current_effort: config.model_reasoning_effort,
            token_usage: None,
        }
    }
}

/// Whether a cached engine handle exists for a session, or one must first be
/// requested from the engine under the session's primary id.
#[derive(Clone, Copy, PartialEq, Eq, Structural, Debug)]
pub enum ConversationAccess {
    Cached,
    MustLoad,
}

/// The store of all sessions, keyed by primary id.
pub struct SessionManager {
    sessions: Vec<(String, SessionState)>,
    client_capabilities: ClientCapabilities,
}

impl SessionManager {
    /// The sessions, in insertion order, each with its primary id.
    pub closed spec fn sessions_view(self) -> Seq<(String, SessionState)> {
        self.sessions@
    }

    /// The negotiated client capabilities.
    pub closed spec fn caps_view(self) -> ClientCapabilities {
        self.client_capabilities
    }

    /// Primary ids are unique.
    pub open spec fn wf(self) -> bool {
        forall|i: int, j: int|
            0 <= i < j < self.sessions_view().len() ==> (#[trigger] self.sessions_view()[i]).0@
                != (#[trigger] self.sessions_view()[j]).0@
    }

    /// Whether some session has this primary id.
    pub open spec fn has_primary(self, id: Seq<char>) -> bool {
        exists|i: int|
            0 <= i < self.sessions_view().len() && (#[trigger] self.sessions_view()[i]).0@ == id
    }

    /// The index of the session with this primary id.
    pub open spec fn primary_index(self, id: Seq<char>) -> int {
        choose|i: int|
            0 <= i < self.sessions_view().len() && (#[trigger] self.sessions_view()[i]).0@ == id
    }

    /// The state of the session with this primary id.
    pub open spec fn session_at(self, id: Seq<char>) -> SessionState {
        self.sessions_view()[self.primary_index(id)].1
    }

    /// Whether some session has this secondary id.
    pub open spec fn has_secondary(self, id: Seq<char>) -> bool {
        exists|i: int|
            0 <= i < self.sessions_view().len() && (
            #[trigger] self.sessions_view()[i]).1.fs_session_id@ == id
    }

    /// Under `wf`, any index whose primary id matches is the primary index.
    pub proof fn lemma_primary_unique(self, id: Seq<char>, i: int)
        requires
            self.wf(),
            0 <= i < self.sessions_view().len(),
            self.sessions_view()[i].0@ == id,
        ensures
            self.has_primary(id),
            self.primary_index(id) == i,
    {
        let j = self.primary_index(id);
        if i < j {
            assert(self.sessions_view()[i].0@ != self.sessions_view()[j].0@);
        } else if j < i {
            assert(self.sessions_view()[j].0@ != self.sessions_view()[i].0@);
        }
    }

    /// An empty store.
    pub fn new() -> (r: SessionManager)
        ensures
            r.wf(),
            r.sessions_view().len() == 0,
            r.caps_view() == (ClientCapabilities {
                read_text_file: false,
                write_text_file: false,
                terminal: false,
            }),
    {
        SessionManager {
            sessions: Vec::new(),
            client_capabilities: ClientCapabilities {
                read_text_file: false,
                write_text_file: false,
                terminal: false,
            },
        }
    }

    /// Direct read access to the sessions.
    pub fn sessions(&self) -> (r: &Vec<(String, SessionState)>)
        ensures
            r@ == self.sessions_view(),
    {
        &self.sessions
    }

    /// The index of the session with this primary id, by exact match.
    fn index_of_primary(&self, session_id: &str) -> (r: Option<usize>)
        ensures
            match r {
                Some(i) => i < self.sessions_view().len() && self.sessions_view()[
                    i as int
                ].0@ == session_id@,
                None => !self.has_primary(session_id@),
            },
    {
        let n = self.sessions.len();
        let mut i: usize = 0;
        while i < n
            invariant
                i <= n,
                n == self.sessions_view().len(),
                forall|j: int|
                    0 <= j < i ==> (#[trigger] self.sessions_view()[j]).0@ != session_id@,
            decreases n - i,
        {
            if str_eq(self.sessions[i].0.as_str(), session_id) {
                return Some(i);
            }
            i = i + 1;
        }
        None
    }

    /// Insert a new session under its primary id; fails when the id is
    /// already present.
    pub fn create(&mut self, acp_session_id: String, state: SessionState) -> (ok: bool)
        requires
            old(self).wf(),
        ensures
            final(self).wf(),
            ok == !old(self).has_primary(acp_session_id@),
            final(self).caps_view() == old(self).caps_view(),
            !ok ==> final(self).sessions_view() == old(self).sessions_view(),
            ok ==> final(self).sessions_view() == old(self).sessions_view().push(
                (acp_session_id, state),
            ),
    {
        if self.index_of_primary(acp_session_id.as_str()).is_some() {
            return false;
        }
        proof {
            let ghost sv = self.sessions_view().push((acp_session_id, state));
            assert forall|i: int, j: int| 0 <= i < j < sv.len() implies (#[trigger] sv[i]).0@ != (
            #[trigger] sv[j]).0@ by {
                if j == sv.len() - 1 {
                    assert(!self.has_primary(acp_session_id@));
                    assert(self.sessions_view()[i].0@ != acp_session_id@);
                }
            }
        }
        self.sessions.push((acp_session_id, state));
        true
    }

    /// Exact lookup by primary id.
    pub fn get(&self, session_id: &str) -> (r: Option<&SessionState>)
        requires
            self.wf(),
        ensures
            match r {
                Some(s) => self.has_primary(session_id@) && *s == self.session_at(session_id@),
                None => !self.has_primary(session_id@),
            },
    {
        match self.index_of_primary(session_id) {
            Some(i) => {
                proof {
                    self.lemma_primary_unique(session_id@, i as int);
                }
                Some(&self.sessions[i].1)
            },
            None => None,
        }
    }

    /// Lookup by primary id first, else by secondary id.
    pub fn resolve(&self, session_id: &str) -> (r: Option<&SessionState>)
        requires
            self.wf(),
        ensures
            match r {
                Some(s) => if self.has_primary(session_id@) {
                    *s == self.session_at(session_id@)
                } else {
                    exists|i: int|
                        0 <= i < self.sessions_view().len() && (
                        #[trigger] self.sessions_view()[i]).1.fs_session_id@ == session_id@
                            && self.sessions_view()[i].1 == *s
                },
                None => !self.has_primary(session_id@) && !self.has_secondary(session_id@),
            },
    {
        match self.index_of_primary(session_id) {
            Some(i) => {
                proof {
                    self.lemma_primary_unique(session_id@, i as int);
                }
                Some(&self.sessions[i].1)
            },
            None => {
                let n = self.sessions.len();
                let mut i: usize = 0;
                while i < n
                    invariant
                        i <= n,
                        n == self.sessions_view().len(),
                        !self.has_primary(session_id@),
                        forall|j: int|
                            0 <= j < i ==> (
                            #[trigger] self.sessions_view()[j]).1.fs_session_id@ != session_id@,
                    decreases n - i,
                {
                    if str_eq(self.sessions[i].1.fs_session_id.as_str(), session_id) {
                        proof {
                            assert((#[trigger] self.sessions_view()[i as int]).1.fs_session_id@
                                == session_id@);
                        }
                        return Some(&self.sessions[i].1);
                    }
                    i = i + 1;
                }
                None
            },
        }
    }

    /// Normalize a session reference: a primary id maps to itself, a
    /// secondary id maps to the primary id of the session that carries it.
    pub fn resolve_acp_session_id(&self, session_id: &str) -> (r: Option<String>)
        requires
            self.wf(),
        ensures
            match r {
                Some(pid) => if self.has_primary(session_id@) {
                    pid@ == session_id@
                } else {
                    exists|i: int|
                        0 <= i < self.sessions_view().len() && (
                        #[trigger] self.sessions_view()[i]).1.fs_session_id@ == session_id@
                            && self.sessions_view()[i].0@ == pid@
                },
                None => !self.has_primary(session_id@) && !self.has_secondary(session_id@),
            },
    {
        match self.index_of_primary(session_id) {
            Some(_) => Some(String::from_str(session_id)),
            None => {
                let n = self.sessions.len();
                let mut i: usize = 0;
                while i < n
                    invariant
                        i <= n,
                        n == self.sessions_view().len(),
                        !self.has_primary(session_id@),
                        forall|j: int|
                            0 <= j < i ==> (
                            #[trigger] self.sessions_view()[j]).1.fs_session_id@ != session_id@,
                    decreases n - i,
                {
                    if str_eq(self.sessions[i].1.fs_session_id.as_str(), session_id) {
                        proof {
                            assert((#[trigger] self.sessions_view()[i as int]).1.fs_session_id@
                                == session_id@);
                        }
                        return Some(self.sessions[i].0.clone());
                    }
                    i = i + 1;
                }
                None
            },
        }
    }

    /// The current mode of the session this id resolves to.
    pub fn current_mode(&self, session_id: &str) -> (r: Option<String>)
        requires
            self.wf(),
        ensures
            match r {
                Some(m) => if self.has_primary(session_id@) {
                    m@ == self.session_at(session_id@).current_mode@
                } else {
                    exists|i: int|
                        0 <= i < self.sessions_view().len() && (
                        #[trigger] self.sessions_view()[i]).1.fs_session_id@ == session_id@
                            && self.sessions_view()[i].1.current_mode@ == m@
                },
                None => !self.has_primary(session_id@) && !self.has_secondary(session_id@),
            },
    {
        match self.resolve(session_id) {
            Some(s) => Some(s.current_mode.clone()),
            None => None,
        }
    }

    /// Whether the session this id resolves to is in the read-only mode;
    /// `false` when the id resolves to no session.
    pub fn is_read_only(&self, session_id: &str) -> (r: bool)
        requires
            self.wf(),
        ensures
            self.has_primary(session_id@) ==> r == (self.session_at(session_id@).current_mode@
                == "read-only"@),
            !self.has_primary(session_id@) && !self.has_secondary(session_id@) ==> r == false,
            !self.has_primary(session_id@) && self.has_secondary(session_id@) ==> exists|i: int|
                0 <= i < self.sessions_view().len() && (
                #[trigger] self.sessions_view()[i]).1.fs_session_id@ == session_id@ && r == (
                self.sessions_view()[i].1.current_mode@ == "read-only"@),
    {
        match self.current_mode(session_id) {
            Some(mode) => crate::presets::is_read_only_mode(mode.as_str()),
            None => false,
        }
    }

    /// Whether the session's engine handle is cached or must be loaded;
    /// an invalid-parameters error when the primary id is unknown.
    pub fn get_conversation(&self, session_id: &str) -> (r: Result<ConversationAccess, AcpError>)
        requires
            self.wf(),
        ensures
            match r {
                Ok(a) => self.has_primary(session_id@) && a == (if self.session_at(
                    session_id@,
                ).conversation {
                    ConversationAccess::Cached
                } else {
                    ConversationAccess::MustLoad
                }),
                Err(e) => !self.has_primary(session_id@) && e matches AcpError::InvalidParams(_),
            },
    {
        match self.get(session_id) {
            Some(s) => if s.conversation {
                Ok(ConversationAccess::Cached)
            } else {
                Ok(ConversationAccess::MustLoad)
            },
            None => Err(AcpError::InvalidParams(String::from_str("session not found"))),
        }
    }

    /// Record that an engine handle is now bound to the session.
    pub fn bind_conversation(&mut self, session_id: &str) -> (ok: bool)
        requires
            old(self).wf(),
        ensures
            final(self).wf(),
            ok == old(self).has_primary(session_id@),
            final(self).caps_view() == old(self).caps_view(),
            final(self).sessions_view().len() == old(self).sessions_view().len(),
            !ok ==> final(self).sessions_view() == old(self).sessions_view(),
            ok ==> ({
                let i = old(self).primary_index(session_id@);
                &&& forall|j: int|
                    0 <= j < old(self).sessions_view().len() && j != i ==> final(self).sessions_view()[j] == old(self).sessions_view()[j]
                &&& final(self).sessions_view()[i].0 == old(self).sessions_view()[i].0
                &&& final(self).sessions_view()[i].1 == (SessionState {
                    conversation: true,
                    ..old(self).sessions_view()[i].1
                })
            }),
    {
        match self.index_of_primary(session_id) {
            Some(i) => {
                proof {
                    self.lemma_primary_unique(session_id@, i as int);
                }
                let mut entry = self.sessions.remove(i);
                entry.1.conversation = true;
                self.sessions.insert(i, entry);
                proof {
                    assert(self.sessions_view() =~= old(self).sessions_view().update(
                        i as int,
                        self.sessions_view()[i as int],
                    ));
                }
                true
            },
            None => false,
        }
    }

    /// Overwrite the session's token-usage snapshot.
    pub fn set_token_usage(&mut self, session_id: &str, usage: TokenUsage) -> (ok: bool)
        requires
            old(self).wf(),
        ensures
            final(self).wf(),
            ok == old(self).has_primary(session_id@),
            final(self).caps_view() == old(self).caps_view(),
            final(self).sessions_view().len() == old(self).sessions_view().len(),
            !ok ==> final(self).sessions_view() == old(self).sessions_view(),
            ok ==> ({
                let i = old(self).primary_index(session_id@);
                &&& forall|j: int|
                    0 <= j < old(self).sessions_view().len() && j != i ==> final(self).sessions_view()[j] == old(self).sessions_view()[j]
                &&& final(self).sessions_view()[i].0 == old(self).sessions_view()[i].0
                &&& final(self).sessions_view()[i].1 == (SessionState {
                    token_usage: Some(usage),
                    ..old(self).sessions_view()[i].1
                })
            }),
    {
        match self.index_of_primary(session_id) {
            Some(i) => {
                proof {
                    self.lemma_primary_unique(session_id@, i as int);
                }
                let mut entry = self.sessions.remove(i);
                entry.1.token_usage = Some(usage);
                self.sessions.insert(i, entry);
                proof {
                    assert(self.sessions_view() =~= old(self).sessions_view().update(
                        i as int,
                        self.sessions_view()[i as int],
                    ));
                }
                true
            },
            None => false,
        }
    }

    /// Atomically replace the mode triple (mode id, approval policy, sandbox
    /// policy), leaving the model selection and everything else unchanged.
    pub fn set_mode_state(
        &mut self,
        session_id: &str,
        mode: String,
        approval: ApprovalPolicy,
        sandbox: SandboxPolicy,
    ) -> (ok: bool)
        requires
            old(self).wf(),
        ensures
            final(self).wf(),
            ok == old(self).has_primary(session_id@),
            final(self).caps_view() == old(self).caps_view(),
            final(self).sessions_view().len() == old(self).sessions_view().len(),
            !ok ==> final(self).sessions_view() == old(self).sessions_view(),
            ok ==> ({
                let i = old(self).primary_index(session_id@);
                &&& forall|j: int|
                    0 <= j < old(self).sessions_view().len() && j != i ==> final(self).sessions_view()[j] == old(self).sessions_view()[j]
                &&& final(self).sessions_view()[i].0 == old(self).sessions_view()[i].0
                &&& final(self).sessions_view()[i].1 == (SessionState {
                    current_mode: mode,
                    current_approval: approval,
                    current_sandbox: sandbox,
                    ..old(self).sessions_view()[i].1
                })
            }),
    {
        match self.index_of_primary(session_id) {
            Some(i) => {
                proof {
                    self.lemma_primary_unique(session_id@, i as int);
                }
                let mut entry = self.sessions.remove(i);
                entry.1.current_mode = mode;
                entry.1.current_approval = approval;
                entry.1.current_sandbox = sandbox;
                self.sessions.insert(i, entry);
                proof {
                    assert(self.sessions_view() =~= old(self).sessions_view().update(
                        i as int,
                        self.sessions_view()[i as int],
                    ));
                }
                true
            },
            None => false,
        }
    }

    /// Atomically replace the model selection (model id, reasoning effort),
    /// leaving the mode triple and everything else unchanged.
    pub fn set_model_state(
        &mut self,
        session_id: &str,
        model: String,
        effort: Option<ReasoningEffort>,
    ) -> (ok: bool)
        requires
            old(self).wf(),
        ensures
            final(self).wf(),
            ok == old(self).has_primary(session_id@),
            final(self).caps_view() == old(self).caps_view(),
            final(self).sessions_view().len() == old(self).sessions_view().len(),
            !ok ==> final(self).sessions_view() == old(self).sessions_view(),
            ok ==> ({
                let i = old(self).primary_index(session_id@);
                &&& forall|j: int|
                    0 <= j < old(self).sessions_view().len() && j != i ==> final(self).sessions_view()[j] == old(self).sessions_view()[j]
                &&& final(self).sessions_view()[i].0 == old(self).sessions_view()[i].0
                &&& final(self).sessions_view()[i].1 == (SessionState {
                    current_model: Some(model),
                    current_effort: effort,
                    ..old(self).sessions_view()[i].1
                })
            }),
    {
        match self.index_of_primary(session_id) {
            Some(i) => {
                proof {
                    self.lemma_primary_unique(session_id@, i as int);
                }
                let mut entry = self.sessions.remove(i);
                entry.1.current_model = Some(model);
                entry.1.current_effort = effort;
                self.sessions.insert(i, entry);
                proof {
                    assert(self.sessions_view() =~= old(self).sessions_view().update(
                        i as int,
                        self.sessions_view()[i as int],
                    ));
                }
                true
            },
            None => false,
        }
    }

    /// Record the capabilities the client negotiated.
    pub fn set_client_capabilities(&mut self, capabilities: ClientCapabilities)
        ensures
            final(self).sessions_view() == old(self).sessions_view(),
            final(self).caps_view() == capabilities,
    {
        self.client_capabilities = capabilities;
    }

    /// The capabilities the client negotiated.
    pub fn client_capabilities(&self) -> (r: &ClientCapabilities)
        ensures
            *r == self.caps_view(),
    {
        &self.client_capabilities
    }

    /// Whether the client supports terminal output.
    pub fn support_terminal(&self) -> (r: bool)
        ensures
            r == self.caps_view().terminal,
    {
        self.client_capabilities.terminal
    }
}

/// Resolving by a session's secondary id designates the same session as
/// resolving by its primary id: when the secondary id of session `i` is not
/// itself any session's primary id and no other session carries the same
/// secondary id, both lookups lead to session `i` and nowhere else.
pub proof fn lemma_resolve_secondary_matches_primary(m: SessionManager, i: int)
    requires
        m.wf(),
        0 <= i < m.sessions_view().len(),
        !m.has_primary(m.sessions_view()[i].1.fs_session_id@),
        forall|j: int|
            0 <= j < m.sessions_view().len() && j != i ==> (
            #[trigger] m.sessions_view()[j]).1.fs_session_id@
                != m.sessions_view()[i].1.fs_session_id@,
    ensures
        m.has_primary(m.sessions_view()[i].0@),
        m.session_at(m.sessions_view()[i].0@) == m.sessions_view()[i].1,
        m.has_secondary(m.sessions_view()[i].1.fs_session_id@),
        forall|j: int|
            0 <= j < m.sessions_view().len() && (#[trigger] m.sessions_view()[j]).1.fs_session_id@
                == m.sessions_view()[i].1.fs_session_id@ ==> j == i,
{
    m.lemma_primary_unique(m.sessions_view()[i].0@, i);
}

} // verus!
