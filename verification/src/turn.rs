//! The per-prompt turn: building the submission from prompt content,
//! recognizing slash directives, and the streaming state machine that turns
//! engine events into ordered actions.
//!
//! The machine is pure: the caller submits the operation, pulls each engine
//! event, hands it to [`TurnMachine::handle_event`], and performs the
//! returned actions in order (sending updates through the acknowledged
//! delivery path, running permission round-trips, recording token usage).
//! Suspension and I/O live with the caller; every decision lives here.

use vstd::prelude::*;
use vstd::string::*;

use crate::protocol::{
    AvailableCommand, ClientUpdate, ContentBlock, EngineEvent, EngineEventMsg, EngineOp,
    PermissionOutcome, PermissionRequest, PlanItem, StopReason, TokenUsage, UserInput,
};
use crate::reasoning::{choose_spec, take_text_spec, ReasoningAggregator};
use crate::text::{
    is_blank, is_blank_str, is_ws, is_wschar, str_eq, trim_spec, trim_start_spec,
};
use crate::translate::{
    decision_for_outcome, exec_approval_request, exec_begin_update, exec_end_update,
    handle_response_outcome, mcp_begin_update, mcp_end_update, patch_approval_request,
    patch_end_update, plan_entries, plan_status_spec, web_search_begin_update,
    web_search_end_update, EventHandler, ExecEndArgs,
};

verus! {

// ---- Prompt content to engine input ----

/// The ghost shape of one user-input item.
pub enum UserInputView {
    Text { text: Seq<char> },
    Image { image_url: Seq<char> },
}

/// The ghost shape of an input item.
pub open spec fn user_input_view(u: UserInput) -> UserInputView {
    match u {
        UserInput::Text { text } => UserInputView::Text { text: text@ },
        UserInput::Image { image_url } => UserInputView::Image { image_url: image_url@ },
    }
}

/// The ghost shapes of a list of input items.
pub open spec fn inputs_view(items: Seq<UserInput>) -> Seq<UserInputView> {
    items.map_values(|u: UserInput| user_input_view(u))
}

/// What one content block contributes to the submission: text goes through,
/// an image becomes a data URL, an embedded text resource contributes its
/// text, a resource link becomes a `Resource:` line, and unsupported kinds
/// (audio, non-text resources) contribute nothing.
pub open spec fn input_for_block(b: ContentBlock) -> Option<UserInputView> {
    match b {
        ContentBlock::Text { text } => Some(UserInputView::Text { text: text@ }),
        ContentBlock::Image { mime_type, data } => Some(
            UserInputView::Image { image_url: "data:"@ + mime_type@ + ";base64,"@ + data@ },
        ),
        ContentBlock::Audio => None,
        ContentBlock::Resource { text } => match text {
            Some(t) => Some(UserInputView::Text { text: t@ }),
            None => None,
        },
        ContentBlock::ResourceLink { uri } => Some(
            UserInputView::Text { text: "Resource: "@ + uri@ },
        ),
    }
}

/// What a whole prompt contributes, in order, skipping unsupported blocks.
pub open spec fn inputs_for_blocks(blocks: Seq<ContentBlock>) -> Seq<UserInputView>
    decreases blocks.len(),
{
    if blocks.len() == 0 {
        Seq::empty()
    } else {
        let rest = inputs_for_blocks(blocks.drop_last());
        match input_for_block(blocks.last()) {
            Some(u) => rest.push(u),
            None => rest,
        }
    }
}

/// Build the user-input items a prompt submits to the engine.
pub fn build_user_inputs(blocks: &Vec<ContentBlock>) -> (r: Vec<UserInput>)
    ensures
        inputs_view(r@) == inputs_for_blocks(blocks@),
{
    let n = blocks.len();
    let mut r: Vec<UserInput> = Vec::new();
    let mut i: usize = 0;
    proof {
        assert(blocks@.subrange(0, 0) =~= Seq::<ContentBlock>::empty());
        assert(inputs_view(r@) =~= inputs_for_blocks(blocks@.subrange(0, 0)));
    }
    while i < n
        invariant
            i <= n,
            n == blocks@.len(),
            inputs_view(r@) == inputs_for_blocks(blocks@.subrange(0, i as int)),
        decreases n - i,
    {
        let ghost prefix = blocks@.subrange(0, i as int);
        let ghost next_prefix = blocks@.subrange(0, i as int + 1);
        proof {
            assert(next_prefix.drop_last() =~= prefix);
            assert(next_prefix.last() == blocks@[i as int]);
        }
        let b = &blocks[i];
        let ghost r_before = r@;
        match b {
            ContentBlock::Text { text } => {
                r.push(UserInput::Text { text: text.clone() });
            },
            ContentBlock::Image { mime_type, data } => {
                let url = String::from_str("data:").concat(mime_type.as_str()).concat(
                    ";base64,",
                ).concat(data.as_str());
                r.push(UserInput::Image { image_url: url });
            },
            ContentBlock::Audio => {},
            ContentBlock::Resource { text } => {
                match text {
                    Some(t) => {
                        r.push(UserInput::Text { text: t.clone() });
                    },
                    None => {},
                }
            },
            ContentBlock::ResourceLink { uri } => {
                let text = String::from_str("Resource: ").concat(uri.as_str());
                r.push(UserInput::Text { text });
            },
        }
        proof {
            match input_for_block(blocks@[i as int]) {
                Some(u) => {
                    assert(r@ == r_before.push(r@.last()));
                    assert(user_input_view(r@.last()) == u);
                    assert(inputs_view(r@) =~= inputs_view(r_before).push(u));
                },
                None => {
                    assert(r@ == r_before);
                },
            }
        }
        i = i + 1;
    }
    proof {
        assert(blocks@.subrange(0, n as int) =~= blocks@);
    }
    r
}

// ---- Slash directives ----

/// The longest whitespace-free prefix of a sequence.
pub open spec fn take_until_ws(s: Seq<char>) -> Seq<char>
    decreases s.len(),
{
    if s.len() == 0 || is_wschar(s[0]) {
        Seq::empty()
    } else {
        seq![s[0]] + take_until_ws(s.drop_first())
    }
}

/// The name of the slash directive a prompt line carries: when the trimmed
/// line starts with `/`, the first whitespace-separated word after it
/// (possibly empty), else nothing.
pub open spec fn slash_name_spec(text: Seq<char>) -> Option<Seq<char>> {
    let line = trim_spec(text);
    if line.len() > 0 && line[0] == '/' {
        Some(take_until_ws(trim_start_spec(line.drop_first())))
    } else {
        None
    }
}

/// `take_until_ws` is the prefix up to the first whitespace character.
proof fn lemma_take_until_ws(s: Seq<char>, m: int)
    requires
        0 <= m <= s.len(),
        forall|i: int| 0 <= i < m ==> !is_wschar(s[i]),
        m == s.len() || is_wschar(s[m]),
    ensures
        take_until_ws(s) == s.subrange(0, m),
    decreases s.len(),
{
    if s.len() == 0 {
        assert(take_until_ws(s) =~= s.subrange(0, m));
    } else if is_wschar(s[0]) {
        assert(m == 0);
        assert(take_until_ws(s) =~= s.subrange(0, 0));
    } else {
        assert(m > 0);
        let rest = s.drop_first();
        assert(forall|i: int| 0 <= i < m - 1 ==> !is_wschar(#[trigger] rest[i]));
        lemma_take_until_ws(rest, m - 1);
        assert(seq![s[0]] + rest.subrange(0, m - 1) =~= s.subrange(0, m));
    }
}

/// `trim_start_spec` drops exactly the leading whitespace.
proof fn lemma_trim_start_at(s: Seq<char>, k: int)
    requires
        0 <= k <= s.len(),
        forall|i: int| 0 <= i < k ==> is_wschar(s[i]),
        k == s.len() || !is_wschar(s[k]),
    ensures
        trim_start_spec(s) == s.subrange(k, s.len() as int),
    decreases s.len(),
{
    if s.len() == 0 {
        assert(trim_start_spec(s) =~= s.subrange(0, 0));
    } else if is_wschar(s[0]) {
        assert(k > 0);
        let rest = s.drop_first();
        assert(forall|i: int| 0 <= i < k - 1 ==> is_wschar(#[trigger] rest[i]));
        assert(rest =~= s.subrange(1, s.len() as int));
        lemma_trim_start_at(rest, k - 1);
        assert(rest.subrange(k - 1, rest.len() as int) =~= s.subrange(k, s.len() as int));
    } else {
        assert(k == 0);
        assert(trim_start_spec(s) == s);
        assert(s =~= s.subrange(0, s.len() as int));
    }
}

/// Parse the slash-directive name of a prompt's first text line, if the
/// trimmed line starts with `/`.
pub fn parse_slash_name(text: &str) -> (r: Option<String>)
    ensures
        match r {
            Some(name) => slash_name_spec(text@) == Some(name@),
            None => slash_name_spec(text@) is None,
        },
{
    let e = crate::text::trimmed_end_index(text);
    // Find the start of the trimmed line.
    let mut k: usize = 0;
    while k < e && is_ws(text.get_char(k))
        invariant
            k <= e,
            e <= text@.len(),
            forall|i: int| 0 <= i < k ==> is_wschar(text@[i]),
        decreases e - k,
    {
        k = k + 1;
    }
    let ghost trimmed_end = text@.subrange(0, e as int);
    proof {
        // The trimmed line is text[k .. e].
        assert(forall|i: int| 0 <= i < k ==> is_wschar(#[trigger] trimmed_end[i]));
        if k < e {
            assert(!is_wschar(trimmed_end[k as int]));
        }
        lemma_trim_start_at(trimmed_end, k as int);
        assert(trim_spec(text@) == trimmed_end.subrange(k as int, e as int));
        assert(trimmed_end.subrange(k as int, e as int) =~= text@.subrange(k as int, e as int));
    }
    if k >= e {
        // Blank line: no directive.
        assert(trim_spec(text@).len() == 0);
        return None;
    }
    if text.get_char(k) != '/' {
        assert(trim_spec(text@)[0] == text@[k as int]);
        return None;
    }
    assert(trim_spec(text@)[0] == '/');
    // Skip whitespace after the slash.
    let mut j: usize = k + 1;
    while j < e && is_ws(text.get_char(j))
        invariant
            k + 1 <= j <= e,
            e <= text@.len(),
            forall|i: int| k + 1 <= i < j ==> is_wschar(text@[i]),
        decreases e - j,
    {
        j = j + 1;
    }
    // Take the name up to the next whitespace.
    let mut m: usize = j;
    while m < e && !is_ws(text.get_char(m))
        invariant
            j <= m <= e,
            e <= text@.len(),
            forall|i: int| j <= i < m ==> !is_wschar(text@[i]),
        decreases e - m,
    {
        m = m + 1;
    }
    proof {
        let line = trim_spec(text@);
        let rest = line.drop_first();
        assert(rest =~= text@.subrange(k as int + 1, e as int));
        assert(forall|i: int| 0 <= i < j - k - 1 ==> is_wschar(#[trigger] rest[i]));
        if j < e {
            assert(!is_wschar(rest[j - k - 1]));
        }
        lemma_trim_start_at(rest, j as int - k - 1);
        let after = rest.subrange(j as int - k - 1, rest.len() as int);
        assert(after =~= text@.subrange(j as int, e as int));
        assert(forall|i: int| 0 <= i < m - j ==> !is_wschar(#[trigger] after[i]));
        if m < e {
            assert(is_wschar(after[m - j]));
        }
        lemma_take_until_ws(after, m as int - j as int);
        assert(after.subrange(0, m as int - j as int) =~= text@.subrange(j as int, m as int));
    }
    let name_str = text.substring_char(j, m);
    Some(String::from_str(name_str))
}

/// The slash commands advertised to the client. Every directive, known or
/// not, completes without an engine operation, so the table only names the
/// ones worth advertising.
pub fn available_slash_commands() -> (r: Vec<AvailableCommand>)
    ensures
        r@.len() == 2,
        r@[0].name@ == "help"@,
        r@[1].name@ == "status"@,
{
    let mut r: Vec<AvailableCommand> = Vec::new();
    r.push(
        AvailableCommand {
            name: String::from_str("help"),
            description: String::from_str("Show the available commands"),
        },
    );
    r.push(
        AvailableCommand {
            name: String::from_str("status"),
            description: String::from_str("Show the session's current mode and model"),
        },
    );
    r
}

/// How a turn starts: a slash directive that ends the turn at once with no
/// engine operation, or an operation to submit.
pub enum TurnStart {
    Directive { name: String },
    Submit { op: EngineOp },
}

/// Decide how a prompt turn starts. A leading slash-prefixed text line is a
/// command directive and replaces the built operation entirely; any other
/// prompt becomes a user-input submission with one item per supported
/// content block.
pub fn begin_turn(prompt: &Vec<ContentBlock>) -> (r: TurnStart)
    ensures
        ({
            let directive = if prompt@.len() > 0 {
                match prompt@[0] {
                    ContentBlock::Text { text } => slash_name_spec(text@),
                    _ => None,
                }
            } else {
                None
            };
            match directive {
                Some(nm) => r matches TurnStart::Directive { name } && name@ == nm,
                None => r matches TurnStart::Submit { op } && (op matches EngineOp::UserInput {
                    items,
                } && inputs_view(items@) == inputs_for_blocks(prompt@)),
            }
        }),
{
    if prompt.len() > 0 {
        let slash = match &prompt[0] {
            ContentBlock::Text { text } => parse_slash_name(text.as_str()),
            _ => None,
        };
        if let Some(name) = slash {
            return TurnStart::Directive { name };
        }
    }
    let items = build_user_inputs(prompt);
    TurnStart::Submit { op: EngineOp::UserInput { items } }
}

// ---- The streaming state machine ----

/// Where a turn stands: streaming events, waiting for one permission
/// decision, or finished with a stop reason.
pub enum TurnPhase {
    Streaming,
    AwaitingApproval { event_id: String, patch: bool },
    Done { stop_reason: StopReason },
}

/// One thing the caller must do, in order, after handing the machine an
/// event.
pub enum TurnAction {
    /// Deliver this update through the acknowledged notification path.
    SendUpdate { update: ClientUpdate },
    /// Deliver this permission request and feed the outcome back through
    /// [`TurnMachine::handle_decision`].
    AskPermission { request: PermissionRequest },
    /// Submit this operation to the engine.
    SubmitOp { op: EngineOp },
    /// Overwrite the session's token-usage snapshot.
    SetTokenUsage { usage: TokenUsage },
}

/// An action that sends a message chunk with this text.
pub open spec fn msg_chunk_action(a: TurnAction, text: Seq<char>) -> bool {
    a matches TurnAction::SendUpdate { update: ClientUpdate::AgentMessageChunk { text: t } } && t@
        == text
}

/// An action that sends a thought chunk with this text.
pub open spec fn thought_chunk_action(a: TurnAction, text: Seq<char>) -> bool {
    a matches TurnAction::SendUpdate { update: ClientUpdate::AgentThoughtChunk { text: t } } && t@
        == text
}

/// An action that sends the translation of this plan: statuses mapped one
/// to one, every entry at medium priority.
pub open spec fn plan_action(a: TurnAction, plan: Seq<PlanItem>) -> bool {
    a matches TurnAction::SendUpdate { update: ClientUpdate::Plan { entries } } && entries@.len()
        == plan.len() && (forall|i: int|
        0 <= i < plan.len() ==> {
            &&& (#[trigger] entries@[i]).content@ == plan[i].step@
            &&& entries@[i].priority == crate::protocol::PlanEntryPriority::Medium
            &&& entries@[i].status == plan_status_spec(plan[i].status)
        })
}

/// The final reasoning flush of a terminal event: one thought chunk when
/// the drained text exists and is not blank, nothing otherwise.
pub open spec fn flush_actions(acts: Seq<TurnAction>, pending: Seq<Seq<char>>) -> bool {
    match take_text_spec(pending) {
        Some(t) => if is_blank(t) {
            acts.len() == 0
        } else {
            acts.len() == 1 && thought_chunk_action(acts[0], t)
        },
        None => acts.len() == 0,
    }
}

/// The state machine of one prompt turn.
pub struct TurnMachine {
    /// The session the turn belongs to.
    pub session_id: String,
    /// The correlation id of this turn's submission; events carrying any
    /// other id are discarded.
    pub submit_id: String,
    /// The translator for this turn.
    pub handler: EventHandler,
    /// The reasoning aggregator for this turn.
    pub reason: ReasoningAggregator,
    /// Whether a streamed message delta has been seen; a later final
    /// message event is then suppressed.
    pub saw_message_delta: bool,
    /// Where the turn stands.
    pub phase: TurnPhase,
}

impl TurnMachine {
    /// A machine for one turn: session, submission correlation id, the
    /// workspace directory, and the client's terminal support.
    pub fn new(session_id: String, submit_id: String, cwd: String, support_terminal: bool) -> (r:
        TurnMachine)
        ensures
            r.session_id@ == session_id@,
            r.submit_id@ == submit_id@,
            r.handler.cwd@ == cwd@,
            r.handler.support_terminal == support_terminal,
            r.reason.is_drained(),
            !r.saw_message_delta,
            r.phase is Streaming,
    {
        TurnMachine {
            session_id,
            submit_id,
            handler: EventHandler::new(cwd, support_terminal),
            reason: ReasoningAggregator::new(),
            saw_message_delta: false,
            phase: TurnPhase::Streaming,
        }
    }

    /// Feed the machine the next engine event and get the actions to
    /// perform, in order. Events whose correlation id is not this turn's
    /// submission id are discarded whole: no action, no state change.
    pub fn handle_event(&mut self, ev: &EngineEvent) -> (acts: Vec<TurnAction>)
        requires
            old(self).phase is Streaming,
        ensures
            final(self).session_id == old(self).session_id,
            final(self).submit_id == old(self).submit_id,
            final(self).handler == old(self).handler,
            ev.id@ != old(self).submit_id@ ==> *final(self) == *old(self) && acts@.len() == 0,
            ev.id@ == old(self).submit_id@ ==> match ev.msg {
                EngineEventMsg::AgentMessageDelta { delta } => {
                    &&& acts@.len() == 1
                    &&& msg_chunk_action(acts@[0], delta@)
                    &&& *final(self) == (TurnMachine { saw_message_delta: true, ..*old(self) })
                },
                EngineEventMsg::AgentMessage { message } => {
                    &&& (if old(self).saw_message_delta {
                        acts@.len() == 0
                    } else {
                        acts@.len() == 1 && msg_chunk_action(acts@[0], message@)
                    })
                    &&& *final(self) == *old(self)
                },
                EngineEventMsg::AgentReasoningDelta { delta } => {
                    &&& acts@.len() == 0
                    &&& final(self).reason.sections_view() == old(self).reason.sections_view()
                    &&& final(self).reason.current_view() == old(self).reason.current_view()
                        + delta@
                    &&& final(self).saw_message_delta == old(self).saw_message_delta
                    &&& final(self).phase is Streaming
                },
                EngineEventMsg::AgentReasoningRawContentDelta { delta } => {
                    &&& acts@.len() == 0
                    &&& final(self).reason.sections_view() == old(self).reason.sections_view()
                    &&& final(self).reason.current_view() == old(self).reason.current_view()
                        + delta@
                    &&& final(self).saw_message_delta == old(self).saw_message_delta
                    &&& final(self).phase is Streaming
                },
                EngineEventMsg::AgentReasoning { text } => {
                    &&& ({
                        let chosen = choose_spec(
                            take_text_spec(old(self).reason.pending()),
                            if is_blank(text@) {
                                None
                            } else {
                                Some(text@)
                            },
                        );
                        match chosen {
                            Some(t) => if is_blank(t) {
                                acts@.len() == 0
                            } else {
                                acts@.len() == 1 && thought_chunk_action(acts@[0], t)
                            },
                            None => acts@.len() == 0,
                        }
                    })
                    &&& final(self).reason.is_drained()
                    &&& final(self).saw_message_delta == old(self).saw_message_delta
                    &&& final(self).phase is Streaming
                },
                EngineEventMsg::AgentReasoningRawContent { text } => {
                    &&& acts@.len() == 0
                    &&& final(self).reason.sections_view() == (if old(
                        self,
                    ).reason.current_view().len() > 0 {
                        old(self).reason.sections_view().push(old(self).reason.current_view())
                    } else {
                        old(self).reason.sections_view()
                    })
                    &&& final(self).reason.current_view() == (if is_blank(text@) {
                        Seq::<char>::empty()
                    } else {
                        text@
                    })
                    &&& final(self).saw_message_delta == old(self).saw_message_delta
                    &&& final(self).phase is Streaming
                },
                EngineEventMsg::AgentReasoningSectionBreak => {
                    &&& acts@.len() == 0
                    &&& final(self).reason.sections_view() == (if old(
                        self,
                    ).reason.current_view().len() > 0 {
                        old(self).reason.sections_view().push(old(self).reason.current_view())
                    } else {
                        old(self).reason.sections_view()
                    })
                    &&& final(self).reason.current_view() == Seq::<char>::empty()
                    &&& final(self).saw_message_delta == old(self).saw_message_delta
                    &&& final(self).phase is Streaming
                },
                EngineEventMsg::McpToolCallBegin { call_id, invocation } => {
                    &&& acts@.len() == 1
                    &&& (acts@[0] matches TurnAction::SendUpdate { update } && mcp_begin_update(
                        update,
                        call_id@,
                        invocation,
                        old(self).handler.cwd@,
                    ))
                    &&& *final(self) == *old(self)
                },
                EngineEventMsg::McpToolCallEnd { call_id, invocation, result_json, success } => {
                    &&& acts@.len() == 1
                    &&& (acts@[0] matches TurnAction::SendUpdate { update } && mcp_end_update(
                        update,
                        call_id@,
                        invocation,
                        result_json@,
                        success,
                        old(self).handler.cwd@,
                    ))
                    &&& *final(self) == *old(self)
                },
                EngineEventMsg::WebSearchBegin { call_id } => {
                    &&& acts@.len() == 1
                    &&& (acts@[0] matches TurnAction::SendUpdate { update }
                        && web_search_begin_update(update, call_id@))
                    &&& *final(self) == *old(self)
                },
                EngineEventMsg::WebSearchEnd { call_id, query } => {
                    &&& acts@.len() == 1
                    &&& (acts@[0] matches TurnAction::SendUpdate { update }
                        && web_search_end_update(update, call_id@, query@))
                    &&& *final(self) == *old(self)
                },
                EngineEventMsg::ExecCommandBegin { call_id, cwd, command, parsed_cmd } => {
                    &&& acts@.len() == 1
                    &&& (acts@[0] matches TurnAction::SendUpdate { update } && exec_begin_update(
                        update,
                        call_id@,
                        cwd@,
                        command@,
                        parsed_cmd@,
                        old(self).handler.support_terminal,
                    ))
                    &&& *final(self) == *old(self)
                },
                EngineEventMsg::ExecCommandEnd {
                    call_id,
                    exit_code,
                    aggregated_output,
                    stdout,
                    stderr,
                    duration_ms,
                    formatted_output,
                } => {
                    &&& acts@.len() == 1
                    &&& (acts@[0] matches TurnAction::SendUpdate { update } && exec_end_update(
                        update,
                        call_id@,
                        exit_code,
                        aggregated_output@,
                        stdout@,
                        stderr@,
                        duration_ms,
                        formatted_output@,
                    ))
                    &&& *final(self) == *old(self)
                },
                EngineEventMsg::ExecApprovalRequest { call_id, cwd, parsed_cmd } => {
                    &&& acts@.len() == 1
                    &&& (acts@[0] matches TurnAction::AskPermission { request }
                        && exec_approval_request(
                        request,
                        old(self).session_id@,
                        call_id@,
                        cwd@,
                        parsed_cmd@,
                        old(self).handler.permission_options@,
                    ))
                    &&& (final(self).phase matches TurnPhase::AwaitingApproval {
                        event_id,
                        patch,
                    } && event_id@ == ev.id@ && !patch)
                    &&& final(self).reason == old(self).reason
                    &&& final(self).saw_message_delta == old(self).saw_message_delta
                },
                EngineEventMsg::ApplyPatchApprovalRequest { call_id, changes } => {
                    &&& acts@.len() == 1
                    &&& (acts@[0] matches TurnAction::AskPermission { request }
                        && patch_approval_request(
                        request,
                        old(self).session_id@,
                        call_id@,
                        changes@,
                        old(self).handler.permission_options@,
                    ))
                    &&& (final(self).phase matches TurnPhase::AwaitingApproval {
                        event_id,
                        patch,
                    } && event_id@ == ev.id@ && patch)
                    &&& final(self).reason == old(self).reason
                    &&& final(self).saw_message_delta == old(self).saw_message_delta
                },
                EngineEventMsg::PatchApplyEnd { call_id, success, raw_event_json } => {
                    &&& acts@.len() == 1
                    &&& (acts@[0] matches TurnAction::SendUpdate { update } && patch_end_update(
                        update,
                        call_id@,
                        success,
                        raw_event_json@,
                    ))
                    &&& *final(self) == *old(self)
                },
                EngineEventMsg::TokenCount { usage } => {
                    &&& (match usage {
                        Some(u) => acts@.len() == 1 && (acts@[0]
                            matches TurnAction::SetTokenUsage { usage: u2 } && u2 == u),
                        None => acts@.len() == 0,
                    })
                    &&& *final(self) == *old(self)
                },
                EngineEventMsg::PlanUpdate { explanation, plan } => {
                    &&& (match explanation {
                        Some(e) => acts@.len() == 2 && msg_chunk_action(acts@[0], e@)
                            && plan_action(acts@[1], plan@),
                        None => acts@.len() == 1 && plan_action(acts@[0], plan@),
                    })
                    &&& *final(self) == *old(self)
                },
                EngineEventMsg::TaskComplete => {
                    &&& flush_actions(acts@, old(self).reason.pending())
                    &&& (final(self).phase matches TurnPhase::Done { stop_reason } && stop_reason
                        == StopReason::EndTurn)
                    &&& final(self).reason.is_drained()
                    &&& final(self).saw_message_delta == old(self).saw_message_delta
                },
                EngineEventMsg::TurnAborted => {
                    &&& flush_actions(acts@, old(self).reason.pending())
                    &&& (final(self).phase matches TurnPhase::Done { stop_reason } && stop_reason
                        == StopReason::Cancelled)
                    &&& final(self).reason.is_drained()
                    &&& final(self).saw_message_delta == old(self).saw_message_delta
                },
                EngineEventMsg::ShutdownComplete => {
                    &&& flush_actions(acts@, old(self).reason.pending())
                    &&& (final(self).phase matches TurnPhase::Done { stop_reason } && stop_reason
                        == StopReason::Cancelled)
                    &&& final(self).reason.is_drained()
                    &&& final(self).saw_message_delta == old(self).saw_message_delta
                },
                EngineEventMsg::Error { message } => {
                    &&& acts@.len() == 1
                    &&& msg_chunk_action(acts@[0], message@ + "\n\n"@)
                    &&& *final(self) == *old(self)
                },
                EngineEventMsg::StreamError { message } => {
                    &&& acts@.len() == 1
                    &&& msg_chunk_action(acts@[0], message@ + "\n\n"@)
                    &&& *final(self) == *old(self)
                },
                EngineEventMsg::Other => {
                    &&& acts@.len() == 0
                    &&& *final(self) == *old(self)
                },
            },
    {
        let mut acts: Vec<TurnAction> = Vec::new();
        if !str_eq(ev.id.as_str(), self.submit_id.as_str()) {
            return acts;
        }
        match &ev.msg {
            EngineEventMsg::AgentMessageDelta { delta } => {
                self.saw_message_delta = true;
                acts.push(
                    TurnAction::SendUpdate {
                        update: ClientUpdate::AgentMessageChunk { text: delta.clone() },
                    },
                );
            },
            EngineEventMsg::AgentMessage { message } => {
                if !self.saw_message_delta {
                    acts.push(
                        TurnAction::SendUpdate {
                            update: ClientUpdate::AgentMessageChunk { text: message.clone() },
                        },
                    );
                }
            },
            EngineEventMsg::AgentReasoningDelta { delta } => {
                self.reason.append_delta(delta.as_str());
            },
            EngineEventMsg::AgentReasoningRawContentDelta { delta } => {
                self.reason.append_delta(delta.as_str());
            },
            EngineEventMsg::AgentReasoning { text } => {
                let ghost reason_before = self.reason;
                self.reason.section_break();
                proof {
                    lemma_break_preserves_take(reason_before, self.reason);
                }
                let final_text = if is_blank_str(text.as_str()) {
                    None
                } else {
                    Some(text.clone())
                };
                let chosen = self.reason.choose_final_text(final_text);
                match chosen {
                    Some(t) => {
                        if !is_blank_str(t.as_str()) {
                            acts.push(
                                TurnAction::SendUpdate {
                                    update: ClientUpdate::AgentThoughtChunk { text: t },
                                },
                            );
                        }
                    },
                    None => {},
                }
            },
            EngineEventMsg::AgentReasoningRawContent { text } => {
                self.reason.section_break();
                if !is_blank_str(text.as_str()) {
                    self.reason.append_delta(text.as_str());
                }
            },
            EngineEventMsg::AgentReasoningSectionBreak => {
                self.reason.section_break();
            },
            EngineEventMsg::McpToolCallBegin { call_id, invocation } => {
                let update = self.handler.on_mcp_tool_call_begin(call_id.as_str(), invocation);
                acts.push(TurnAction::SendUpdate { update });
            },
            EngineEventMsg::McpToolCallEnd { call_id, invocation, result_json, success } => {
                let update = self.handler.on_mcp_tool_call_end(
                    call_id.as_str(),
                    invocation,
                    result_json.as_str(),
                    *success,
                );
                acts.push(TurnAction::SendUpdate { update });
            },
            EngineEventMsg::WebSearchBegin { call_id } => {
                let update = web_search_begin(call_id.as_str());
                acts.push(TurnAction::SendUpdate { update });
            },
            EngineEventMsg::WebSearchEnd { call_id, query } => {
                let update = web_search_end(call_id.as_str(), query.as_str());
                acts.push(TurnAction::SendUpdate { update });
            },
            EngineEventMsg::ExecCommandBegin { call_id, cwd, command, parsed_cmd } => {
                let update = self.handler.on_exec_command_begin(
                    call_id.as_str(),
                    cwd.as_str(),
                    command,
                    parsed_cmd,
                );
                acts.push(TurnAction::SendUpdate { update });
            },
            EngineEventMsg::ExecCommandEnd {
                call_id,
                exit_code,
                aggregated_output,
                stdout,
                stderr,
                duration_ms,
                formatted_output,
            } => {
                let end = ExecEndArgs {
                    call_id: call_id.clone(),
                    exit_code: *exit_code,
                    aggregated_output: aggregated_output.clone(),
                    stdout: stdout.clone(),
                    stderr: stderr.clone(),
                    duration_ms: *duration_ms,
                    formatted_output: formatted_output.clone(),
                };
                let update = self.handler.on_exec_command_end(end);
                acts.push(TurnAction::SendUpdate { update });
            },
            EngineEventMsg::ExecApprovalRequest { call_id, cwd, parsed_cmd } => {
                let request = self.handler.on_exec_approval_request(
                    self.session_id.as_str(),
                    call_id.as_str(),
                    cwd.as_str(),
                    parsed_cmd,
                );
                acts.push(TurnAction::AskPermission { request });
                self.phase = TurnPhase::AwaitingApproval {
                    event_id: ev.id.clone(),
                    patch: false,
                };
            },
            EngineEventMsg::ApplyPatchApprovalRequest { call_id, changes } => {
                let request = self.handler.on_apply_patch_approval_request(
                    self.session_id.as_str(),
                    call_id.as_str(),
                    changes,
                );
                acts.push(TurnAction::AskPermission { request });
                self.phase = TurnPhase::AwaitingApproval { event_id: ev.id.clone(), patch: true };
            },
            EngineEventMsg::PatchApplyEnd { call_id, success, raw_event_json } => {
                let update = self.handler.on_patch_apply_end(
                    call_id.as_str(),
                    *success,
                    raw_event_json.clone(),
                );
                acts.push(TurnAction::SendUpdate { update });
            },
            EngineEventMsg::TokenCount { usage } => {
                match usage {
                    Some(u) => {
                        acts.push(TurnAction::SetTokenUsage { usage: *u });
                    },
                    None => {},
                }
            },
            EngineEventMsg::PlanUpdate { explanation, plan } => {
                match explanation {
                    Some(e) => {
                        acts.push(
                            TurnAction::SendUpdate {
                                update: ClientUpdate::AgentMessageChunk { text: e.clone() },
                            },
                        );
                    },
                    None => {},
                }
                let entries = plan_entries(plan);
                acts.push(TurnAction::SendUpdate { update: ClientUpdate::Plan { entries } });
            },
            EngineEventMsg::TaskComplete => {
                self.flush_reasoning(&mut acts);
                self.phase = TurnPhase::Done { stop_reason: StopReason::EndTurn };
            },
            EngineEventMsg::TurnAborted => {
                self.flush_reasoning(&mut acts);
                self.phase = TurnPhase::Done { stop_reason: StopReason::Cancelled };
            },
            EngineEventMsg::ShutdownComplete => {
                self.flush_reasoning(&mut acts);
                self.phase = TurnPhase::Done { stop_reason: StopReason::Cancelled };
            },
            EngineEventMsg::Error { message } => {
                let text = message.clone().concat("\n\n");
                acts.push(
                    TurnAction::SendUpdate { update: ClientUpdate::AgentMessageChunk { text } },
                );
            },
            EngineEventMsg::StreamError { message } => {
                let text = message.clone().concat("\n\n");
                acts.push(
                    TurnAction::SendUpdate { update: ClientUpdate::AgentMessageChunk { text } },
                );
            },
            EngineEventMsg::Other => {},
        }
        acts
    }

    /// Drain the reasoning aggregator into a final thought chunk, if any
    /// non-blank text remains.
    fn flush_reasoning(&mut self, acts: &mut Vec<TurnAction>)
        requires
            old(acts)@.len() == 0,
        ensures
            final(self).reason.is_drained(),
            final(self).session_id == old(self).session_id,
            final(self).submit_id == old(self).submit_id,
            final(self).handler == old(self).handler,
            final(self).saw_message_delta == old(self).saw_message_delta,
            final(self).phase == old(self).phase,
            flush_actions(final(acts)@, old(self).reason.pending()),
    {
        let flushed = self.reason.take_text();
        match flushed {
            Some(t) => {
                if !is_blank_str(t.as_str()) {
                    acts.push(
                        TurnAction::SendUpdate {
                            update: ClientUpdate::AgentThoughtChunk { text: t },
                        },
                    );
                }
            },
            None => {},
        }
    }

    /// Feed the machine the outcome of the pending permission round-trip.
    /// Exactly one decision is submitted back to the engine, correlated to
    /// the approval event's own id — not the submission id — and an abort
    /// is submitted even when the decision channel was lost, so the engine
    /// is never left waiting.
    pub fn handle_decision(&mut self, outcome: PermissionOutcome) -> (acts: Vec<TurnAction>)
        requires
            old(self).phase matches TurnPhase::AwaitingApproval { .. },
        ensures
            final(self).session_id == old(self).session_id,
            final(self).submit_id == old(self).submit_id,
            final(self).handler == old(self).handler,
            final(self).reason == old(self).reason,
            final(self).saw_message_delta == old(self).saw_message_delta,
            final(self).phase is Streaming,
            acts@.len() == 1,
            ({
                let decision = decision_for_outcome(outcome);
                match old(self).phase {
                    TurnPhase::AwaitingApproval { event_id, patch } => if patch {
                        acts@[0] matches TurnAction::SubmitOp {
                            op: EngineOp::PatchApproval { id, decision: d },
                        } && id@ == event_id@ && d == decision
                    } else {
                        acts@[0] matches TurnAction::SubmitOp {
                            op: EngineOp::ExecApproval { id, decision: d },
                        } && id@ == event_id@ && d == decision
                    },
                    _ => false,
                }
            }),
    {
        let decision = handle_response_outcome(outcome);
        let mut acts: Vec<TurnAction> = Vec::new();
        let mut phase = TurnPhase::Streaming;
        core::mem::swap(&mut phase, &mut self.phase);
        match phase {
            TurnPhase::AwaitingApproval { event_id, patch } => {
                let op = if patch {
                    EngineOp::PatchApproval { id: event_id, decision }
                } else {
                    EngineOp::ExecApproval { id: event_id, decision }
                };
                acts.push(TurnAction::SubmitOp { op });
            },
            _ => {
                proof {
                    assert(false);
                }
            },
        }
        acts
    }

    /// The stop reason, once the turn is done.
    pub fn stop_reason(&self) -> (r: Option<StopReason>)
        ensures
            match self.phase {
                TurnPhase::Done { stop_reason } => r == Some(stop_reason),
                _ => r is None,
            },
    {
        match &self.phase {
            TurnPhase::Done { stop_reason } => Some(*stop_reason),
            _ => None,
        }
    }
}

/// The update built when a web search begins.
fn web_search_begin(call_id: &str) -> (r: ClientUpdate)
    ensures
        web_search_begin_update(r, call_id@),
{
    ClientUpdate::ToolCall(
        crate::protocol::ToolCall {
            id: String::from_str(call_id),
            title: String::from_str("Searching the web"),
            kind: crate::protocol::ToolKind::Fetch,
            status: crate::protocol::ToolCallStatus::Pending,
            content: Vec::new(),
            locations: Vec::new(),
            raw_input: None,
            raw_output: None,
            terminal_info: None,
        },
    )
}

/// The update built when a web search ends.
fn web_search_end(call_id: &str, query: &str) -> (r: ClientUpdate)
    ensures
        web_search_end_update(r, call_id@, query@),
{
    let mut fields = crate::protocol::ToolCallUpdateFields::empty();
    fields.status = Some(crate::protocol::ToolCallStatus::Completed);
    fields.title = Some(String::from_str("Searching for: ").concat(query));
    fields.raw_input = Some(crate::protocol::RawData::Query { query: String::from_str(query) });
    ClientUpdate::ToolCallUpdate(
        crate::protocol::ToolCallUpdate { id: String::from_str(call_id), fields },
    )
}

/// A section break does not change what a later drain returns: the break
/// only moves the in-progress text into the section list, and the empty
/// in-progress section it leaves is blank, so draining cleans it away.
proof fn lemma_break_preserves_take(before: ReasoningAggregator, after: ReasoningAggregator)
    requires
        before.current_view().len() == 0 ==> after == before,
        before.current_view().len() > 0 ==> after.sections_view() == before.sections_view().push(
            before.current_view(),
        ) && after.current_view().len() == 0,
    ensures
        take_text_spec(after.pending()) == take_text_spec(before.pending()),
{
    if before.current_view().len() > 0 {
        let b = before.pending();
        let a = after.pending();
        assert(after.current_view() =~= Seq::<char>::empty());
        assert(a =~= b.push(Seq::<char>::empty()));
        assert(a.drop_last() =~= b);
        assert(is_blank(a.last()));
        assert(crate::reasoning::clean_sections(a) == crate::reasoning::clean_sections(b));
    }
}

} // verus!
