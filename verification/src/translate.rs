//! Translation of engine events into client-protocol updates and permission
//! requests.
//!
//! Everything here is a pure mapping: an engine event's data in, a protocol
//! value out. Nothing is sent from here; the caller hands the produced value
//! to its transport.

use vstd::prelude::*;
use vstd::string::*;

use crate::paths::{
    describe_locations_spec, describe_mcp_tool, describe_title_spec, join_path, join_path_spec,
    locations_match,
};
use crate::protocol::{
    ClientUpdate, FileChange, McpInvocation, ParsedCommand, PermissionOption,
    PermissionOptionKind, PermissionOutcome, PermissionRequest, PlanEntry, PlanEntryPriority,
    PlanEntryStatus, PlanItem, RawData, ReviewDecision, StepStatus, ToolCall, ToolCallContent,
    ToolCallLocation, ToolCallStatus, ToolCallUpdate, ToolCallUpdateFields, ToolKind,
    TerminalInfo,
};
use crate::text::{clone_string_vec, dec_spec, join_strings, join_with, usize_to_string};

verus! {

// ---- Command-call formatting ----

/// The display title of one parsed command.
pub open spec fn cmd_title(cwd: Seq<char>, c: ParsedCommand) -> Seq<char> {
    match c {
        ParsedCommand::Read { name, .. } => "Read "@ + name@,
        ParsedCommand::ListFiles { path, .. } => match path {
            Some(p) => "List "@ + join_path_spec(cwd, p@),
            None => "List "@ + cwd,
        },
        ParsedCommand::Search { cmd, query, path } => match (query, path) {
            (Some(q), Some(p)) => "Search "@ + q@ + " in "@ + p@,
            (Some(q), None) => "Search "@ + q@,
            (None, _) => "Search "@ + cmd@,
        },
        ParsedCommand::Unknown { cmd } => "Run "@ + cmd@,
    }
}

/// The path one parsed command refers to, when it refers to one.
pub open spec fn cmd_path_of(c: ParsedCommand) -> Option<Seq<char>> {
    match c {
        ParsedCommand::Read { path, .. } => Some(path@),
        ParsedCommand::ListFiles { path, .. } => match path {
            Some(p) => Some(p@),
            None => None,
        },
        ParsedCommand::Search { path, .. } => match path {
            Some(p) => Some(p@),
            None => None,
        },
        ParsedCommand::Unknown { .. } => None,
    }
}

/// How one parsed command updates the running tool kind: classified
/// commands overwrite it, unclassified ones leave it alone.
pub open spec fn kind_after(k: ToolKind, c: ParsedCommand) -> ToolKind {
    match c {
        ParsedCommand::Read { .. } => ToolKind::Read,
        ParsedCommand::ListFiles { .. } => ToolKind::Search,
        ParsedCommand::Search { .. } => ToolKind::Search,
        ParsedCommand::Unknown { .. } => k,
    }
}

/// The tool kind of a command list: `Execute` unless a classified command
/// overwrites it, the last classified one winning.
pub open spec fn kind_of_cmds(cmds: Seq<ParsedCommand>) -> ToolKind
    decreases cmds.len(),
{
    if cmds.len() == 0 {
        ToolKind::Execute
    } else {
        kind_after(kind_of_cmds(cmds.drop_last()), cmds.last())
    }
}

/// Whether any command of the list could not be classified.
pub open spec fn has_unknown(cmds: Seq<ParsedCommand>) -> bool
    decreases cmds.len(),
{
    if cmds.len() == 0 {
        false
    } else {
        has_unknown(cmds.drop_last()) || cmds.last() matches ParsedCommand::Unknown { .. }
    }
}

/// The display titles of a command list, in order.
pub open spec fn titles_of(cwd: Seq<char>, cmds: Seq<ParsedCommand>) -> Seq<Seq<char>>
    decreases cmds.len(),
{
    if cmds.len() == 0 {
        Seq::empty()
    } else {
        titles_of(cwd, cmds.drop_last()).push(cmd_title(cwd, cmds.last()))
    }
}

/// The location paths of a command list: one per command that refers to a
/// path, joined under `cwd` when relative.
pub open spec fn locations_of(cwd: Seq<char>, cmds: Seq<ParsedCommand>) -> Seq<Seq<char>>
    decreases cmds.len(),
{
    if cmds.len() == 0 {
        Seq::empty()
    } else {
        let rest = locations_of(cwd, cmds.drop_last());
        match cmd_path_of(cmds.last()) {
            Some(p) => rest.push(join_path_spec(cwd, p)),
            None => rest,
        }
    }
}

/// A formatted summary of a command list, for display in the client.
pub struct FormatCommandCall {
    pub title: String,
    pub terminal_output: bool,
    pub locations: Vec<ToolCallLocation>,
    pub kind: ToolKind,
}

/// Summarize a parsed command list: a joined title, whether raw terminal
/// output should be rendered (only when some command is unclassified), the
/// referenced file locations, and the tool kind.
pub fn format_command_call(cwd: &str, parsed_cmd: &Vec<ParsedCommand>) -> (r: FormatCommandCall)
    ensures
        r.title@ == join_with(titles_of(cwd@, parsed_cmd@), ", "@),
        r.terminal_output == has_unknown(parsed_cmd@),
        r.kind == kind_of_cmds(parsed_cmd@),
        r.locations@.len() == locations_of(cwd@, parsed_cmd@).len(),
        forall|i: int|
            0 <= i < r.locations@.len() ==> (#[trigger] r.locations@[i]).path@ == locations_of(
                cwd@,
                parsed_cmd@,
            )[i] && r.locations@[i].line is None,
{
    let mut title = String::new();
    let mut locations: Vec<ToolCallLocation> = Vec::new();
    let mut terminal_output = false;
    let mut kind = ToolKind::Execute;
    let n = parsed_cmd.len();
    let mut i: usize = 0;
    proof {
        assert(parsed_cmd@.subrange(0, 0) =~= Seq::<ParsedCommand>::empty());
        reveal_strlit(", ");
    }
    while i < n
        invariant
            i <= n,
            n == parsed_cmd@.len(),
            titles_of(cwd@, parsed_cmd@.subrange(0, i as int)).len() == i,
            title@ == join_with(titles_of(cwd@, parsed_cmd@.subrange(0, i as int)), ", "@),
            terminal_output == has_unknown(parsed_cmd@.subrange(0, i as int)),
            kind == kind_of_cmds(parsed_cmd@.subrange(0, i as int)),
            locations@.len() == locations_of(cwd@, parsed_cmd@.subrange(0, i as int)).len(),
            forall|j: int|
                0 <= j < locations@.len() ==> (#[trigger] locations@[j]).path@ == locations_of(
                    cwd@,
                    parsed_cmd@.subrange(0, i as int),
                )[j] && locations@[j].line is None,
        decreases n - i,
    {
        let ghost prefix = parsed_cmd@.subrange(0, i as int);
        let ghost next_prefix = parsed_cmd@.subrange(0, i as int + 1);
        proof {
            assert(next_prefix.drop_last() =~= prefix);
            assert(next_prefix.last() == parsed_cmd@[i as int]);
        }
        let c = &parsed_cmd[i];
        let mut cmd_path: Option<String> = None;
        let seg: String;
        match c {
            ParsedCommand::Read { cmd: _, name, path } => {
                seg = String::from_str("Read ").concat(name.as_str());
                cmd_path = Some(path.clone());
                kind = ToolKind::Read;
            },
            ParsedCommand::ListFiles { cmd: _, path } => {
                let dir = match path {
                    Some(p) => join_path(cwd, p.as_str()),
                    None => String::from_str(cwd),
                };
                seg = String::from_str("List ").concat(dir.as_str());
                cmd_path = match path {
                    Some(p) => Some(p.clone()),
                    None => None,
                };
                kind = ToolKind::Search;
            },
            ParsedCommand::Search { cmd, query, path } => {
                seg = match (query, path) {
                    (Some(q), Some(p)) => String::from_str("Search ").concat(q.as_str()).concat(
                        " in ",
                    ).concat(p.as_str()),
                    (Some(q), None) => String::from_str("Search ").concat(q.as_str()),
                    (None, _) => String::from_str("Search ").concat(cmd.as_str()),
                };
                cmd_path = match path {
                    Some(p) => Some(p.clone()),
                    None => None,
                };
                kind = ToolKind::Search;
            },
            ParsedCommand::Unknown { cmd } => {
                seg = String::from_str("Run ").concat(cmd.as_str());
                terminal_output = true;
            },
        }
        proof {
            assert(seg@ == cmd_title(cwd@, parsed_cmd@[i as int]));
            assert(match cmd_path {
                Some(p) => cmd_path_of(parsed_cmd@[i as int]) == Some(p@),
                None => cmd_path_of(parsed_cmd@[i as int]) is None,
            });
        }
        if i > 0 {
            title.append(", ");
        }
        title.append(seg.as_str());
        proof {
            let ts = titles_of(cwd@, prefix);
            let ts2 = titles_of(cwd@, next_prefix);
            assert(ts2 == ts.push(seg@));
            if i == 0 {
                assert(ts2.len() == 1);
                assert(join_with(ts2, ", "@) == ts2[0]);
            } else {
                assert(ts2.drop_last() =~= ts);
                assert(join_with(ts2, ", "@) == join_with(ts, ", "@) + ", "@ + seg@);
            }
        }
        match cmd_path {
            Some(p) => {
                let loc_path = join_path(cwd, p.as_str());
                locations.push(ToolCallLocation { path: loc_path, line: None });
            },
            None => {},
        }
        i = i + 1;
    }
    proof {
        assert(parsed_cmd@.subrange(0, n as int) =~= parsed_cmd@);
    }
    FormatCommandCall { title, terminal_output, locations, kind }
}

// ---- Permission options and decision mapping ----

/// The fixed three-choice option set offered with every permission request:
/// allow for the rest of the session, allow once, reject once.
pub fn default_permission_options() -> (r: Vec<PermissionOption>)
    ensures
        r@.len() == 3,
        r@[0].option_id@ == "approved-for-session"@ && r@[0].name@ == "Approved Always"@ && r@[
            0
        ].kind == PermissionOptionKind::AllowAlways,
        r@[1].option_id@ == "approved"@ && r@[1].name@ == "Approved"@ && r@[1].kind
            == PermissionOptionKind::AllowOnce,
        r@[2].option_id@ == "abort"@ && r@[2].name@ == "Reject"@ && r@[2].kind
            == PermissionOptionKind::RejectOnce,
{
    let mut r: Vec<PermissionOption> = Vec::new();
    r.push(
        PermissionOption {
            option_id: String::from_str("approved-for-session"),
            name: String::from_str("Approved Always"),
            kind: PermissionOptionKind::AllowAlways,
        },
    );
    r.push(
        PermissionOption {
            option_id: String::from_str("approved"),
            name: String::from_str("Approved"),
            kind: PermissionOptionKind::AllowOnce,
        },
    );
    r.push(
        PermissionOption {
            option_id: String::from_str("abort"),
            name: String::from_str("Reject"),
            kind: PermissionOptionKind::RejectOnce,
        },
    );
    r
}

/// The total decision mapping: the "approved" option approves once, the
/// "approved-for-session" option approves for the rest of the session, and
/// every other selection, a cancellation, or a lost completion channel
/// aborts.
pub open spec fn decision_for_outcome(o: PermissionOutcome) -> ReviewDecision {
    match o {
        PermissionOutcome::Selected { option_id } => if option_id@ == "approved"@ {
            ReviewDecision::Approved
        } else if option_id@ == "approved-for-session"@ {
            ReviewDecision::ApprovedForSession
        } else {
            ReviewDecision::Abort
        },
        PermissionOutcome::Cancelled => ReviewDecision::Abort,
        PermissionOutcome::ChannelClosed => ReviewDecision::Abort,
    }
}

/// Map a permission outcome to the decision submitted back to the engine.
pub fn handle_response_outcome(resp: PermissionOutcome) -> (r: ReviewDecision)
    ensures
        r == decision_for_outcome(resp),
{
    match resp {
        PermissionOutcome::Selected { option_id } => {
            if crate::text::str_eq(option_id.as_str(), "approved") {
                ReviewDecision::Approved
            } else if crate::text::str_eq(option_id.as_str(), "approved-for-session") {
                ReviewDecision::ApprovedForSession
            } else {
                ReviewDecision::Abort
            }
        },
        PermissionOutcome::Cancelled => ReviewDecision::Abort,
        PermissionOutcome::ChannelClosed => ReviewDecision::Abort,
    }
}

// ---- Plan translation ----

/// The protocol status of an engine plan step: a one-to-one mapping.
pub open spec fn plan_status_spec(s: StepStatus) -> PlanEntryStatus {
    match s {
        StepStatus::Pending => PlanEntryStatus::Pending,
        StepStatus::InProgress => PlanEntryStatus::InProgress,
        StepStatus::Completed => PlanEntryStatus::Completed,
    }
}

/// Translate an engine plan into protocol plan entries: statuses map one to
/// one and every entry gets medium priority, since the engine supplies none.
pub fn plan_entries(plan: &Vec<PlanItem>) -> (r: Vec<PlanEntry>)
    ensures
        r@.len() == plan@.len(),
        forall|i: int|
            0 <= i < r@.len() ==> {
                &&& (#[trigger] r@[i]).content@ == plan@[i].step@
                &&& r@[i].priority == PlanEntryPriority::Medium
                &&& r@[i].status == plan_status_spec(plan@[i].status)
            },
{
    let n = plan.len();
    let mut r: Vec<PlanEntry> = Vec::new();
    let mut i: usize = 0;
    while i < n
        invariant
            i <= n,
            n == plan@.len(),
            r@.len() == i,
            forall|j: int|
                0 <= j < i ==> {
                    &&& (#[trigger] r@[j]).content@ == plan@[j].step@
                    &&& r@[j].priority == PlanEntryPriority::Medium
                    &&& r@[j].status == plan_status_spec(plan@[j].status)
                },
        decreases n - i,
    {
        let item = &plan[i];
        let status = match item.status {
            StepStatus::Pending => PlanEntryStatus::Pending,
            StepStatus::InProgress => PlanEntryStatus::InProgress,
            StepStatus::Completed => PlanEntryStatus::Completed,
        };
        r.push(
            PlanEntry {
                content: item.step.clone(),
                priority: PlanEntryPriority::Medium,
                status,
            },
        );
        i = i + 1;
    }
    r
}

// ---- The event handler ----

/// Arguments for building the update of a finished command execution.
pub struct ExecEndArgs {
    pub call_id: String,
    pub exit_code: i32,
    pub aggregated_output: String,
    pub stdout: String,
    pub stderr: String,
    pub duration_ms: u128,
    pub formatted_output: String,
}

/// The combined output of a finished command execution: the aggregated
/// output when present, else stdout and stderr concatenated (with a line
/// break when both exist), else nothing.
pub open spec fn exec_end_content_spec(
    aggregated: Seq<char>,
    stdout: Seq<char>,
    stderr: Seq<char>,
) -> Option<Seq<char>> {
    if aggregated.len() > 0 {
        Some(aggregated)
    } else if stdout.len() > 0 || stderr.len() > 0 {
        let merged = if stderr.len() > 0 {
            stdout + seq!['\n'] + stderr
        } else {
            stdout
        };
        if merged.len() > 0 {
            Some(merged)
        } else {
            None
        }
    } else {
        None
    }
}

/// A copy of the fixed permission option set.
fn clone_options(v: &Vec<PermissionOption>) -> (r: Vec<PermissionOption>)
    ensures
        r@ == v@,
{
    let n = v.len();
    let mut r: Vec<PermissionOption> = Vec::new();
    let mut i: usize = 0;
    while i < n
        invariant
            i <= n,
            n == v@.len(),
            r@.len() == i,
            forall|j: int| 0 <= j < i ==> r@[j] == v@[j],
        decreases n - i,
    {
        let o = &v[i];
        r.push(
            PermissionOption { option_id: o.option_id.clone(), name: o.name.clone(), kind: o.kind },
        );
        i = i + 1;
    }
    proof {
        assert(r@ =~= v@);
    }
    r
}

/// Translates engine event data into client updates and permission
/// requests. One handler lives for the length of a prompt turn; it carries
/// the workspace directory and whether the client can render terminals.
pub struct EventHandler {
    pub cwd: String,
    pub support_terminal: bool,
    pub permission_options: Vec<PermissionOption>,
}

impl EventHandler {
    /// A handler for the workspace `cwd` and the client's terminal support.
    pub fn new(cwd: String, support_terminal: bool) -> (r: EventHandler)
        ensures
            r.cwd@ == cwd@,
            r.support_terminal == support_terminal,
            r.permission_options@.len() == 3,
            r.permission_options@[0].option_id@ == "approved-for-session"@
                && r.permission_options@[0].name@ == "Approved Always"@
                && r.permission_options@[0].kind == PermissionOptionKind::AllowAlways,
            r.permission_options@[1].option_id@ == "approved"@ && r.permission_options@[1].name@
                == "Approved"@ && r.permission_options@[1].kind == PermissionOptionKind::AllowOnce,
            r.permission_options@[2].option_id@ == "abort"@ && r.permission_options@[2].name@
                == "Reject"@ && r.permission_options@[2].kind == PermissionOptionKind::RejectOnce,
    {
        EventHandler { cwd, support_terminal, permission_options: default_permission_options() }
    }

    /// The update for a remote tool call that has begun: an in-progress
    /// fetch-kind tool call titled after the invocation, with the
    /// invocation's raw arguments carried through.
    pub fn on_mcp_tool_call_begin(&self, call_id: &str, invocation: &McpInvocation) -> (r:
        ClientUpdate)
        ensures
            mcp_begin_update(r, call_id@, *invocation, self.cwd@),
    {
        let (title, locations) = describe_mcp_tool(invocation, self.cwd.as_str());
        let raw_input = match &invocation.arguments {
            Some(args) => Some(RawData::Verbatim { json: args.raw.clone() }),
            None => None,
        };
        ClientUpdate::ToolCall(
            ToolCall {
                id: String::from_str(call_id),
                title,
                kind: ToolKind::Fetch,
                status: ToolCallStatus::InProgress,
                content: Vec::new(),
                locations,
                raw_input,
                raw_output: None,
                terminal_info: None,
            },
        )
    }

    /// The update for a finished remote tool call: completed or failed by
    /// `success`, re-titled, with locations only when the invocation has
    /// any, and the serialized result as raw output.
    pub fn on_mcp_tool_call_end(
        &self,
        call_id: &str,
        invocation: &McpInvocation,
        result_json: &str,
        success: bool,
    ) -> (r: ClientUpdate)
        ensures
            mcp_end_update(r, call_id@, *invocation, result_json@, success, self.cwd@),
    {
        let status = if success {
            ToolCallStatus::Completed
        } else {
            ToolCallStatus::Failed
        };
        let (title, locations) = describe_mcp_tool(invocation, self.cwd.as_str());
        let locations_field = if locations.len() == 0 {
            None
        } else {
            Some(locations)
        };
        let mut fields = ToolCallUpdateFields::empty();
        fields.status = Some(status);
        fields.title = Some(title);
        fields.locations = locations_field;
        fields.raw_output = Some(RawData::Verbatim { json: String::from_str(result_json) });
        ClientUpdate::ToolCallUpdate(ToolCallUpdate { id: String::from_str(call_id), fields })
    }

    /// The update for a command execution that has begun: an in-progress
    /// tool call summarizing the parsed command list, with embedded
    /// terminal content exactly when the client supports terminals and the
    /// command could not be classified.
    pub fn on_exec_command_begin(
        &self,
        call_id: &str,
        cwd: &str,
        command: &Vec<String>,
        parsed_cmd: &Vec<ParsedCommand>,
    ) -> (r: ClientUpdate)
        ensures
            exec_begin_update(r, call_id@, cwd@, command@, parsed_cmd@, self.support_terminal),
    {
        let call = format_command_call(cwd, parsed_cmd);
        let use_terminal = self.support_terminal && call.terminal_output;
        let mut content: Vec<ToolCallContent> = Vec::new();
        let terminal_info: Option<TerminalInfo>;
        if use_terminal {
            content.push(ToolCallContent::Terminal { terminal_id: String::from_str(call_id) });
            terminal_info = Some(
                TerminalInfo {
                    terminal_id: String::from_str(call_id),
                    cwd: String::from_str(cwd),
                },
            );
        } else {
            terminal_info = None;
        }
        proof {
            reveal_strlit(" ");
        }
        let raw_input = RawData::ExecBegin {
            command: clone_string_vec(command),
            command_string: join_strings(command, " "),
            cwd: String::from_str(cwd),
        };
        ClientUpdate::ToolCall(
            ToolCall {
                id: String::from_str(call_id),
                title: call.title,
                kind: call.kind,
                status: ToolCallStatus::InProgress,
                content,
                locations: call.locations,
                raw_input: Some(raw_input),
                raw_output: None,
                terminal_info,
            },
        )
    }

    /// The update for a finished command execution: success is exit code
    /// zero; the combined output (aggregated output preferred over stdout
    /// and stderr) becomes text content; exit code, duration, and the
    /// formatted output travel as raw output.
    pub fn on_exec_command_end(&self, end: ExecEndArgs) -> (r: ClientUpdate)
        ensures
            exec_end_update(
                r,
                end.call_id@,
                end.exit_code,
                end.aggregated_output@,
                end.stdout@,
                end.stderr@,
                end.duration_ms,
                end.formatted_output@,
            ),
    {
        let status = if end.exit_code == 0 {
            ToolCallStatus::Completed
        } else {
            ToolCallStatus::Failed
        };
        let mut content: Vec<ToolCallContent> = Vec::new();
        if !end.aggregated_output.as_str().is_empty() {
            content.push(ToolCallContent::Text { text: end.aggregated_output });
        } else if !end.stdout.as_str().is_empty() || !end.stderr.as_str().is_empty() {
            let merged = if !end.stderr.as_str().is_empty() {
                let r = end.stdout.clone().concat("\n").concat(end.stderr.as_str());
                proof {
                    reveal_strlit("\n");
                    assert("\n"@ =~= seq!['\n']);
                }
                r
            } else {
                end.stdout.clone()
            };
            if !merged.as_str().is_empty() {
                content.push(ToolCallContent::Text { text: merged });
            }
        }
        let mut fields = ToolCallUpdateFields::empty();
        fields.status = Some(status);
        fields.content = if content.len() == 0 {
            None
        } else {
            Some(content)
        };
        fields.raw_output = Some(
            RawData::ExecEnd {
                exit_code: end.exit_code,
                duration_ms: end.duration_ms,
                formatted_output: end.formatted_output,
            },
        );
        ClientUpdate::ToolCallUpdate(ToolCallUpdate { id: end.call_id, fields })
    }

    /// The permission request for a command-execution approval: a pending
    /// tool-call update summarizing the command, with the fixed
    /// three-choice option set.
    pub fn on_exec_approval_request(
        &self,
        session_id: &str,
        call_id: &str,
        cwd: &str,
        parsed_cmd: &Vec<ParsedCommand>,
    ) -> (r: PermissionRequest)
        ensures
            exec_approval_request(
                r,
                session_id@,
                call_id@,
                cwd@,
                parsed_cmd@,
                self.permission_options@,
            ),
    {
        let call = format_command_call(cwd, parsed_cmd);
        let mut fields = ToolCallUpdateFields::empty();
        fields.kind = Some(call.kind);
        fields.status = Some(ToolCallStatus::Pending);
        fields.title = Some(call.title);
        fields.locations = if call.locations.len() == 0 {
            None
        } else {
            Some(call.locations)
        };
        PermissionRequest {
            session_id: String::from_str(session_id),
            tool_call: ToolCallUpdate { id: String::from_str(call_id), fields },
            options: clone_options(&self.permission_options),
        }
    }

    /// The permission request for a patch approval: one diff entry per
    /// changed path — an addition has no before-text, a deletion no
    /// after-text, and an update carries its unified diff as both — with
    /// the fixed three-choice option set.
    pub fn on_apply_patch_approval_request(
        &self,
        session_id: &str,
        call_id: &str,
        changes: &Vec<(String, FileChange)>,
    ) -> (r: PermissionRequest)
        ensures
            patch_approval_request(r, session_id@, call_id@, changes@, self.permission_options@),
    {
        let n = changes.len();
        let mut contents: Vec<ToolCallContent> = Vec::new();
        let mut i: usize = 0;
        while i < n
            invariant
                i <= n,
                n == changes@.len(),
                contents@.len() == i,
                forall|j: int|
                    0 <= j < i ==> diff_content_matches(
                        #[trigger] contents@[j],
                        changes@[j].0@,
                        changes@[j].1,
                    ),
            decreases n - i,
        {
            let entry = &changes[i];
            let path = entry.0.clone();
            match &entry.1 {
                FileChange::Add { content } => {
                    contents.push(
                        ToolCallContent::Diff {
                            path,
                            old_text: None,
                            new_text: content.clone(),
                        },
                    );
                },
                FileChange::Delete { content } => {
                    contents.push(
                        ToolCallContent::Diff {
                            path,
                            old_text: Some(content.clone()),
                            new_text: String::new(),
                        },
                    );
                },
                FileChange::Update { unified_diff, move_path: _ } => {
                    contents.push(
                        ToolCallContent::Diff {
                            path,
                            old_text: Some(unified_diff.clone()),
                            new_text: unified_diff.clone(),
                        },
                    );
                },
            }
            i = i + 1;
        }
        let title = if n == 1 {
            String::from_str("Apply changes")
        } else {
            String::from_str("Edit ").concat(usize_to_string(n).as_str()).concat(" files")
        };
        let mut fields = ToolCallUpdateFields::empty();
        fields.kind = Some(ToolKind::Edit);
        fields.status = Some(ToolCallStatus::Pending);
        fields.title = Some(title);
        fields.content = if contents.len() == 0 {
            None
        } else {
            Some(contents)
        };
        PermissionRequest {
            session_id: String::from_str(session_id),
            tool_call: ToolCallUpdate { id: String::from_str(call_id), fields },
            options: clone_options(&self.permission_options),
        }
    }

    /// The update for a finished patch application: success or failure plus
    /// the raw event payload, verbatim, as output.
    pub fn on_patch_apply_end(&self, call_id: &str, success: bool, raw_event_json: String) -> (r:
        ClientUpdate)
        ensures
            patch_end_update(r, call_id@, success, raw_event_json@),
    {
        let mut fields = ToolCallUpdateFields::empty();
        fields.status = Some(
            if success {
                ToolCallStatus::Completed
            } else {
                ToolCallStatus::Failed
            },
        );
        fields.raw_output = Some(RawData::Verbatim { json: raw_event_json });
        ClientUpdate::ToolCallUpdate(ToolCallUpdate { id: String::from_str(call_id), fields })
    }
}

/// What `on_mcp_tool_call_begin` yields: an in-progress fetch-kind tool
/// call titled after the invocation, its locations from the filesystem-tool
/// metadata, and the invocation's raw arguments carried through.
pub open spec fn mcp_begin_update(
    r: ClientUpdate,
    call_id: Seq<char>,
    invocation: McpInvocation,
    cwd: Seq<char>,
) -> bool {
    r matches ClientUpdate::ToolCall(tc) && {
        &&& tc.id@ == call_id
        &&& tc.title@ == describe_title_spec(invocation, cwd)
        &&& tc.kind == ToolKind::Fetch
        &&& tc.status == ToolCallStatus::InProgress
        &&& locations_match(tc.locations@, describe_locations_spec(invocation, cwd))
        &&& tc.content@.len() == 0
        &&& (match invocation.arguments {
            Some(args) => tc.raw_input matches Some(RawData::Verbatim { json }) && json@
                == args.raw@,
            None => tc.raw_input is None,
        })
        &&& tc.raw_output is None
        &&& tc.terminal_info is None
    }
}

/// What `on_mcp_tool_call_end` yields: completed or failed by `success`,
/// re-titled, locations only when the invocation has any, and the
/// serialized result as raw output.
pub open spec fn mcp_end_update(
    r: ClientUpdate,
    call_id: Seq<char>,
    invocation: McpInvocation,
    result_json: Seq<char>,
    success: bool,
    cwd: Seq<char>,
) -> bool {
    r matches ClientUpdate::ToolCallUpdate(u) && {
        &&& u.id@ == call_id
        &&& u.fields.status == Some(
            if success {
                ToolCallStatus::Completed
            } else {
                ToolCallStatus::Failed
            },
        )
        &&& (u.fields.title matches Some(t) && t@ == describe_title_spec(invocation, cwd))
        &&& (if describe_locations_spec(invocation, cwd).len() == 0 {
            u.fields.locations is None
        } else {
            u.fields.locations matches Some(ls) && locations_match(
                ls@,
                describe_locations_spec(invocation, cwd),
            )
        })
        &&& (u.fields.raw_output matches Some(RawData::Verbatim { json }) && json@ == result_json)
        &&& u.fields.kind is None
        &&& u.fields.content is None
        &&& u.fields.raw_input is None
    }
}

/// What `on_exec_command_begin` yields: an in-progress tool call
/// summarizing the command list, with embedded terminal content exactly
/// when the client supports terminals and the command is unclassified, and
/// the command with its working directory as raw input.
pub open spec fn exec_begin_update(
    r: ClientUpdate,
    call_id: Seq<char>,
    cwd: Seq<char>,
    command: Seq<String>,
    parsed_cmd: Seq<ParsedCommand>,
    support_terminal: bool,
) -> bool {
    r matches ClientUpdate::ToolCall(tc) && {
        &&& tc.id@ == call_id
        &&& tc.title@ == join_with(titles_of(cwd, parsed_cmd), ", "@)
        &&& tc.kind == kind_of_cmds(parsed_cmd)
        &&& tc.status == ToolCallStatus::InProgress
        &&& tc.locations@.len() == locations_of(cwd, parsed_cmd).len()
        &&& (forall|i: int|
            0 <= i < tc.locations@.len() ==> (#[trigger] tc.locations@[i]).path@ == locations_of(
                cwd,
                parsed_cmd,
            )[i] && tc.locations@[i].line is None)
        &&& (if support_terminal && has_unknown(parsed_cmd) {
            &&& tc.content@.len() == 1
            &&& (tc.content@[0] matches ToolCallContent::Terminal { terminal_id } && terminal_id@
                == call_id)
            &&& (tc.terminal_info matches Some(ti) && ti.terminal_id@ == call_id && ti.cwd@ == cwd)
        } else {
            tc.content@.len() == 0 && tc.terminal_info is None
        })
        &&& (tc.raw_input matches Some(RawData::ExecBegin { command: rc, command_string, cwd: rcwd })
            && rc@ == command && command_string@ == join_with(
            rc.deep_view(),
            " "@,
        ) && rcwd@ == cwd)
        &&& tc.raw_output is None
    }
}

/// What `on_exec_command_end` yields: success is exit code zero, the
/// combined output as text content, and exit code, duration, and formatted
/// output as raw output.
pub open spec fn exec_end_update(
    r: ClientUpdate,
    call_id: Seq<char>,
    exit_code: i32,
    aggregated_output: Seq<char>,
    stdout: Seq<char>,
    stderr: Seq<char>,
    duration_ms: u128,
    formatted_output: Seq<char>,
) -> bool {
    r matches ClientUpdate::ToolCallUpdate(u) && {
        &&& u.id@ == call_id
        &&& u.fields.status == Some(
            if exit_code == 0 {
                ToolCallStatus::Completed
            } else {
                ToolCallStatus::Failed
            },
        )
        &&& (match exec_end_content_spec(aggregated_output, stdout, stderr) {
            Some(text) => u.fields.content matches Some(cs) && cs@.len() == 1 && (cs@[0]
                matches ToolCallContent::Text { text: t } && t@ == text),
            None => u.fields.content is None,
        })
        &&& (u.fields.raw_output matches Some(
            RawData::ExecEnd { exit_code: ec, duration_ms: d, formatted_output: f },
        ) && ec == exit_code && d == duration_ms && f@ == formatted_output)
        &&& u.fields.title is None
        &&& u.fields.kind is None
        &&& u.fields.locations is None
        &&& u.fields.raw_input is None
    }
}

/// What `on_exec_approval_request` yields: a pending tool-call update
/// summarizing the command, with the fixed option set.
pub open spec fn exec_approval_request(
    r: PermissionRequest,
    session_id: Seq<char>,
    call_id: Seq<char>,
    cwd: Seq<char>,
    parsed_cmd: Seq<ParsedCommand>,
    options: Seq<PermissionOption>,
) -> bool {
    &&& r.session_id@ == session_id
    &&& r.tool_call.id@ == call_id
    &&& r.tool_call.fields.status == Some(ToolCallStatus::Pending)
    &&& r.tool_call.fields.kind == Some(kind_of_cmds(parsed_cmd))
    &&& (r.tool_call.fields.title matches Some(t) && t@ == join_with(
        titles_of(cwd, parsed_cmd),
        ", "@,
    ))
    &&& (if locations_of(cwd, parsed_cmd).len() == 0 {
        r.tool_call.fields.locations is None
    } else {
        r.tool_call.fields.locations matches Some(ls) && ls@.len() == locations_of(
            cwd,
            parsed_cmd,
        ).len() && forall|i: int|
            0 <= i < ls@.len() ==> (#[trigger] ls@[i]).path@ == locations_of(cwd, parsed_cmd)[i]
                && ls@[i].line is None
    })
    &&& r.tool_call.fields.content is None
    &&& r.tool_call.fields.raw_input is None
    &&& r.tool_call.fields.raw_output is None
    &&& r.options@ == options
}

/// What `on_apply_patch_approval_request` yields: a pending edit-kind
/// update with one diff entry per changed path and the fixed option set.
pub open spec fn patch_approval_request(
    r: PermissionRequest,
    session_id: Seq<char>,
    call_id: Seq<char>,
    changes: Seq<(String, FileChange)>,
    options: Seq<PermissionOption>,
) -> bool {
    &&& r.session_id@ == session_id
    &&& r.tool_call.id@ == call_id
    &&& r.tool_call.fields.status == Some(ToolCallStatus::Pending)
    &&& r.tool_call.fields.kind == Some(ToolKind::Edit)
    &&& (r.tool_call.fields.title matches Some(t) && t@ == (if changes.len() == 1 {
        "Apply changes"@
    } else {
        "Edit "@ + dec_spec(changes.len()) + " files"@
    }))
    &&& (if changes.len() == 0 {
        r.tool_call.fields.content is None
    } else {
        r.tool_call.fields.content matches Some(cs) && cs@.len() == changes.len() && (forall|
            i: int,
        |
            0 <= i < cs@.len() ==> diff_content_matches(
                #[trigger] cs@[i],
                changes[i].0@,
                changes[i].1,
            ))
    })
    &&& r.tool_call.fields.locations is None
    &&& r.tool_call.fields.raw_input is None
    &&& r.tool_call.fields.raw_output is None
    &&& r.options@ == options
}

/// What `on_patch_apply_end` yields: success or failure plus the raw event
/// payload, verbatim, as output.
pub open spec fn patch_end_update(
    r: ClientUpdate,
    call_id: Seq<char>,
    success: bool,
    raw_event_json: Seq<char>,
) -> bool {
    r matches ClientUpdate::ToolCallUpdate(u) && {
        &&& u.id@ == call_id
        &&& u.fields.status == Some(
            if success {
                ToolCallStatus::Completed
            } else {
                ToolCallStatus::Failed
            },
        )
        &&& (u.fields.raw_output matches Some(RawData::Verbatim { json }) && json@
            == raw_event_json)
        &&& u.fields.title is None
        &&& u.fields.kind is None
        &&& u.fields.content is None
        &&& u.fields.locations is None
        &&& u.fields.raw_input is None
    }
}

/// The tool call reported when a web search begins: a pending fetch-kind
/// call with a fixed title and nothing else set.
pub open spec fn web_search_begin_update(r: ClientUpdate, call_id: Seq<char>) -> bool {
    r matches ClientUpdate::ToolCall(tc) && {
        &&& tc.id@ == call_id
        &&& tc.title@ == "Searching the web"@
        &&& tc.kind == ToolKind::Fetch
        &&& tc.status == ToolCallStatus::Pending
        &&& tc.content@.len() == 0
        &&& tc.locations@.len() == 0
        &&& tc.raw_input is None
        &&& tc.raw_output is None
        &&& tc.terminal_info is None
    }
}

/// The update reported when a web search ends: completed, re-titled with
/// the query, and the query as raw input.
pub open spec fn web_search_end_update(
    r: ClientUpdate,
    call_id: Seq<char>,
    query: Seq<char>,
) -> bool {
    r matches ClientUpdate::ToolCallUpdate(u) && {
        &&& u.id@ == call_id
        &&& u.fields.status == Some(ToolCallStatus::Completed)
        &&& (u.fields.title matches Some(t) && t@ == "Searching for: "@ + query)
        &&& (u.fields.raw_input matches Some(RawData::Query { query: q }) && q@ == query)
        &&& u.fields.kind is None
        &&& u.fields.content is None
        &&& u.fields.locations is None
        &&& u.fields.raw_output is None
    }
}

/// Whether a content entry is the diff a file change translates to: an
/// addition has no before-text, a deletion no after-text, and an update its
/// unified diff as both.
pub open spec fn diff_content_matches(c: ToolCallContent, path: Seq<char>, ch: FileChange) -> bool {
    match ch {
        FileChange::Add { content } => c matches ToolCallContent::Diff {
            path: p,
            old_text,
            new_text,
        } && p@ == path && old_text is None && new_text@ == content@,
        FileChange::Delete { content } => c matches ToolCallContent::Diff {
            path: p,
            old_text,
            new_text,
        } && p@ == path && (old_text matches Some(o) && o@ == content@) && new_text@.len() == 0,
        FileChange::Update { unified_diff, .. } => c matches ToolCallContent::Diff {
            path: p,
            old_text,
            new_text,
        } && p@ == path && (old_text matches Some(o) && o@ == unified_diff@) && new_text@
            == unified_diff@,
    }
}

} // verus!
