//! The bridge's data model of its two interfaces.
//!
//! On one side the conversation engine: operations the bridge submits and
//! the tagged events the engine streams back. On the other side the client
//! protocol: session updates, permission requests and their outcomes. Both
//! are modelled as plain values; the transport that carries them lives
//! outside this crate.

use vstd::prelude::*;
use crate::config::{ApprovalPolicy, ReasoningEffort, SandboxPolicy};

verus! {

/// The errors the bridge surfaces to the client, each with a short
/// diagnostic.
#[derive(Debug)]
pub enum AcpError {
    /// Malformed or unresolvable parameters, including unknown session ids.
    InvalidParams(String),
    /// Credentials are missing or invalid for the chosen method.
    AuthRequired(String),
    /// An engine or delivery failure wrapped as an internal error.
    Internal(String),
}

impl AcpError {
    /// The protocol error code of this error.
    pub fn code(&self) -> (c: i64)
        ensures
            c == match self {
                AcpError::InvalidParams(_) => -32602int,
                AcpError::AuthRequired(_) => -32000int,
                AcpError::Internal(_) => -32603int,
            },
    {
        match self {
            AcpError::InvalidParams(_) => -32602,
            AcpError::AuthRequired(_) => -32000,
            AcpError::Internal(_) => -32603,
        }
    }

    /// The diagnostic string carried by this error.
    pub fn message(&self) -> (m: &String)
        ensures
            m@ == match self {
                AcpError::InvalidParams(t) => t@,
                AcpError::AuthRequired(t) => t@,
                AcpError::Internal(t) => t@,
            },
    {
        match self {
            AcpError::InvalidParams(t) => t,
            AcpError::AuthRequired(t) => t,
            AcpError::Internal(t) => t,
        }
    }
}

/// Why a prompt turn stopped.
#[derive(Clone, Copy, PartialEq, Eq, Structural, Debug)]
pub enum StopReason {
    EndTurn,
    Cancelled,
}

/// The decision submitted back to the engine for an approval request.
#[derive(Clone, Copy, PartialEq, Eq, Structural, Debug)]
pub enum ReviewDecision {
    Approved,
    ApprovedForSession,
    Abort,
}

/// One item of a user-input submission.
pub enum UserInput {
    Text { text: String },
    Image { image_url: String },
}

/// An operation submitted to the engine.
pub enum EngineOp {
    UserInput {
        items: Vec<UserInput>,
    },
    OverrideTurnContext {
        approval_policy: Option<ApprovalPolicy>,
        sandbox_policy: Option<SandboxPolicy>,
        model: Option<String>,
        effort: Option<Option<ReasoningEffort>>,
        cwd: Option<String>,
        summary: Option<String>,
    },
    ExecApproval {
        id: String,
        decision: ReviewDecision,
    },
    PatchApproval {
        id: String,
        decision: ReviewDecision,
    },
    Interrupt,
}

/// A shell command as the engine has already parsed it.
pub enum ParsedCommand {
    Read { cmd: String, name: String, path: String },
    ListFiles { cmd: String, path: Option<String> },
    Search { cmd: String, query: Option<String>, path: Option<String> },
    Unknown { cmd: String },
}

/// One changed path of a patch, with add/delete/update semantics.
pub enum FileChange {
    Add { content: String },
    Delete { content: String },
    Update { unified_diff: String, move_path: Option<String> },
}

/// The arguments of a remote tool invocation: the serialized form carried
/// through verbatim, and the path/line fields the bridge itself reads.
pub struct ToolArguments {
    pub raw: String,
    pub path: Option<String>,
    pub line: Option<u64>,
}

/// A remote tool invocation as the engine reports it.
pub struct McpInvocation {
    pub server: String,
    pub tool: String,
    pub arguments: Option<ToolArguments>,
}

/// The engine's token accounting snapshot.
#[derive(Clone, Copy, PartialEq, Eq, Structural, Debug)]
pub struct TokenUsage {
    pub input_tokens: u64,
    pub cached_input_tokens: u64,
    pub output_tokens: u64,
    pub reasoning_output_tokens: u64,
    pub total_tokens: u64,
}

/// A step of the engine's plan.
#[derive(Clone, Copy, PartialEq, Eq, Structural, Debug)]
pub enum StepStatus {
    Pending,
    InProgress,
    Completed,
}

/// One step of a plan update from the engine.
pub struct PlanItem {
    pub step: String,
    pub status: StepStatus,
}

/// The status of a plan entry as the client protocol states it.
#[derive(Clone, Copy, PartialEq, Eq, Structural, Debug)]
pub enum PlanEntryStatus {
    Pending,
    InProgress,
    Completed,
}

/// The priority of a plan entry as the client protocol states it.
#[derive(Clone, Copy, PartialEq, Eq, Structural, Debug)]
pub enum PlanEntryPriority {
    High,
    Medium,
    Low,
}

/// One entry of the plan forwarded to the client.
pub struct PlanEntry {
    pub content: String,
    pub priority: PlanEntryPriority,
    pub status: PlanEntryStatus,
}

/// The category of a tool call, for display purposes.
#[derive(Clone, Copy, PartialEq, Eq, Structural, Debug)]
pub enum ToolKind {
    Read,
    Edit,
    Search,
    Execute,
    Fetch,
    Other,
}

/// The lifecycle status of a tool call.
#[derive(Clone, Copy, PartialEq, Eq, Structural, Debug)]
pub enum ToolCallStatus {
    Pending,
    InProgress,
    Completed,
    Failed,
}

/// A file location a tool call refers to, for deep-linking.
pub struct ToolCallLocation {
    pub path: String,
    pub line: Option<u32>,
}

/// Embedded terminal metadata attached to a command execution's tool call.
pub struct TerminalInfo {
    pub terminal_id: String,
    pub cwd: String,
}

/// A piece of content attached to a tool call.
pub enum ToolCallContent {
    Text { text: String },
    Terminal { terminal_id: String },
    Diff { path: String, old_text: Option<String>, new_text: String },
}

/// Structured raw payloads attached to tool-call updates. The transport
/// serializes them; the bridge only decides their contents.
pub enum RawData {
    /// A serialized value carried through verbatim.
    Verbatim { json: String },
    /// The raw input of a command execution.
    ExecBegin { command: Vec<String>, command_string: String, cwd: String },
    /// The raw output of a finished command execution.
    ExecEnd { exit_code: i32, duration_ms: u128, formatted_output: String },
    /// The query of a web search.
    Query { query: String },
}

/// A fresh tool call reported to the client.
pub struct ToolCall {
    pub id: String,
    pub title: String,
    pub kind: ToolKind,
    pub status: ToolCallStatus,
    pub content: Vec<ToolCallContent>,
    pub locations: Vec<ToolCallLocation>,
    pub raw_input: Option<RawData>,
    pub raw_output: Option<RawData>,
    pub terminal_info: Option<TerminalInfo>,
}

/// The fields of a tool-call update; absent fields are left unchanged by the
/// client.
pub struct ToolCallUpdateFields {
    pub status: Option<ToolCallStatus>,
    pub title: Option<String>,
    pub kind: Option<ToolKind>,
    pub content: Option<Vec<ToolCallContent>>,
    pub locations: Option<Vec<ToolCallLocation>>,
    pub raw_input: Option<RawData>,
    pub raw_output: Option<RawData>,
}

impl ToolCallUpdateFields {
    /// Fields with nothing set.
    pub fn empty() -> (r: ToolCallUpdateFields)
        ensures
            r.status is None,
            r.title is None,
            r.kind is None,
            r.content is None,
            r.locations is None,
            r.raw_input is None,
            r.raw_output is None,
    {
        ToolCallUpdateFields {
            status: None,
            title: None,
            kind: None,
            content: None,
            locations: None,
            raw_input: None,
            raw_output: None,
        }
    }
}

/// An update to an already reported tool call.
pub struct ToolCallUpdate {
    pub id: String,
    pub fields: ToolCallUpdateFields,
}

/// A slash command advertised to the client.
pub struct AvailableCommand {
    pub name: String,
    pub description: String,
}

/// A session update notification delivered to the client.
pub enum ClientUpdate {
    AgentMessageChunk { text: String },
    AgentThoughtChunk { text: String },
    ToolCall(ToolCall),
    ToolCallUpdate(ToolCallUpdate),
    Plan { entries: Vec<PlanEntry> },
    AvailableCommandsUpdate { commands: Vec<AvailableCommand> },
}

/// One choice offered with a permission request.
#[derive(Clone, Copy, PartialEq, Eq, Structural, Debug)]
pub enum PermissionOptionKind {
    AllowAlways,
    AllowOnce,
    RejectOnce,
}

/// An option the client can select on a permission request.
pub struct PermissionOption {
    pub option_id: String,
    pub name: String,
    pub kind: PermissionOptionKind,
}

/// A permission request delivered to the client.
pub struct PermissionRequest {
    pub session_id: String,
    pub tool_call: ToolCallUpdate,
    pub options: Vec<PermissionOption>,
}

/// How a permission request came back: a selected option, an explicit
/// cancellation, or a completion channel that was dropped or failed.
pub enum PermissionOutcome {
    Selected { option_id: String },
    Cancelled,
    ChannelClosed,
}

/// One block of prompt content from the client.
pub enum ContentBlock {
    Text { text: String },
    Image { mime_type: String, data: String },
    Audio,
    /// An embedded resource; `text` holds its contents when it is a text
    /// resource.
    Resource { text: Option<String> },
    ResourceLink { uri: String },
}

/// A request to read a text file through the client's filesystem bridge.
pub struct ReadTextFileRequest {
    pub session_id: String,
    pub path: String,
    pub line: Option<u32>,
    pub limit: Option<u32>,
}

/// A request to write a text file through the client's filesystem bridge.
pub struct WriteTextFileRequest {
    pub session_id: String,
    pub path: String,
    pub content: String,
}

/// Operations that require client interaction: permission round-trips and
/// filesystem access on the client's side.
pub enum ClientOp {
    RequestPermission { request: PermissionRequest },
    ReadTextFile { request: ReadTextFileRequest },
    WriteTextFile { request: WriteTextFileRequest },
}

/// An event from the engine's stream, tagged with the correlation id of the
/// submission it belongs to.
pub struct EngineEvent {
    pub id: String,
    pub msg: EngineEventMsg,
}

/// The categories of engine events the bridge translates. Categories the
/// bridge deliberately ignores arrive as `Other`.
pub enum EngineEventMsg {
    AgentMessageDelta { delta: String },
    AgentMessage { message: String },
    AgentReasoningDelta { delta: String },
    AgentReasoningRawContentDelta { delta: String },
    AgentReasoning { text: String },
    AgentReasoningRawContent { text: String },
    AgentReasoningSectionBreak,
    McpToolCallBegin { call_id: String, invocation: McpInvocation },
    McpToolCallEnd { call_id: String, invocation: McpInvocation, result_json: String, success: bool },
    WebSearchBegin { call_id: String },
    WebSearchEnd { call_id: String, query: String },
    ExecCommandBegin { call_id: String, cwd: String, command: Vec<String>, parsed_cmd: Vec<ParsedCommand> },
    ExecCommandEnd { call_id: String, exit_code: i32, aggregated_output: String, stdout: String, stderr: String, duration_ms: u128, formatted_output: String },
    ExecApprovalRequest { call_id: String, cwd: String, parsed_cmd: Vec<ParsedCommand> },
    ApplyPatchApprovalRequest { call_id: String, changes: Vec<(String, FileChange)> },
    PatchApplyEnd { call_id: String, success: bool, raw_event_json: String },
    TokenCount { usage: Option<TokenUsage> },
    PlanUpdate { explanation: Option<String>, plan: Vec<PlanItem> },
    TaskComplete,
    TurnAborted,
    ShutdownComplete,
    Error { message: String },
    StreamError { message: String },
    Other,
}

} // verus!
