//! The messages of the sidecar protocol.
use vstd::prelude::*;

verus! {

/// A failure that the sidecar or the host reports.
#[derive(Debug, PartialEq, Eq)]
pub struct RuntimeError {
    pub code: String,
    pub message: String,
    pub retryable: bool,
    pub details_json: Vec<u8>,
}

/// Deep view of [`RuntimeError`].
pub struct RuntimeErrorView {
    pub code: Seq<char>,
    pub message: Seq<char>,
    pub retryable: bool,
    pub details_json: Seq<u8>,
}

impl DeepView for RuntimeError {
    type V = RuntimeErrorView;

    open spec fn deep_view(&self) -> RuntimeErrorView {
        RuntimeErrorView {
            code: self.code@,
            message: self.message@,
            retryable: self.retryable,
            details_json: self.details_json@,
        }
    }
}

/// The host offers the protocol versions it speaks.
#[derive(Debug, PartialEq, Eq)]
pub struct HandshakeRequest {
    pub minimum_version: u32,
    pub maximum_version: u32,
    pub client_name: String,
    pub client_version: String,
}

/// The sidecar picks a protocol version.
#[derive(Debug, PartialEq, Eq)]
pub struct HandshakeResponse {
    pub selected_version: u32,
    pub error: Option<RuntimeError>,
}

/// A tool of the host, with its input schema as JSON text.
#[derive(Debug, PartialEq, Eq)]
pub struct HostToolDefinition {
    pub name: String,
    pub description: String,
    pub input_schema_json: Vec<u8>,
}

/// Deep view of [`HostToolDefinition`].
pub struct HostToolView {
    pub name: Seq<char>,
    pub description: Seq<char>,
    pub input_schema_json: Seq<u8>,
}

impl DeepView for HostToolDefinition {
    type V = HostToolView;

    open spec fn deep_view(&self) -> HostToolView {
        HostToolView {
            name: self.name@,
            description: self.description@,
            input_schema_json: self.input_schema_json@,
        }
    }
}

/// Opens a session.
#[derive(Debug, PartialEq, Eq)]
pub struct SpawnRequest {
    pub codex_thread_id: String,
    pub cwd: String,
    pub agent_dir: String,
    pub session_dir: String,
    pub provider: String,
    pub model: String,
    pub thinking_level: String,
    pub host_tools: Vec<HostToolDefinition>,
}

/// Opens a persisted session again.
#[derive(Debug, PartialEq, Eq)]
pub struct ResumeRequest {
    pub codex_thread_id: String,
    pub session_locator: String,
    pub cwd_override: String,
    pub host_tools: Vec<HostToolDefinition>,
    pub agent_dir: String,
}

/// What a request asks of a session.
#[derive(Debug, PartialEq, Eq)]
pub enum Command {
    Spawn(SpawnRequest),
    Resume(ResumeRequest),
    Prompt { text: String },
    FollowUp { text: String },
    Interrupt,
    Close,
}

/// Deep view of [`Command`].
pub enum CommandView {
    Spawn {
        codex_thread_id: Seq<char>,
        cwd: Seq<char>,
        agent_dir: Seq<char>,
        session_dir: Seq<char>,
        provider: Seq<char>,
        model: Seq<char>,
        thinking_level: Seq<char>,
        host_tools: Seq<HostToolView>,
    },
    Resume {
        codex_thread_id: Seq<char>,
        session_locator: Seq<char>,
        cwd_override: Seq<char>,
        host_tools: Seq<HostToolView>,
        agent_dir: Seq<char>,
    },
    Prompt { text: Seq<char> },
    FollowUp { text: Seq<char> },
    Interrupt,
    Close,
}

impl DeepView for Command {
    type V = CommandView;

    open spec fn deep_view(&self) -> CommandView {
        match self {
            Command::Spawn(spawn) => CommandView::Spawn {
                codex_thread_id: spawn.codex_thread_id@,
                cwd: spawn.cwd@,
                agent_dir: spawn.agent_dir@,
                session_dir: spawn.session_dir@,
                provider: spawn.provider@,
                model: spawn.model@,
                thinking_level: spawn.thinking_level@,
                host_tools: spawn.host_tools.deep_view(),
            },
            Command::Resume(resume) => CommandView::Resume {
                codex_thread_id: resume.codex_thread_id@,
                session_locator: resume.session_locator@,
                cwd_override: resume.cwd_override@,
                host_tools: resume.host_tools.deep_view(),
                agent_dir: resume.agent_dir@,
            },
            Command::Prompt { text } => CommandView::Prompt { text: text@ },
            Command::FollowUp { text } => CommandView::FollowUp { text: text@ },
            Command::Interrupt => CommandView::Interrupt,
            Command::Close => CommandView::Close,
        }
    }
}

/// A request of the host.
#[derive(Debug, PartialEq, Eq)]
pub struct RuntimeRequest {
    pub request_id: String,
    pub session_id: String,
    pub command: Option<Command>,
}

/// Data of a session that was opened.
#[derive(Debug, PartialEq, Eq)]
pub struct SpawnedSession {
    pub session_locator: String,
    pub provider: String,
    pub model: String,
    pub thinking_level: String,
}

/// What a response says.
#[derive(Debug, PartialEq, Eq)]
pub enum ResponseResult {
    Spawned(SpawnedSession),
    Error(RuntimeError),
    /// Any other outcome, which carries nothing that the host reads.
    Other,
}

/// The response to a request.
#[derive(Debug, PartialEq, Eq)]
pub struct RuntimeResponse {
    pub request_id: String,
    pub result: Option<ResponseResult>,
}

/// A message begins or ends.
#[derive(Debug, PartialEq, Eq)]
pub struct MessageBoundary {
    pub message_id: String,
    pub role: String,
}

/// A piece of a message or of its reasoning.
#[derive(Debug, PartialEq, Eq)]
pub struct MessageDelta {
    pub message_id: String,
    pub delta: String,
}

/// Token counts of a session.
#[derive(Clone, Copy, Debug, PartialEq, Eq)]
pub struct PiTokenUsage {
    pub input_tokens: u64,
    pub output_tokens: u64,
    pub cache_read_tokens: u64,
    pub total_tokens: u64,
}

/// What happened in a session.
#[derive(Debug, PartialEq, Eq)]
pub enum PiEvent {
    AgentStart,
    TurnStart,
    MessageStart(MessageBoundary),
    TextDelta(MessageDelta),
    ThinkingDelta(MessageDelta),
    MessageEnd(MessageBoundary),
    AgentEnd { last_assistant_text: String },
    Error(RuntimeError),
    TokenUsage(PiTokenUsage),
    ToolExecutionStart,
    ToolExecutionUpdate,
    ToolExecutionEnd,
    TurnEnd,
    QueueUpdate,
    Compaction,
    Retry,
}

/// An event of a session, numbered by the sidecar.
#[derive(Debug, PartialEq, Eq)]
pub struct SessionEvent {
    pub session_id: String,
    pub sequence: u64,
    pub event: Option<PiEvent>,
}

/// The sidecar asks the host to run a tool.
#[derive(Debug, PartialEq, Eq)]
pub struct HostToolRequest {
    pub request_id: String,
    pub session_id: String,
    pub tool_call_id: String,
    pub tool_name: String,
    pub arguments_json: Vec<u8>,
}

/// The host hands back what a tool gave.
#[derive(Debug, PartialEq, Eq)]
pub struct HostToolResult {
    pub request_id: String,
    pub session_id: String,
    pub tool_call_id: String,
    pub result_json: Vec<u8>,
    pub error: Option<RuntimeError>,
}

/// Deep view of [`HostToolResult`].
pub struct HostToolResultView {
    pub request_id: Seq<char>,
    pub session_id: Seq<char>,
    pub tool_call_id: Seq<char>,
    pub result_json: Seq<u8>,
    pub error: Option<RuntimeErrorView>,
}

impl DeepView for HostToolResult {
    type V = HostToolResultView;

    open spec fn deep_view(&self) -> HostToolResultView {
        HostToolResultView {
            request_id: self.request_id@,
            session_id: self.session_id@,
            tool_call_id: self.tool_call_id@,
            result_json: self.result_json@,
            error: self.error.deep_view(),
        }
    }
}

/// What an envelope carries.
#[derive(Debug, PartialEq, Eq)]
pub enum Payload {
    HandshakeRequest(HandshakeRequest),
    HandshakeResponse(HandshakeResponse),
    Request(RuntimeRequest),
    Response(RuntimeResponse),
    Event(SessionEvent),
    HostToolRequest(HostToolRequest),
    HostToolResult(HostToolResult),
}

/// One message on the connection.
#[derive(Debug, PartialEq, Eq)]
pub struct Envelope {
    pub protocol_version: u32,
    pub payload: Option<Payload>,
}

} // verus!
