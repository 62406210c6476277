//! Identity and failures of agent runtimes, and the data that host and runtime exchange.
use vstd::prelude::*;
use vstd::string::*;

use crate::json::{json_view, JsonView};
use crate::protocol::{Op, ThreadId};
use crate::text::{same_text, trim, trim_end, trim_start, trimmed};

verus! {

/// Stable error categories shared by runtime providers and the host.
#[derive(Clone, Copy, Debug, PartialEq, Eq, Structural)]
pub enum AgentRuntimeErrorKind {
    InvalidRuntimeId,
    UnknownRuntime,
    DuplicateRuntime,
    UnsupportedOperation,
    Unavailable,
    Protocol,
    Internal,
}

/// Structured failure returned by an agent runtime provider.
#[derive(Debug, PartialEq, Eq)]
pub struct AgentRuntimeError {
    pub kind: AgentRuntimeErrorKind,
    pub message: String,
}

/// What a failure says.
pub struct ErrorView {
    pub kind: AgentRuntimeErrorKind,
    pub message: Seq<char>,
}

impl DeepView for AgentRuntimeError {
    type V = ErrorView;

    open spec fn deep_view(&self) -> ErrorView {
        ErrorView { kind: self.kind, message: self.message@ }
    }
}

impl Clone for AgentRuntimeError {
    fn clone(&self) -> (copy: Self)
        ensures
            copy == *self,
    {
        AgentRuntimeError { kind: self.kind, message: self.message.clone() }
    }
}

impl AgentRuntimeError {
    /// A failure of a category with a message.
    pub fn new(kind: AgentRuntimeErrorKind, message: String) -> (error: Self)
        ensures
            error.kind == kind,
            error.message == message,
    {
        AgentRuntimeError { kind, message }
    }
}

/// The characters that an agent runtime id may hold.
pub open spec fn is_runtime_id_char(c: char) -> bool {
    'a' <= c <= 'z' || '0' <= c <= '9' || c == '-' || c == '_' || c == '.'
}

/// A text that can stand as an agent runtime id.
pub open spec fn is_runtime_id(text: Seq<char>) -> bool {
    text.len() > 0 && forall|i: int| 0 <= i < text.len() ==> is_runtime_id_char(#[trigger] text[i])
}

/// The failure that answers a text that names no agent runtime.
pub open spec fn invalid_runtime_id(value: Seq<char>) -> ErrorView {
    ErrorView {
        kind: AgentRuntimeErrorKind::InvalidRuntimeId,
        message: "invalid agent runtime id `"@ + value
            + "`; expected lowercase ASCII letters, digits, dots, hyphens, or underscores"@,
    }
}

/// Stable identifier used to select an agent runtime provider.
#[derive(Debug, PartialEq, Eq, PartialOrd, Ord, Hash)]
pub struct AgentRuntimeId(String);

impl View for AgentRuntimeId {
    type V = Seq<char>;

    closed spec fn view(&self) -> Seq<char> {
        self.0@
    }
}

impl DeepView for AgentRuntimeId {
    type V = Seq<char>;

    open spec fn deep_view(&self) -> Seq<char> {
        self@
    }
}

impl Clone for AgentRuntimeId {
    fn clone(&self) -> (copy: Self)
        ensures
            copy == *self,
    {
        proof {
            use_type_invariant(self);
        }
        AgentRuntimeId(self.0.clone())
    }
}

impl AgentRuntimeId {
    /// The id of the built-in runtime.
    pub const CODEX: &'static str = "codex";

    #[verifier::type_invariant]
    closed spec fn is_valid(self) -> bool {
        is_runtime_id(self.0@)
    }

    /// The id of the built-in runtime.
    pub fn codex() -> (id: Self)
        ensures
            id@ == "codex"@,
    {
        proof {
            reveal_strlit("codex");
        }
        AgentRuntimeId(Self::CODEX.to_owned())
    }

    /// The id that a text names, white space around it left out. Fails where what remains is
    /// empty or holds anything but lowercase ASCII letters, digits, dots, hyphens and
    /// underscores.
    pub fn new(value: &str) -> (id: Result<Self, AgentRuntimeError>)
        ensures
            id is Ok == is_runtime_id(trimmed(value@)),
            id matches Ok(valid) ==> valid@ == trimmed(value@),
            id matches Err(error) ==> error.deep_view() == invalid_runtime_id(value@),
    {
        let normalized = trim(value);
        if normalized.is_empty() || !holds_only_id_chars(normalized) {
            let mut message = "invalid agent runtime id `".to_owned();
            message.append(value);
            message.append("`; expected lowercase ASCII letters, digits, dots, hyphens, or underscores");
            return Err(AgentRuntimeError::new(AgentRuntimeErrorKind::InvalidRuntimeId, message));
        }
        Ok(AgentRuntimeId(normalized.to_owned()))
    }

    /// The text of the id.
    pub fn as_str(&self) -> (text: &str)
        ensures
            text@ == self@,
            is_runtime_id(text@),
    {
        proof {
            use_type_invariant(self);
        }
        self.0.as_str()
    }

    /// Whether this is the id of the built-in runtime.
    pub fn is_codex(&self) -> (builtin: bool)
        ensures
            builtin == (self@ == "codex"@),
    {
        same_text(self.0.as_str(), Self::CODEX)
    }
}

/// Whether every character may stand in an agent runtime id.
fn holds_only_id_chars(text: &str) -> (valid: bool)
    ensures
        valid == forall|i: int| 0 <= i < text@.len() ==> is_runtime_id_char(#[trigger] text@[i]),
{
    let length = text.unicode_len();
    let mut index: usize = 0;
    while index < length
        invariant
            length == text@.len(),
            index <= length,
            forall|i: int| 0 <= i < index ==> is_runtime_id_char(#[trigger] text@[i]),
        decreases length - index,
    {
        let c = text.get_char(index);
        if !(('a' <= c && c <= 'z') || ('0' <= c && c <= '9') || c == '-' || c == '_' || c == '.') {
            assert(!is_runtime_id_char(text@[index as int]));
            return false;
        }
        index = index + 1;
    }
    true
}

impl TryFrom<&str> for AgentRuntimeId {
    type Error = AgentRuntimeError;

    fn try_from(value: &str) -> (id: Result<Self, AgentRuntimeError>)
        ensures
            id is Ok == is_runtime_id(trimmed(value@)),
            id matches Ok(valid) ==> valid@ == trimmed(value@),
            id matches Err(error) ==> error.deep_view() == invalid_runtime_id(value@),
    {
        Self::new(value)
    }
}

impl vstd::std_specs::convert::TryFromSpecImpl<&str> for AgentRuntimeId {
    open spec fn obeys_try_from_spec() -> bool {
        false
    }

    open spec fn try_from_spec(value: &str) -> Result<Self, AgentRuntimeError> {
        arbitrary()
    }
}

impl TryFrom<String> for AgentRuntimeId {
    type Error = AgentRuntimeError;

    fn try_from(value: String) -> (id: Result<Self, AgentRuntimeError>)
        ensures
            id is Ok == is_runtime_id(trimmed(value@)),
            id matches Ok(valid) ==> valid@ == trimmed(value@),
            id matches Err(error) ==> error.deep_view() == invalid_runtime_id(value@),
    {
        Self::new(value.as_str())
    }
}

impl vstd::std_specs::convert::TryFromSpecImpl<String> for AgentRuntimeId {
    open spec fn obeys_try_from_spec() -> bool {
        false
    }

    open spec fn try_from_spec(value: String) -> Result<Self, AgentRuntimeError> {
        arbitrary()
    }
}

/// Host-owned metadata supplied when a provider creates a child thread.
#[derive(Clone, Debug, PartialEq)]
pub struct AgentRuntimeSpawnRequest {
    pub thread_id: ThreadId,
    pub parent_thread_id: Option<ThreadId>,
    pub role: Option<String>,
    /// Absolute path of the working directory, as it is shown.
    pub cwd: String,
    pub model: Option<String>,
    pub model_provider: String,
    pub runtime_config: serde_json::Value,
    pub host_tools: Vec<AgentRuntimeHostToolDefinition>,
}

/// Model-visible description of one tool whose execution remains owned by the host.
#[derive(Clone, Debug, PartialEq)]
pub struct AgentRuntimeHostToolDefinition {
    pub name: String,
    pub description: String,
    pub input_schema: serde_json::Value,
}

/// Deep view of [`AgentRuntimeHostToolDefinition`].
pub struct HostToolDefinitionView {
    pub name: Seq<char>,
    pub description: Seq<char>,
    pub input_schema: JsonView,
}

impl DeepView for AgentRuntimeHostToolDefinition {
    type V = HostToolDefinitionView;

    open spec fn deep_view(&self) -> HostToolDefinitionView {
        HostToolDefinitionView {
            name: self.name@,
            description: self.description@,
            input_schema: json_view(self.input_schema),
        }
    }
}

/// Durable provider state needed to reconstruct an external child thread.
#[derive(Clone, Debug, PartialEq)]
pub struct AgentRuntimePersistence {
    pub runtime_id: AgentRuntimeId,
    pub session_locator: String,
    pub metadata: serde_json::Value,
}

/// Deep view of [`AgentRuntimePersistence`].
pub struct PersistenceView {
    pub runtime_id: Seq<char>,
    pub session_locator: Seq<char>,
    pub metadata: JsonView,
}

impl DeepView for AgentRuntimePersistence {
    type V = PersistenceView;

    open spec fn deep_view(&self) -> PersistenceView {
        PersistenceView {
            runtime_id: self.runtime_id@,
            session_locator: self.session_locator@,
            metadata: json_view(self.metadata),
        }
    }
}

/// Host-owned metadata supplied when a provider resumes a persisted child.
#[derive(Clone, Debug, PartialEq)]
pub struct AgentRuntimeResumeRequest {
    pub thread_id: ThreadId,
    pub parent_thread_id: Option<ThreadId>,
    /// Absolute path of the working directory, as it is shown.
    pub cwd: String,
    pub state: AgentRuntimePersistence,
    pub host_tools: Vec<AgentRuntimeHostToolDefinition>,
}

/// Native operation submitted to a runtime-backed thread.
#[derive(Clone, Debug, PartialEq)]
pub struct AgentRuntimeOperation {
    pub submission_id: String,
    pub op: Op,
}

/// Request from an external runtime to execute one host tool.
#[derive(Clone, Debug, PartialEq)]
pub struct AgentRuntimeToolCall {
    pub call_id: String,
    pub tool_name: String,
    pub arguments: serde_json::Value,
}

/// Structured result returned to an external runtime after host tool execution.
#[derive(Clone, Debug, PartialEq)]
pub struct AgentRuntimeToolResult {
    pub call_id: String,
    pub output: serde_json::Value,
    pub is_error: bool,
}

/// The failure that answers the result of a tool call where a runtime takes none.
pub fn tool_results_unsupported() -> (error: AgentRuntimeError)
    ensures
        error.deep_view() == (ErrorView {
            kind: AgentRuntimeErrorKind::UnsupportedOperation,
            message: "agent runtime does not accept host tool results"@,
        }),
{
    AgentRuntimeError::new(
        AgentRuntimeErrorKind::UnsupportedOperation,
        "agent runtime does not accept host tool results".to_owned(),
    )
}

/// An id is not changed by reading it again: white space is no part of it.
pub proof fn runtime_id_reads_back(id: Seq<char>)
    requires
        is_runtime_id(id),
    ensures
        trimmed(id) == id,
{
    assert(is_runtime_id_char(id[0]));
    assert(is_runtime_id_char(id[id.len() - 1]));
    assert(trim_start(id) == id);
    assert(trim_end(id) == id);
}

} // verus!
