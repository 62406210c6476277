//! The events, statuses and operations that agent threads exchange with their host.
//!
//! Each type has a deep view: the same data with texts as character sequences and JSON values
//! as what they hold. Contracts speak of the deep views.
use vstd::prelude::*;

use crate::json::{json_view, JsonView};

verus! {

/// What an optional JSON value holds.
pub open spec fn json_option_view(value: Option<serde_json::Value>) -> Option<JsonView> {
    match value {
        Some(json) => Some(json_view(json)),
        None => None,
    }
}

fn clone_json_option(value: &Option<serde_json::Value>) -> (copy: Option<serde_json::Value>)
    ensures
        json_option_view(copy) == json_option_view(*value),
{
    match value {
        Some(json) => Some(json.clone()),
        None => None,
    }
}

fn clone_texts(texts: &Vec<String>) -> (copy: Vec<String>)
    ensures
        copy@ == texts@,
{
    let mut copy: Vec<String> = Vec::new();
    let mut index: usize = 0;
    while index < texts.len()
        invariant
            index <= texts@.len(),
            copy@ == texts@.take(index as int),
        decreases texts@.len() - index,
    {
        copy.push(texts[index].clone());
        assert(copy@ =~= texts@.take(index + 1));
        index = index + 1;
    }
    assert(texts@.take(texts@.len() as int) =~= texts@);
    copy
}

/// Identity of a thread, by its text.
#[derive(Debug, PartialEq, Eq, Hash)]
pub struct ThreadId {
    pub value: String,
}

impl DeepView for ThreadId {
    type V = Seq<char>;

    open spec fn deep_view(&self) -> Seq<char> {
        self.value@
    }
}

impl Clone for ThreadId {
    fn clone(&self) -> (copy: Self)
        ensures
            copy == *self,
    {
        ThreadId { value: self.value.clone() }
    }
}

/// Where an agent stands.
#[derive(Debug, PartialEq, Eq)]
pub enum AgentStatus {
    PendingInit,
    Running,
    Interrupted,
    Completed(Option<String>),
    Errored(String),
    Shutdown,
}

/// Deep view of [`AgentStatus`].
pub enum StatusView {
    PendingInit,
    Running,
    Interrupted,
    Completed(Option<Seq<char>>),
    Errored(Seq<char>),
    Shutdown,
}

impl DeepView for AgentStatus {
    type V = StatusView;

    open spec fn deep_view(&self) -> StatusView {
        match self {
            AgentStatus::PendingInit => StatusView::PendingInit,
            AgentStatus::Running => StatusView::Running,
            AgentStatus::Interrupted => StatusView::Interrupted,
            AgentStatus::Completed(text) => StatusView::Completed(text.deep_view()),
            AgentStatus::Errored(text) => StatusView::Errored(text@),
            AgentStatus::Shutdown => StatusView::Shutdown,
        }
    }
}

impl Clone for AgentStatus {
    fn clone(&self) -> (copy: Self)
        ensures
            copy == *self,
    {
        match self {
            AgentStatus::PendingInit => AgentStatus::PendingInit,
            AgentStatus::Running => AgentStatus::Running,
            AgentStatus::Interrupted => AgentStatus::Interrupted,
            AgentStatus::Completed(text) => AgentStatus::Completed(text.clone()),
            AgentStatus::Errored(text) => AgentStatus::Errored(text.clone()),
            AgentStatus::Shutdown => AgentStatus::Shutdown,
        }
    }
}

/// Token counts of one or more model calls.
#[derive(Clone, Copy, Debug, PartialEq, Eq)]
pub struct TokenUsage {
    pub input_tokens: i64,
    pub cached_input_tokens: i64,
    pub cache_write_input_tokens: i64,
    pub output_tokens: i64,
    pub reasoning_output_tokens: i64,
    pub total_tokens: i64,
}

impl Default for TokenUsage {
    fn default() -> (usage: Self)
        ensures
            usage == (TokenUsage {
                input_tokens: 0,
                cached_input_tokens: 0,
                cache_write_input_tokens: 0,
                output_tokens: 0,
                reasoning_output_tokens: 0,
                total_tokens: 0,
            }),
    {
        TokenUsage {
            input_tokens: 0,
            cached_input_tokens: 0,
            cache_write_input_tokens: 0,
            output_tokens: 0,
            reasoning_output_tokens: 0,
            total_tokens: 0,
        }
    }
}

/// Token counts of a thread.
#[derive(Clone, Copy, Debug, PartialEq, Eq)]
pub struct TokenUsageInfo {
    pub total_token_usage: TokenUsage,
    pub last_token_usage: TokenUsage,
    pub model_context_window: Option<i64>,
}

/// Collaboration mode of a turn.
#[derive(Clone, Copy, Debug, PartialEq, Eq)]
pub enum ModeKind {
    Default,
}

/// Part of the answer that a message belongs to.
#[derive(Clone, Copy, Debug, PartialEq, Eq)]
pub enum MessagePhase {
    FinalAnswer,
}

/// A message of the agent.
#[derive(Debug, PartialEq)]
pub struct AgentMessageItem {
    pub id: String,
    /// The texts of the message.
    pub content: Vec<String>,
    pub phase: Option<MessagePhase>,
    pub memory_citation: Option<serde_json::Value>,
}

/// Deep view of [`AgentMessageItem`].
pub struct AgentMessageView {
    pub id: Seq<char>,
    pub content: Seq<Seq<char>>,
    pub phase: Option<MessagePhase>,
    pub memory_citation: Option<JsonView>,
}

impl DeepView for AgentMessageItem {
    type V = AgentMessageView;

    open spec fn deep_view(&self) -> AgentMessageView {
        AgentMessageView {
            id: self.id@,
            content: self.content.deep_view(),
            phase: self.phase,
            memory_citation: json_option_view(self.memory_citation),
        }
    }
}

/// The reasoning of the agent before a message.
#[derive(Debug, PartialEq)]
pub struct ReasoningItem {
    pub id: String,
    pub summary_text: Vec<String>,
    pub raw_content: Vec<String>,
}

/// Deep view of [`ReasoningItem`].
pub struct ReasoningView {
    pub id: Seq<char>,
    pub summary_text: Seq<Seq<char>>,
    pub raw_content: Seq<Seq<char>>,
}

impl DeepView for ReasoningItem {
    type V = ReasoningView;

    open spec fn deep_view(&self) -> ReasoningView {
        ReasoningView {
            id: self.id@,
            summary_text: self.summary_text.deep_view(),
            raw_content: self.raw_content.deep_view(),
        }
    }
}

/// An item of a turn.
#[derive(Debug, PartialEq)]
pub enum TurnItem {
    AgentMessage(AgentMessageItem),
    Reasoning(ReasoningItem),
    /// An item of a native thread, which is carried along as it is.
    Native(serde_json::Value),
}

/// Deep view of [`TurnItem`].
pub enum TurnItemView {
    AgentMessage(AgentMessageView),
    Reasoning(ReasoningView),
    Native(JsonView),
}

impl DeepView for TurnItem {
    type V = TurnItemView;

    open spec fn deep_view(&self) -> TurnItemView {
        match self {
            TurnItem::AgentMessage(message) => TurnItemView::AgentMessage(message.deep_view()),
            TurnItem::Reasoning(reasoning) => TurnItemView::Reasoning(reasoning.deep_view()),
            TurnItem::Native(item) => TurnItemView::Native(json_view(*item)),
        }
    }
}

impl Clone for TurnItem {
    fn clone(&self) -> (copy: Self)
        ensures
            copy.deep_view() == self.deep_view(),
    {
        match self {
            TurnItem::AgentMessage(message) => TurnItem::AgentMessage(
                AgentMessageItem {
                    id: message.id.clone(),
                    content: clone_texts(&message.content),
                    phase: message.phase,
                    memory_citation: clone_json_option(&message.memory_citation),
                },
            ),
            TurnItem::Reasoning(reasoning) => TurnItem::Reasoning(
                ReasoningItem {
                    id: reasoning.id.clone(),
                    summary_text: clone_texts(&reasoning.summary_text),
                    raw_content: clone_texts(&reasoning.raw_content),
                },
            ),
            TurnItem::Native(item) => TurnItem::Native(item.clone()),
        }
    }
}

/// A turn began.
#[derive(Debug, PartialEq)]
pub struct TurnStartedEvent {
    pub turn_id: String,
    pub trace_id: Option<String>,
    pub started_at: Option<i64>,
    pub model_context_window: Option<i64>,
    pub collaboration_mode_kind: ModeKind,
}

/// An item of a turn began.
#[derive(Debug, PartialEq)]
pub struct ItemStartedEvent {
    pub thread_id: ThreadId,
    pub turn_id: String,
    pub item: TurnItem,
    pub started_at_ms: i64,
}

/// An item of a turn is complete.
#[derive(Debug, PartialEq)]
pub struct ItemCompletedEvent {
    pub thread_id: ThreadId,
    pub turn_id: String,
    pub item: TurnItem,
    pub completed_at_ms: i64,
}

/// A piece of a message arrived.
#[derive(Debug, PartialEq)]
pub struct AgentMessageContentDeltaEvent {
    pub thread_id: String,
    pub turn_id: String,
    pub item_id: String,
    pub delta: String,
}

/// A piece of reasoning arrived.
#[derive(Debug, PartialEq)]
pub struct ReasoningContentDeltaEvent {
    pub thread_id: String,
    pub turn_id: String,
    pub item_id: String,
    pub delta: String,
    pub summary_index: i64,
}

/// A turn came to its end.
#[derive(Debug, PartialEq)]
pub struct TurnCompleteEvent {
    pub turn_id: String,
    pub last_agent_message: Option<String>,
    pub error: Option<serde_json::Value>,
    pub started_at: Option<i64>,
    pub completed_at: Option<i64>,
    pub duration_ms: Option<i64>,
    pub time_to_first_token_ms: Option<i64>,
}

/// Why a turn was given up.
#[derive(Debug, PartialEq, Eq)]
pub enum TurnAbortReason {
    Interrupted,
    /// A reason that only native threads have, by its name.
    Native(String),
}

/// A turn was given up.
#[derive(Debug, PartialEq)]
pub struct TurnAbortedEvent {
    pub turn_id: Option<String>,
    pub reason: TurnAbortReason,
    pub started_at: Option<i64>,
    pub completed_at: Option<i64>,
    pub duration_ms: Option<i64>,
}

/// Token counts changed.
#[derive(Debug, PartialEq)]
pub struct TokenCountEvent {
    pub info: Option<TokenUsageInfo>,
    pub rate_limits: Option<serde_json::Value>,
}

/// Category of an error that is shown to the user.
#[derive(Clone, Copy, Debug, PartialEq, Eq)]
pub enum CodexErrorInfo {
    Other,
}

/// Something went wrong.
#[derive(Debug, PartialEq)]
pub struct ErrorEvent {
    pub message: String,
    pub codex_error_info: Option<CodexErrorInfo>,
}

/// What an event reports.
#[derive(Debug, PartialEq)]
pub enum EventMsg {
    TurnStarted(TurnStartedEvent),
    ItemStarted(ItemStartedEvent),
    ItemCompleted(ItemCompletedEvent),
    AgentMessageContentDelta(AgentMessageContentDeltaEvent),
    ReasoningContentDelta(ReasoningContentDeltaEvent),
    TurnComplete(TurnCompleteEvent),
    TurnAborted(TurnAbortedEvent),
    TokenCount(TokenCountEvent),
    Error(ErrorEvent),
    ShutdownComplete,
    /// A message of a native thread, which is carried along as it is.
    Native(serde_json::Value),
}

/// Deep view of [`TurnAbortReason`].
pub enum AbortReasonView {
    Interrupted,
    Native(Seq<char>),
}

/// Deep view of [`EventMsg`].
pub enum EventMsgView {
    TurnStarted {
        turn_id: Seq<char>,
        trace_id: Option<Seq<char>>,
        started_at: Option<i64>,
        model_context_window: Option<i64>,
        collaboration_mode_kind: ModeKind,
    },
    ItemStarted {
        thread_id: Seq<char>,
        turn_id: Seq<char>,
        item: TurnItemView,
        started_at_ms: i64,
    },
    ItemCompleted {
        thread_id: Seq<char>,
        turn_id: Seq<char>,
        item: TurnItemView,
        completed_at_ms: i64,
    },
    AgentMessageContentDelta {
        thread_id: Seq<char>,
        turn_id: Seq<char>,
        item_id: Seq<char>,
        delta: Seq<char>,
    },
    ReasoningContentDelta {
        thread_id: Seq<char>,
        turn_id: Seq<char>,
        item_id: Seq<char>,
        delta: Seq<char>,
        summary_index: i64,
    },
    TurnComplete {
        turn_id: Seq<char>,
        last_agent_message: Option<Seq<char>>,
        error: Option<JsonView>,
        started_at: Option<i64>,
        completed_at: Option<i64>,
        duration_ms: Option<i64>,
        time_to_first_token_ms: Option<i64>,
    },
    TurnAborted {
        aborted_turn_id: Option<Seq<char>>,
        reason: AbortReasonView,
        started_at: Option<i64>,
        completed_at: Option<i64>,
        duration_ms: Option<i64>,
    },
    TokenCount { info: Option<TokenUsageInfo>, rate_limits: Option<JsonView> },
    Error { message: Seq<char>, codex_error_info: Option<CodexErrorInfo> },
    ShutdownComplete,
    Native(JsonView),
}

impl DeepView for TurnAbortReason {
    type V = AbortReasonView;

    open spec fn deep_view(&self) -> AbortReasonView {
        match self {
            TurnAbortReason::Interrupted => AbortReasonView::Interrupted,
            TurnAbortReason::Native(name) => AbortReasonView::Native(name@),
        }
    }
}

impl DeepView for EventMsg {
    type V = EventMsgView;

    open spec fn deep_view(&self) -> EventMsgView {
        match self {
            EventMsg::TurnStarted(event) => EventMsgView::TurnStarted {
                turn_id: event.turn_id@,
                trace_id: event.trace_id.deep_view(),
                started_at: event.started_at,
                model_context_window: event.model_context_window,
                collaboration_mode_kind: event.collaboration_mode_kind,
            },
            EventMsg::ItemStarted(event) => EventMsgView::ItemStarted {
                thread_id: event.thread_id.deep_view(),
                turn_id: event.turn_id@,
                item: event.item.deep_view(),
                started_at_ms: event.started_at_ms,
            },
            EventMsg::ItemCompleted(event) => EventMsgView::ItemCompleted {
                thread_id: event.thread_id.deep_view(),
                turn_id: event.turn_id@,
                item: event.item.deep_view(),
                completed_at_ms: event.completed_at_ms,
            },
            EventMsg::AgentMessageContentDelta(event) => EventMsgView::AgentMessageContentDelta {
                thread_id: event.thread_id@,
                turn_id: event.turn_id@,
                item_id: event.item_id@,
                delta: event.delta@,
            },
            EventMsg::ReasoningContentDelta(event) => EventMsgView::ReasoningContentDelta {
                thread_id: event.thread_id@,
                turn_id: event.turn_id@,
                item_id: event.item_id@,
                delta: event.delta@,
                summary_index: event.summary_index,
            },
            EventMsg::TurnComplete(event) => EventMsgView::TurnComplete {
                turn_id: event.turn_id@,
                last_agent_message: event.last_agent_message.deep_view(),
                error: json_option_view(event.error),
                started_at: event.started_at,
                completed_at: event.completed_at,
                duration_ms: event.duration_ms,
                time_to_first_token_ms: event.time_to_first_token_ms,
            },
            EventMsg::TurnAborted(event) => EventMsgView::TurnAborted {
                aborted_turn_id: event.turn_id.deep_view(),
                reason: event.reason.deep_view(),
                started_at: event.started_at,
                completed_at: event.completed_at,
                duration_ms: event.duration_ms,
            },
            EventMsg::TokenCount(event) => EventMsgView::TokenCount {
                info: event.info,
                rate_limits: json_option_view(event.rate_limits),
            },
            EventMsg::Error(event) => EventMsgView::Error {
                message: event.message@,
                codex_error_info: event.codex_error_info,
            },
            EventMsg::ShutdownComplete => EventMsgView::ShutdownComplete,
            EventMsg::Native(message) => EventMsgView::Native(json_view(*message)),
        }
    }
}

impl Clone for EventMsg {
    fn clone(&self) -> (copy: Self)
        ensures
            copy.deep_view() == self.deep_view(),
    {
        match self {
            EventMsg::TurnStarted(event) => EventMsg::TurnStarted(
                TurnStartedEvent {
                    turn_id: event.turn_id.clone(),
                    trace_id: event.trace_id.clone(),
                    started_at: event.started_at,
                    model_context_window: event.model_context_window,
                    collaboration_mode_kind: event.collaboration_mode_kind,
                },
            ),
            EventMsg::ItemStarted(event) => EventMsg::ItemStarted(
                ItemStartedEvent {
                    thread_id: event.thread_id.clone(),
                    turn_id: event.turn_id.clone(),
                    item: event.item.clone(),
                    started_at_ms: event.started_at_ms,
                },
            ),
            EventMsg::ItemCompleted(event) => EventMsg::ItemCompleted(
                ItemCompletedEvent {
                    thread_id: event.thread_id.clone(),
                    turn_id: event.turn_id.clone(),
                    item: event.item.clone(),
                    completed_at_ms: event.completed_at_ms,
                },
            ),
            EventMsg::AgentMessageContentDelta(event) => EventMsg::AgentMessageContentDelta(
                AgentMessageContentDeltaEvent {
                    thread_id: event.thread_id.clone(),
                    turn_id: event.turn_id.clone(),
                    item_id: event.item_id.clone(),
                    delta: event.delta.clone(),
                },
            ),
            EventMsg::ReasoningContentDelta(event) => EventMsg::ReasoningContentDelta(
                ReasoningContentDeltaEvent {
                    thread_id: event.thread_id.clone(),
                    turn_id: event.turn_id.clone(),
                    item_id: event.item_id.clone(),
                    delta: event.delta.clone(),
                    summary_index: event.summary_index,
                },
            ),
            EventMsg::TurnComplete(event) => EventMsg::TurnComplete(
                TurnCompleteEvent {
                    turn_id: event.turn_id.clone(),
                    last_agent_message: event.last_agent_message.clone(),
                    error: clone_json_option(&event.error),
                    started_at: event.started_at,
                    completed_at: event.completed_at,
                    duration_ms: event.duration_ms,
                    time_to_first_token_ms: event.time_to_first_token_ms,
                },
            ),
            EventMsg::TurnAborted(event) => EventMsg::TurnAborted(
                TurnAbortedEvent {
                    turn_id: event.turn_id.clone(),
                    reason: match &event.reason {
                        TurnAbortReason::Interrupted => TurnAbortReason::Interrupted,
                        TurnAbortReason::Native(name) => TurnAbortReason::Native(name.clone()),
                    },
                    started_at: event.started_at,
                    completed_at: event.completed_at,
                    duration_ms: event.duration_ms,
                },
            ),
            EventMsg::TokenCount(event) => EventMsg::TokenCount(
                TokenCountEvent {
                    info: event.info,
                    rate_limits: clone_json_option(&event.rate_limits),
                },
            ),
            EventMsg::Error(event) => EventMsg::Error(
                ErrorEvent {
                    message: event.message.clone(),
                    codex_error_info: event.codex_error_info,
                },
            ),
            EventMsg::ShutdownComplete => EventMsg::ShutdownComplete,
            EventMsg::Native(message) => EventMsg::Native(message.clone()),
        }
    }
}

/// An event of a thread, under the id of the submission that it belongs to.
#[derive(Debug, PartialEq)]
pub struct Event {
    pub id: String,
    pub msg: EventMsg,
}

/// Deep view of [`Event`].
pub struct EventView {
    pub id: Seq<char>,
    pub msg: EventMsgView,
}

impl DeepView for Event {
    type V = EventView;

    open spec fn deep_view(&self) -> EventView {
        EventView { id: self.id@, msg: self.msg.deep_view() }
    }
}

/// A piece of user input.
#[derive(Clone, Debug, PartialEq)]
pub enum UserInput {
    Text { text: String },
    Image { image_url: String },
    LocalImage { path: String },
    Skill { name: String, path: String },
    Mention { name: String, path: String },
    /// Any other input, which only native threads take.
    Native(serde_json::Value),
}

/// A message from one agent to another.
#[derive(Clone, Debug, PartialEq, Eq)]
pub struct InterAgentCommunication {
    pub author: String,
    pub recipient: String,
    pub other_recipients: Vec<String>,
    pub content: String,
    pub trigger_turn: bool,
}

impl InterAgentCommunication {
    /// A message between the agents at two paths.
    pub fn new(
        author: String,
        recipient: String,
        other_recipients: Vec<String>,
        content: String,
        trigger_turn: bool,
    ) -> (communication: Self)
        ensures
            communication == (InterAgentCommunication {
                author,
                recipient,
                other_recipients,
                content,
                trigger_turn,
            }),
    {
        InterAgentCommunication { author, recipient, other_recipients, content, trigger_turn }
    }
}

/// What an operation asks for.
#[derive(Clone, Debug, PartialEq)]
pub enum OpBody {
    UserInput { items: Vec<UserInput> },
    InterAgentCommunication { communication: InterAgentCommunication },
    Interrupt,
    Shutdown,
    ExecApproval(serde_json::Value),
    PatchApproval(serde_json::Value),
    UserInputAnswer(serde_json::Value),
    RequestPermissionsResponse(serde_json::Value),
    DynamicToolResponse(serde_json::Value),
    ResolveElicitation(serde_json::Value),
    /// Any other operation, which only native threads take.
    Native(serde_json::Value),
}

/// An operation submitted to a thread.
#[derive(Clone, Debug, PartialEq)]
pub struct Op {
    /// Name of the operation, for messages about it.
    pub kind: String,
    pub body: OpBody,
}

/// Failures of the host.
#[derive(Debug, PartialEq, Eq)]
pub enum CodexErr {
    Fatal(String),
    InvalidRequest(String),
    UnsupportedOperation(String),
    InternalAgentDied,
}

/// Deep view of [`CodexErr`].
pub enum CodexErrView {
    Fatal(Seq<char>),
    InvalidRequest(Seq<char>),
    UnsupportedOperation(Seq<char>),
    InternalAgentDied,
}

impl DeepView for CodexErr {
    type V = CodexErrView;

    open spec fn deep_view(&self) -> CodexErrView {
        match self {
            CodexErr::Fatal(message) => CodexErrView::Fatal(message@),
            CodexErr::InvalidRequest(message) => CodexErrView::InvalidRequest(message@),
            CodexErr::UnsupportedOperation(message) => CodexErrView::UnsupportedOperation(message@),
            CodexErr::InternalAgentDied => CodexErrView::InternalAgentDied,
        }
    }
}

} // verus!
