//! Deterministic external runtime for integration tests: every turn is the same script.
use vstd::prelude::*;
use vstd::string::*;

use crate::agent_runtime::{
    runtime_id_reads_back, AgentRuntimeError, AgentRuntimeErrorKind, AgentRuntimeId,
    AgentRuntimeOperation, AgentRuntimePersistence, ErrorView, PersistenceView,
};
use crate::json::{json_string, object_of_one, JsonView};
use crate::pi_thread::{agent_message, item_completed, item_started};
use crate::pi_translation::{
    agent_message_view, content_delta_view, item_completed_view, item_started_view,
    turn_complete_view, turn_started_view,
};
use crate::protocol::{
    AgentMessageContentDeltaEvent, AgentStatus, Event, EventMsg, EventView, ModeKind, OpBody,
    ThreadId, TokenUsage, TokenUsageInfo, TurnCompleteEvent, TurnItem, TurnStartedEvent,
};

verus! {

/// The variable that makes the host offer the runtime.
pub const ENABLE_FAKE_AGENT_RUNTIME_ENV: &'static str = "CODEX_ENABLE_FAKE_AGENT_RUNTIME_FOR_TESTS";

/// What the agent says in every turn.
pub open spec fn scripted_message() -> Seq<char> {
    "Hello from the fake external runtime."@
}

/// The id of the message of a turn.
pub open spec fn scripted_item_id(submission_id: Seq<char>) -> Seq<char> {
    submission_id + "-message"@
}

/// The events of a turn: it begins, its one message begins, arrives in one piece and is
/// complete, and it ends.
pub open spec fn scripted_turn(thread_id: Seq<char>, submission_id: Seq<char>) -> Seq<EventView> {
    let item_id = scripted_item_id(submission_id);
    seq![
        turn_started_view(submission_id),
        item_started_view(thread_id, submission_id, agent_message_view(item_id, Seq::empty())),
        content_delta_view(thread_id, submission_id, item_id, scripted_message()),
        item_completed_view(
            thread_id,
            submission_id,
            agent_message_view(item_id, scripted_message()),
        ),
        turn_complete_view(submission_id, scripted_message()),
    ]
}

/// The events that an operation gives rise to: every one but a shutdown plays the script.
pub open spec fn scripted_events(
    thread_id: Seq<char>,
    operation: AgentRuntimeOperation,
) -> Seq<EventView> {
    if operation.op.body is Shutdown {
        Seq::empty()
    } else {
        scripted_turn(thread_id, operation.submission_id@)
    }
}

/// Provider of scripted agents.
pub struct FakeAgentRuntimeProvider {
    runtime_id: AgentRuntimeId,
}

impl View for FakeAgentRuntimeProvider {
    type V = Seq<char>;

    closed spec fn view(&self) -> Seq<char> {
        self.runtime_id@
    }
}

impl FakeAgentRuntimeProvider {
    /// The provider, under its fixed id.
    pub fn new() -> (provider: Self)
        ensures
            provider@ == "fake"@,
    {
        proof {
            reveal_strlit("fake");
            runtime_id_reads_back("fake"@);
        }
        match AgentRuntimeId::new("fake") {
            Ok(runtime_id) => FakeAgentRuntimeProvider { runtime_id },
            Err(_) => vstd::pervasive::unreached(),
        }
    }

    /// The id under which the provider is registered.
    pub fn id(&self) -> (id: &AgentRuntimeId)
        ensures
            id@ == self@,
    {
        &self.runtime_id
    }

    /// A scripted agent.
    pub fn spawn(&self, thread_id: ThreadId) -> (thread: FakeAgentRuntimeThread)
        ensures
            thread@ == (FakeThreadView { thread_id: thread_id.deep_view(), runtime_id: self@ }),
    {
        FakeAgentRuntimeThread { thread_id, runtime_id: self.runtime_id.clone() }
    }

    /// The failure that answers every attempt to resume a session.
    pub fn resume(&self) -> (error: AgentRuntimeError)
        ensures
            error.deep_view() == (ErrorView {
                kind: AgentRuntimeErrorKind::UnsupportedOperation,
                message: "the fake runtime does not persist sessions"@,
            }),
    {
        AgentRuntimeError::new(
            AgentRuntimeErrorKind::UnsupportedOperation,
            "the fake runtime does not persist sessions".to_owned(),
        )
    }
}

/// A scripted agent.
pub struct FakeAgentRuntimeThread {
    thread_id: ThreadId,
    runtime_id: AgentRuntimeId,
}

/// Identity of a scripted agent.
pub struct FakeThreadView {
    pub thread_id: Seq<char>,
    pub runtime_id: Seq<char>,
}

impl View for FakeAgentRuntimeThread {
    type V = FakeThreadView;

    closed spec fn view(&self) -> FakeThreadView {
        FakeThreadView { thread_id: self.thread_id.deep_view(), runtime_id: self.runtime_id@ }
    }
}

/// The failure that answers an operation when nobody takes the events any more.
pub fn listener_closed() -> (error: AgentRuntimeError)
    ensures
        error.deep_view() == (ErrorView {
            kind: AgentRuntimeErrorKind::Unavailable,
            message: "fake runtime event listener closed"@,
        }),
{
    AgentRuntimeError::new(
        AgentRuntimeErrorKind::Unavailable,
        "fake runtime event listener closed".to_owned(),
    )
}

impl FakeAgentRuntimeThread {
    /// The id of the thread.
    pub fn thread_id(&self) -> (id: &ThreadId)
        ensures
            id.deep_view() == self@.thread_id,
    {
        &self.thread_id
    }

    /// The id of the runtime.
    pub fn runtime_id(&self) -> (id: &AgentRuntimeId)
        ensures
            id@ == self@.runtime_id,
    {
        &self.runtime_id
    }

    /// The events of a turn, in order.
    pub fn send_scripted_turn(&self, submission_id: &str) -> (events: Vec<Event>)
        ensures
            events.deep_view() == scripted_turn(self@.thread_id, submission_id@),
    {
        let mut item_id = submission_id.to_owned();
        item_id.append("-message");
        let message = "Hello from the fake external runtime.";
        let started = Event {
            id: submission_id.to_owned(),
            msg: EventMsg::TurnStarted(
                TurnStartedEvent {
                    turn_id: submission_id.to_owned(),
                    trace_id: None,
                    started_at: None,
                    model_context_window: None,
                    collaboration_mode_kind: ModeKind::Default,
                },
            ),
        };
        let item_begins = item_started(
            &self.thread_id,
            submission_id,
            TurnItem::AgentMessage(agent_message(item_id.as_str(), String::new())),
        );
        let piece = Event {
            id: submission_id.to_owned(),
            msg: EventMsg::AgentMessageContentDelta(
                AgentMessageContentDeltaEvent {
                    thread_id: self.thread_id.value.clone(),
                    turn_id: submission_id.to_owned(),
                    item_id: item_id.clone(),
                    delta: message.to_owned(),
                },
            ),
        };
        let item_ends = item_completed(
            &self.thread_id,
            submission_id,
            TurnItem::AgentMessage(agent_message(item_id.as_str(), message.to_owned())),
        );
        let completed = Event {
            id: submission_id.to_owned(),
            msg: EventMsg::TurnComplete(
                TurnCompleteEvent {
                    turn_id: submission_id.to_owned(),
                    last_agent_message: Some(message.to_owned()),
                    error: None,
                    started_at: None,
                    completed_at: None,
                    duration_ms: None,
                    time_to_first_token_ms: None,
                },
            ),
        };
        let mut events: Vec<Event> = Vec::new();
        events.push(started);
        events.push(item_begins);
        events.push(piece);
        events.push(item_ends);
        events.push(completed);
        assert(events.deep_view() =~= scripted_turn(self@.thread_id, submission_id@));
        events
    }

    /// The events that an operation gives rise to: every one but a shutdown plays the script.
    pub fn submit(&self, operation: AgentRuntimeOperation) -> (events: Vec<Event>)
        ensures
            events.deep_view() == scripted_events(self@.thread_id, operation),
    {
        match &operation.op.body {
            OpBody::Shutdown => {
                let events: Vec<Event> = Vec::new();
                assert(events.deep_view() =~= Seq::empty());
                events
            },
            _ => self.send_scripted_turn(operation.submission_id.as_str()),
        }
    }

    /// The agent never leaves its first status.
    pub fn status(&self) -> (status: AgentStatus)
        ensures
            status == AgentStatus::PendingInit,
    {
        AgentStatus::PendingInit
    }

    /// The script costs no tokens.
    pub fn token_usage(&self) -> (usage: Option<TokenUsageInfo>)
        ensures
            ({
                let nothing = TokenUsage {
                    input_tokens: 0,
                    cached_input_tokens: 0,
                    cache_write_input_tokens: 0,
                    output_tokens: 0,
                    reasoning_output_tokens: 0,
                    total_tokens: 0,
                };
                usage == Some(
                    TokenUsageInfo {
                        total_token_usage: nothing,
                        last_token_usage: nothing,
                        model_context_window: None,
                    },
                )
            }),
    {
        Some(
            TokenUsageInfo {
                total_token_usage: TokenUsage::default(),
                last_token_usage: TokenUsage::default(),
                model_context_window: None,
            },
        )
    }

    /// What is kept of the agent.
    pub fn persistence(&self) -> (state: AgentRuntimePersistence)
        ensures
            state.deep_view() == (PersistenceView {
                runtime_id: self@.runtime_id,
                session_locator: self@.thread_id,
                metadata: JsonView::Object(map!["kind"@ => JsonView::String("fake"@)]),
            }),
    {
        AgentRuntimePersistence {
            runtime_id: self.runtime_id.clone(),
            session_locator: self.thread_id.value.clone(),
            metadata: object_of_one("kind", json_string("fake".to_owned())),
        }
    }
}

/// Every event of a scripted turn carries the id of the submission.
pub proof fn scripted_events_carry_the_submission(
    thread_id: Seq<char>,
    submission_id: Seq<char>,
    index: int,
)
    requires
        0 <= index < scripted_turn(thread_id, submission_id).len(),
    ensures
        scripted_turn(thread_id, submission_id)[index].id == submission_id,
{
}

} // verus!
