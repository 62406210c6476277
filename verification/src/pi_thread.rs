//! A thread that stands for a session of the sidecar.
//!
//! The thread turns the events of its session into host events and the operations of the host
//! into commands for the session. What travels over the connection is left to the caller.
use std::collections::VecDeque;
use vstd::prelude::*;
use vstd::string::*;

use crate::agent_runtime::{
    AgentRuntimeError, AgentRuntimeErrorKind, AgentRuntimeId, AgentRuntimeOperation,
    AgentRuntimePersistence, AgentRuntimeToolCall, AgentRuntimeToolResult, ErrorView,
};
use crate::json::{
    document_view, json_display, json_document, json_from_slice, json_members, json_object,
    json_string, json_to_vec, json_view, JsonView,
};
use crate::pi_laws::event_keeps_messages_sound;
use crate::pi_operations::{
    not_spawned, opened, persisted, protocol_failure, reply_report, spawned_session, submission,
    thread_after_reply, thread_after_submission, thread_after_tool_request,
    thread_after_tool_result, tool_failure, tool_request_failure, tool_result_view, turn_command,
    unregisters, FollowupView,
};
use crate::pi_proto::{
    Command, CommandView, HostToolRequest, HostToolResult, HostToolResultView, MessageDelta,
    PiEvent, PiTokenUsage, RuntimeError, RuntimeResponse, SessionEvent, SpawnedSession,
};
use crate::pi_session::{
    expect_spawned, protocol_error, render_communication, render_user_input,
};
use crate::pi_translation::{
    agent_message_view, all_sound, empty_message, events_after, item_completed_view,
    item_started_view, message_end_events, message_of, reasoning_end, reasoning_item_id,
    reasoning_view, saturated, text_delta_events, thinking_delta_events, thread_after, turn_of,
    usage_info, with_reasoning, with_reasoning_ended, with_text, EventsView, MessageView,
    SessionView, ThreadView,
};
use crate::protocol::{
    AgentMessageContentDeltaEvent, AgentMessageItem, AgentStatus, CodexErrorInfo, ErrorEvent,
    Event, EventMsg, ItemCompletedEvent, ItemStartedEvent, MessagePhase, ModeKind, OpBody,
    ReasoningContentDeltaEvent, ReasoningItem, ThreadId, TokenCountEvent, TokenUsage,
    TokenUsageInfo, TurnAbortReason, TurnAbortedEvent, TurnCompleteEvent, TurnItem, TurnItemView,
    TurnStartedEvent,
};
use crate::text::{decimal_text, same_text};
use crate::text_map::{entries_map, TextMap};

verus! {

/// A message that is under way.
pub struct MessageState {
    text: String,
    reasoning: String,
    agent_started: bool,
    reasoning_started: bool,
    reasoning_completed: bool,
}

impl DeepView for MessageState {
    type V = MessageView;

    closed spec fn deep_view(&self) -> MessageView {
        MessageView {
            text: self.text@,
            reasoning: self.reasoning@,
            agent_started: self.agent_started,
            reasoning_started: self.reasoning_started,
            reasoning_completed: self.reasoning_completed,
        }
    }
}

impl Default for MessageState {
    fn default() -> (message: Self)
        ensures
            message.deep_view() == empty_message(),
    {
        MessageState {
            text: String::new(),
            reasoning: String::new(),
            agent_started: false,
            reasoning_started: false,
            reasoning_completed: false,
        }
    }
}

/// The events that wait to be read, and the messages that are under way.
pub struct ThreadEvents {
    queued: VecDeque<Event>,
    messages: TextMap<MessageState>,
}

impl DeepView for ThreadEvents {
    type V = EventsView;

    closed spec fn deep_view(&self) -> EventsView {
        EventsView { queued: self.queued.deep_view(), messages: self.messages.deep_view() }
    }
}

proof fn lemma_pushed(before: VecDeque<Event>, after: VecDeque<Event>, event: Event)
    requires
        after@ == before@.push(event),
    ensures
        after.deep_view() == before.deep_view().push(event.deep_view()),
{
    assert(after.deep_view() =~= before.deep_view().push(event.deep_view()));
}

impl ThreadEvents {
    /// Each message stands under one id.
    pub closed spec fn has_unique_ids(&self) -> bool {
        self.messages.wf()
    }

    /// Each message stands under one id, and every message is sound.
    pub open spec fn wf(&self) -> bool {
        self.has_unique_ids() && all_sound(self.deep_view().messages)
    }

    /// Nothing waits and no message is under way.
    pub fn new() -> (events: Self)
        ensures
            events.wf(),
            events.deep_view() == (EventsView { queued: Seq::empty(), messages: Map::empty() }),
    {
        let events = ThreadEvents { queued: VecDeque::new(), messages: TextMap::new() };
        assert(events.deep_view() =~= (EventsView { queued: Seq::empty(), messages: Map::empty() }));
        events
    }

    /// Takes the event that waits longest.
    pub fn pop_front(&mut self) -> (event: Option<Event>)
        requires
            old(self).wf(),
        ensures
            final(self).wf(),
            final(self).deep_view().messages == old(self).deep_view().messages,
            match event {
                Some(taken) => old(self).deep_view().queued == seq![taken.deep_view()]
                    + final(self).deep_view().queued,
                None => old(self).deep_view().queued.len() == 0
                    && final(self).deep_view().queued.len() == 0,
            },
    {
        let ghost before = self.queued;
        let event = self.queued.pop_front();
        proof {
            if event is Some {
                assert(before.deep_view() =~= seq![event->0.deep_view()] + self.queued.deep_view());
            }
        }
        event
    }

    /// Adds an event behind those that wait.
    pub fn enqueue(&mut self, event: Event)
        requires
            old(self).wf(),
        ensures
            final(self).wf(),
            final(self).deep_view() == (EventsView {
                queued: old(self).deep_view().queued.push(event.deep_view()),
                messages: old(self).deep_view().messages,
            }),
    {
        self.push_back(event);
    }

    /// Adds an event, whatever holds of the messages.
    fn push_back(&mut self, event: Event)
        requires
            old(self).has_unique_ids(),
        ensures
            final(self).has_unique_ids(),
            final(self).deep_view() == (EventsView {
                queued: old(self).deep_view().queued.push(event.deep_view()),
                messages: old(self).deep_view().messages,
            }),
    {
        let ghost before = self.queued;
        self.queued.push_back(event);
        proof {
            lemma_pushed(before, self.queued, event);
        }
    }

    /// Takes a message out of those under way; one that is not under way is empty.
    fn take_message(&mut self, id: &str) -> (message: MessageState)
        requires
            old(self).has_unique_ids(),
        ensures
            final(self).has_unique_ids(),
            message.deep_view() == message_of(old(self).deep_view().messages, id@),
            final(self).deep_view() == (EventsView {
                queued: old(self).deep_view().queued,
                messages: old(self).deep_view().messages.remove(id@),
            }),
    {
        let ghost before = self.messages;
        let taken = self.messages.remove(id);
        assert(self.messages.deep_view() =~= before.deep_view().remove(id@));
        match taken {
            Some(message) => message,
            None => MessageState::default(),
        }
    }

    /// Puts a message among those under way.
    fn put_message(&mut self, id: String, message: MessageState)
        requires
            old(self).has_unique_ids(),
        ensures
            final(self).has_unique_ids(),
            final(self).deep_view() == (EventsView {
                queued: old(self).deep_view().queued,
                messages: old(self).deep_view().messages.insert(id@, message.deep_view()),
            }),
    {
        let ghost before = self.messages;
        self.messages.insert(id, message);
        assert(self.messages.deep_view() =~= before.deep_view().insert(id@, message.deep_view()));
    }
}

/// The item of a message.
pub fn agent_message(item_id: &str, text: String) -> (item: AgentMessageItem)
    ensures
        TurnItemView::AgentMessage(item.deep_view()) == agent_message_view(item_id@, text@),
{
    let mut content: Vec<String> = Vec::new();
    let ghost spoken = text@;
    if !text.as_str().is_empty() {
        content.push(text);
        assert(content.deep_view() =~= seq![spoken]);
    } else {
        assert(content.deep_view() =~= Seq::empty());
    }
    AgentMessageItem {
        id: item_id.to_owned(),
        content,
        phase: Some(MessagePhase::FinalAnswer),
        memory_citation: None,
    }
}

/// The id of the reasoning item that belongs to a message.
pub fn reasoning_id(message_id: &str) -> (id: String)
    ensures
        id@ == reasoning_item_id(message_id@),
{
    let mut id = message_id.to_owned();
    id.append("-reasoning");
    id
}

/// The item of the reasoning before a message.
fn reasoning_item(message_id: &str, reasoning: String) -> (item: ReasoningItem)
    ensures
        TurnItemView::Reasoning(item.deep_view()) == reasoning_view(message_id@, reasoning@),
{
    let mut summary_text: Vec<String> = Vec::new();
    let raw_content: Vec<String> = Vec::new();
    let ghost thought = reasoning@;
    if !reasoning.as_str().is_empty() {
        summary_text.push(reasoning);
        assert(summary_text.deep_view() =~= seq![thought]);
    } else {
        assert(summary_text.deep_view() =~= Seq::empty());
    }
    assert(raw_content.deep_view() =~= Seq::empty());
    ReasoningItem { id: reasoning_id(message_id), summary_text, raw_content }
}

/// The report that an item began.
pub fn item_started(thread_id: &ThreadId, turn_id: &str, item: TurnItem) -> (event: Event)
    ensures
        event.deep_view() == item_started_view(thread_id.deep_view(), turn_id@, item.deep_view()),
{
    Event {
        id: turn_id.to_owned(),
        msg: EventMsg::ItemStarted(
            ItemStartedEvent {
                thread_id: thread_id.clone(),
                turn_id: turn_id.to_owned(),
                item,
                started_at_ms: 0,
            },
        ),
    }
}

/// The report that an item is complete.
pub fn item_completed(thread_id: &ThreadId, turn_id: &str, item: TurnItem) -> (event: Event)
    ensures
        event.deep_view() == item_completed_view(
            thread_id.deep_view(),
            turn_id@,
            item.deep_view(),
        ),
{
    Event {
        id: turn_id.to_owned(),
        msg: EventMsg::ItemCompleted(
            ItemCompletedEvent {
                thread_id: thread_id.clone(),
                turn_id: turn_id.to_owned(),
                item,
                completed_at_ms: 0,
            },
        ),
    }
}

/// A count as a signed number; what does not fit becomes the largest one.
pub fn saturating_i64(value: u64) -> (number: i64)
    ensures
        number == saturated(value),
{
    if value <= i64::MAX as u64 {
        value as i64
    } else {
        i64::MAX
    }
}

/// Completes the reasoning of a message, where it is open.
fn complete_reasoning_if_needed(
    events: &mut ThreadEvents,
    thread_id: &ThreadId,
    turn_id: &str,
    message_id: &str,
    message: &mut MessageState,
)
    requires
        old(events).has_unique_ids(),
    ensures
        final(events).has_unique_ids(),
        final(events).deep_view() == (EventsView {
            queued: old(events).deep_view().queued + reasoning_end(
                thread_id.deep_view(),
                turn_id@,
                message_id@,
                old(message).deep_view(),
            ),
            messages: old(events).deep_view().messages,
        }),
        final(message).deep_view() == with_reasoning_ended(old(message).deep_view()),
{
    let ghost before = events.deep_view();
    if !message.reasoning_started || message.reasoning_completed {
        assert(events.deep_view().queued =~= before.queued + Seq::empty());
        return;
    }
    message.reasoning_completed = true;
    let item = reasoning_item(message_id, message.reasoning.clone());
    events.push_back(item_completed(thread_id, turn_id, TurnItem::Reasoning(item)));
    assert(events.deep_view().queued =~= before.queued + reasoning_end(
        thread_id.deep_view(),
        turn_id@,
        message_id@,
        old(message).deep_view(),
    ));
}

/// A thread that stands for a session of the sidecar.
pub struct PiRuntimeThread {
    runtime_id: AgentRuntimeId,
    thread_id: ThreadId,
    session_locator: String,
    provider: String,
    model: String,
    thinking_level: String,
    agent_dir: String,
    pending_host_tools: TextMap<String>,
    active_turn_id: Option<String>,
    interrupt_pending: bool,
    status: AgentStatus,
    token_usage: Option<TokenUsageInfo>,
}

impl DeepView for PiRuntimeThread {
    type V = ThreadView;

    closed spec fn deep_view(&self) -> ThreadView {
        ThreadView {
            session: SessionView {
                runtime_id: self.runtime_id@,
                thread_id: self.thread_id.deep_view(),
                session_locator: self.session_locator@,
                provider: self.provider@,
                model: self.model@,
                thinking_level: self.thinking_level@,
                agent_dir: self.agent_dir@,
            },
            pending_host_tools: self.pending_host_tools.deep_view(),
            active_turn: self.active_turn_id.deep_view(),
            interrupt_pending: self.interrupt_pending,
            status: self.status.deep_view(),
            token_usage: self.token_usage,
        }
    }
}

/// Adds the reports that come of a piece of a message.
fn translate_text_delta(
    thread_id: &ThreadId,
    turn_id: &str,
    state: &mut ThreadEvents,
    delta: MessageDelta,
)
    requires
        old(state).has_unique_ids(),
    ensures
        final(state).has_unique_ids(),
        ({
            let message = message_of(old(state).deep_view().messages, delta.message_id@);
            final(state).deep_view() == (EventsView {
                queued: old(state).deep_view().queued + text_delta_events(
                    thread_id.deep_view(),
                    turn_id@,
                    message,
                    delta,
                ),
                messages: old(state).deep_view().messages.insert(
                    delta.message_id@,
                    with_text(message, delta.delta@),
                ),
            })
        }),
{
    let ghost before = state.deep_view();
    let ghost piece = delta;
    let mut message = state.take_message(delta.message_id.as_str());
    let ghost found = message.deep_view();
    complete_reasoning_if_needed(
        state,
        thread_id,
        turn_id,
        delta.message_id.as_str(),
        &mut message,
    );
    if !message.agent_started {
        message.agent_started = true;
        let item = agent_message(delta.message_id.as_str(), String::new());
        state.push_back(item_started(thread_id, turn_id, TurnItem::AgentMessage(item)));
    }
    message.text.append(delta.delta.as_str());
    state.put_message(delta.message_id.clone(), message);
    state.push_back(
        Event {
            id: turn_id.to_owned(),
            msg: EventMsg::AgentMessageContentDelta(
                AgentMessageContentDeltaEvent {
                    thread_id: thread_id.value.clone(),
                    turn_id: turn_id.to_owned(),
                    item_id: delta.message_id,
                    delta: delta.delta,
                },
            ),
        },
    );
    proof {
        let after = state.deep_view();
        assert(after.queued =~= before.queued + text_delta_events(
            thread_id.deep_view(),
            turn_id@,
            found,
            piece,
        ));
        assert(after.messages =~= before.messages.insert(
            piece.message_id@,
            with_text(found, piece.delta@),
        ));
    }
}

/// Adds the reports that come of a piece of reasoning.
fn translate_thinking_delta(
    thread_id: &ThreadId,
    turn_id: &str,
    state: &mut ThreadEvents,
    delta: MessageDelta,
)
    requires
        old(state).has_unique_ids(),
    ensures
        final(state).has_unique_ids(),
        ({
            let message = message_of(old(state).deep_view().messages, delta.message_id@);
            final(state).deep_view() == (EventsView {
                queued: old(state).deep_view().queued + thinking_delta_events(
                    thread_id.deep_view(),
                    turn_id@,
                    message,
                    delta,
                ),
                messages: old(state).deep_view().messages.insert(
                    delta.message_id@,
                    with_reasoning(message, delta.delta@),
                ),
            })
        }),
{
    let ghost before = state.deep_view();
    let ghost piece = delta;
    let mut message = state.take_message(delta.message_id.as_str());
    let ghost found = message.deep_view();
    if !message.reasoning_started {
        message.reasoning_started = true;
        let item = reasoning_item(delta.message_id.as_str(), String::new());
        state.push_back(item_started(thread_id, turn_id, TurnItem::Reasoning(item)));
    }
    message.reasoning.append(delta.delta.as_str());
    let item_id = reasoning_id(delta.message_id.as_str());
    state.put_message(delta.message_id, message);
    state.push_back(
        Event {
            id: turn_id.to_owned(),
            msg: EventMsg::ReasoningContentDelta(
                ReasoningContentDeltaEvent {
                    thread_id: thread_id.value.clone(),
                    turn_id: turn_id.to_owned(),
                    item_id,
                    delta: delta.delta,
                    summary_index: 0,
                },
            ),
        },
    );
    proof {
        let after = state.deep_view();
        assert(after.queued =~= before.queued + thinking_delta_events(
            thread_id.deep_view(),
            turn_id@,
            found,
            piece,
        ));
        assert(after.messages =~= before.messages.insert(
            piece.message_id@,
            with_reasoning(found, piece.delta@),
        ));
    }
}

/// Adds the reports that come of the end of a message.
fn translate_message_end(
    thread_id: &ThreadId,
    turn_id: &str,
    state: &mut ThreadEvents,
    message_id: &str,
)
    requires
        old(state).has_unique_ids(),
    ensures
        final(state).has_unique_ids(),
        final(state).deep_view() == (EventsView {
            queued: old(state).deep_view().queued + message_end_events(
                thread_id.deep_view(),
                turn_id@,
                message_of(old(state).deep_view().messages, message_id@),
                message_id@,
            ),
            messages: old(state).deep_view().messages.remove(message_id@),
        }),
{
    let ghost before = state.deep_view();
    let mut message = state.take_message(message_id);
    let ghost found = message.deep_view();
    let ghost reports = message_end_events(
        thread_id.deep_view(),
        turn_id@,
        found,
        message_id@,
    );
    complete_reasoning_if_needed(state, thread_id, turn_id, message_id, &mut message);
    if message.text.as_str().is_empty() && !message.agent_started {
        assert(state.deep_view().queued =~= before.queued + reports);
        return;
    }
    if !message.agent_started {
        let item = agent_message(message_id, String::new());
        state.push_back(item_started(thread_id, turn_id, TurnItem::AgentMessage(item)));
    }
    let item = agent_message(message_id, message.text);
    state.push_back(item_completed(thread_id, turn_id, TurnItem::AgentMessage(item)));
    assert(state.deep_view().queued =~= before.queued + reports);
}

/// What is left to do once the session has answered a command.
#[derive(Debug, PartialEq, Eq)]
pub enum Followup {
    Nothing,
    /// The turn that was active is reported as interrupted.
    Interrupt { turn_id: Option<String> },
    /// The session is unregistered and reported as closed.
    Shutdown,
}

impl DeepView for Followup {
    type V = FollowupView;

    open spec fn deep_view(&self) -> FollowupView {
        match self {
            Followup::Nothing => FollowupView::Nothing,
            Followup::Interrupt { turn_id } => FollowupView::Interrupt {
                turn: turn_id.deep_view(),
            },
            Followup::Shutdown => FollowupView::Shutdown,
        }
    }
}

impl Followup {
    /// Whether the session is unregistered now that it has answered.
    pub fn unregisters(&self, reply: &Result<(), AgentRuntimeError>) -> (gone: bool)
        ensures
            gone == unregisters(self.deep_view(), *reply is Ok),
    {
        match (self, reply) {
            (Followup::Shutdown, Ok(_)) => true,
            _ => false,
        }
    }
}

impl PiRuntimeThread {
    /// Each tool call that waits for a result stands under one call id.
    pub closed spec fn wf(&self) -> bool {
        self.pending_host_tools.wf()
    }

    /// Keeps the token counts of the session.
    fn update_token_usage(&mut self, usage: &PiTokenUsage) -> (info: TokenUsageInfo)
        requires
            old(self).wf(),
        ensures
            final(self).wf(),
            info == usage_info(*usage),
            final(self).deep_view() == (ThreadView {
                token_usage: Some(usage_info(*usage)),
                ..old(self).deep_view()
            }),
    {
        let token_usage = TokenUsage {
            input_tokens: saturating_i64(usage.input_tokens),
            cached_input_tokens: saturating_i64(usage.cache_read_tokens),
            cache_write_input_tokens: 0,
            output_tokens: saturating_i64(usage.output_tokens),
            reasoning_output_tokens: 0,
            total_tokens: saturating_i64(usage.total_tokens),
        };
        let info = TokenUsageInfo {
            total_token_usage: token_usage,
            last_token_usage: token_usage,
            model_context_window: None,
        };
        self.token_usage = Some(info);
        info
    }

    /// Takes in an event of the session.
    pub fn translate_event(&mut self, state: &mut ThreadEvents, session_event: SessionEvent)
        requires
            old(self).wf(),
            old(state).wf(),
        ensures
            final(self).wf(),
            final(state).wf(),
            final(self).deep_view() == thread_after(old(self).deep_view(), session_event),
            final(state).deep_view() == events_after(
                old(self).deep_view(),
                old(state).deep_view(),
                session_event,
            ),
    {
        let ghost thread = self.deep_view();
        let ghost before = state.deep_view();
        proof {
            event_keeps_messages_sound(thread, before.messages, session_event);
        }
        let turn_id = match &self.active_turn_id {
            Some(turn) => turn.clone(),
            None => {
                let mut turn = "pi-turn-".to_owned();
                turn.append(decimal_text(session_event.sequence).as_str());
                turn
            },
        };
        assert(turn_id@ == turn_of(thread, session_event.sequence));
        assert(before.queued + Seq::empty() =~= before.queued);
        let event = match session_event.event {
            Some(event) => event,
            None => {
                return;
            },
        };
        if self.interrupt_pending {
            if let PiEvent::AgentEnd { .. } = &event {
                self.interrupt_pending = false;
            }
            return;
        }
        match event {
            PiEvent::TurnStart => {
                self.status = AgentStatus::Running;
                state.push_back(
                    Event {
                        id: turn_id.clone(),
                        msg: EventMsg::TurnStarted(
                            TurnStartedEvent {
                                turn_id,
                                trace_id: None,
                                started_at: None,
                                model_context_window: None,
                                collaboration_mode_kind: ModeKind::Default,
                            },
                        ),
                    },
                );
            },
            PiEvent::MessageStart(message) => {
                if same_text(message.role.as_str(), "assistant") {
                    let found = state.take_message(message.message_id.as_str());
                    state.put_message(message.message_id, found);
                }
            },
            PiEvent::TextDelta(delta) => {
                translate_text_delta(&self.thread_id, turn_id.as_str(), state, delta);
            },
            PiEvent::ThinkingDelta(delta) => {
                translate_thinking_delta(&self.thread_id, turn_id.as_str(), state, delta);
            },
            PiEvent::MessageEnd(message) => {
                if same_text(message.role.as_str(), "assistant") {
                    translate_message_end(
                        &self.thread_id,
                        turn_id.as_str(),
                        state,
                        message.message_id.as_str(),
                    );
                }
            },
            PiEvent::AgentEnd { last_assistant_text } => {
                self.status = AgentStatus::Completed(Some(last_assistant_text.clone()));
                self.active_turn_id = None;
                state.push_back(
                    Event {
                        id: turn_id.clone(),
                        msg: EventMsg::TurnComplete(
                            TurnCompleteEvent {
                                turn_id,
                                last_agent_message: Some(last_assistant_text),
                                error: None,
                                started_at: None,
                                completed_at: None,
                                duration_ms: None,
                                time_to_first_token_ms: None,
                            },
                        ),
                    },
                );
            },
            PiEvent::Error(error) => {
                self.status = AgentStatus::Errored(error.message.clone());
                let mut message = "Pi runtime error (".to_owned();
                message.append(error.code.as_str());
                message.append("): ");
                message.append(error.message.as_str());
                state.push_back(
                    Event {
                        id: turn_id,
                        msg: EventMsg::Error(
                            ErrorEvent { message, codex_error_info: Some(CodexErrorInfo::Other) },
                        ),
                    },
                );
            },
            PiEvent::TokenUsage(usage) => {
                let info = self.update_token_usage(&usage);
                state.push_back(
                    Event {
                        id: turn_id,
                        msg: EventMsg::TokenCount(
                            TokenCountEvent { info: Some(info), rate_limits: None },
                        ),
                    },
                );
            },
            PiEvent::AgentStart
            | PiEvent::ToolExecutionStart
            | PiEvent::ToolExecutionUpdate
            | PiEvent::ToolExecutionEnd
            | PiEvent::TurnEnd
            | PiEvent::QueueUpdate
            | PiEvent::Compaction
            | PiEvent::Retry => {},
        }
        proof {
            let expected = events_after(thread, before, session_event);
            assert(state.deep_view().queued =~= expected.queued);
            assert(state.deep_view().messages =~= expected.messages);
        }
    }

    /// A thread for a session that was just opened.
    pub fn new(
        runtime_id: AgentRuntimeId,
        thread_id: ThreadId,
        spawned: SpawnedSession,
        agent_dir: String,
    ) -> (thread: Self)
        ensures
            thread.wf(),
            thread.deep_view() == opened(
                runtime_id@,
                thread_id.deep_view(),
                agent_dir@,
                spawned,
            ),
    {
        let thread = PiRuntimeThread {
            runtime_id,
            thread_id,
            session_locator: spawned.session_locator,
            provider: spawned.provider,
            model: spawned.model,
            thinking_level: spawned.thinking_level,
            agent_dir,
            pending_host_tools: TextMap::new(),
            active_turn_id: None,
            interrupt_pending: false,
            status: AgentStatus::PendingInit,
            token_usage: None,
        };
        assert(thread.pending_host_tools.deep_view() =~= Map::empty());
        thread
    }

    /// The id of the thread, which is the id of its session too.
    pub fn thread_id(&self) -> (id: &ThreadId)
        ensures
            id.deep_view() == self.deep_view().session.thread_id,
    {
        &self.thread_id
    }

    /// The id of the runtime that the session belongs to.
    pub fn runtime_id(&self) -> (id: &AgentRuntimeId)
        ensures
            id@ == self.deep_view().session.runtime_id,
    {
        &self.runtime_id
    }

    /// Where the agent stands.
    pub fn status(&self) -> (status: AgentStatus)
        ensures
            status.deep_view() == self.deep_view().status,
    {
        self.status.clone()
    }

    /// The token counts that the session reported last.
    pub fn token_usage(&self) -> (usage: Option<TokenUsageInfo>)
        ensures
            usage == self.deep_view().token_usage,
    {
        self.token_usage
    }

    /// What is kept of the thread to open its session again.
    pub fn persistence(&self) -> (state: AgentRuntimePersistence)
        ensures
            state.deep_view() == persisted(self.deep_view()),
    {
        let mut members: Vec<(String, serde_json::Value)> = Vec::new();
        members.push(("provider".to_owned(), json_string(self.provider.clone())));
        members.push(("model".to_owned(), json_string(self.model.clone())));
        members.push(("thinking_level".to_owned(), json_string(self.thinking_level.clone())));
        members.push(("agent_dir".to_owned(), json_string(self.agent_dir.clone())));
        proof {
            reveal_with_fuel(entries_map, 5);
            reveal_strlit("provider");
            reveal_strlit("model");
            reveal_strlit("thinking_level");
            reveal_strlit("agent_dir");
            assert("provider"@.len() == 8 && "model"@.len() == 5 && "thinking_level"@.len() == 14
                && "agent_dir"@.len() == 9);
            let all = members@;
            assert(all.drop_last().drop_last().drop_last().drop_last() =~= Seq::empty());
            assert(json_members(all) =~= persisted(self.deep_view()).metadata->Object_0);
        }
        AgentRuntimePersistence {
            runtime_id: self.runtime_id.clone(),
            session_locator: self.session_locator.clone(),
            metadata: json_object(members),
        }
    }

    /// Makes a turn the active one and gives the command that starts it.
    fn submit_turn(&mut self, submission_id: String, text: String) -> (command: Command)
        requires
            old(self).wf(),
        ensures
            final(self).wf(),
            command.deep_view() == turn_command(old(self).deep_view(), text@),
            final(self).deep_view() == (ThreadView {
                active_turn: Some(submission_id@),
                interrupt_pending: false,
                ..old(self).deep_view()
            }),
    {
        self.active_turn_id = Some(submission_id);
        self.interrupt_pending = false;
        match &self.status {
            AgentStatus::Running => Command::FollowUp { text },
            _ => Command::Prompt { text },
        }
    }

    /// Takes in an operation of the host: the command for the session, and what is left to do
    /// once the session has answered it.
    pub fn submit(&mut self, operation: AgentRuntimeOperation) -> (step: Result<
        (Command, Followup),
        AgentRuntimeError,
    >)
        requires
            old(self).wf(),
        ensures
            final(self).wf(),
            final(self).deep_view() == thread_after_submission(old(self).deep_view(), operation),
            match step {
                Ok((command, followup)) => submission(old(self).deep_view(), operation) == Ok::<
                    (CommandView, FollowupView),
                    ErrorView,
                >((command.deep_view(), followup.deep_view())),
                Err(error) => submission(old(self).deep_view(), operation) == Err::<
                    (CommandView, FollowupView),
                    ErrorView,
                >(error.deep_view()),
            },
    {
        match operation.op.body {
            OpBody::UserInput { items } => match render_user_input(items) {
                Ok(text) => Ok(
                    (self.submit_turn(operation.submission_id, text), Followup::Nothing),
                ),
                Err(error) => Err(error),
            },
            OpBody::InterAgentCommunication { communication } if communication.trigger_turn => {
                let text = render_communication(communication);
                Ok((self.submit_turn(operation.submission_id, text), Followup::Nothing))
            },
            OpBody::Interrupt => {
                let turn_id = self.active_turn_id.take();
                self.interrupt_pending = true;
                Ok((Command::Interrupt, Followup::Interrupt { turn_id }))
            },
            OpBody::Shutdown => Ok((Command::Close, Followup::Shutdown)),
            _ => {
                let mut message = "Pi runtime does not support Codex operation `".to_owned();
                message.append(operation.op.kind.as_str());
                message.append("`");
                Err(
                    AgentRuntimeError::new(AgentRuntimeErrorKind::UnsupportedOperation, message),
                )
            },
        }
    }

    /// Takes in the answer to a command. An accepted one may have something to report.
    pub fn finish(
        &mut self,
        followup: Followup,
        reply: Result<(), AgentRuntimeError>,
    ) -> (report: Result<Option<Event>, AgentRuntimeError>)
        requires
            old(self).wf(),
        ensures
            final(self).wf(),
            final(self).deep_view() == thread_after_reply(
                old(self).deep_view(),
                followup.deep_view(),
                reply is Ok,
            ),
            match (reply, report) {
                (Ok(_), Ok(event)) => event.deep_view() == reply_report(
                    old(self).deep_view(),
                    followup.deep_view(),
                ),
                (Err(refusal), Err(error)) => error == refusal,
                _ => false,
            },
    {
        match reply {
            Err(error) => {
                if let Followup::Interrupt { turn_id } = followup {
                    self.interrupt_pending = false;
                    self.active_turn_id = turn_id;
                }
                Err(error)
            },
            Ok(_) => match followup {
                Followup::Nothing => Ok(None),
                Followup::Interrupt { turn_id } => {
                    self.status = AgentStatus::Interrupted;
                    let id = match &turn_id {
                        Some(turn) => turn.clone(),
                        None => {
                            let mut id = "pi-interrupt-".to_owned();
                            id.append(self.thread_id.value.as_str());
                            id
                        },
                    };
                    Ok(
                        Some(
                            Event {
                                id,
                                msg: EventMsg::TurnAborted(
                                    TurnAbortedEvent {
                                        turn_id,
                                        reason: TurnAbortReason::Interrupted,
                                        started_at: None,
                                        completed_at: None,
                                        duration_ms: None,
                                    },
                                ),
                            },
                        ),
                    )
                },
                Followup::Shutdown => {
                    self.status = AgentStatus::Shutdown;
                    Ok(
                        Some(
                            Event {
                                id: self.thread_id.value.clone(),
                                msg: EventMsg::ShutdownComplete,
                            },
                        ),
                    )
                },
            },
        }
    }

    /// Takes in a tool request whose arguments were parsed: the call, which from now on waits
    /// for its result.
    pub fn accept_tool_request(
        &mut self,
        request: HostToolRequest,
        arguments: Result<serde_json::Value, String>,
    ) -> (call: Result<AgentRuntimeToolCall, AgentRuntimeError>)
        requires
            old(self).wf(),
        ensures
            final(self).wf(),
            final(self).deep_view() == thread_after_tool_request(
                old(self).deep_view(),
                request,
                document_view(arguments),
            ),
            match call {
                Ok(accepted) => tool_request_failure(
                    old(self).deep_view(),
                    request,
                    document_view(arguments),
                ) is None && is_call_of(accepted, request, document_view(arguments)),
                Err(error) => tool_request_failure(
                    old(self).deep_view(),
                    request,
                    document_view(arguments),
                ) == Some(error.deep_view()),
            },
    {
        let ghost before = self.pending_host_tools;
        if !same_text(request.session_id.as_str(), self.thread_id.value.as_str()) {
            let mut message = "Pi host tool request targeted session ".to_owned();
            message.append(request.session_id.as_str());
            message.append(", expected ");
            message.append(self.thread_id.value.as_str());
            return Err(protocol_error(message));
        }
        match arguments {
            Err(error) => {
                let mut message = "Pi host tool ".to_owned();
                message.append(request.tool_name.as_str());
                message.append(" sent invalid arguments JSON: ");
                message.append(error.as_str());
                Err(protocol_error(message))
            },
            Ok(arguments) => {
                self.pending_host_tools.insert(request.tool_call_id.clone(), request.request_id);
                assert(self.pending_host_tools.deep_view() =~= before.deep_view().insert(
                    request.tool_call_id@,
                    request.request_id@,
                ));
                Ok(
                    AgentRuntimeToolCall {
                        call_id: request.tool_call_id,
                        tool_name: request.tool_name,
                        arguments,
                    },
                )
            },
        }
    }

    /// Takes in a tool request of the session; none comes where the connection is closed.
    pub fn next_tool_call(&mut self, request: Option<HostToolRequest>) -> (call: Result<
        Option<AgentRuntimeToolCall>,
        AgentRuntimeError,
    >)
        requires
            old(self).wf(),
        ensures
            final(self).wf(),
            match request {
                Some(asked) => {
                    let arguments = json_document(asked.arguments_json@);
                    let failure = tool_request_failure(old(self).deep_view(), asked, arguments);
                    &&& final(self).deep_view() == thread_after_tool_request(
                        old(self).deep_view(),
                        asked,
                        arguments,
                    )
                    &&& match call {
                        Ok(Some(accepted)) => failure is None && is_call_of(
                            accepted,
                            asked,
                            arguments,
                        ),
                        Ok(None) => false,
                        Err(error) => failure == Some(error.deep_view()),
                    }
                },
                None => *final(self) == *old(self) && call == Ok::<
                    Option<AgentRuntimeToolCall>,
                    AgentRuntimeError,
                >(None),
            },
    {
        match request {
            None => Ok(None),
            Some(request) => {
                let arguments = json_from_slice(request.arguments_json.as_slice());
                match self.accept_tool_request(request, arguments) {
                    Ok(call) => Ok(Some(call)),
                    Err(error) => Err(error),
                }
            },
        }
    }

    /// Takes in the result of a tool call: the message that carries it to the sidecar.
    pub fn submit_tool_result(&mut self, result: AgentRuntimeToolResult) -> (message: Result<
        HostToolResult,
        AgentRuntimeError,
    >)
        requires
            old(self).wf(),
        ensures
            final(self).wf(),
            final(self).deep_view() == thread_after_tool_result(
                old(self).deep_view(),
                result.call_id@,
            ),
            match message {
                Ok(sent) => tool_result_view(old(self).deep_view(), result) == Ok::<
                    HostToolResultView,
                    ErrorView,
                >(sent.deep_view()),
                Err(error) => tool_result_view(old(self).deep_view(), result) == Err::<
                    HostToolResultView,
                    ErrorView,
                >(error.deep_view()),
            },
    {
        let ghost before = self.pending_host_tools;
        let pending = self.pending_host_tools.remove(result.call_id.as_str());
        assert(self.pending_host_tools.deep_view() =~= before.deep_view().remove(result.call_id@));
        let request_id = match pending {
            Some(request_id) => request_id,
            None => {
                let mut message = "Pi host tool result has no pending call ".to_owned();
                message.append(result.call_id.as_str());
                return Err(protocol_error(message));
            },
        };
        let encoded = json_to_vec(&result.output);
        let shown = json_display(&result.output);
        tool_result_message(
            request_id,
            self.thread_id.value.clone(),
            result.call_id,
            result.is_error,
            encoded,
            shown,
        )
    }
}

/// The message that carries a result to the sidecar, for its bytes and its text. The text goes
/// along as the message of a failed call.
pub fn tool_result_message(
    request_id: String,
    session_id: String,
    tool_call_id: String,
    is_error: bool,
    encoded: Result<Vec<u8>, String>,
    shown: String,
) -> (message: Result<HostToolResult, AgentRuntimeError>)
    ensures
        match (encoded, message) {
            (Ok(bytes), Ok(sent)) => sent.deep_view() == (HostToolResultView {
                request_id: request_id@,
                session_id: session_id@,
                tool_call_id: tool_call_id@,
                result_json: bytes@,
                error: if is_error {
                    Some(tool_failure(shown@))
                } else {
                    None
                },
            }),
            (Err(reason), Err(error)) => error.deep_view() == protocol_failure(
                "failed to encode Pi host tool result: "@ + reason@,
            ),
            _ => false,
        },
{
    let result_json = match encoded {
        Ok(result_json) => result_json,
        Err(error) => {
            let mut message = "failed to encode Pi host tool result: ".to_owned();
            message.append(error.as_str());
            return Err(protocol_error(message));
        },
    };
    let error = if is_error {
        Some(
            RuntimeError {
                code: "host_tool_failed".to_owned(),
                message: shown,
                retryable: false,
                details_json: Vec::new(),
            },
        )
    } else {
        None
    };
    Ok(HostToolResult { request_id, session_id, tool_call_id, result_json, error })
}

/// Whether a call is the one that a tool request asks for, with the arguments that it came with.
pub open spec fn is_call_of(
    call: AgentRuntimeToolCall,
    request: HostToolRequest,
    arguments: Result<JsonView, Seq<char>>,
) -> bool {
    call.call_id == request.tool_call_id && call.tool_name == request.tool_name && Ok::<
        JsonView,
        Seq<char>,
    >(json_view(call.arguments)) == arguments
}

/// What came of the attempt to open a session.
pub enum Opening {
    Opened(PiRuntimeThread),
    /// The session could not be opened; where `unregister` is set, it is to be unregistered.
    Failed { error: AgentRuntimeError, unregister: bool },
}

/// Whether an opening is what comes of an answer: a thread where the answer tells of a session.
/// A refused request leaves a session that is to be unregistered.
pub open spec fn is_opening_of(
    opening: Opening,
    runtime_id: Seq<char>,
    thread_id: Seq<char>,
    agent_dir: Seq<char>,
    reply: Result<RuntimeResponse, AgentRuntimeError>,
) -> bool {
    match reply {
        Err(refusal) => opening == (Opening::Failed { error: refusal, unregister: true }),
        Ok(response) => match opening {
            Opening::Opened(thread) => spawned_session(response) is Some && thread.wf()
                && thread.deep_view() == opened(
                runtime_id,
                thread_id,
                agent_dir,
                spawned_session(response)->0,
            ),
            Opening::Failed { error, unregister } => spawned_session(response) is None
                && error.deep_view() == not_spawned() && !unregister,
        },
    }
}

/// Takes in the answer to the command that opens a session.
pub fn open_thread(
    runtime_id: AgentRuntimeId,
    thread_id: ThreadId,
    agent_dir: String,
    reply: Result<RuntimeResponse, AgentRuntimeError>,
) -> (opening: Opening)
    ensures
        is_opening_of(opening, runtime_id@, thread_id.deep_view(), agent_dir@, reply),
{
    match reply {
        Err(error) => Opening::Failed { error, unregister: true },
        Ok(response) => match expect_spawned(response) {
            Ok(spawned) => Opening::Opened(
                PiRuntimeThread::new(runtime_id, thread_id, spawned, agent_dir),
            ),
            Err(error) => Opening::Failed { error, unregister: false },
        },
    }
}

} // verus!
