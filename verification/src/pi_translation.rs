//! What the events of a sidecar session mean for the thread that stands for it.
//!
//! The functions here are the model of [`crate::pi_thread`]: for each event of a session they
//! say which host events come of it, and what it changes of the thread and of the messages
//! that are under way.
use vstd::prelude::*;

use crate::pi_proto::{MessageDelta, PiEvent, PiTokenUsage, RuntimeError, SessionEvent};
use crate::protocol::{
    AbortReasonView, AgentMessageView, CodexErrorInfo, EventMsgView, EventView, MessagePhase,
    ModeKind, ReasoningView, StatusView, TokenUsage, TokenUsageInfo, TurnItemView,
};
use crate::text::decimal;

verus! {

/// What is fixed when a session is opened.
pub struct SessionView {
    pub runtime_id: Seq<char>,
    pub thread_id: Seq<char>,
    pub session_locator: Seq<char>,
    pub provider: Seq<char>,
    pub model: Seq<char>,
    pub thinking_level: Seq<char>,
    pub agent_dir: Seq<char>,
}

/// The state of a thread that stands for a session.
pub struct ThreadView {
    pub session: SessionView,
    /// Request ids of the tool calls that wait for a result, by call id.
    pub pending_host_tools: Map<Seq<char>, Seq<char>>,
    pub active_turn: Option<Seq<char>>,
    pub interrupt_pending: bool,
    pub status: StatusView,
    pub token_usage: Option<TokenUsageInfo>,
}

/// A message that is under way.
pub struct MessageView {
    pub text: Seq<char>,
    pub reasoning: Seq<char>,
    pub agent_started: bool,
    pub reasoning_started: bool,
    pub reasoning_completed: bool,
}

/// The events that wait to be read, and the messages that are under way by their id.
#[verifier::ext_equal]
pub struct EventsView {
    pub queued: Seq<EventView>,
    pub messages: Map<Seq<char>, MessageView>,
}

/// A message of which nothing arrived yet.
pub open spec fn empty_message() -> MessageView {
    MessageView {
        text: Seq::empty(),
        reasoning: Seq::empty(),
        agent_started: false,
        reasoning_started: false,
        reasoning_completed: false,
    }
}

/// The message under an id; one that is not under way is empty.
pub open spec fn message_of(messages: Map<Seq<char>, MessageView>, id: Seq<char>) -> MessageView {
    if messages.contains_key(id) {
        messages[id]
    } else {
        empty_message()
    }
}

/// What holds of every message under way: a text has begun, so has reasoning, and only
/// reasoning that began is complete.
pub open spec fn is_sound(message: MessageView) -> bool {
    &&& message.text.len() > 0 ==> message.agent_started
    &&& message.reasoning.len() > 0 ==> message.reasoning_started
    &&& message.reasoning_completed ==> message.reasoning_started
}

/// Every message under way is sound.
pub open spec fn all_sound(messages: Map<Seq<char>, MessageView>) -> bool {
    forall|id: Seq<char>| #[trigger] messages.contains_key(id) ==> is_sound(messages[id])
}

/// The turn that an event belongs to: the active one, or one named after the event.
pub open spec fn turn_of(thread: ThreadView, sequence: u64) -> Seq<char> {
    match thread.active_turn {
        Some(turn) => turn,
        None => "pi-turn-"@ + decimal(sequence as nat),
    }
}

/// The item of a message: its text, where there is any.
pub open spec fn agent_message_view(id: Seq<char>, text: Seq<char>) -> TurnItemView {
    TurnItemView::AgentMessage(
        AgentMessageView {
            id,
            content: if text.len() == 0 {
                Seq::empty()
            } else {
                seq![text]
            },
            phase: Some(MessagePhase::FinalAnswer),
            memory_citation: None,
        },
    )
}

/// The id of the reasoning item that belongs to a message.
pub open spec fn reasoning_item_id(message_id: Seq<char>) -> Seq<char> {
    message_id + "-reasoning"@
}

/// The item of the reasoning before a message: its text as summary, where there is any.
pub open spec fn reasoning_view(message_id: Seq<char>, reasoning: Seq<char>) -> TurnItemView {
    TurnItemView::Reasoning(
        ReasoningView {
            id: reasoning_item_id(message_id),
            summary_text: if reasoning.len() == 0 {
                Seq::empty()
            } else {
                seq![reasoning]
            },
            raw_content: Seq::empty(),
        },
    )
}

/// The report that an item began.
pub open spec fn item_started_view(
    thread_id: Seq<char>,
    turn: Seq<char>,
    item: TurnItemView,
) -> EventView {
    EventView {
        id: turn,
        msg: EventMsgView::ItemStarted { thread_id, turn_id: turn, item, started_at_ms: 0 },
    }
}

/// The report that an item is complete.
pub open spec fn item_completed_view(
    thread_id: Seq<char>,
    turn: Seq<char>,
    item: TurnItemView,
) -> EventView {
    EventView {
        id: turn,
        msg: EventMsgView::ItemCompleted { thread_id, turn_id: turn, item, completed_at_ms: 0 },
    }
}

/// The report that a turn began.
pub open spec fn turn_started_view(turn: Seq<char>) -> EventView {
    EventView {
        id: turn,
        msg: EventMsgView::TurnStarted {
            turn_id: turn,
            trace_id: None,
            started_at: None,
            model_context_window: None,
            collaboration_mode_kind: ModeKind::Default,
        },
    }
}

/// The report of a piece of a message.
pub open spec fn content_delta_view(
    thread_id: Seq<char>,
    turn: Seq<char>,
    item_id: Seq<char>,
    delta: Seq<char>,
) -> EventView {
    EventView {
        id: turn,
        msg: EventMsgView::AgentMessageContentDelta { thread_id, turn_id: turn, item_id, delta },
    }
}

/// The report of a piece of reasoning.
pub open spec fn reasoning_delta_view(
    thread_id: Seq<char>,
    turn: Seq<char>,
    item_id: Seq<char>,
    delta: Seq<char>,
) -> EventView {
    EventView {
        id: turn,
        msg: EventMsgView::ReasoningContentDelta {
            thread_id,
            turn_id: turn,
            item_id,
            delta,
            summary_index: 0,
        },
    }
}

/// The report that a turn came to its end.
pub open spec fn turn_complete_view(turn: Seq<char>, last_message: Seq<char>) -> EventView {
    EventView {
        id: turn,
        msg: EventMsgView::TurnComplete {
            turn_id: turn,
            last_agent_message: Some(last_message),
            error: None,
            started_at: None,
            completed_at: None,
            duration_ms: None,
            time_to_first_token_ms: None,
        },
    }
}

/// The report that a turn was interrupted.
pub open spec fn turn_aborted_view(id: Seq<char>, turn: Option<Seq<char>>) -> EventView {
    EventView {
        id,
        msg: EventMsgView::TurnAborted {
            aborted_turn_id: turn,
            reason: AbortReasonView::Interrupted,
            started_at: None,
            completed_at: None,
            duration_ms: None,
        },
    }
}

/// The report of a failure in the session.
pub open spec fn error_view(turn: Seq<char>, error: RuntimeError) -> EventView {
    EventView {
        id: turn,
        msg: EventMsgView::Error {
            message: "Pi runtime error ("@ + error.code@ + "): "@ + error.message@,
            codex_error_info: Some(CodexErrorInfo::Other),
        },
    }
}

/// A count as a signed number; what does not fit becomes the largest one.
pub open spec fn saturated(value: u64) -> i64 {
    if value <= i64::MAX {
        value as i64
    } else {
        i64::MAX
    }
}

/// The token counts of a session as the host keeps them.
pub open spec fn usage_info(usage: PiTokenUsage) -> TokenUsageInfo {
    let counts = TokenUsage {
        input_tokens: saturated(usage.input_tokens),
        cached_input_tokens: saturated(usage.cache_read_tokens),
        cache_write_input_tokens: 0,
        output_tokens: saturated(usage.output_tokens),
        reasoning_output_tokens: 0,
        total_tokens: saturated(usage.total_tokens),
    };
    TokenUsageInfo {
        total_token_usage: counts,
        last_token_usage: counts,
        model_context_window: None,
    }
}

/// The report of token counts.
pub open spec fn token_count_view(turn: Seq<char>, usage: PiTokenUsage) -> EventView {
    EventView {
        id: turn,
        msg: EventMsgView::TokenCount { info: Some(usage_info(usage)), rate_limits: None },
    }
}

/// Whether the reasoning of a message began and is not complete.
pub open spec fn reasoning_is_open(message: MessageView) -> bool {
    message.reasoning_started && !message.reasoning_completed
}

/// The report that completes open reasoning.
pub open spec fn reasoning_end(
    thread_id: Seq<char>,
    turn: Seq<char>,
    message_id: Seq<char>,
    message: MessageView,
) -> Seq<EventView> {
    if reasoning_is_open(message) {
        seq![item_completed_view(thread_id, turn, reasoning_view(message_id, message.reasoning))]
    } else {
        Seq::empty()
    }
}

/// A message after open reasoning was completed.
pub open spec fn with_reasoning_ended(message: MessageView) -> MessageView {
    MessageView {
        reasoning_completed: message.reasoning_completed || message.reasoning_started,
        ..message
    }
}

/// The reports that come of a piece of a message: open reasoning ends, the message begins with
/// its first piece, the piece follows.
pub open spec fn text_delta_events(
    thread_id: Seq<char>,
    turn: Seq<char>,
    message: MessageView,
    delta: MessageDelta,
) -> Seq<EventView> {
    let id = delta.message_id@;
    reasoning_end(thread_id, turn, id, message) + (if message.agent_started {
        Seq::empty()
    } else {
        seq![item_started_view(thread_id, turn, agent_message_view(id, Seq::empty()))]
    }) + seq![content_delta_view(thread_id, turn, id, delta.delta@)]
}

/// A message after a piece of it arrived.
pub open spec fn with_text(message: MessageView, delta: Seq<char>) -> MessageView {
    MessageView {
        text: message.text + delta,
        agent_started: true,
        ..with_reasoning_ended(message)
    }
}

/// The reports that come of a piece of reasoning: reasoning begins with its first piece, the
/// piece follows.
pub open spec fn thinking_delta_events(
    thread_id: Seq<char>,
    turn: Seq<char>,
    message: MessageView,
    delta: MessageDelta,
) -> Seq<EventView> {
    let id = delta.message_id@;
    (if message.reasoning_started {
        Seq::empty()
    } else {
        seq![item_started_view(thread_id, turn, reasoning_view(id, Seq::empty()))]
    }) + seq![reasoning_delta_view(thread_id, turn, reasoning_item_id(id), delta.delta@)]
}

/// A message after a piece of its reasoning arrived.
pub open spec fn with_reasoning(message: MessageView, delta: Seq<char>) -> MessageView {
    MessageView { reasoning: message.reasoning + delta, reasoning_started: true, ..message }
}

/// The reports that come of the end of a message: open reasoning ends, and a message that
/// began or has a text is complete.
pub open spec fn message_end_events(
    thread_id: Seq<char>,
    turn: Seq<char>,
    message: MessageView,
    id: Seq<char>,
) -> Seq<EventView> {
    reasoning_end(thread_id, turn, id, message) + (if message.agent_started {
        seq![item_completed_view(thread_id, turn, agent_message_view(id, message.text))]
    } else if message.text.len() == 0 {
        Seq::empty()
    } else {
        seq![
            item_started_view(thread_id, turn, agent_message_view(id, Seq::empty())),
            item_completed_view(thread_id, turn, agent_message_view(id, message.text)),
        ]
    })
}

/// The reports that come of an event of a session. None come while an interruption is pending.
pub open spec fn emitted(
    thread: ThreadView,
    messages: Map<Seq<char>, MessageView>,
    event: SessionEvent,
) -> Seq<EventView> {
    let turn = turn_of(thread, event.sequence);
    let thread_id = thread.session.thread_id;
    if thread.interrupt_pending {
        Seq::empty()
    } else {
        match event.event {
            Some(PiEvent::TurnStart) => seq![turn_started_view(turn)],
            Some(PiEvent::TextDelta(delta)) => text_delta_events(
                thread_id,
                turn,
                message_of(messages, delta.message_id@),
                delta,
            ),
            Some(PiEvent::ThinkingDelta(delta)) => thinking_delta_events(
                thread_id,
                turn,
                message_of(messages, delta.message_id@),
                delta,
            ),
            Some(PiEvent::MessageEnd(end)) if end.role@ == "assistant"@ => message_end_events(
                thread_id,
                turn,
                message_of(messages, end.message_id@),
                end.message_id@,
            ),
            Some(PiEvent::AgentEnd { last_assistant_text }) => seq![
                turn_complete_view(turn, last_assistant_text@),
            ],
            Some(PiEvent::Error(error)) => seq![error_view(turn, error)],
            Some(PiEvent::TokenUsage(usage)) => seq![token_count_view(turn, usage)],
            _ => Seq::empty(),
        }
    }
}

/// The messages under way after an event. An interruption leaves them as they are.
pub open spec fn messages_after(
    thread: ThreadView,
    messages: Map<Seq<char>, MessageView>,
    event: SessionEvent,
) -> Map<Seq<char>, MessageView> {
    if thread.interrupt_pending {
        messages
    } else {
        match event.event {
            Some(PiEvent::MessageStart(start)) if start.role@ == "assistant"@ => messages.insert(
                start.message_id@,
                message_of(messages, start.message_id@),
            ),
            Some(PiEvent::TextDelta(delta)) => messages.insert(
                delta.message_id@,
                with_text(message_of(messages, delta.message_id@), delta.delta@),
            ),
            Some(PiEvent::ThinkingDelta(delta)) => messages.insert(
                delta.message_id@,
                with_reasoning(message_of(messages, delta.message_id@), delta.delta@),
            ),
            Some(PiEvent::MessageEnd(end)) if end.role@ == "assistant"@ => messages.remove(
                end.message_id@,
            ),
            _ => messages,
        }
    }
}

/// The thread after an event. While an interruption is pending, only the end of the agent's
/// run changes it: the interruption is over.
pub open spec fn thread_after(thread: ThreadView, event: SessionEvent) -> ThreadView {
    match event.event {
        Some(PiEvent::AgentEnd { last_assistant_text }) => if thread.interrupt_pending {
            ThreadView { interrupt_pending: false, ..thread }
        } else {
            ThreadView {
                status: StatusView::Completed(Some(last_assistant_text@)),
                active_turn: None,
                ..thread
            }
        },
        Some(PiEvent::TurnStart) if !thread.interrupt_pending => ThreadView {
            status: StatusView::Running,
            ..thread
        },
        Some(PiEvent::Error(error)) if !thread.interrupt_pending => ThreadView {
            status: StatusView::Errored(error.message@),
            ..thread
        },
        Some(PiEvent::TokenUsage(usage)) if !thread.interrupt_pending => ThreadView {
            token_usage: Some(usage_info(usage)),
            ..thread
        },
        _ => thread,
    }
}

/// The waiting events and the messages after an event.
pub open spec fn events_after(
    thread: ThreadView,
    events: EventsView,
    event: SessionEvent,
) -> EventsView {
    EventsView {
        queued: events.queued + emitted(thread, events.messages, event),
        messages: messages_after(thread, events.messages, event),
    }
}

} // verus!
