//! What the host is told of a session, in terms of what the session sent.
//!
//! The laws here speak of the events that a session sends and of the reports that the host
//! reads, and of nothing in between: every piece of text and of reasoning is reported as it
//! came, and what is reported as complete is what the session said.
use vstd::prelude::*;

use crate::pi_laws::{
    emitted_by_all, ends_message, messages_after_all, streamed_reasoning, streamed_text,
    thread_after_all,
};
use crate::pi_proto::{MessageDelta, PiEvent, SessionEvent};
use crate::pi_translation::{
    emitted, events_after, message_of, messages_after, thread_after, EventsView, MessageView,
    ThreadView,
};
use crate::protocol::{
    AgentMessageView, CodexErrorInfo, EventMsgView, EventView, MessagePhase, ModeKind,
    ReasoningView, TurnItemView,
};
use crate::text::decimal;

verus! {

/// Whether an event brings a piece of the text of a message.
pub open spec fn speaks(event: SessionEvent, id: Seq<char>) -> bool {
    event.event matches Some(PiEvent::TextDelta(delta)) && delta.message_id@ == id
}

/// Whether an event brings a piece of the reasoning before a message.
pub open spec fn thinks(event: SessionEvent, id: Seq<char>) -> bool {
    event.event matches Some(PiEvent::ThinkingDelta(delta)) && delta.message_id@ == id
}

/// The text that a session sent for a message, piece after piece.
pub open spec fn spoken(events: Seq<SessionEvent>, id: Seq<char>) -> Seq<char>
    decreases events.len(),
{
    if events.len() == 0 {
        Seq::empty()
    } else {
        spoken(events.drop_last(), id) + match events.last().event {
            Some(PiEvent::TextDelta(delta)) if delta.message_id@ == id => delta.delta@,
            _ => Seq::empty(),
        }
    }
}

/// The reasoning that a session sent before a message, piece after piece.
pub open spec fn thought(events: Seq<SessionEvent>, id: Seq<char>) -> Seq<char>
    decreases events.len(),
{
    if events.len() == 0 {
        Seq::empty()
    } else {
        thought(events.drop_last(), id) + match events.last().event {
            Some(PiEvent::ThinkingDelta(delta)) if delta.message_id@ == id => delta.delta@,
            _ => Seq::empty(),
        }
    }
}

/// Whether any of the events brings a piece of the text of a message.
pub open spec fn has_spoken(events: Seq<SessionEvent>, id: Seq<char>) -> bool {
    exists|i: int| 0 <= i < events.len() && speaks(#[trigger] events[i], id)
}

/// Whether any of the events brings a piece of the reasoning before a message.
pub open spec fn has_thought(events: Seq<SessionEvent>, id: Seq<char>) -> bool {
    exists|i: int| 0 <= i < events.len() && thinks(#[trigger] events[i], id)
}

/// Whether the reasoning before a message was followed by a piece of the message.
pub open spec fn spoke_after_thinking(events: Seq<SessionEvent>, id: Seq<char>) -> bool {
    exists|i: int, j: int|
        0 <= i < j < events.len() && thinks(#[trigger] events[i], id) && speaks(
            #[trigger] events[j],
            id,
        )
}

/// Every piece of a message is reported once, last of what the event brings, under the message
/// that it belongs to and letter for letter as it came.
pub proof fn pieces_of_text_are_reported_as_they_came(
    thread: ThreadView,
    messages: Map<Seq<char>, MessageView>,
    event: SessionEvent,
    delta: MessageDelta,
)
    requires
        !thread.interrupt_pending,
        event.event == Some(PiEvent::TextDelta(delta)),
    ensures
        ({
            let reports = emitted(thread, messages, event);
            let last = reports.len() - 1;
            &&& reports.len() > 0
            &&& reports[last].msg == (EventMsgView::AgentMessageContentDelta {
                thread_id: thread.session.thread_id,
                turn_id: reports[last].id,
                item_id: delta.message_id@,
                delta: delta.delta@,
            })
            &&& forall|i: int|
                0 <= i < last ==> !((#[trigger] reports[i]).msg is AgentMessageContentDelta)
            &&& forall|i: int|
                0 <= i < reports.len() ==> !((#[trigger] reports[i]).msg is ReasoningContentDelta)
        }),
{
}

/// Every piece of reasoning is reported once, last of what the event brings, under the reasoning
/// of the message that it belongs to and letter for letter as it came.
pub proof fn pieces_of_reasoning_are_reported_as_they_came(
    thread: ThreadView,
    messages: Map<Seq<char>, MessageView>,
    event: SessionEvent,
    delta: MessageDelta,
)
    requires
        !thread.interrupt_pending,
        event.event == Some(PiEvent::ThinkingDelta(delta)),
    ensures
        ({
            let reports = emitted(thread, messages, event);
            let last = reports.len() - 1;
            &&& reports.len() > 0
            &&& reports[last].msg == (EventMsgView::ReasoningContentDelta {
                thread_id: thread.session.thread_id,
                turn_id: reports[last].id,
                item_id: delta.message_id@ + "-reasoning"@,
                delta: delta.delta@,
                summary_index: 0,
            })
            &&& forall|i: int|
                0 <= i < last ==> !((#[trigger] reports[i]).msg is ReasoningContentDelta)
            &&& forall|i: int|
                0 <= i < reports.len() ==> !((#[trigger] reports[i]).msg
                    is AgentMessageContentDelta)
        }),
{
}

/// Whatever else a session sends, the host hears of no piece of text or reasoning from it.
pub proof fn only_pieces_are_reported_as_pieces(
    thread: ThreadView,
    messages: Map<Seq<char>, MessageView>,
    event: SessionEvent,
    index: int,
)
    requires
        0 <= index < emitted(thread, messages, event).len(),
    ensures
        emitted(thread, messages, event)[index].msg is AgentMessageContentDelta
            ==> event.event matches Some(PiEvent::TextDelta(_)),
        emitted(thread, messages, event)[index].msg is ReasoningContentDelta
            ==> event.event matches Some(PiEvent::ThinkingDelta(_)),
{
}

/// Events never begin an interruption.
proof fn lemma_stays_undisturbed(thread: ThreadView, events: Seq<SessionEvent>)
    requires
        !thread.interrupt_pending,
    ensures
        !thread_after_all(thread, events).interrupt_pending,
    decreases events.len(),
{
    if events.len() > 0 {
        lemma_stays_undisturbed(thread, events.drop_last());
    }
}

proof fn lemma_streams_skip(reports: Seq<EventView>, id: Seq<char>)
    requires
        forall|i: int|
            0 <= i < reports.len() ==> !((#[trigger] reports[i]).msg is AgentMessageContentDelta),
    ensures
        streamed_text(reports, id) == Seq::<char>::empty(),
    decreases reports.len(),
{
    if reports.len() > 0 {
        let earlier = reports.drop_last();
        assert forall|i: int| 0 <= i < earlier.len() implies !((#[trigger] earlier[i]).msg
            is AgentMessageContentDelta) by {
            assert(earlier[i] == reports[i]);
        }
        lemma_streams_skip(earlier, id);
        assert(!(reports[reports.len() - 1].msg is AgentMessageContentDelta));
        assert(streamed_text(reports, id) =~= Seq::empty());
    }
}

proof fn lemma_reasoning_streams_skip(reports: Seq<EventView>, id: Seq<char>)
    requires
        forall|i: int|
            0 <= i < reports.len() ==> !((#[trigger] reports[i]).msg is ReasoningContentDelta),
    ensures
        streamed_reasoning(reports, id) == Seq::<char>::empty(),
    decreases reports.len(),
{
    if reports.len() > 0 {
        let earlier = reports.drop_last();
        assert forall|i: int| 0 <= i < earlier.len() implies !((#[trigger] earlier[i]).msg
            is ReasoningContentDelta) by {
            assert(earlier[i] == reports[i]);
        }
        lemma_reasoning_streams_skip(earlier, id);
        assert(!(reports[reports.len() - 1].msg is ReasoningContentDelta));
        assert(streamed_reasoning(reports, id) =~= Seq::empty());
    }
}

proof fn lemma_streams_add(first: Seq<EventView>, second: Seq<EventView>, id: Seq<char>)
    ensures
        streamed_text(first + second, id) == streamed_text(first, id) + streamed_text(second, id),
        streamed_reasoning(first + second, id) == streamed_reasoning(first, id)
            + streamed_reasoning(second, id),
    decreases second.len(),
{
    if second.len() == 0 {
        assert(first + second =~= first);
        assert(streamed_text(first, id) + Seq::empty() =~= streamed_text(first, id));
        assert(streamed_reasoning(first, id) + Seq::empty() =~= streamed_reasoning(first, id));
    } else {
        lemma_streams_add(first, second.drop_last(), id);
        assert((first + second).drop_last() =~= first + second.drop_last());
        assert(streamed_text(first + second, id) =~= streamed_text(first, id) + streamed_text(
            second,
            id,
        ));
        assert(streamed_reasoning(first + second, id) =~= streamed_reasoning(first, id)
            + streamed_reasoning(second, id));
    }
}

proof fn lemma_suffix_is_injective(left: Seq<char>, right: Seq<char>, suffix: Seq<char>)
    ensures
        left + suffix == right + suffix ==> left == right,
{
    if left + suffix == right + suffix {
        assert((left + suffix).len() == left.len() + suffix.len());
        assert((right + suffix).len() == right.len() + suffix.len());
        assert((left + suffix).take(left.len() as int) =~= left);
        assert((right + suffix).take(right.len() as int) =~= right);
    }
}

proof fn lemma_one_event_streams(
    thread: ThreadView,
    messages: Map<Seq<char>, MessageView>,
    event: SessionEvent,
    id: Seq<char>,
)
    requires
        !thread.interrupt_pending,
    ensures
        streamed_text(emitted(thread, messages, event), id) == (match event.event {
            Some(PiEvent::TextDelta(delta)) if delta.message_id@ == id => delta.delta@,
            _ => Seq::empty(),
        }),
        streamed_reasoning(emitted(thread, messages, event), id + "-reasoning"@) == (
        match event.event {
            Some(PiEvent::ThinkingDelta(delta)) if delta.message_id@ == id => delta.delta@,
            _ => Seq::empty(),
        }),
{
    let reports = emitted(thread, messages, event);
    let thought_id = id + "-reasoning"@;
    match event.event {
        Some(PiEvent::TextDelta(delta)) => {
            pieces_of_text_are_reported_as_they_came(thread, messages, event, delta);
            lemma_streams_skip(reports.drop_last(), id);
            lemma_reasoning_streams_skip(reports, thought_id);
            assert(streamed_text(reports, id) =~= if delta.message_id@ == id {
                delta.delta@
            } else {
                Seq::empty()
            });
        },
        Some(PiEvent::ThinkingDelta(delta)) => {
            pieces_of_reasoning_are_reported_as_they_came(thread, messages, event, delta);
            lemma_suffix_is_injective(delta.message_id@, id, "-reasoning"@);
            lemma_reasoning_streams_skip(reports.drop_last(), thought_id);
            lemma_streams_skip(reports, id);
            assert(streamed_reasoning(reports, thought_id) =~= if delta.message_id@ == id {
                delta.delta@
            } else {
                Seq::empty()
            });
        },
        _ => {
            assert forall|i: int| 0 <= i < reports.len() implies !((#[trigger] reports[i]).msg
                is AgentMessageContentDelta) && !(reports[i].msg is ReasoningContentDelta) by {
                only_pieces_are_reported_as_pieces(thread, messages, event, i);
            }
            lemma_streams_skip(reports, id);
            lemma_reasoning_streams_skip(reports, thought_id);
        },
    }
}

/// The pieces that are reported of a message spell out the text that the session sent for it,
/// nothing lost, added or out of order, whatever else it sent; so do those of its reasoning.
pub proof fn reports_spell_out_the_session(
    thread: ThreadView,
    messages: Map<Seq<char>, MessageView>,
    events: Seq<SessionEvent>,
    id: Seq<char>,
)
    requires
        !thread.interrupt_pending,
    ensures
        streamed_text(emitted_by_all(thread, messages, events), id) == spoken(events, id),
        streamed_reasoning(emitted_by_all(thread, messages, events), id + "-reasoning"@)
            == thought(events, id),
    decreases events.len(),
{
    if events.len() > 0 {
        let earlier = events.drop_last();
        reports_spell_out_the_session(thread, messages, earlier, id);
        lemma_stays_undisturbed(thread, earlier);
        let middle_thread = thread_after_all(thread, earlier);
        let middle = messages_after_all(thread, messages, earlier);
        lemma_one_event_streams(middle_thread, middle, events.last(), id);
        let reports = emitted_by_all(thread, messages, earlier);
        let last = emitted(middle_thread, middle, events.last());
        lemma_streams_add(reports, last, id);
        lemma_streams_add(reports, last, id + "-reasoning"@);
    }
}

/// What is under way of a message that began anew is what the session sent for it.
proof fn lemma_message_under_way(
    thread: ThreadView,
    messages: Map<Seq<char>, MessageView>,
    events: Seq<SessionEvent>,
    id: Seq<char>,
)
    requires
        !thread.interrupt_pending,
        !messages.contains_key(id),
        forall|i: int| 0 <= i < events.len() ==> !ends_message(#[trigger] events[i], id),
    ensures
        ({
            let message = message_of(messages_after_all(thread, messages, events), id);
            &&& message.text == spoken(events, id)
            &&& message.reasoning == thought(events, id)
            &&& message.agent_started == has_spoken(events, id)
            &&& message.reasoning_started == has_thought(events, id)
            &&& message.reasoning_completed == spoke_after_thinking(events, id)
        }),
    decreases events.len(),
{
    if events.len() > 0 {
        let earlier = events.drop_last();
        let last = events.last();
        assert forall|i: int| 0 <= i < earlier.len() implies !ends_message(
            #[trigger] earlier[i],
            id,
        ) by {
            assert(earlier[i] == events[i]);
        }
        lemma_message_under_way(thread, messages, earlier, id);
        lemma_stays_undisturbed(thread, earlier);
        assert(!ends_message(events[events.len() - 1], id));
        lemma_has_last(events, id);
        lemma_spoke_last(events, id);
        let before = message_of(messages_after_all(thread, messages, earlier), id);
        let after = message_of(messages_after_all(thread, messages, events), id);
        assert(before.text + Seq::<char>::empty() =~= before.text);
        assert(before.reasoning + Seq::<char>::empty() =~= before.reasoning);
    }
}

proof fn lemma_has_last(events: Seq<SessionEvent>, id: Seq<char>)
    requires
        events.len() > 0,
    ensures
        has_spoken(events, id) == (has_spoken(events.drop_last(), id) || speaks(
            events.last(),
            id,
        )),
        has_thought(events, id) == (has_thought(events.drop_last(), id) || thinks(
            events.last(),
            id,
        )),
{
    let earlier = events.drop_last();
    if has_spoken(earlier, id) {
        let i = choose|i: int| 0 <= i < earlier.len() && speaks(#[trigger] earlier[i], id);
        assert(speaks(events[i], id));
    }
    if has_spoken(events, id) {
        let i = choose|i: int| 0 <= i < events.len() && speaks(#[trigger] events[i], id);
        if i < earlier.len() {
            assert(speaks(earlier[i], id));
        }
    }
    if has_thought(earlier, id) {
        let i = choose|i: int| 0 <= i < earlier.len() && thinks(#[trigger] earlier[i], id);
        assert(thinks(events[i], id));
    }
    if has_thought(events, id) {
        let i = choose|i: int| 0 <= i < events.len() && thinks(#[trigger] events[i], id);
        if i < earlier.len() {
            assert(thinks(earlier[i], id));
        }
    }
    assert(speaks(events.last(), id) ==> speaks(events[events.len() - 1], id));
    assert(thinks(events.last(), id) ==> thinks(events[events.len() - 1], id));
}

proof fn lemma_spoke_last(events: Seq<SessionEvent>, id: Seq<char>)
    requires
        events.len() > 0,
    ensures
        spoke_after_thinking(events, id) == (spoke_after_thinking(events.drop_last(), id) || (
        has_thought(events.drop_last(), id) && speaks(events.last(), id))),
{
    let earlier = events.drop_last();
    let last = events.len() - 1;
    if spoke_after_thinking(earlier, id) {
        let (i, j) = choose|i: int, j: int|
            0 <= i < j < earlier.len() && thinks(#[trigger] earlier[i], id) && speaks(
                #[trigger] earlier[j],
                id,
            );
        assert(thinks(events[i], id) && speaks(events[j], id));
    }
    if has_thought(earlier, id) && speaks(events.last(), id) {
        let i = choose|i: int| 0 <= i < earlier.len() && thinks(#[trigger] earlier[i], id);
        assert(thinks(events[i], id) && speaks(events[last], id));
    }
    if spoke_after_thinking(events, id) {
        let (i, j) = choose|i: int, j: int|
            0 <= i < j < events.len() && thinks(#[trigger] events[i], id) && speaks(
                #[trigger] events[j],
                id,
            );
        assert(thinks(earlier[i], id));
        if j < last {
            assert(speaks(earlier[j], id));
        }
    }
}

/// A message that ends is reported as complete, as the final answer and with the text that the
/// session sent for it, exactly where the session sent any piece of it. Its end brings one
/// complete message at most and begins none, and nothing of it is kept.
pub proof fn completed_message_is_what_was_spoken(
    thread: ThreadView,
    messages: Map<Seq<char>, MessageView>,
    events: Seq<SessionEvent>,
    end: SessionEvent,
    id: Seq<char>,
)
    requires
        !thread.interrupt_pending,
        !messages.contains_key(id),
        forall|i: int| 0 <= i < events.len() ==> !ends_message(#[trigger] events[i], id),
        ends_message(end, id),
    ensures
        ({
            let now = thread_after_all(thread, events);
            let under_way = messages_after_all(thread, messages, events);
            let reports = emitted(now, under_way, end);
            let last = reports.len() - 1;
            &&& has_spoken(events, id) ==> reports.len() > 0 && reports[last].msg == (
            EventMsgView::ItemCompleted {
                thread_id: thread.session.thread_id,
                turn_id: reports[last].id,
                item: TurnItemView::AgentMessage(
                    AgentMessageView {
                        id,
                        content: if spoken(events, id).len() == 0 {
                            Seq::empty()
                        } else {
                            seq![spoken(events, id)]
                        },
                        phase: Some(MessagePhase::FinalAnswer),
                        memory_citation: None,
                    },
                ),
                completed_at_ms: 0,
            })
            &&& forall|i: int|
                0 <= i < reports.len() && !(has_spoken(events, id) && i == last) ==> !(
                (#[trigger] reports[i]).msg matches EventMsgView::ItemCompleted { item, .. }
                    && item is AgentMessage)
            &&& forall|i: int|
                0 <= i < reports.len() ==> (#[trigger] reports[i]).msg is ItemCompleted
            &&& !messages_after(now, under_way, end).contains_key(id)
        }),
{
    lemma_stays_undisturbed(thread, events);
    lemma_message_under_way(thread, messages, events, id);
    lemma_session_stays(thread, events);
    if spoken(events, id).len() > 0 {
        lemma_spoken_text_has_pieces(events, id);
    }
}

proof fn lemma_spoken_text_has_pieces(events: Seq<SessionEvent>, id: Seq<char>)
    requires
        spoken(events, id).len() > 0,
    ensures
        has_spoken(events, id),
    decreases events.len(),
{
    lemma_has_last(events, id);
    if !speaks(events.last(), id) {
        assert(spoken(events, id) =~= spoken(events.drop_last(), id));
        lemma_spoken_text_has_pieces(events.drop_last(), id);
    }
}

proof fn lemma_session_stays(thread: ThreadView, events: Seq<SessionEvent>)
    ensures
        thread_after_all(thread, events).session == thread.session,
    decreases events.len(),
{
    if events.len() > 0 {
        lemma_session_stays(thread, events.drop_last());
    }
}

/// Reasoning is reported as complete once, first of what the event brings that ends it: the
/// first piece of the message after it, or the end of the message. It holds the reasoning that
/// the session sent until then. Where the session sent none, or where it is complete already,
/// none is reported.
pub proof fn completed_reasoning_is_what_was_thought(
    thread: ThreadView,
    messages: Map<Seq<char>, MessageView>,
    events: Seq<SessionEvent>,
    next: SessionEvent,
    id: Seq<char>,
)
    requires
        !thread.interrupt_pending,
        !messages.contains_key(id),
        forall|i: int| 0 <= i < events.len() ==> !ends_message(#[trigger] events[i], id),
        speaks(next, id) || ends_message(next, id),
    ensures
        ({
            let now = thread_after_all(thread, events);
            let reports = emitted(now, messages_after_all(thread, messages, events), next);
            let ends = has_thought(events, id) && !spoke_after_thinking(events, id);
            &&& ends ==> reports.len() > 0 && reports[0].msg == (
            EventMsgView::ItemCompleted {
                thread_id: thread.session.thread_id,
                turn_id: reports[0].id,
                item: TurnItemView::Reasoning(
                    ReasoningView {
                        id: id + "-reasoning"@,
                        summary_text: if thought(events, id).len() == 0 {
                            Seq::empty()
                        } else {
                            seq![thought(events, id)]
                        },
                        raw_content: Seq::empty(),
                    },
                ),
                completed_at_ms: 0,
            })
            &&& forall|i: int|
                0 <= i < reports.len() && !(ends && i == 0) ==> !(
                (#[trigger] reports[i]).msg matches EventMsgView::ItemCompleted { item, .. }
                    && item is Reasoning)
        }),
{
    lemma_stays_undisturbed(thread, events);
    lemma_message_under_way(thread, messages, events, id);
    lemma_session_stays(thread, events);
}

/// The first piece of a message follows the report that an empty message began; no later piece
/// brings that report again.
pub proof fn messages_begin_with_their_first_piece(
    thread: ThreadView,
    messages: Map<Seq<char>, MessageView>,
    events: Seq<SessionEvent>,
    next: SessionEvent,
    id: Seq<char>,
)
    requires
        !thread.interrupt_pending,
        !messages.contains_key(id),
        forall|i: int| 0 <= i < events.len() ==> !ends_message(#[trigger] events[i], id),
        speaks(next, id),
    ensures
        ({
            let now = thread_after_all(thread, events);
            let reports = emitted(now, messages_after_all(thread, messages, events), next);
            let before_last = reports.len() - 2;
            &&& !has_spoken(events, id) ==> reports.len() >= 2 && reports[before_last].msg == (
            EventMsgView::ItemStarted {
                thread_id: thread.session.thread_id,
                turn_id: reports[before_last].id,
                item: TurnItemView::AgentMessage(
                    AgentMessageView {
                        id,
                        content: Seq::empty(),
                        phase: Some(MessagePhase::FinalAnswer),
                        memory_citation: None,
                    },
                ),
                started_at_ms: 0,
            })
            &&& forall|i: int|
                0 <= i < reports.len() && !(!has_spoken(events, id) && i == before_last) ==> !(
                (#[trigger] reports[i]).msg is ItemStarted)
        }),
{
    lemma_stays_undisturbed(thread, events);
    lemma_message_under_way(thread, messages, events, id);
    lemma_session_stays(thread, events);
}

/// The first piece of reasoning follows the report that empty reasoning began; no later piece
/// brings that report again. Nothing is complete with a piece of reasoning.
pub proof fn reasoning_begins_with_its_first_piece(
    thread: ThreadView,
    messages: Map<Seq<char>, MessageView>,
    events: Seq<SessionEvent>,
    next: SessionEvent,
    id: Seq<char>,
)
    requires
        !thread.interrupt_pending,
        !messages.contains_key(id),
        forall|i: int| 0 <= i < events.len() ==> !ends_message(#[trigger] events[i], id),
        thinks(next, id),
    ensures
        ({
            let now = thread_after_all(thread, events);
            let reports = emitted(now, messages_after_all(thread, messages, events), next);
            &&& reports.len() == if has_thought(events, id) {
                1nat
            } else {
                2nat
            }
            &&& !has_thought(events, id) ==> reports[0].msg == (EventMsgView::ItemStarted {
                thread_id: thread.session.thread_id,
                turn_id: reports[0].id,
                item: TurnItemView::Reasoning(
                    ReasoningView {
                        id: id + "-reasoning"@,
                        summary_text: Seq::empty(),
                        raw_content: Seq::empty(),
                    },
                ),
                started_at_ms: 0,
            })
        }),
{
    lemma_stays_undisturbed(thread, events);
    lemma_message_under_way(thread, messages, events, id);
    lemma_session_stays(thread, events);
    pieces_of_reasoning_are_reported_as_they_came(
        thread_after_all(thread, events),
        messages_after_all(thread, messages, events),
        next,
        next.event->0->ThinkingDelta_0,
    );
}

/// Every report bears the turn under way, in its id and in what it says; where no turn is under
/// way, one that is named after the number of the event.
pub proof fn reports_name_the_turn(
    thread: ThreadView,
    messages: Map<Seq<char>, MessageView>,
    event: SessionEvent,
    index: int,
)
    requires
        0 <= index < emitted(thread, messages, event).len(),
    ensures
        ({
            let report = emitted(thread, messages, event)[index];
            let turn = match thread.active_turn {
                Some(turn) => turn,
                None => "pi-turn-"@ + decimal(event.sequence as nat),
            };
            &&& report.id == turn
            &&& match report.msg {
                EventMsgView::TurnStarted { turn_id, .. } => turn_id == turn,
                EventMsgView::ItemStarted { thread_id, turn_id, .. } => turn_id == turn && thread_id
                    == thread.session.thread_id,
                EventMsgView::ItemCompleted { thread_id, turn_id, .. } => turn_id == turn
                    && thread_id == thread.session.thread_id,
                EventMsgView::AgentMessageContentDelta { thread_id, turn_id, .. } => turn_id == turn
                    && thread_id == thread.session.thread_id,
                EventMsgView::ReasoningContentDelta { thread_id, turn_id, .. } => turn_id == turn
                    && thread_id == thread.session.thread_id,
                EventMsgView::TurnComplete { turn_id, .. } => turn_id == turn,
                EventMsgView::TokenCount { .. } => true,
                EventMsgView::Error { .. } => true,
                _ => false,
            }
        }),
{
}

/// What a session sends of its run is reported as one report each: that a turn began, that it is
/// complete with the last text, that something failed with code and message, and how many tokens
/// were used. The starts of runs and messages, the ends of messages that are not the
/// assistant's, and anything unknown are not reported.
pub proof fn the_run_is_reported_as_it_goes(
    thread: ThreadView,
    messages: Map<Seq<char>, MessageView>,
    event: SessionEvent,
)
    requires
        !thread.interrupt_pending,
    ensures
        ({
            let reports = emitted(thread, messages, event);
            match event.event {
                Some(PiEvent::TurnStart) => reports.len() == 1 && reports[0].msg == (
                EventMsgView::TurnStarted {
                    turn_id: reports[0].id,
                    trace_id: None,
                    started_at: None,
                    model_context_window: None,
                    collaboration_mode_kind: ModeKind::Default,
                }),
                Some(PiEvent::AgentEnd { last_assistant_text }) => reports.len() == 1
                    && reports[0].msg == (EventMsgView::TurnComplete {
                    turn_id: reports[0].id,
                    last_agent_message: Some(last_assistant_text@),
                    error: None,
                    started_at: None,
                    completed_at: None,
                    duration_ms: None,
                    time_to_first_token_ms: None,
                }),
                Some(PiEvent::Error(error)) => reports.len() == 1 && reports[0].msg == (
                EventMsgView::Error {
                    message: "Pi runtime error ("@ + error.code@ + "): "@ + error.message@,
                    codex_error_info: Some(CodexErrorInfo::Other),
                }),
                Some(PiEvent::TokenUsage(usage)) => {
                    &&& reports.len() == 1
                    &&& reports[0].msg matches EventMsgView::TokenCount {
                        info: Some(info),
                        rate_limits: None,
                    }
                    &&& thread_after(thread, event).token_usage == Some(info)
                    &&& info.total_token_usage == info.last_token_usage
                    &&& info.model_context_window is None
                    &&& is_count_of(info.last_token_usage.input_tokens, usage.input_tokens)
                    &&& is_count_of(info.last_token_usage.output_tokens, usage.output_tokens)
                    &&& is_count_of(info.last_token_usage.total_tokens, usage.total_tokens)
                    &&& is_count_of(
                        info.last_token_usage.cached_input_tokens,
                        usage.cache_read_tokens,
                    )
                    &&& info.last_token_usage.cache_write_input_tokens == 0
                    &&& info.last_token_usage.reasoning_output_tokens == 0
                },
                Some(PiEvent::TextDelta(_)) => reports.len() >= 1,
                Some(PiEvent::ThinkingDelta(_)) => reports.len() >= 1,
                Some(PiEvent::MessageEnd(end)) if end.role@ == "assistant"@ => true,
                _ => reports.len() == 0,
            }
        }),
{
}

/// Whether a signed number is a count: the count itself, or the largest number where the count
/// is larger.
pub open spec fn is_count_of(number: i64, count: u64) -> bool {
    &&& number <= count
    &&& number < count ==> number == i64::MAX
    &&& 0 <= number
}

/// An event speaks of one message at most: what is under way of any other stays as it is.
pub proof fn messages_are_independent(
    thread: ThreadView,
    messages: Map<Seq<char>, MessageView>,
    event: SessionEvent,
    other: Seq<char>,
)
    requires
        !speaks(event, other),
        !thinks(event, other),
        !ends_message(event, other),
    ensures
        message_of(messages_after(thread, messages, event), other) == message_of(messages, other),
{
}

/// What an event is reported as depends on the id of the thread, on its turn and on whether it
/// is interrupted, and on nothing else of the thread.
pub proof fn reports_depend_on_the_turn_alone(
    first: ThreadView,
    second: ThreadView,
    messages: Map<Seq<char>, MessageView>,
    event: SessionEvent,
)
    requires
        first.session.thread_id == second.session.thread_id,
        first.active_turn == second.active_turn,
        first.interrupt_pending == second.interrupt_pending,
    ensures
        emitted(first, messages, event) == emitted(second, messages, event),
        messages_after(first, messages, event) == messages_after(second, messages, event),
{
}

/// Reports are read in the order in which they came: an event puts its reports behind those that
/// wait and touches none of them.
pub proof fn waiting_reports_stay_in_front(
    thread: ThreadView,
    state: EventsView,
    event: SessionEvent,
)
    ensures
        events_after(thread, state, event).queued.len() == state.queued.len() + emitted(
            thread,
            state.messages,
            event,
        ).len(),
        forall|i: int|
            0 <= i < state.queued.len() ==> #[trigger] events_after(thread, state, event).queued[i]
                == state.queued[i],
        forall|i: int|
            0 <= i < emitted(thread, state.messages, event).len() ==> events_after(
                thread,
                state,
                event,
            ).queued[state.queued.len() + i] == #[trigger] emitted(
                thread,
                state.messages,
                event,
            )[i],
{
}

} // verus!
