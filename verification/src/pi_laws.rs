//! What holds of the reports of a session, whatever its events are.
use vstd::prelude::*;

use crate::pi_proto::{PiEvent, SessionEvent};
use crate::pi_translation::{
    agent_message_view, all_sound, content_delta_view, emitted, events_after, is_sound,
    item_completed_view, item_started_view, message_of, messages_after, reasoning_delta_view,
    reasoning_end, reasoning_is_open, reasoning_item_id, reasoning_view, thread_after,
    turn_complete_view, turn_of, EventsView, MessageView, ThreadView,
};
use crate::protocol::{EventMsgView, EventView, StatusView, TurnItemView};

verus! {

/// The thread after a number of events.
pub open spec fn thread_after_all(thread: ThreadView, events: Seq<SessionEvent>) -> ThreadView
    decreases events.len(),
{
    if events.len() == 0 {
        thread
    } else {
        thread_after(thread_after_all(thread, events.drop_last()), events.last())
    }
}

/// The messages under way after a number of events.
pub open spec fn messages_after_all(
    thread: ThreadView,
    messages: Map<Seq<char>, MessageView>,
    events: Seq<SessionEvent>,
) -> Map<Seq<char>, MessageView>
    decreases events.len(),
{
    if events.len() == 0 {
        messages
    } else {
        messages_after(
            thread_after_all(thread, events.drop_last()),
            messages_after_all(thread, messages, events.drop_last()),
            events.last(),
        )
    }
}

/// The reports that come of a number of events, in order.
pub open spec fn emitted_by_all(
    thread: ThreadView,
    messages: Map<Seq<char>, MessageView>,
    events: Seq<SessionEvent>,
) -> Seq<EventView>
    decreases events.len(),
{
    if events.len() == 0 {
        Seq::empty()
    } else {
        emitted_by_all(thread, messages, events.drop_last()) + emitted(
            thread_after_all(thread, events.drop_last()),
            messages_after_all(thread, messages, events.drop_last()),
            events.last(),
        )
    }
}

/// The waiting events and the messages after a number of events were taken in one by one.
pub open spec fn events_after_all(
    thread: ThreadView,
    state: EventsView,
    events: Seq<SessionEvent>,
) -> EventsView
    decreases events.len(),
{
    if events.len() == 0 {
        state
    } else {
        events_after(
            thread_after_all(thread, events.drop_last()),
            events_after_all(thread, state, events.drop_last()),
            events.last(),
        )
    }
}

/// The text that the reports of pieces of a message spell out.
pub open spec fn streamed_text(reports: Seq<EventView>, id: Seq<char>) -> Seq<char>
    decreases reports.len(),
{
    if reports.len() == 0 {
        Seq::empty()
    } else {
        streamed_text(reports.drop_last(), id) + match reports.last().msg {
            EventMsgView::AgentMessageContentDelta { item_id, delta, .. } if item_id == id => delta,
            _ => Seq::empty(),
        }
    }
}

/// The text that the reports of pieces of reasoning spell out, by the id of the item.
pub open spec fn streamed_reasoning(reports: Seq<EventView>, id: Seq<char>) -> Seq<char>
    decreases reports.len(),
{
    if reports.len() == 0 {
        Seq::empty()
    } else {
        streamed_reasoning(reports.drop_last(), id) + match reports.last().msg {
            EventMsgView::ReasoningContentDelta { item_id, delta, .. } if item_id == id => delta,
            _ => Seq::empty(),
        }
    }
}

/// Whether an item is the message under an id.
pub open spec fn is_message_item(item: TurnItemView, id: Seq<char>) -> bool {
    item matches TurnItemView::AgentMessage(message) && message.id == id
}

/// Whether an item is the reasoning under an id.
pub open spec fn is_reasoning_item(item: TurnItemView, id: Seq<char>) -> bool {
    item matches TurnItemView::Reasoning(reasoning) && reasoning.id == id
}

/// How often a message is reported to begin, less how often it is reported to be complete.
pub open spec fn open_messages(reports: Seq<EventView>, id: Seq<char>) -> int
    decreases reports.len(),
{
    if reports.len() == 0 {
        0
    } else {
        open_messages(reports.drop_last(), id) + match reports.last().msg {
            EventMsgView::ItemStarted { item, .. } if is_message_item(item, id) => 1int,
            EventMsgView::ItemCompleted { item, .. } if is_message_item(item, id) => -1int,
            _ => 0int,
        }
    }
}

/// How often reasoning is reported to begin, less how often it is reported to be complete.
pub open spec fn open_reasoning(reports: Seq<EventView>, id: Seq<char>) -> int
    decreases reports.len(),
{
    if reports.len() == 0 {
        0
    } else {
        open_reasoning(reports.drop_last(), id) + match reports.last().msg {
            EventMsgView::ItemStarted { item, .. } if is_reasoning_item(item, id) => 1int,
            EventMsgView::ItemCompleted { item, .. } if is_reasoning_item(item, id) => -1int,
            _ => 0int,
        }
    }
}

/// One where a flag is set, else zero.
pub open spec fn count(flag: bool) -> int {
    if flag {
        1
    } else {
        0
    }
}

/// Whether an event is the end of a message of the assistant.
pub open spec fn ends_message(event: SessionEvent, id: Seq<char>) -> bool {
    event.event matches Some(PiEvent::MessageEnd(end)) && end.role@ == "assistant"@
        && end.message_id@ == id
}

proof fn lemma_reports_add(first: Seq<EventView>, second: Seq<EventView>, id: Seq<char>)
    ensures
        streamed_text(first + second, id) == streamed_text(first, id) + streamed_text(second, id),
        streamed_reasoning(first + second, id) == streamed_reasoning(first, id)
            + streamed_reasoning(second, id),
        open_messages(first + second, id) == open_messages(first, id) + open_messages(second, id),
        open_reasoning(first + second, id) == open_reasoning(first, id) + open_reasoning(
            second,
            id,
        ),
    decreases second.len(),
{
    if second.len() == 0 {
        assert(first + second =~= first);
        assert(streamed_text(first, id) + Seq::empty() =~= streamed_text(first, id));
        assert(streamed_reasoning(first, id) + Seq::empty() =~= streamed_reasoning(first, id));
    } else {
        lemma_reports_add(first, second.drop_last(), id);
        assert((first + second).drop_last() =~= first + second.drop_last());
        assert((first + second).last() == second.last());
        assert(streamed_text(first + second, id) =~= streamed_text(first, id) + streamed_text(
            second,
            id,
        ));
        assert(streamed_reasoning(first + second, id) =~= streamed_reasoning(first, id)
            + streamed_reasoning(second, id));
    }
}

proof fn lemma_one_report(report: EventView, id: Seq<char>)
    ensures
        streamed_text(seq![report], id) == (match report.msg {
            EventMsgView::AgentMessageContentDelta { item_id, delta, .. } if item_id == id => delta,
            _ => Seq::empty(),
        }),
        streamed_reasoning(seq![report], id) == (match report.msg {
            EventMsgView::ReasoningContentDelta { item_id, delta, .. } if item_id == id => delta,
            _ => Seq::empty(),
        }),
        open_messages(seq![report], id) == (match report.msg {
            EventMsgView::ItemStarted { item, .. } if is_message_item(item, id) => 1int,
            EventMsgView::ItemCompleted { item, .. } if is_message_item(item, id) => -1int,
            _ => 0int,
        }),
        open_reasoning(seq![report], id) == (match report.msg {
            EventMsgView::ItemStarted { item, .. } if is_reasoning_item(item, id) => 1int,
            EventMsgView::ItemCompleted { item, .. } if is_reasoning_item(item, id) => -1int,
            _ => 0int,
        }),
{
    let one = seq![report];
    assert(one.drop_last() =~= Seq::empty());
    assert(one.last() == report);
    reveal_with_fuel(streamed_text, 2);
    reveal_with_fuel(streamed_reasoning, 2);
    reveal_with_fuel(open_messages, 2);
    reveal_with_fuel(open_reasoning, 2);
    assert(streamed_text(one, id) =~= (match report.msg {
        EventMsgView::AgentMessageContentDelta { item_id, delta, .. } if item_id == id => delta,
        _ => Seq::empty(),
    }));
    assert(streamed_reasoning(one, id) =~= (match report.msg {
        EventMsgView::ReasoningContentDelta { item_id, delta, .. } if item_id == id => delta,
        _ => Seq::empty(),
    }));
}

proof fn lemma_reasoning_id_is_injective(left: Seq<char>, right: Seq<char>)
    ensures
        reasoning_item_id(left) == reasoning_item_id(right) ==> left == right,
{
    let suffix = "-reasoning"@;
    if left + suffix == right + suffix {
        assert(left.len() == right.len()) by {
            assert((left + suffix).len() == left.len() + suffix.len());
            assert((right + suffix).len() == right.len() + suffix.len());
        }
        assert((left + suffix).take(left.len() as int) =~= left);
        assert((right + suffix).take(right.len() as int) =~= right);
    }
}

/// What one event does to a message: the text and the reasoning grow by what is reported of
/// them, and the message and its reasoning are open as often as reported.
proof fn lemma_step(
    thread: ThreadView,
    messages: Map<Seq<char>, MessageView>,
    event: SessionEvent,
    id: Seq<char>,
)
    requires
        all_sound(messages),
    ensures
        ({
            let before = message_of(messages, id);
            let after = message_of(messages_after(thread, messages, event), id);
            let reports = emitted(thread, messages, event);
            &&& !ends_message(event, id) ==> after.text == before.text + streamed_text(reports, id)
            &&& !ends_message(event, id) ==> after.reasoning == before.reasoning
                + streamed_reasoning(reports, reasoning_item_id(id))
            &&& open_messages(reports, id) == count(after.agent_started) - count(
                before.agent_started,
            )
            &&& open_reasoning(reports, reasoning_item_id(id)) == count(reasoning_is_open(after))
                - count(reasoning_is_open(before))
        }),
{
    let before = message_of(messages, id);
    let after = message_of(messages_after(thread, messages, event), id);
    let reports = emitted(thread, messages, event);
    let thought_id = reasoning_item_id(id);
    let turn = turn_of(thread, event.sequence);
    let thread_id = thread.session.thread_id;
    assert(is_sound(before));
    assert(before.text + Seq::<char>::empty() =~= before.text);
    assert(before.reasoning + Seq::<char>::empty() =~= before.reasoning);
    let nothing = Seq::<EventView>::empty();
    assert(streamed_text(nothing, id) == Seq::<char>::empty());
    assert(streamed_reasoning(nothing, thought_id) == Seq::<char>::empty());
    if !thread.interrupt_pending {
        match event.event {
            Some(PiEvent::TextDelta(delta)) => {
                let other = delta.message_id@;
                lemma_reasoning_id_is_injective(other, id);
                let message = message_of(messages, other);
                let ended = reasoning_end(thread_id, turn, other, message);
                let begun = if message.agent_started {
                    Seq::empty()
                } else {
                    seq![item_started_view(
                        thread_id,
                        turn,
                        agent_message_view(other, Seq::empty()),
                    )]
                };
                let piece = content_delta_view(
                    thread_id,
                    turn,
                    other,
                    delta.delta@,
                );
                assert(reports == ended + begun + seq![piece]);
                lemma_reports_add(ended + begun, seq![piece], id);
                lemma_reports_add(ended, begun, id);
                lemma_reports_add(ended + begun, seq![piece], thought_id);
                lemma_reports_add(ended, begun, thought_id);
                lemma_one_report(piece, id);
                lemma_one_report(piece, thought_id);
                if reasoning_is_open(message) {
                    lemma_one_report(ended[0], id);
                    lemma_one_report(ended[0], thought_id);
                }
                if !message.agent_started {
                    lemma_one_report(begun[0], id);
                    lemma_one_report(begun[0], thought_id);
                }
                assert(streamed_text(reports, id) =~= if other == id {
                    delta.delta@
                } else {
                    Seq::empty()
                });
                assert(streamed_reasoning(reports, thought_id) =~= Seq::empty());
            },
            Some(PiEvent::ThinkingDelta(delta)) => {
                let other = delta.message_id@;
                lemma_reasoning_id_is_injective(other, id);
                let message = message_of(messages, other);
                let begun = if message.reasoning_started {
                    Seq::empty()
                } else {
                    seq![item_started_view(
                        thread_id,
                        turn,
                        reasoning_view(other, Seq::empty()),
                    )]
                };
                let piece = reasoning_delta_view(
                    thread_id,
                    turn,
                    reasoning_item_id(other),
                    delta.delta@,
                );
                assert(reports == begun + seq![piece]);
                lemma_reports_add(begun, seq![piece], id);
                lemma_reports_add(begun, seq![piece], thought_id);
                lemma_one_report(piece, id);
                lemma_one_report(piece, thought_id);
                if !message.reasoning_started {
                    lemma_one_report(begun[0], id);
                    lemma_one_report(begun[0], thought_id);
                }
                assert(streamed_reasoning(reports, thought_id) =~= if other == id {
                    delta.delta@
                } else {
                    Seq::empty()
                });
                assert(streamed_text(reports, id) =~= Seq::empty());
            },
            Some(PiEvent::MessageEnd(end)) => {
                if end.role@ == "assistant"@ {
                    let other = end.message_id@;
                    lemma_reasoning_id_is_injective(other, id);
                    let message = message_of(messages, other);
                    let ended = reasoning_end(thread_id, turn, other, message);
                    let rest = reports.skip(ended.len() as int);
                    assert(reports =~= ended + rest);
                    lemma_reports_add(ended, rest, id);
                    lemma_reports_add(ended, rest, thought_id);
                    if reasoning_is_open(message) {
                        lemma_one_report(ended[0], id);
                        lemma_one_report(ended[0], thought_id);
                    }
                    if message.agent_started {
                        assert(rest =~= seq![rest[0]]);
                        lemma_one_report(rest[0], id);
                        lemma_one_report(rest[0], thought_id);
                    } else if message.text.len() > 0 {
                        assert(rest =~= seq![rest[0]] + seq![rest[1]]);
                        lemma_reports_add(seq![rest[0]], seq![rest[1]], id);
                        lemma_reports_add(seq![rest[0]], seq![rest[1]], thought_id);
                        lemma_one_report(rest[0], id);
                        lemma_one_report(rest[0], thought_id);
                        lemma_one_report(rest[1], id);
                        lemma_one_report(rest[1], thought_id);
                    } else {
                        assert(rest =~= nothing);
                    }
                    assert(streamed_text(reports, id) =~= Seq::empty());
                    assert(streamed_reasoning(reports, thought_id) =~= Seq::empty());
                }
            },
            _ => {
                if reports.len() == 1 {
                    assert(reports =~= seq![reports[0]]);
                    lemma_one_report(reports[0], id);
                    lemma_one_report(reports[0], thought_id);
                } else {
                    assert(reports =~= nothing);
                }
            },
        }
    }
}

/// Every event leaves the messages under way sound.
pub proof fn event_keeps_messages_sound(
    thread: ThreadView,
    messages: Map<Seq<char>, MessageView>,
    event: SessionEvent,
)
    requires
        all_sound(messages),
    ensures
        all_sound(messages_after(thread, messages, event)),
{
    assert forall|id: Seq<char>| #[trigger]
        messages_after(thread, messages, event).contains_key(id) implies is_sound(
        messages_after(thread, messages, event)[id],
    ) by {
        assert(is_sound(message_of(messages, id)));
    }
}

/// Events that are taken in one by one put their reports, in order, behind what waits.
pub proof fn reports_are_queued_in_order(
    thread: ThreadView,
    state: EventsView,
    events: Seq<SessionEvent>,
)
    ensures
        events_after_all(thread, state, events) == (EventsView {
            queued: state.queued + emitted_by_all(thread, state.messages, events),
            messages: messages_after_all(thread, state.messages, events),
        }),
    decreases events.len(),
{
    if events.len() == 0 {
        assert(state.queued + Seq::<EventView>::empty() =~= state.queued);
    } else {
        reports_are_queued_in_order(thread, state, events.drop_last());
        assert(events_after_all(thread, state, events).queued =~= state.queued + emitted_by_all(
            thread,
            state.messages,
            events,
        ));
    }
}

proof fn lemma_sound_after_all(
    thread: ThreadView,
    messages: Map<Seq<char>, MessageView>,
    events: Seq<SessionEvent>,
)
    requires
        all_sound(messages),
    ensures
        all_sound(messages_after_all(thread, messages, events)),
    decreases events.len(),
{
    if events.len() > 0 {
        lemma_sound_after_all(thread, messages, events.drop_last());
        event_keeps_messages_sound(
            thread_after_all(thread, events.drop_last()),
            messages_after_all(thread, messages, events.drop_last()),
            events.last(),
        );
    }
}

/// Until a message ends, its text is what it was, followed by the pieces that were reported of
/// it; so is its reasoning.
pub proof fn message_holds_what_was_streamed(
    thread: ThreadView,
    messages: Map<Seq<char>, MessageView>,
    events: Seq<SessionEvent>,
    id: Seq<char>,
)
    requires
        all_sound(messages),
        forall|i: int| 0 <= i < events.len() ==> !ends_message(#[trigger] events[i], id),
    ensures
        ({
            let before = message_of(messages, id);
            let after = message_of(messages_after_all(thread, messages, events), id);
            let reports = emitted_by_all(thread, messages, events);
            &&& after.text == before.text + streamed_text(reports, id)
            &&& after.reasoning == before.reasoning + streamed_reasoning(
                reports,
                reasoning_item_id(id),
            )
        }),
    decreases events.len(),
{
    let before = message_of(messages, id);
    if events.len() == 0 {
        assert(before.text + Seq::<char>::empty() =~= before.text);
        assert(before.reasoning + Seq::<char>::empty() =~= before.reasoning);
    } else {
        let earlier = events.drop_last();
        assert forall|i: int| 0 <= i < earlier.len() implies !ends_message(#[trigger] earlier[i], id) by {
            assert(earlier[i] == events[i]);
        }
        message_holds_what_was_streamed(thread, messages, earlier, id);
        lemma_sound_after_all(thread, messages, earlier);
        let middle_thread = thread_after_all(thread, earlier);
        let middle = messages_after_all(thread, messages, earlier);
        assert(!ends_message(events[events.len() - 1], id));
        lemma_step(middle_thread, middle, events.last(), id);
        let reports = emitted_by_all(thread, messages, earlier);
        let last = emitted(middle_thread, middle, events.last());
        lemma_reports_add(reports, last, id);
        lemma_reports_add(reports, last, reasoning_item_id(id));
        let after = message_of(messages_after_all(thread, messages, events), id);
        assert(after.text =~= before.text + streamed_text(reports + last, id));
        assert(after.reasoning =~= before.reasoning + streamed_reasoning(
            reports + last,
            reasoning_item_id(id),
        ));
    }
}

/// A message that ends is reported as complete with all of its text: what it was, followed by
/// the pieces that were reported of it since.
pub proof fn completed_message_holds_what_was_streamed(
    thread: ThreadView,
    messages: Map<Seq<char>, MessageView>,
    events: Seq<SessionEvent>,
    end: SessionEvent,
    id: Seq<char>,
)
    requires
        all_sound(messages),
        forall|i: int| 0 <= i < events.len() ==> !ends_message(#[trigger] events[i], id),
        ends_message(end, id),
        !thread_after_all(thread, events).interrupt_pending,
        message_of(messages_after_all(thread, messages, events), id).agent_started,
    ensures
        ({
            let now = thread_after_all(thread, events);
            let reports = emitted(now, messages_after_all(thread, messages, events), end);
            &&& reports.len() > 0
            &&& reports.last() == item_completed_view(
                now.session.thread_id,
                turn_of(now, end.sequence),
                agent_message_view(
                    id,
                    message_of(messages, id).text + streamed_text(
                        emitted_by_all(thread, messages, events),
                        id,
                    ),
                ),
            )
        }),
{
    message_holds_what_was_streamed(thread, messages, events, id);
}

/// Whether an event ends the reasoning before a message: the message begins or ends.
pub open spec fn ends_reasoning(event: SessionEvent, id: Seq<char>) -> bool {
    match event.event {
        Some(PiEvent::TextDelta(delta)) => delta.message_id@ == id,
        _ => ends_message(event, id),
    }
}

/// Reasoning that ends is reported as complete with all of its text: what it was, followed by
/// the pieces that were reported of it since.
pub proof fn completed_reasoning_holds_what_was_streamed(
    thread: ThreadView,
    messages: Map<Seq<char>, MessageView>,
    events: Seq<SessionEvent>,
    end: SessionEvent,
    id: Seq<char>,
)
    requires
        all_sound(messages),
        forall|i: int| 0 <= i < events.len() ==> !ends_message(#[trigger] events[i], id),
        ends_reasoning(end, id),
        !thread_after_all(thread, events).interrupt_pending,
        reasoning_is_open(message_of(messages_after_all(thread, messages, events), id)),
    ensures
        ({
            let now = thread_after_all(thread, events);
            let reports = emitted(now, messages_after_all(thread, messages, events), end);
            &&& reports.len() > 0
            &&& reports[0] == item_completed_view(
                now.session.thread_id,
                turn_of(now, end.sequence),
                reasoning_view(
                    id,
                    message_of(messages, id).reasoning + streamed_reasoning(
                        emitted_by_all(thread, messages, events),
                        reasoning_item_id(id),
                    ),
                ),
            )
        }),
{
    message_holds_what_was_streamed(thread, messages, events, id);
}

/// Items are reported to begin and to be complete in turn: over any events, a message is
/// reported to begin as often as to be complete, and once more exactly while it is under way
/// with a text begun. The same holds of its reasoning.
pub proof fn items_begin_before_they_complete(
    thread: ThreadView,
    messages: Map<Seq<char>, MessageView>,
    events: Seq<SessionEvent>,
    id: Seq<char>,
)
    requires
        all_sound(messages),
    ensures
        ({
            let before = message_of(messages, id);
            let after = message_of(messages_after_all(thread, messages, events), id);
            let reports = emitted_by_all(thread, messages, events);
            &&& count(before.agent_started) + open_messages(reports, id) == count(
                after.agent_started,
            )
            &&& count(reasoning_is_open(before)) + open_reasoning(reports, reasoning_item_id(id))
                == count(reasoning_is_open(after))
        }),
    decreases events.len(),
{
    if events.len() > 0 {
        let earlier = events.drop_last();
        items_begin_before_they_complete(thread, messages, earlier, id);
        lemma_sound_after_all(thread, messages, earlier);
        let middle_thread = thread_after_all(thread, earlier);
        let middle = messages_after_all(thread, messages, earlier);
        lemma_step(middle_thread, middle, events.last(), id);
        let reports = emitted_by_all(thread, messages, earlier);
        let last = emitted(middle_thread, middle, events.last());
        lemma_reports_add(reports, last, id);
        lemma_reports_add(reports, last, reasoning_item_id(id));
    }
}

/// While an interruption is pending, events change nothing and nothing is reported, until the
/// agent's run ends.
pub proof fn interrupted_session_is_silent(
    thread: ThreadView,
    state: EventsView,
    events: Seq<SessionEvent>,
)
    requires
        thread.interrupt_pending,
        forall|i: int|
            0 <= i < events.len() ==> !((#[trigger] events[i]).event matches Some(
                PiEvent::AgentEnd { .. },
            )),
    ensures
        thread_after_all(thread, events) == thread,
        events_after_all(thread, state, events) == state,
    decreases events.len(),
{
    if events.len() > 0 {
        let earlier = events.drop_last();
        assert forall|i: int| 0 <= i < earlier.len() implies !((#[trigger] earlier[i]).event
            matches Some(PiEvent::AgentEnd { .. })) by {
            assert(earlier[i] == events[i]);
        }
        interrupted_session_is_silent(thread, state, earlier);
        assert(!(events[events.len() - 1].event matches Some(PiEvent::AgentEnd { .. })));
        assert(events_after_all(thread, state, events) =~= state);
    }
}

/// The end of an interrupted run ends the interruption and is not reported.
pub proof fn interrupted_run_ends_unreported(
    thread: ThreadView,
    state: EventsView,
    end: SessionEvent,
)
    requires
        thread.interrupt_pending,
        end.event matches Some(PiEvent::AgentEnd { .. }),
    ensures
        thread_after(thread, end) == (ThreadView { interrupt_pending: false, ..thread }),
        events_after(thread, state, end) == state,
{
    assert(events_after(thread, state, end) =~= state);
}

/// Every report of an event carries the turn that the event belongs to.
pub proof fn reports_carry_their_turn(
    thread: ThreadView,
    messages: Map<Seq<char>, MessageView>,
    event: SessionEvent,
)
    ensures
        forall|i: int|
            0 <= i < emitted(thread, messages, event).len() ==> (#[trigger] emitted(
                thread,
                messages,
                event,
            )[i]).id == turn_of(thread, event.sequence),
{
}

/// Events never change the identity of a session nor the tool calls that wait for a result.
pub proof fn events_leave_the_session(thread: ThreadView, events: Seq<SessionEvent>)
    ensures
        thread_after_all(thread, events).session == thread.session,
        thread_after_all(thread, events).pending_host_tools == thread.pending_host_tools,
    decreases events.len(),
{
    if events.len() > 0 {
        events_leave_the_session(thread, events.drop_last());
    }
}

/// An agent's run that ends undisturbed leaves the thread completed with the last text and
/// without an active turn, and its last report says so.
pub proof fn finished_run_completes_the_turn(
    thread: ThreadView,
    messages: Map<Seq<char>, MessageView>,
    end: SessionEvent,
)
    requires
        !thread.interrupt_pending,
        end.event matches Some(PiEvent::AgentEnd { .. }),
    ensures
        ({
            let text = end.event->0->last_assistant_text@;
            let turn = turn_of(thread, end.sequence);
            &&& thread_after(thread, end).status == StatusView::Completed(Some(text))
            &&& thread_after(thread, end).active_turn is None
            &&& emitted(thread, messages, end) == seq![turn_complete_view(turn, text)]
        }),
{
}

} // verus!
