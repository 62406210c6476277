//! What the history of a session makes of the thread that stands for it.
//!
//! A history is what the session sent, what the host asked of it and what it answered, in the
//! order in which they came. The laws here say from the history alone where the thread stands,
//! which turn is under way, and which command the next turn becomes.
use vstd::prelude::*;

use crate::agent_runtime::AgentRuntimeOperation;
use crate::pi_laws::{emitted_by_all, messages_after_all, thread_after_all};
use crate::pi_operations::{
    rendered_input, rendered_inputs, reply_report, submission, thread_after_reply,
    thread_after_submission, FollowupView,
};
use crate::pi_proto::{CommandView, PiEvent, SessionEvent};
use crate::pi_stream_laws::reports_name_the_turn;
use crate::pi_translation::{emitted, thread_after, MessageView, ThreadView};
use crate::protocol::{AbortReasonView, EventMsgView, EventView, OpBody, StatusView, UserInput};
use crate::text::joined;

verus! {

/// One thing that happens to a session.
pub enum Happening {
    /// The session sent an event.
    Sent(SessionEvent),
    /// The host asked the session for an operation.
    Asked(AgentRuntimeOperation),
    /// The session accepted or refused what was asked, which leaves something to do.
    Answered { followup: FollowupView, accepted: bool },
}

/// The thread after one thing happened.
pub open spec fn after_happening(thread: ThreadView, happening: Happening) -> ThreadView {
    match happening {
        Happening::Sent(event) => thread_after(thread, event),
        Happening::Asked(operation) => thread_after_submission(thread, operation),
        Happening::Answered { followup, accepted } => thread_after_reply(
            thread,
            followup,
            accepted,
        ),
    }
}

/// The thread after a history.
pub open spec fn after_history(thread: ThreadView, history: Seq<Happening>) -> ThreadView
    decreases history.len(),
{
    if history.len() == 0 {
        thread
    } else {
        after_happening(after_history(thread, history.drop_last()), history.last())
    }
}

/// Whether an input is text that the sidecar takes: none of its pieces is for native threads
/// only.
pub open spec fn is_plain(items: Seq<UserInput>) -> bool {
    forall|i: int| 0 <= i < items.len() ==> !(#[trigger] items[i] is Native)
}

/// Whether an operation starts a turn: an input of the user, or a message of another agent that
/// asks for a turn.
pub open spec fn starts_turn(operation: AgentRuntimeOperation) -> bool {
    match operation.op.body {
        OpBody::UserInput { items } => is_plain(items@),
        OpBody::InterAgentCommunication { communication } => communication.trigger_turn,
        _ => false,
    }
}

/// Whether a thread is interrupted after a history: the host asked for it, and since then the
/// run has not ended, the session has not refused it, and no new turn was asked for.
pub open spec fn is_interrupted(interrupted_before: bool, history: Seq<Happening>) -> bool
    decreases history.len(),
{
    if history.len() == 0 {
        interrupted_before
    } else {
        match history.last() {
            Happening::Sent(SessionEvent { event: Some(PiEvent::AgentEnd { .. }), .. }) => false,
            Happening::Asked(operation) if operation.op.body is Interrupt => true,
            Happening::Asked(operation) if starts_turn(operation) => false,
            Happening::Answered {
                followup: FollowupView::Interrupt { .. },
                accepted: false,
            } => false,
            _ => is_interrupted(interrupted_before, history.drop_last()),
        }
    }
}

/// The status that a happening puts the agent in, where it does: the start of a turn, the end of
/// a run and a failure unless the thread is interrupted, and what the session accepts to end.
pub open spec fn status_brought(happening: Happening, interrupted: bool) -> Option<StatusView> {
    match happening {
        Happening::Sent(event) => if interrupted {
            None
        } else {
            match event.event {
                Some(PiEvent::TurnStart) => Some(StatusView::Running),
                Some(PiEvent::AgentEnd { last_assistant_text }) => Some(
                    StatusView::Completed(Some(last_assistant_text@)),
                ),
                Some(PiEvent::Error(error)) => Some(StatusView::Errored(error.message@)),
                _ => None,
            }
        },
        Happening::Answered { followup: FollowupView::Interrupt { .. }, accepted: true } => Some(
            StatusView::Interrupted,
        ),
        Happening::Answered { followup: FollowupView::Shutdown, accepted: true } => Some(
            StatusView::Shutdown,
        ),
        _ => None,
    }
}

/// Whether the happening at a place of a history moves the status of the thread.
pub open spec fn moves_status(
    interrupted_before: bool,
    history: Seq<Happening>,
    place: int,
) -> bool {
    status_brought(history[place], is_interrupted(interrupted_before, history.take(place))) is Some
}

proof fn lemma_plain_is_rendered(items: Seq<UserInput>)
    ensures
        is_plain(items) <==> (forall|i: int|
            0 <= i < items.len() ==> rendered_input(#[trigger] items[i]) is Some),
{
    if is_plain(items) {
        assert forall|i: int| 0 <= i < items.len() implies rendered_input(#[trigger] items[i])
            is Some by {
            assert(!(items[i] is Native));
        }
    }
    if forall|i: int| 0 <= i < items.len() ==> rendered_input(#[trigger] items[i]) is Some {
        assert forall|i: int| 0 <= i < items.len() implies !(#[trigger] items[i] is Native) by {
            assert(rendered_input(items[i]) is Some);
        }
    }
}

/// The sidecar takes the operations that start a turn, interruptions and the close, and refuses
/// all others. A turn is sent as a prompt or a follow-up, an interruption and a close as such.
pub proof fn operations_become_their_commands(
    thread: ThreadView,
    operation: AgentRuntimeOperation,
)
    ensures
        ({
            let outcome = submission(thread, operation);
            let body = operation.op.body;
            &&& outcome is Ok <==> starts_turn(operation) || body is Interrupt || body is Shutdown
            &&& outcome is Ok ==> {
                let command = outcome->Ok_0.0;
                let followup = outcome->Ok_0.1;
                &&& starts_turn(operation) <==> command is Prompt || command is FollowUp
                &&& body is Interrupt <==> command is Interrupt
                &&& body is Shutdown <==> command is Close
                &&& followup is Nothing <==> starts_turn(operation)
                &&& body is Interrupt ==> followup == (FollowupView::Interrupt {
                    turn: thread.active_turn,
                })
                &&& followup is Shutdown <==> body is Shutdown
            }
        }),
{
    if let OpBody::UserInput { items } = operation.op.body {
        lemma_plain_is_rendered(items@);
    }
}

/// Whether a thread is interrupted follows from its history.
pub proof fn interruption_follows_the_history(thread: ThreadView, history: Seq<Happening>)
    ensures
        after_history(thread, history).interrupt_pending == is_interrupted(
            thread.interrupt_pending,
            history,
        ),
    decreases history.len(),
{
    if history.len() > 0 {
        interruption_follows_the_history(thread, history.drop_last());
        if let Happening::Asked(operation) = history.last() {
            operations_become_their_commands(
                after_history(thread, history.drop_last()),
                operation,
            );
        }
    }
}

proof fn lemma_one_status(thread: ThreadView, happening: Happening)
    ensures
        after_happening(thread, happening).status == match status_brought(
            happening,
            thread.interrupt_pending,
        ) {
            Some(status) => status,
            None => thread.status,
        },
{
}

/// The status of a thread is the one that the last happening which moved it brought, and the
/// first one as long as none moved it.
pub proof fn status_is_the_last_one_brought(
    thread: ThreadView,
    history: Seq<Happening>,
    place: int,
)
    requires
        -1 <= place < history.len(),
        place >= 0 ==> moves_status(thread.interrupt_pending, history, place),
        forall|i: int|
            place < i < history.len() ==> !#[trigger] moves_status(
                thread.interrupt_pending,
                history,
                i,
            ),
    ensures
        place >= 0 ==> Some(after_history(thread, history).status) == status_brought(
            history[place],
            is_interrupted(thread.interrupt_pending, history.take(place)),
        ),
        place < 0 ==> after_history(thread, history).status == thread.status,
    decreases history.len(),
{
    if history.len() > 0 {
        let earlier = history.drop_last();
        let last = history.len() - 1;
        let before = thread.interrupt_pending;
        assert(history.take(last) =~= earlier);
        interruption_follows_the_history(thread, earlier);
        lemma_one_status(after_history(thread, earlier), history.last());
        if place < last {
            assert(!moves_status(before, history, last));
            assert forall|i: int| place < i < earlier.len() implies !#[trigger] moves_status(
                before,
                earlier,
                i,
            ) by {
                assert(earlier.take(i) =~= history.take(i));
                assert(!moves_status(before, history, i));
            }
            if place >= 0 {
                assert(earlier.take(place) =~= history.take(place));
            }
            status_is_the_last_one_brought(thread, earlier, place);
        }
    }
}

/// A turn is sent as a follow-up exactly where the last happening that moved the status was the
/// start of a turn. After the end of a run, a failure, or an accepted interruption, it is a
/// prompt; so is the first turn of a thread that is new.
pub proof fn only_a_running_agent_gets_a_follow_up(
    thread: ThreadView,
    history: Seq<Happening>,
    place: int,
    operation: AgentRuntimeOperation,
)
    requires
        -1 <= place < history.len(),
        place >= 0 ==> moves_status(thread.interrupt_pending, history, place),
        forall|i: int|
            place < i < history.len() ==> !#[trigger] moves_status(
                thread.interrupt_pending,
                history,
                i,
            ),
        place < 0 ==> thread.status is PendingInit,
        starts_turn(operation),
    ensures
        ({
            let outcome = submission(after_history(thread, history), operation);
            let starts = place >= 0 && (history[place] matches Happening::Sent(event)
                && event.event == Some(PiEvent::TurnStart));
            &&& outcome is Ok
            &&& starts ==> outcome->Ok_0.0 is FollowUp
            &&& !starts ==> outcome->Ok_0.0 is Prompt
        }),
{
    status_is_the_last_one_brought(thread, history, place);
    operations_become_their_commands(after_history(thread, history), operation);
}

/// The text of the command that a turn becomes.
pub open spec fn command_text(command: CommandView) -> Seq<char> {
    match command {
        CommandView::Prompt { text } => text,
        CommandView::FollowUp { text } => text,
        _ => Seq::empty(),
    }
}

/// The agent reads what was said: a message of another agent letter for letter, and of the user
/// what the pieces of the input say, whatever the agent is doing. The history makes a turn a
/// prompt or a follow-up, and changes nothing of its text.
pub proof fn the_agent_reads_what_was_said(
    thread: ThreadView,
    other: ThreadView,
    operation: AgentRuntimeOperation,
)
    requires
        starts_turn(operation),
    ensures
        ({
            let text = command_text(submission(thread, operation)->Ok_0.0);
            &&& text == command_text(submission(other, operation)->Ok_0.0)
            &&& match operation.op.body {
                OpBody::InterAgentCommunication { communication } => text
                    == communication.content@,
                OpBody::UserInput { items } => text == rendered_inputs(items@),
                _ => false,
            }
        }),
{
    operations_become_their_commands(thread, operation);
    operations_become_their_commands(other, operation);
    if let OpBody::UserInput { items } = operation.op.body {
        lemma_plain_is_rendered(items@);
    }
}

/// An input of nothing says nothing; a piece of text says what it holds; a piece behind others
/// follows them after an empty line. So every piece is said once and in its place.
pub proof fn inputs_are_said_piece_by_piece(items: Seq<UserInput>, next: UserInput)
    requires
        is_plain(items),
        !(next is Native),
    ensures
        rendered_inputs(Seq::empty()) == Seq::<char>::empty(),
        rendered_inputs(seq![next]) == rendered_input(next)->0,
        items.len() > 0 ==> rendered_inputs(items.push(next)) == rendered_inputs(items) + "\n\n"@
            + rendered_inputs(seq![next]),
        match next {
            UserInput::Text { text } => rendered_input(next) == Some(text@),
            UserInput::Image { image_url } => rendered_input(next) == Some(
                "[image]("@ + image_url@ + ")"@,
            ),
            UserInput::LocalImage { path } => rendered_input(next) == Some(
                "[local image: "@ + path@ + "]"@,
            ),
            UserInput::Skill { name, path } => rendered_input(next) == Some(
                "[skill "@ + name@ + ": "@ + path@ + "]"@,
            ),
            UserInput::Mention { name, path } => rendered_input(next) == Some(
                "["@ + name@ + "]("@ + path@ + ")"@,
            ),
            UserInput::Native(_) => true,
        },
{
    let said = |item: UserInput| rendered_input(item)->0;
    assert(Seq::<UserInput>::empty().map_values(said) =~= Seq::empty());
    assert(seq![next].map_values(said) =~= seq![said(next)]);
    let all = items.push(next).map_values(said);
    assert(all.drop_last() =~= items.map_values(said));
    assert(all.last() == said(next));
    if items.len() > 0 {
        assert(rendered_inputs(items.push(next)) == joined(all, "\n\n"@));
    }
}

/// The turn that is under way after a history: the last one that was asked for, unless the run
/// ended undisturbed or an interruption took it. A refused interruption gives it back.
pub open spec fn turn_under_way(
    before: Option<Seq<char>>,
    interrupted_before: bool,
    history: Seq<Happening>,
) -> Option<Seq<char>>
    decreases history.len(),
{
    if history.len() == 0 {
        before
    } else {
        let earlier = history.drop_last();
        match history.last() {
            Happening::Asked(operation) if starts_turn(operation) => Some(
                operation.submission_id@,
            ),
            Happening::Asked(operation) if operation.op.body is Interrupt => None,
            Happening::Sent(
                SessionEvent { event: Some(PiEvent::AgentEnd { .. }), .. },
            ) if !is_interrupted(interrupted_before, earlier) => None,
            Happening::Answered {
                followup: FollowupView::Interrupt { turn },
                accepted: false,
            } => turn,
            _ => turn_under_way(before, interrupted_before, earlier),
        }
    }
}

/// Which turn is under way follows from the history.
pub proof fn turn_follows_the_history(thread: ThreadView, history: Seq<Happening>)
    ensures
        after_history(thread, history).active_turn == turn_under_way(
            thread.active_turn,
            thread.interrupt_pending,
            history,
        ),
    decreases history.len(),
{
    if history.len() > 0 {
        let earlier = history.drop_last();
        turn_follows_the_history(thread, earlier);
        interruption_follows_the_history(thread, earlier);
        if let Happening::Asked(operation) = history.last() {
            operations_become_their_commands(after_history(thread, earlier), operation);
        }
    }
}

/// Whatever happens, a thread stands for the session that it was opened for, and no operation,
/// event or answer takes a tool call or the token counts away.
pub proof fn history_keeps_the_session(thread: ThreadView, history: Seq<Happening>)
    ensures
        after_history(thread, history).session == thread.session,
        after_history(thread, history).pending_host_tools == thread.pending_host_tools,
        thread.token_usage is Some ==> after_history(thread, history).token_usage is Some,
    decreases history.len(),
{
    if history.len() > 0 {
        history_keeps_the_session(thread, history.drop_last());
    }
}

/// The token counts change with a report of token counts only.
pub proof fn counts_change_with_their_report(thread: ThreadView, happening: Happening)
    ensures
        after_happening(thread, happening).token_usage != thread.token_usage ==> (
        happening matches Happening::Sent(event) && (event.event matches Some(
            PiEvent::TokenUsage(_),
        )) && !thread.interrupt_pending),
{
}

/// From the submission of a turn to the end of its run everything that is reported bears the id
/// of the submission.
pub proof fn reports_of_a_turn_bear_its_submission(
    thread: ThreadView,
    messages: Map<Seq<char>, MessageView>,
    operation: AgentRuntimeOperation,
    events: Seq<SessionEvent>,
    index: int,
)
    requires
        starts_turn(operation),
        forall|i: int|
            0 <= i < events.len() - 1 ==> !((#[trigger] events[i]).event matches Some(
                PiEvent::AgentEnd { .. },
            )),
        0 <= index < emitted_by_all(
            thread_after_submission(thread, operation),
            messages,
            events,
        ).len(),
    ensures
        emitted_by_all(thread_after_submission(thread, operation), messages, events)[index].id
            == operation.submission_id@,
    decreases events.len(),
{
    operations_become_their_commands(thread, operation);
    let begun = thread_after_submission(thread, operation);
    if events.len() > 0 {
        let earlier = events.drop_last();
        let reports = emitted_by_all(begun, messages, earlier);
        if index < reports.len() {
            assert forall|i: int| 0 <= i < earlier.len() - 1 implies !((
            #[trigger] earlier[i]).event matches Some(PiEvent::AgentEnd { .. })) by {
                assert(earlier[i] == events[i]);
            }
            reports_of_a_turn_bear_its_submission(thread, messages, operation, earlier, index);
        } else {
            assert forall|i: int| 0 <= i < earlier.len() implies !((
            #[trigger] earlier[i]).event matches Some(PiEvent::AgentEnd { .. })) by {
                assert(earlier[i] == events[i]);
            }
            lemma_turn_goes_on(begun, earlier);
            reports_name_the_turn(
                thread_after_all(begun, earlier),
                messages_after_all(begun, messages, earlier),
                events.last(),
                index - reports.len(),
            );
        }
    }
}

proof fn lemma_turn_goes_on(thread: ThreadView, events: Seq<SessionEvent>)
    requires
        forall|i: int|
            0 <= i < events.len() ==> !((#[trigger] events[i]).event matches Some(
                PiEvent::AgentEnd { .. },
            )),
    ensures
        thread_after_all(thread, events).active_turn == thread.active_turn,
        thread_after_all(thread, events).interrupt_pending == thread.interrupt_pending,
    decreases events.len(),
{
    if events.len() > 0 {
        let earlier = events.drop_last();
        assert forall|i: int| 0 <= i < earlier.len() implies !((#[trigger] earlier[i]).event
            matches Some(PiEvent::AgentEnd { .. })) by {
            assert(earlier[i] == events[i]);
        }
        lemma_turn_goes_on(thread, earlier);
        assert(!(events[events.len() - 1].event matches Some(PiEvent::AgentEnd { .. })));
    }
}

/// An accepted interruption is reported as the abort of the turn that was under way, under its
/// id; without a turn, under an id of the thread's own. An accepted close is reported under the
/// id of the thread, an accepted turn not at all.
pub proof fn accepted_operations_are_reported(
    thread: ThreadView,
    operation: AgentRuntimeOperation,
)
    requires
        submission(thread, operation) is Ok,
    ensures
        ({
            let asked = thread_after_submission(thread, operation);
            let report = reply_report(asked, submission(thread, operation)->Ok_0.1);
            &&& operation.op.body is Interrupt ==> report == Some(
                EventView {
                    id: match thread.active_turn {
                        Some(turn) => turn,
                        None => "pi-interrupt-"@ + thread.session.thread_id,
                    },
                    msg: EventMsgView::TurnAborted {
                        aborted_turn_id: thread.active_turn,
                        reason: AbortReasonView::Interrupted,
                        started_at: None,
                        completed_at: None,
                        duration_ms: None,
                    },
                },
            )
            &&& operation.op.body is Shutdown ==> report == Some(
                EventView { id: thread.session.thread_id, msg: EventMsgView::ShutdownComplete },
            )
            &&& starts_turn(operation) ==> report is None
        }),
{
    operations_become_their_commands(thread, operation);
}

/// An interrupted thread reports nothing of what the session sends, and takes nothing of it in
/// but the end of its run.
pub proof fn interrupted_threads_take_nothing_in(
    thread: ThreadView,
    messages: Map<Seq<char>, MessageView>,
    event: SessionEvent,
)
    requires
        thread.interrupt_pending,
    ensures
        emitted(thread, messages, event).len() == 0,
        thread_after(thread, event).status == thread.status,
        thread_after(thread, event).active_turn == thread.active_turn,
        thread_after(thread, event).token_usage == thread.token_usage,
        thread_after(thread, event).interrupt_pending != thread.interrupt_pending
            <==> event.event matches Some(PiEvent::AgentEnd { .. }),
{
}

} // verus!
