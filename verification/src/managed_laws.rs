//! What a managed thread of an external runtime does with operations, events and shutdown.
//!
//! The laws here follow operations to the tools of the host and to the runtime, and events to
//! the record and to those who wait, over any course of them.
use vstd::prelude::*;

use crate::agent_runtime::{AgentRuntimeError, AgentRuntimeOperation};
use crate::managed_agent_thread::{
    after_answer, after_event, after_recording, after_submit, announced, answers_host,
    delivery_of, driver_action, host_tools_step, is_event_of, is_step_of, new_external,
    persistence_failure, runtime_failure, shutdown_failure, shutdown_steps, submission_id_text,
    DeliveryView, DriverAction, DriverEvent, ExternalView, HostToolsStep, PersistenceStep,
    RolloutView, ShutdownFailure, ShutdownStep, SubmitStep,
};
use crate::numbering::number_after;
use crate::pi_history::operations_become_their_commands;
use crate::pi_operations::submission;
use crate::pi_translation::ThreadView;
use crate::protocol::{
    AgentStatus, CodexErr, CodexErrView, Event, EventMsg, Op, OpBody, StatusView,
};
use crate::text::decimal;

verus! {

/// Whether an operation can start a turn of a runtime: an input of the user or a message of
/// another agent.
pub open spec fn may_start_turn(body: OpBody) -> bool {
    body is UserInput || body is InterAgentCommunication
}

/// The tools of the host are reset by every operation that can start a turn, cancelled by an
/// interruption, and touched by no other operation. Where there are none, nothing is done.
pub proof fn tools_follow_the_operation<M>(
    thread: ExternalView<M>,
    op: Op,
    step: Result<SubmitStep, CodexErr>,
)
    requires
        is_step_of(step, thread, op),
    ensures
        step matches Ok(SubmitStep::Runtime { host_tools, .. }) ==> {
            &&& host_tools == HostToolsStep::ResetForTurn <==> thread.has_host_tools
                && may_start_turn(op.body)
            &&& host_tools == HostToolsStep::Interrupt <==> thread.has_host_tools && op.body
                is Interrupt
            &&& host_tools == HostToolsStep::Nothing <==> !thread.has_host_tools || !(
            may_start_turn(op.body) || op.body is Interrupt)
        },
        may_start_turn(op.body) || op.body is Interrupt || op.body is Shutdown ==> step matches Ok(
            SubmitStep::Runtime { .. },
        ),
{
}

/// Whatever a sidecar takes as a turn resets the tools of the host first, and whatever it takes
/// as an interruption cancels them first.
pub proof fn tools_are_ready_for_every_turn<M>(
    thread: ExternalView<M>,
    session: ThreadView,
    op: Op,
    step: Result<SubmitStep, CodexErr>,
    operation: AgentRuntimeOperation,
)
    requires
        thread.has_host_tools,
        is_step_of(step, thread, op),
        step matches Ok(SubmitStep::Runtime { operation: asked, .. }) && asked == operation,
        submission(session, operation) is Ok,
    ensures
        ({
            let command = submission(session, operation)->Ok_0.0;
            let tools = step->Ok_0->host_tools;
            &&& command is Prompt || command is FollowUp ==> tools == HostToolsStep::ResetForTurn
            &&& command is Interrupt ==> tools == HostToolsStep::Interrupt
            &&& command is Close ==> tools == HostToolsStep::Nothing
        }),
{
    operations_become_their_commands(session, operation);
}

/// The thread after a number of operations.
pub open spec fn after_submits<M>(thread: ExternalView<M>, bodies: Seq<OpBody>) -> ExternalView<M>
    decreases bodies.len(),
{
    if bodies.len() == 0 {
        thread
    } else {
        after_submit(after_submits(thread, bodies.drop_last()), bodies.last())
    }
}

/// The turn in which tools of the host run after a number of operations, each of which had the
/// tools do their step: a reset puts them in the turn of the submission.
pub open spec fn tools_turn<M>(
    thread: ExternalView<M>,
    before: Seq<char>,
    bodies: Seq<OpBody>,
) -> Seq<char>
    decreases bodies.len(),
{
    if bodies.len() == 0 {
        before
    } else {
        let earlier = bodies.drop_last();
        let now = after_submits(thread, earlier);
        if !answers_host(bodies.last()) && host_tools_step(now.has_host_tools, bodies.last())
            == HostToolsStep::ResetForTurn {
            submission_id_text(now.thread_id, now.next_submission)
        } else {
            tools_turn(thread, before, earlier)
        }
    }
}

/// How many of the operations go to the runtime: all but the answers to tools of the host.
pub open spec fn submissions(bodies: Seq<OpBody>) -> nat
    decreases bodies.len(),
{
    if bodies.len() == 0 {
        0
    } else {
        submissions(bodies.drop_last()) + match bodies.last() {
            OpBody::ExecApproval(_) => 0nat,
            OpBody::PatchApproval(_) => 0nat,
            OpBody::UserInputAnswer(_) => 0nat,
            OpBody::RequestPermissionsResponse(_) => 0nat,
            OpBody::DynamicToolResponse(_) => 0nat,
            OpBody::ResolveElicitation(_) => 0nat,
            _ => 1nat,
        }
    }
}

/// Operations are numbered in the order in which they go to the runtime, and change nothing but
/// the number.
pub proof fn submissions_are_numbered_in_order<M>(thread: ExternalView<M>, bodies: Seq<OpBody>)
    ensures
        after_submits(thread, bodies) == (ExternalView {
            next_submission: number_after(thread.next_submission, submissions(bodies)),
            ..thread
        }),
    decreases bodies.len(),
{
    if bodies.len() > 0 {
        submissions_are_numbered_in_order(thread, bodies.drop_last());
    }
}

/// A submission is named after its thread and its number, both in full.
pub proof fn submissions_are_named_after_their_thread<M>(
    thread: ExternalView<M>,
    bodies: Seq<OpBody>,
    op: Op,
    step: Result<SubmitStep, CodexErr>,
)
    requires
        is_step_of(step, after_submits(thread, bodies), op),
        step matches Ok(SubmitStep::Runtime { .. }),
    ensures
        step->Ok_0->operation.submission_id@ == "external-"@ + thread.thread_id + "-"@ + decimal(
            number_after(thread.next_submission, submissions(bodies)) as nat,
        ),
        step->Ok_0->operation.op == op,
        step->Ok_0->is_shutdown <==> op.body is Shutdown,
{
    submissions_are_numbered_in_order(thread, bodies);
}

/// A tool of the host that is called after operations runs in the turn of the last one of them
/// that could start a turn; where there was none, in the turn that tools ran in before.
pub proof fn tools_run_in_the_last_turn<M>(
    thread: ExternalView<M>,
    before: Seq<char>,
    bodies: Seq<OpBody>,
    last: int,
)
    requires
        thread.has_host_tools,
        -1 <= last < bodies.len(),
        last >= 0 ==> may_start_turn(bodies[last]),
        forall|i: int| last < i < bodies.len() ==> !may_start_turn(#[trigger] bodies[i]),
    ensures
        last >= 0 ==> tools_turn(thread, before, bodies) == "external-"@ + thread.thread_id + "-"@
            + decimal(
            number_after(thread.next_submission, submissions(bodies.take(last))) as nat,
        ),
        last < 0 ==> tools_turn(thread, before, bodies) == before,
    decreases bodies.len(),
{
    if bodies.len() > 0 {
        let earlier = bodies.drop_last();
        submissions_are_numbered_in_order(thread, earlier);
        if last == bodies.len() - 1 {
            assert(bodies.take(last) =~= earlier);
        } else {
            assert(!may_start_turn(bodies[bodies.len() - 1]));
            assert forall|i: int| last < i < earlier.len() implies !may_start_turn(
                #[trigger] earlier[i],
            ) by {
                assert(earlier[i] == bodies[i]);
            }
            if last >= 0 {
                assert(earlier.take(last) =~= bodies.take(last));
            }
            tools_run_in_the_last_turn(thread, before, earlier, last);
        }
    }
}

/// Answers to tools of the host go to the tools as they are, take no number and are refused
/// where there are no tools. Nothing else goes to the tools or is refused.
pub proof fn answers_go_to_the_tools<M>(
    thread: ExternalView<M>,
    op: Op,
    step: Result<SubmitStep, CodexErr>,
)
    requires
        is_step_of(step, thread, op),
    ensures
        ({
            let is_answer = match op.body {
                OpBody::ExecApproval(_) => true,
                OpBody::PatchApproval(_) => true,
                OpBody::UserInputAnswer(_) => true,
                OpBody::RequestPermissionsResponse(_) => true,
                OpBody::DynamicToolResponse(_) => true,
                OpBody::ResolveElicitation(_) => true,
                _ => false,
            };
            &&& match step {
                Ok(SubmitStep::HostResponse(answer)) => is_answer && thread.has_host_tools
                    && answer == op,
                Ok(SubmitStep::Runtime { .. }) => !is_answer,
                Ok(SubmitStep::Native(_)) => false,
                Err(error) => is_answer && !thread.has_host_tools && (
                error matches CodexErr::UnsupportedOperation(message) && message@
                    == "external thread has no Codex host tool context"@),
            }
            &&& is_answer <==> after_submit(thread, op.body) == thread
        }),
{
}

/// A submission that the runtime refuses changes nothing, one that it accepts ends the thread
/// exactly where it is a shutdown.
pub proof fn accepted_shutdown_ends_the_thread<M>(
    thread: ExternalView<M>,
    op: Op,
    step: Result<SubmitStep, CodexErr>,
    accepted: bool,
)
    requires
        is_step_of(step, thread, op),
        step matches Ok(SubmitStep::Runtime { .. }),
    ensures
        ({
            let after = after_answer(thread, step->Ok_0->is_shutdown, accepted);
            &&& op.body is Shutdown && accepted ==> after.status is Shutdown
            &&& !(op.body is Shutdown && accepted) ==> after == thread
            &&& after == (ExternalView { status: after.status, ..thread })
        }),
{
}

/// The thread after events that put the agent in these statuses.
pub open spec fn after_statuses<M>(
    thread: ExternalView<M>,
    statuses: Seq<Option<StatusView>>,
) -> ExternalView<M>
    decreases statuses.len(),
{
    if statuses.len() == 0 {
        thread
    } else {
        after_event(after_statuses(thread, statuses.drop_last()), statuses.last())
    }
}

/// The status of a thread is the last one that an event brought; events change nothing else.
pub proof fn last_event_decides_the_status<M>(
    thread: ExternalView<M>,
    statuses: Seq<Option<StatusView>>,
    last: int,
)
    requires
        -1 <= last < statuses.len(),
        last >= 0 ==> statuses[last] is Some,
        forall|i: int| last < i < statuses.len() ==> #[trigger] statuses[i] is None,
    ensures
        after_statuses(thread, statuses) == (ExternalView {
            status: if last >= 0 {
                statuses[last]->0
            } else {
                thread.status
            },
            ..thread
        }),
    decreases statuses.len(),
{
    if statuses.len() > 0 {
        let earlier = statuses.drop_last();
        if last == statuses.len() - 1 {
            lemma_statuses_change_the_status(thread, earlier);
        } else {
            assert(statuses[statuses.len() - 1] is None);
            assert forall|i: int| last < i < earlier.len() implies #[trigger] earlier[i] is None by {
                assert(earlier[i] == statuses[i]);
            }
            last_event_decides_the_status(thread, earlier, last);
        }
    }
}

proof fn lemma_statuses_change_the_status<M>(
    thread: ExternalView<M>,
    statuses: Seq<Option<StatusView>>,
)
    ensures
        after_statuses(thread, statuses) == (ExternalView {
            status: after_statuses(thread, statuses).status,
            ..thread
        }),
    decreases statuses.len(),
{
    if statuses.len() > 0 {
        lemma_statuses_change_the_status(thread, statuses.drop_last());
    }
}

/// Those who wait for the end of the work hear of every completion, every failure and every
/// shutdown, as it is, and of nothing else.
pub proof fn waiters_hear_of_the_end(status: AgentStatus)
    ensures
        announced(Some(status)) == match status {
            AgentStatus::Completed(_) => Some(status),
            AgentStatus::Errored(_) => Some(status),
            AgentStatus::Shutdown => Some(status),
            _ => None,
        },
        announced(None) is None,
{
}

/// The record of a thread gets every event of it, and after the event that an item is complete
/// the item, under the turn of the event. It is flushed exactly when a turn is complete or
/// aborted. Every event that is recorded is handed out as it came.
pub proof fn the_record_gets_everything(event: Event)
    ensures
        delivery_of(event, true) matches DeliveryView::Append(appending) && {
            &&& appending.event == event
            &&& appending.items.len() > 0
            &&& appending.items[0] == RolloutView::EventMsg(event.msg.deep_view())
            &&& match event.msg {
                EventMsg::ItemCompleted(completed) => appending.items.len() == 2
                    && appending.items[1] == (RolloutView::ExternalRuntimeItem {
                    turn_id: completed.turn_id@,
                    item: completed.item.deep_view(),
                }),
                _ => appending.items.len() == 1,
            }
            &&& appending.flush <==> (event.msg matches EventMsg::TurnComplete(_)) || (
            event.msg matches EventMsg::TurnAborted(_))
        },
        delivery_of(event, false) == (DeliveryView::HandOut { event }),
{
}

/// Where recording succeeds, the event that is handed out is the one that came, persisted or
/// not: recording changes nothing of it.
pub proof fn recording_changes_no_event(event: Event, has_persistence: bool)
    ensures
        ({
            let first = delivery_of(event, has_persistence);
            let second = after_recording(first, Ok(()))->Ok_0;
            let third = after_recording(second, Ok(()))->Ok_0;
            &&& after_recording(first, Ok(())) is Ok
            &&& after_recording(second, Ok(())) is Ok
            &&& third == (DeliveryView::HandOut { event })
        }),
{
}

/// A thread is shut down in the one order: no further tool is run, the runtime, the tools, the
/// record; the tools and the record only where there are any, the runtime always.
pub proof fn shutdown_steps_are_in_order<M>(thread: ExternalView<M>)
    ensures
        ({
            let steps = shutdown_steps(thread);
            &&& forall|i: int, j: int|
                0 <= i < j < steps.len() ==> shutdown_rank(#[trigger] steps[i]) < shutdown_rank(
                    #[trigger] steps[j],
                )
            &&& steps.contains(ShutdownStep::Runtime)
            &&& steps.contains(ShutdownStep::AbortHostToolDriver) <==> thread.has_host_tools
            &&& steps.contains(ShutdownStep::HostTools) <==> thread.has_host_tools
            &&& steps.contains(ShutdownStep::Persistence) <==> thread.has_persistence
        }),
{
    let steps = shutdown_steps(thread);
    if thread.has_host_tools {
        assert(steps[0] == ShutdownStep::AbortHostToolDriver);
        assert(steps[1] == ShutdownStep::Runtime);
        assert(steps[2] == ShutdownStep::HostTools);
    } else {
        assert(steps[0] == ShutdownStep::Runtime);
    }
    if thread.has_persistence {
        assert(steps[steps.len() - 1] == ShutdownStep::Persistence);
    }
}

/// The place of a step among the steps that shut a thread down.
pub open spec fn shutdown_rank(step: ShutdownStep) -> int {
    match step {
        ShutdownStep::AbortHostToolDriver => 0,
        ShutdownStep::Runtime => 1,
        ShutdownStep::HostTools => 2,
        ShutdownStep::Persistence => 3,
    }
}

/// Failures of the runtime and of the record are fatal and say what failed and why; a failure of
/// the tools is handed on as it is.
pub proof fn failures_say_what_failed(error: AgentRuntimeError, reason: String, tools: CodexErr)
    ensures
        runtime_failure(error.deep_view()) == CodexErrView::Fatal(
            "external agent runtime failed: "@ + error.message@,
        ),
        persistence_failure(PersistenceStep::Append, reason@) == CodexErrView::Fatal(
            "failed to persist external runtime event: "@ + reason@,
        ),
        persistence_failure(PersistenceStep::Flush, reason@) == CodexErrView::Fatal(
            "failed to flush external runtime turn: "@ + reason@,
        ),
        persistence_failure(PersistenceStep::Shutdown, reason@) == CodexErrView::Fatal(
            "failed to shutdown external runtime persistence: "@ + reason@,
        ),
        persistence_failure(PersistenceStep::Read, reason@) == CodexErrView::Fatal(
            "failed to read thread: "@ + reason@,
        ),
        shutdown_failure(ShutdownFailure::Runtime(error)) == runtime_failure(error.deep_view()),
        shutdown_failure(ShutdownFailure::HostTools(tools)) == tools.deep_view(),
        shutdown_failure(ShutdownFailure::Persistence(reason)) == persistence_failure(
            PersistenceStep::Shutdown,
            reason@,
        ),
{
}

/// Tools are run exactly as the runtime asks for them: a call that it hands out is run, and the
/// next one is asked for when its result was taken. Where the runtime asks for no more, or
/// fails, nothing is run or asked for.
pub proof fn tools_are_run_as_asked(event: DriverEvent)
    ensures
        ({
            let action = driver_action(event);
            &&& event matches DriverEvent::Called(Ok(Some(call))) ==> action
                == DriverAction::Execute(call)
            &&& action is Execute ==> (event matches DriverEvent::Called(Ok(Some(_))))
            &&& action is Receive <==> (event matches DriverEvent::Returned(Ok(_)))
            &&& action is Stop <==> !(event matches DriverEvent::Called(Ok(Some(_)))) && !(
            event matches DriverEvent::Returned(Ok(_)))
        }),
{
}

/// The event that is handed on is the one that the runtime gave. A runtime that has no more is
/// dead, and one that fails is reported with its message.
pub proof fn events_are_handed_on_as_given(
    event: Result<Event, CodexErr>,
    received: Result<Option<Event>, AgentRuntimeError>,
)
    requires
        is_event_of(event, received),
    ensures
        event matches Ok(handed) ==> received == Ok::<Option<Event>, AgentRuntimeError>(
            Some(handed),
        ),
        received matches Ok(Some(_)) ==> event is Ok,
        event matches Err(CodexErr::InternalAgentDied) <==> received matches Ok(None),
        received matches Err(failure) ==> (event matches Err(CodexErr::Fatal(message)) && message@
            == "external agent runtime failed: "@ + failure.message@),
{
}

/// A new handle has the id, the data and the status that it was given, knows of tools and record
/// as it was told, and numbers its submissions from zero.
pub proof fn new_handles_are_as_given<M>(
    thread_id: Seq<char>,
    metadata: M,
    status: StatusView,
    has_host_tools: bool,
    has_persistence: bool,
    op: Op,
    step: Result<SubmitStep, CodexErr>,
)
    requires
        is_step_of(
            step,
            new_external(thread_id, metadata, status, has_host_tools, has_persistence),
            op,
        ),
    ensures
        ({
            let thread = new_external(
                thread_id,
                metadata,
                status,
                has_host_tools,
                has_persistence,
            );
            &&& thread.thread_id == thread_id
            &&& thread.metadata == metadata
            &&& thread.status == status
            &&& thread.has_host_tools == has_host_tools
            &&& thread.has_persistence == has_persistence
            &&& step matches Ok(SubmitStep::Runtime { operation, .. }) ==> operation.submission_id@
                == "external-"@ + thread_id + "-"@ + decimal(0)
        }),
{
}

} // verus!
