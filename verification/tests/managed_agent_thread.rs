use agent_runtime::agent_runtime::{AgentRuntimeError, AgentRuntimeErrorKind, AgentRuntimeToolCall};
use agent_runtime::managed_agent_thread::{
    is_host_response_op, persistence_error, received_event, run_host_tool_driver, runtime_error,
    Appending, Delivery, DriverAction, DriverEvent, ExternalAgentThread, Flushing, HostToolsStep,
    ManagedAgentThread, PersistenceStep, RolloutItem, Routed, ShutdownAttempt, ShutdownFailure,
    ShutdownStep, SubmitStep, ThreadReader,
};
use agent_runtime::protocol::{
    AgentMessageItem, AgentStatus, CodexErr, Event, EventMsg, ItemCompletedEvent, ModeKind, Op,
    OpBody, ThreadId, TurnAbortReason, TurnAbortedEvent, TurnCompleteEvent, TurnItem,
    TurnStartedEvent,
};
use serde_json::Value;
use std::collections::VecDeque;

type Managed = ManagedAgentThread<&'static str, u8>;

fn thread_id() -> ThreadId {
    ThreadId {
        value: "thread-1".to_string(),
    }
}

fn external(has_host_tools: bool, has_persistence: bool) -> Managed {
    match Managed::external(
        thread_id(),
        7,
        Ok(AgentStatus::PendingInit),
        has_host_tools,
        has_persistence,
    ) {
        Ok(thread) => thread,
        Err(_) => panic!("external thread"),
    }
}

fn inner(thread: &mut Managed) -> &mut ExternalAgentThread<u8> {
    match thread {
        ManagedAgentThread::External(thread) => thread,
        ManagedAgentThread::Codex(_) => panic!("an external thread"),
    }
}

fn op(body: OpBody) -> Op {
    Op {
        kind: "op".to_string(),
        body,
    }
}

fn turn_started(turn_id: &str) -> Event {
    Event {
        id: turn_id.to_string(),
        msg: EventMsg::TurnStarted(TurnStartedEvent {
            turn_id: turn_id.to_string(),
            trace_id: None,
            started_at: None,
            model_context_window: None,
            collaboration_mode_kind: ModeKind::Default,
        }),
    }
}

fn turn_completed(turn_id: &str) -> Event {
    Event {
        id: turn_id.to_string(),
        msg: EventMsg::TurnComplete(TurnCompleteEvent {
            turn_id: turn_id.to_string(),
            last_agent_message: Some("done".to_string()),
            error: None,
            started_at: None,
            completed_at: None,
            duration_ms: None,
            time_to_first_token_ms: None,
        }),
    }
}

fn status(thread: &Managed) -> AgentStatus {
    match thread.agent_status() {
        Routed::External(status) => status,
        Routed::Native(_) => panic!("an external thread"),
    }
}

fn submit(thread: &mut Managed, body: OpBody) -> (String, Op, HostToolsStep, bool) {
    match thread.submit(op(body)) {
        Ok(SubmitStep::Runtime {
            operation,
            host_tools,
            is_shutdown,
        }) => (operation.submission_id, operation.op, host_tools, is_shutdown),
        _ => panic!("the runtime takes it"),
    }
}

fn failure() -> AgentRuntimeError {
    AgentRuntimeError::new(AgentRuntimeErrorKind::Protocol, "broken".to_string())
}

#[test]
fn external_thread_maps_operations_events_status_and_shutdown() {
    let mut events = VecDeque::from(vec![turn_started("turn-1"), turn_completed("turn-1")]);
    let mut thread = external(false, false);

    match thread.thread_id() {
        Routed::External(id) => assert_eq!(id, &thread_id()),
        Routed::Native(_) => panic!("an external thread"),
    }
    assert_eq!(status(&thread), AgentStatus::PendingInit);
    assert!(thread.as_codex_thread().is_none());

    let (submission_id, submitted, host_tools, is_shutdown) =
        submit(&mut thread, OpBody::Interrupt);
    assert_eq!(submission_id, "external-thread-1-0");
    assert_eq!(submitted.body, OpBody::Interrupt);
    assert_eq!(host_tools, HostToolsStep::Nothing);
    assert!(!is_shutdown);
    let submission_id = inner(&mut thread)
        .finish_submit(submission_id, is_shutdown, Ok(()))
        .expect("submit operation");
    assert_eq!(submission_id, "external-thread-1-0");

    let event = received_event(Ok(events.pop_front())).expect("turn started");
    assert!(matches!(&event.msg, EventMsg::TurnStarted(_)));
    inner(&mut thread).observe(event, Some(AgentStatus::Running));
    assert_eq!(status(&thread), AgentStatus::Running);
    assert!(matches!(thread.is_turn_active(), Routed::External(true)));

    let event = received_event(Ok(events.pop_front())).expect("turn completed");
    assert!(matches!(&event.msg, EventMsg::TurnComplete(_)));
    let done = AgentStatus::Completed(Some("done".to_string()));
    let observed = inner(&mut thread).observe(event, Some(done.clone()));
    assert_eq!(observed.completion, Some(done.clone()));
    assert_eq!(status(&thread), done);

    let attempt = begin_shutdown(&thread);
    assert_eq!(attempt.step(), Some(ShutdownStep::Runtime));
    match inner(&mut thread).finish_shutdown_step(attempt, Ok(())) {
        Ok(attempt) => assert_eq!(attempt.step(), None),
        Err(_) => panic!("shutdown"),
    }
    assert_eq!(status(&thread), AgentStatus::Shutdown);
    assert!(inner(&mut thread).is_terminated());
}

#[test]
fn external_thread_reports_closed_event_stream_as_dead() {
    assert!(matches!(
        received_event(Ok(None)),
        Err(CodexErr::InternalAgentDied)
    ));
}

#[test]
fn submissions_are_numbered() {
    let mut thread = external(true, false);
    let (first, _, reset, _) = submit(&mut thread, OpBody::UserInput { items: Vec::new() });
    assert_eq!(reset, HostToolsStep::ResetForTurn);
    let (second, _, cancel, _) = submit(&mut thread, OpBody::Interrupt);
    assert_eq!(cancel, HostToolsStep::Interrupt);
    assert!(matches!(
        thread.submit(op(OpBody::ExecApproval(Value::Null))),
        Ok(SubmitStep::HostResponse(_))
    ));
    let (third, _, nothing, is_shutdown) = submit(&mut thread, OpBody::Shutdown);
    assert_eq!(nothing, HostToolsStep::Nothing);
    assert!(is_shutdown);
    assert_eq!(first, "external-thread-1-0");
    assert_eq!(second, "external-thread-1-1");
    assert_eq!(third, "external-thread-1-2");

    let error = inner(&mut thread)
        .finish_submit(second, false, Err(failure()))
        .expect_err("refused");
    assert_eq!(
        error,
        CodexErr::Fatal("external agent runtime failed: broken".to_string())
    );
    assert_eq!(status(&thread), AgentStatus::PendingInit);
    assert_eq!(
        inner(&mut thread).finish_submit(third, true, Ok(())),
        Ok("external-thread-1-2".to_string())
    );
    assert_eq!(status(&thread), AgentStatus::Shutdown);
}

#[test]
fn answers_need_host_tools() {
    let mut thread = external(false, false);
    for body in [
        OpBody::ExecApproval(Value::Null),
        OpBody::PatchApproval(Value::Null),
        OpBody::UserInputAnswer(Value::Null),
        OpBody::RequestPermissionsResponse(Value::Null),
        OpBody::DynamicToolResponse(Value::Null),
        OpBody::ResolveElicitation(Value::Null),
    ] {
        assert!(is_host_response_op(&op(body.clone())));
        match thread.submit(op(body)) {
            Err(error) => assert_eq!(
                error,
                CodexErr::UnsupportedOperation(
                    "external thread has no Codex host tool context".to_string()
                )
            ),
            Ok(_) => panic!("nobody takes the answer"),
        }
    }
    assert!(!is_host_response_op(&op(OpBody::Native(Value::Null))));
    let (id, _, _, _) = submit(&mut thread, OpBody::Native(Value::Null));
    assert_eq!(id, "external-thread-1-0");
}

#[test]
fn native_threads_answer_for_themselves() {
    let mut thread = Managed::codex("native");
    assert_eq!(thread.as_codex_thread(), Some(&"native"));
    assert!(matches!(thread.thread_id(), Routed::Native(&"native")));
    assert!(matches!(thread.agent_status(), Routed::Native(_)));
    assert!(matches!(thread.is_turn_active(), Routed::Native(_)));
    assert!(matches!(thread.shutdown_and_wait(), Routed::Native(_)));
    assert_eq!(thread.read_thread(), Ok(ThreadReader::Native));
    assert!(matches!(
        thread.submit(op(OpBody::Shutdown)),
        Ok(SubmitStep::Native(_))
    ));
}

#[test]
fn unavailable_runtimes_give_no_thread() {
    match Managed::external(thread_id(), 0, Err(failure()), false, false) {
        Err(error) => assert_eq!(
            error,
            CodexErr::Fatal("external agent runtime failed: broken".to_string())
        ),
        Ok(_) => panic!("there is no thread"),
    }
    assert!(matches!(received_event(Err(failure())), Err(CodexErr::Fatal(_))));
    assert_eq!(
        runtime_error(failure()),
        CodexErr::Fatal("external agent runtime failed: broken".to_string())
    );
}

fn item_completed() -> Event {
    Event {
        id: "t".to_string(),
        msg: EventMsg::ItemCompleted(ItemCompletedEvent {
            thread_id: thread_id(),
            turn_id: "t".to_string(),
            item: TurnItem::AgentMessage(AgentMessageItem {
                id: "m".to_string(),
                content: vec!["hi".to_string()],
                phase: None,
                memory_citation: Some(Value::Bool(true)),
            }),
            completed_at_ms: 0,
        }),
    }
}

fn turn_aborted() -> Event {
    Event {
        id: "t".to_string(),
        msg: EventMsg::TurnAborted(TurnAbortedEvent {
            turn_id: Some("t".to_string()),
            reason: TurnAbortReason::Interrupted,
            started_at: None,
            completed_at: None,
            duration_ms: None,
        }),
    }
}

fn appending(delivery: Delivery) -> Appending {
    match delivery {
        Delivery::Append(appending) => appending,
        _ => panic!("the event is recorded first"),
    }
}

fn flushing(delivery: Result<Delivery, CodexErr>) -> Flushing {
    match delivery {
        Ok(Delivery::Flush(flushing)) => flushing,
        _ => panic!("the record is flushed"),
    }
}

fn handed_out(delivery: Result<Delivery, CodexErr>) -> Event {
    match delivery {
        Ok(Delivery::HandOut(event)) => event,
        _ => panic!("the event is handed out"),
    }
}

fn failed(delivery: Result<Delivery, CodexErr>) -> CodexErr {
    match delivery {
        Ok(_) => panic!("the delivery failed"),
        Err(error) => error,
    }
}

#[test]
fn events_are_recorded() {
    let mut thread = external(false, true);
    let observed = inner(&mut thread).observe(turn_started("t"), Some(AgentStatus::Running));
    assert_eq!(observed.completion, None);
    let step = appending(observed.delivery);
    assert_eq!(step.items().len(), 1);
    assert_eq!(handed_out(step.appended(Ok(()))), turn_started("t"));

    let completed = item_completed();
    let observed = inner(&mut thread).observe(item_completed(), None);
    assert_eq!(status(&thread), AgentStatus::Running);
    let step = appending(observed.delivery);
    assert_eq!(step.items().len(), 2);
    match &step.items()[0] {
        RolloutItem::EventMsg(msg) => assert_eq!(msg, &completed.msg),
        _ => panic!("the event comes first"),
    }
    match (&step.items()[1], &completed.msg) {
        (RolloutItem::ExternalRuntimeItem { turn_id, item }, EventMsg::ItemCompleted(event)) => {
            assert_eq!(turn_id, "t");
            assert_eq!(item, &event.item);
        }
        _ => panic!("the item comes second"),
    }
    assert_eq!(handed_out(step.appended(Ok(()))), completed);

    let observed = inner(&mut thread).observe(turn_completed("t"), Some(AgentStatus::Shutdown));
    assert_eq!(observed.completion, Some(AgentStatus::Shutdown));
    let step = flushing(appending(observed.delivery).appended(Ok(())));
    assert_eq!(handed_out(step.flushed(Ok(()))), turn_completed("t"));

    let observed = inner(&mut thread).observe(turn_aborted(), None);
    let step = flushing(appending(observed.delivery).appended(Ok(())));
    assert_eq!(handed_out(step.flushed(Ok(()))), turn_aborted());
}

#[test]
fn events_of_a_fleeting_thread_are_handed_out_at_once() {
    let mut fleeting = external(false, false);
    let observed = inner(&mut fleeting).observe(
        turn_completed("t"),
        Some(AgentStatus::Errored("x".to_string())),
    );
    assert_eq!(handed_out(Ok(observed.delivery)), turn_completed("t"));
    assert_eq!(observed.completion, Some(AgentStatus::Errored("x".to_string())));
}

#[test]
fn events_that_cannot_be_recorded_are_not_handed_out() {
    let mut thread = external(false, true);
    for event in [turn_started("t"), turn_completed("t"), turn_aborted()] {
        let observed = inner(&mut thread).observe(event, None);
        assert_eq!(
            failed(appending(observed.delivery).appended(Err("full".to_string()))),
            CodexErr::Fatal("failed to persist external runtime event: full".to_string())
        );
    }
    for event in [turn_completed("t"), turn_aborted()] {
        let observed = inner(&mut thread).observe(event, None);
        let step = flushing(appending(observed.delivery).appended(Ok(())));
        assert_eq!(
            failed(step.flushed(Err("full".to_string()))),
            CodexErr::Fatal("failed to flush external runtime turn: full".to_string())
        );
    }
}

fn begin_shutdown(thread: &Managed) -> ShutdownAttempt {
    match thread.shutdown_and_wait() {
        Routed::External(attempt) => attempt,
        Routed::Native(_) => panic!("an external thread"),
    }
}

#[test]
fn shutdown_goes_step_by_step() {
    let every_step = vec![
        ShutdownStep::AbortHostToolDriver,
        ShutdownStep::Runtime,
        ShutdownStep::HostTools,
        ShutdownStep::Persistence,
    ];
    for (has_host_tools, has_persistence, steps) in [
        (true, true, every_step),
        (
            true,
            false,
            vec![
                ShutdownStep::AbortHostToolDriver,
                ShutdownStep::Runtime,
                ShutdownStep::HostTools,
            ],
        ),
        (false, true, vec![ShutdownStep::Runtime, ShutdownStep::Persistence]),
        (false, false, vec![ShutdownStep::Runtime]),
    ] {
        let mut thread = external(has_host_tools, has_persistence);
        let mut attempt = begin_shutdown(&thread);
        for step in steps {
            assert_eq!(attempt.step(), Some(step));
            assert_eq!(status(&thread), AgentStatus::PendingInit);
            assert!(!inner(&mut thread).is_terminated());
            attempt = match inner(&mut thread).finish_shutdown_step(attempt, Ok(())) {
                Ok(attempt) => attempt,
                Err(_) => panic!("the step succeeded"),
            };
        }
        assert_eq!(attempt.step(), None);
        assert_eq!(status(&thread), AgentStatus::Shutdown);
        assert!(inner(&mut thread).is_terminated());
    }
}

#[test]
fn failed_step_ends_the_shutdown() {
    for (done, failure, expected) in [
        (
            1,
            ShutdownFailure::Runtime(failure()),
            "external agent runtime failed: broken",
        ),
        (
            2,
            ShutdownFailure::HostTools(CodexErr::Fatal("tools".to_string())),
            "tools",
        ),
        (
            3,
            ShutdownFailure::Persistence("full".to_string()),
            "failed to shutdown external runtime persistence: full",
        ),
    ] {
        let mut thread = external(true, true);
        let mut attempt = begin_shutdown(&thread);
        for _ in 0..done {
            attempt = match inner(&mut thread).finish_shutdown_step(attempt, Ok(())) {
                Ok(attempt) => attempt,
                Err(_) => panic!("the step succeeded"),
            };
        }
        match inner(&mut thread).finish_shutdown_step(attempt, Err(failure)) {
            Ok(_) => panic!("the attempt failed"),
            Err(error) => assert_eq!(error, CodexErr::Fatal(expected.to_string())),
        }
        assert_eq!(status(&thread), AgentStatus::PendingInit);
        assert!(!inner(&mut thread).is_terminated());
    }
}

#[test]
fn records_are_read_where_they_are_kept() {
    assert_eq!(
        external(false, true).read_thread(),
        Ok(ThreadReader::Persistence)
    );
    assert_eq!(
        external(true, false).read_thread(),
        Err(CodexErr::UnsupportedOperation(
            "thread thread-1 has no host persistence".to_string()
        ))
    );
    let mut thread = external(true, false);
    assert_eq!(inner(&mut thread).metadata(), &7);
    for (step, expected) in [
        (
            PersistenceStep::Append,
            "failed to persist external runtime event: x",
        ),
        (PersistenceStep::Flush, "failed to flush external runtime turn: x"),
        (
            PersistenceStep::Shutdown,
            "failed to shutdown external runtime persistence: x",
        ),
        (PersistenceStep::Read, "failed to read thread: x"),
    ] {
        assert_eq!(
            persistence_error(step, "x"),
            CodexErr::Fatal(expected.to_string())
        );
    }
}

#[test]
fn driver_runs_until_there_is_no_call() {
    let call = AgentRuntimeToolCall {
        call_id: "c".to_string(),
        tool_name: "exec_command".to_string(),
        arguments: Value::Null,
    };
    match run_host_tool_driver(DriverEvent::Called(Ok(Some(call.clone())))) {
        DriverAction::Execute(executed) => assert_eq!(executed, call),
        _ => panic!("the call is executed"),
    }
    assert!(matches!(
        run_host_tool_driver(DriverEvent::Called(Ok(None))),
        DriverAction::Stop
    ));
    assert!(matches!(
        run_host_tool_driver(DriverEvent::Called(Err(failure()))),
        DriverAction::Stop
    ));
    assert!(matches!(
        run_host_tool_driver(DriverEvent::Returned(Ok(()))),
        DriverAction::Receive
    ));
    assert!(matches!(
        run_host_tool_driver(DriverEvent::Returned(Err(failure()))),
        DriverAction::Stop
    ));
}
