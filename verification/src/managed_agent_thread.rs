//! Runtime-neutral handle for a loaded agent thread.
//!
//! A managed thread is a native one or stands for a thread of an external runtime. For the
//! latter the functions here decide what happens with operations, events and shutdown; the
//! runtime, the host tools and the persistence of the thread are driven by the caller.
use vstd::prelude::*;
use vstd::string::*;

use crate::agent_runtime::{
    AgentRuntimeError, AgentRuntimeOperation, AgentRuntimeToolCall, ErrorView,
};
use crate::numbering::{next_number, number_after, numbers_do_not_repeat};
use crate::protocol::{
    AgentStatus, CodexErr, CodexErrView, Event, EventMsg, EventMsgView, Op, OpBody, StatusView,
    ThreadId, TurnItem, TurnItemView,
};
use crate::text::{decimal, decimal_is_injective, decimal_text};

verus! {

/// A thread of an external runtime, with data of the host that is carried along.
pub struct ExternalAgentThread<M> {
    thread_id: ThreadId,
    metadata: M,
    next_submission_id: u64,
    status: AgentStatus,
    has_host_tools: bool,
    has_persistence: bool,
}

/// The state of a thread of an external runtime.
pub struct ExternalView<M> {
    pub thread_id: Seq<char>,
    pub metadata: M,
    /// The number of the next submission.
    pub next_submission: u64,
    pub status: StatusView,
    /// Whether the host runs tools for the thread.
    pub has_host_tools: bool,
    /// Whether the host persists the thread.
    pub has_persistence: bool,
}

impl<M> View for ExternalAgentThread<M> {
    type V = ExternalView<M>;

    closed spec fn view(&self) -> ExternalView<M> {
        ExternalView {
            thread_id: self.thread_id.deep_view(),
            metadata: self.metadata,
            next_submission: self.next_submission_id,
            status: self.status.deep_view(),
            has_host_tools: self.has_host_tools,
            has_persistence: self.has_persistence,
        }
    }
}

/// Handle for a loaded agent thread. Callers that need a native one ask for it with
/// [`ManagedAgentThread::as_codex_thread`].
pub enum ManagedAgentThread<N, M> {
    Codex(N),
    External(ExternalAgentThread<M>),
}

/// The failure that an external runtime's failure becomes.
pub open spec fn runtime_failure(error: ErrorView) -> CodexErrView {
    CodexErrView::Fatal("external agent runtime failed: "@ + error.message)
}

/// The failure that an external runtime's failure becomes.
pub fn runtime_error(error: AgentRuntimeError) -> (failure: CodexErr)
    ensures
        failure.deep_view() == runtime_failure(error.deep_view()),
{
    let mut message = "external agent runtime failed: ".to_owned();
    message.append(error.message.as_str());
    CodexErr::Fatal(message)
}

/// Whether an operation answers a question that a tool of the host asked.
pub open spec fn answers_host(body: OpBody) -> bool {
    body is ExecApproval || body is PatchApproval || body is UserInputAnswer
        || body is RequestPermissionsResponse || body is DynamicToolResponse
        || body is ResolveElicitation
}

/// Whether an operation answers a question that a tool of the host asked.
pub fn is_host_response_op(op: &Op) -> (answers: bool)
    ensures
        answers == answers_host(op.body),
{
    match &op.body {
        OpBody::ExecApproval(_)
        | OpBody::PatchApproval(_)
        | OpBody::UserInputAnswer(_)
        | OpBody::RequestPermissionsResponse(_)
        | OpBody::DynamicToolResponse(_)
        | OpBody::ResolveElicitation(_) => true,
        _ => false,
    }
}

/// What the tools of the host do before an operation is submitted.
#[derive(Clone, Copy, Debug, PartialEq, Eq, Structural)]
pub enum HostToolsStep {
    Nothing,
    /// They run in the turn of the submission from now on.
    ResetForTurn,
    /// Those that run are cancelled.
    Interrupt,
}

/// What is to be done with an operation.
pub enum SubmitStep {
    /// The native thread takes it.
    Native(Op),
    /// The tools of the host take it.
    HostResponse(Op),
    /// The runtime takes it, after the tools of the host did their step.
    Runtime { operation: AgentRuntimeOperation, host_tools: HostToolsStep, is_shutdown: bool },
}

/// The id of a submission to a thread.
pub open spec fn submission_id_text(thread_id: Seq<char>, number: u64) -> Seq<char> {
    "external-"@ + thread_id + "-"@ + decimal(number as nat)
}

/// What the tools of the host do before an operation is submitted: a turn resets them, an
/// interruption cancels them.
pub open spec fn host_tools_step(has_host_tools: bool, body: OpBody) -> HostToolsStep {
    if !has_host_tools {
        HostToolsStep::Nothing
    } else if body is UserInput || body is InterAgentCommunication {
        HostToolsStep::ResetForTurn
    } else if body is Interrupt {
        HostToolsStep::Interrupt
    } else {
        HostToolsStep::Nothing
    }
}

/// The thread after an operation: one for the runtime takes a number.
pub open spec fn after_submit<M>(thread: ExternalView<M>, body: OpBody) -> ExternalView<M> {
    if answers_host(body) {
        thread
    } else {
        ExternalView { next_submission: next_number(thread.next_submission), ..thread }
    }
}

/// The failure that answers an answer for tools of the host where there are none.
pub open spec fn no_host_tools() -> CodexErrView {
    CodexErrView::UnsupportedOperation("external thread has no Codex host tool context"@)
}

/// Whether a step is what is to be done with an operation: an answer goes to the tools of the
/// host, where there are any, and anything else to the runtime under an id of its own.
pub open spec fn is_step_of<M>(
    step: Result<SubmitStep, CodexErr>,
    thread: ExternalView<M>,
    op: Op,
) -> bool {
    if answers_host(op.body) {
        if thread.has_host_tools {
            step == Ok::<SubmitStep, CodexErr>(SubmitStep::HostResponse(op))
        } else {
            step matches Err(error) && error.deep_view() == no_host_tools()
        }
    } else {
        step matches Ok(SubmitStep::Runtime { operation, host_tools, is_shutdown })
            && operation.op == op && operation.submission_id@ == submission_id_text(
            thread.thread_id,
            thread.next_submission,
        ) && host_tools == host_tools_step(thread.has_host_tools, op.body) && is_shutdown == (
        op.body is Shutdown)
    }
}

/// The thread after the runtime answered a submission: a shutdown that it accepts ends it.
pub open spec fn after_answer<M>(
    thread: ExternalView<M>,
    is_shutdown: bool,
    accepted: bool,
) -> ExternalView<M> {
    if is_shutdown && accepted {
        ExternalView { status: StatusView::Shutdown, ..thread }
    } else {
        thread
    }
}

/// The status that is announced to those who wait for the end of the work: one that ends it.
pub open spec fn announced(status: Option<AgentStatus>) -> Option<AgentStatus> {
    match status {
        Some(new) if is_final(new.deep_view()) => Some(new),
        _ => None,
    }
}

/// What the one who runs tools of the host for a runtime does after an event: it runs what the
/// runtime asks for, asks again when the result was taken, and stops otherwise.
pub open spec fn driver_action(event: DriverEvent) -> DriverAction {
    match event {
        DriverEvent::Called(Ok(Some(call))) => DriverAction::Execute(call),
        DriverEvent::Called(_) => DriverAction::Stop,
        DriverEvent::Returned(Ok(_)) => DriverAction::Receive,
        DriverEvent::Returned(Err(_)) => DriverAction::Stop,
    }
}

/// Whether a status ends the work of an agent.
pub open spec fn is_final(status: StatusView) -> bool {
    status is Completed || status is Errored || status is Shutdown
}

/// An entry of the record of a thread.
pub enum RolloutItem {
    EventMsg(EventMsg),
    ExternalRuntimeItem { turn_id: String, item: TurnItem },
}

/// Deep view of [`RolloutItem`].
pub enum RolloutView {
    EventMsg(EventMsgView),
    ExternalRuntimeItem { turn_id: Seq<char>, item: TurnItemView },
}

impl DeepView for RolloutItem {
    type V = RolloutView;

    open spec fn deep_view(&self) -> RolloutView {
        match self {
            RolloutItem::EventMsg(msg) => RolloutView::EventMsg(msg.deep_view()),
            RolloutItem::ExternalRuntimeItem { turn_id, item } => RolloutView::ExternalRuntimeItem {
                turn_id: turn_id@,
                item: item.deep_view(),
            },
        }
    }
}

/// What is recorded of an event: the event, and of a complete item the item too.
pub open spec fn rollout_of(msg: EventMsgView) -> Seq<RolloutView> {
    match msg {
        EventMsgView::ItemCompleted { turn_id, item, .. } => seq![
            RolloutView::EventMsg(msg),
            RolloutView::ExternalRuntimeItem { turn_id, item },
        ],
        _ => seq![RolloutView::EventMsg(msg)],
    }
}

/// Whether the record is flushed after an event: the turn is over.
pub open spec fn flushes_after(msg: EventMsgView) -> bool {
    msg is TurnComplete || msg is TurnAborted
}

/// What came of an event that was taken in.
pub struct Observed {
    /// The status that is announced to those who wait for the end of the work.
    pub completion: Option<AgentStatus>,
    /// What is to be done with the event.
    pub delivery: Delivery,
}

/// What is to be done with an event: it is recorded, where the host persists the thread, and
/// then handed out.
pub enum Delivery {
    Append(Appending),
    Flush(Flushing),
    HandOut(Event),
}

/// An event of which entries are appended to the record.
pub struct Appending {
    event: Event,
    items: Vec<RolloutItem>,
    flush: bool,
}

/// An event whose entries are in the record, which is flushed.
pub struct Flushing {
    event: Event,
}

/// View of [`Appending`].
pub struct AppendingView {
    pub event: Event,
    /// The entries that are appended.
    pub items: Seq<RolloutView>,
    /// Whether the record is flushed then.
    pub flush: bool,
}

/// View of [`Delivery`].
pub enum DeliveryView {
    Append(AppendingView),
    Flush { event: Event },
    HandOut { event: Event },
}

impl View for Appending {
    type V = AppendingView;

    closed spec fn view(&self) -> AppendingView {
        AppendingView { event: self.event, items: self.items.deep_view(), flush: self.flush }
    }
}

impl View for Flushing {
    type V = Event;

    closed spec fn view(&self) -> Event {
        self.event
    }
}

impl View for Delivery {
    type V = DeliveryView;

    open spec fn view(&self) -> DeliveryView {
        match self {
            Delivery::Append(appending) => DeliveryView::Append(appending@),
            Delivery::Flush(flushing) => DeliveryView::Flush { event: flushing@ },
            Delivery::HandOut(event) => DeliveryView::HandOut { event: *event },
        }
    }
}

/// What is to be done with an event first.
pub open spec fn delivery_of(event: Event, has_persistence: bool) -> DeliveryView {
    if has_persistence {
        DeliveryView::Append(
            AppendingView {
                event,
                items: rollout_of(event.msg.deep_view()),
                flush: flushes_after(event.msg.deep_view()),
            },
        )
    } else {
        DeliveryView::HandOut { event }
    }
}

/// What is to be done with an event after an attempt to record it. The record is flushed only
/// after the entries are in it; a failure ends the delivery.
pub open spec fn after_recording(
    delivery: DeliveryView,
    outcome: Result<(), String>,
) -> Result<DeliveryView, CodexErrView> {
    match (delivery, outcome) {
        (DeliveryView::Append(_), Err(error)) => Err(
            persistence_failure(PersistenceStep::Append, error@),
        ),
        (DeliveryView::Append(appending), Ok(_)) => if appending.flush {
            Ok(DeliveryView::Flush { event: appending.event })
        } else {
            Ok(DeliveryView::HandOut { event: appending.event })
        },
        (DeliveryView::Flush { .. }, Err(error)) => Err(
            persistence_failure(PersistenceStep::Flush, error@),
        ),
        (DeliveryView::Flush { event }, Ok(_)) => Ok(DeliveryView::HandOut { event }),
        (DeliveryView::HandOut { .. }, _) => Ok(delivery),
    }
}

impl Appending {
    /// The entries that are appended.
    pub fn items(&self) -> (items: &Vec<RolloutItem>)
        ensures
            items.deep_view() == self@.items,
    {
        &self.items
    }

    /// Takes in what came of appending the entries.
    pub fn appended(self, outcome: Result<(), String>) -> (next: Result<Delivery, CodexErr>)
        ensures
            match next {
                Ok(delivery) => after_recording(DeliveryView::Append(self@), outcome) == Ok::<
                    DeliveryView,
                    CodexErrView,
                >(delivery@),
                Err(error) => after_recording(DeliveryView::Append(self@), outcome) == Err::<
                    DeliveryView,
                    CodexErrView,
                >(error.deep_view()),
            },
    {
        match outcome {
            Ok(_) => {
                if self.flush {
                    Ok(Delivery::Flush(Flushing { event: self.event }))
                } else {
                    Ok(Delivery::HandOut(self.event))
                }
            },
            Err(error) => Err(persistence_error(PersistenceStep::Append, error.as_str())),
        }
    }
}

impl Flushing {
    /// Takes in what came of flushing the record.
    pub fn flushed(self, outcome: Result<(), String>) -> (next: Result<Delivery, CodexErr>)
        ensures
            match next {
                Ok(delivery) => after_recording(DeliveryView::Flush { event: self@ }, outcome) == Ok::<
                    DeliveryView,
                    CodexErrView,
                >(delivery@),
                Err(error) => after_recording(DeliveryView::Flush { event: self@ }, outcome) == Err::<
                    DeliveryView,
                    CodexErrView,
                >(error.deep_view()),
            },
    {
        match outcome {
            Ok(_) => Ok(Delivery::HandOut(self.event)),
            Err(error) => Err(persistence_error(PersistenceStep::Flush, error.as_str())),
        }
    }
}

/// The entries that an event adds to the record.
fn rollout_items(event: &Event) -> (items: Vec<RolloutItem>)
    ensures
        items.deep_view() == rollout_of(event.msg.deep_view()),
{
    let mut items: Vec<RolloutItem> = Vec::new();
    let first = RolloutItem::EventMsg(event.msg.clone());
    items.push(first);
    assert(items.deep_view() =~= seq![first.deep_view()]);
    if let EventMsg::ItemCompleted(completed) = &event.msg {
        let second = RolloutItem::ExternalRuntimeItem {
            turn_id: completed.turn_id.clone(),
            item: completed.item.clone(),
        };
        items.push(second);
        assert(items.deep_view() =~= seq![first.deep_view(), second.deep_view()]);
    }
    assert(items.deep_view() =~= rollout_of(event.msg.deep_view()));
    items
}

/// The thread after an event that puts the agent in a status, where it does.
pub open spec fn after_event<M>(
    thread: ExternalView<M>,
    status: Option<StatusView>,
) -> ExternalView<M> {
    match status {
        Some(new) => ExternalView { status: new, ..thread },
        None => thread,
    }
}

/// What shutting a thread down consists of, in order.
#[derive(Clone, Copy, Debug, PartialEq, Eq, Structural)]
pub enum ShutdownStep {
    /// No further tool of the host is run.
    AbortHostToolDriver,
    Runtime,
    HostTools,
    Persistence,
}

/// The steps that shut a thread down.
pub open spec fn shutdown_steps<M>(thread: ExternalView<M>) -> Seq<ShutdownStep> {
    (if thread.has_host_tools {
        seq![ShutdownStep::AbortHostToolDriver, ShutdownStep::Runtime, ShutdownStep::HostTools]
    } else {
        seq![ShutdownStep::Runtime]
    }) + (if thread.has_persistence {
        seq![ShutdownStep::Persistence]
    } else {
        Seq::empty()
    })
}

/// An attempt to shut a thread down.
pub struct ShutdownAttempt {
    steps: Vec<ShutdownStep>,
    done: usize,
}

/// How far an attempt to shut a thread down has come.
pub struct AttemptView {
    pub steps: Seq<ShutdownStep>,
    /// How many of the steps are done.
    pub done: nat,
}

impl View for ShutdownAttempt {
    type V = AttemptView;

    closed spec fn view(&self) -> AttemptView {
        AttemptView { steps: self.steps@, done: self.done as nat }
    }
}

/// Why a step of an attempt to shut down failed.
pub enum ShutdownFailure {
    Runtime(AgentRuntimeError),
    HostTools(CodexErr),
    /// The persistence of the thread failed, with a message.
    Persistence(String),
}

/// The failure that an attempt to shut down ends in.
pub open spec fn shutdown_failure(failure: ShutdownFailure) -> CodexErrView {
    match failure {
        ShutdownFailure::Runtime(error) => runtime_failure(error.deep_view()),
        ShutdownFailure::HostTools(error) => error.deep_view(),
        ShutdownFailure::Persistence(error) => persistence_failure(
            PersistenceStep::Shutdown,
            error@,
        ),
    }
}

/// The step that an attempt to shut down is at, `None` after the last.
pub open spec fn step_of(attempt: AttemptView) -> Option<ShutdownStep> {
    if attempt.done < attempt.steps.len() {
        Some(attempt.steps[attempt.done as int])
    } else {
        None
    }
}

/// An attempt to shut down after the step that it is at. A failure ends it; after the last step
/// nothing is left.
pub open spec fn after_step(
    attempt: AttemptView,
    outcome: Result<(), ShutdownFailure>,
) -> Result<AttemptView, CodexErrView> {
    if step_of(attempt) is None {
        Ok(attempt)
    } else {
        match outcome {
            Ok(_) => Ok(AttemptView { done: attempt.done + 1, ..attempt }),
            Err(failure) => Err(shutdown_failure(failure)),
        }
    }
}

/// A thread after the step that an attempt to shut it down is at: the last step shuts it down,
/// anything else leaves it as it is.
pub open spec fn thread_after_step<M>(
    thread: ExternalView<M>,
    attempt: AttemptView,
    outcome: Result<(), ShutdownFailure>,
) -> ExternalView<M> {
    if outcome is Ok && attempt.done + 1 == attempt.steps.len() {
        ExternalView { status: StatusView::Shutdown, ..thread }
    } else {
        thread
    }
}

impl ShutdownAttempt {
    /// The step that the attempt is at, `None` after the last.
    pub fn step(&self) -> (step: Option<ShutdownStep>)
        ensures
            step == step_of(self@),
    {
        if self.done < self.steps.len() {
            Some(self.steps[self.done])
        } else {
            None
        }
    }
}

/// Where the record of a thread is read.
#[derive(Clone, Copy, Debug, PartialEq, Eq, Structural)]
pub enum ThreadReader {
    Native,
    Persistence,
}

/// What the persistence of a thread failed to do.
pub enum PersistenceStep {
    Append,
    Flush,
    Shutdown,
    Read,
}

/// The failure of the persistence of a thread.
pub open spec fn persistence_failure(step: PersistenceStep, error: Seq<char>) -> CodexErrView {
    CodexErrView::Fatal(
        (match step {
            PersistenceStep::Append => "failed to persist external runtime event: "@,
            PersistenceStep::Flush => "failed to flush external runtime turn: "@,
            PersistenceStep::Shutdown => "failed to shutdown external runtime persistence: "@,
            PersistenceStep::Read => "failed to read thread: "@,
        }) + error,
    )
}

/// The failure of the persistence of a thread.
pub fn persistence_error(step: PersistenceStep, error: &str) -> (failure: CodexErr)
    ensures
        failure.deep_view() == persistence_failure(step, error@),
{
    let mut message = match step {
        PersistenceStep::Append => "failed to persist external runtime event: ".to_owned(),
        PersistenceStep::Flush => "failed to flush external runtime turn: ".to_owned(),
        PersistenceStep::Shutdown => "failed to shutdown external runtime persistence: ".to_owned(),
        PersistenceStep::Read => "failed to read thread: ".to_owned(),
    };
    message.append(error);
    CodexErr::Fatal(message)
}

/// What happened to the one who runs tools of the host for a runtime.
pub enum DriverEvent {
    /// The runtime was asked for a call.
    Called(Result<Option<AgentRuntimeToolCall>, AgentRuntimeError>),
    /// The result of a call was handed to the runtime.
    Returned(Result<(), AgentRuntimeError>),
}

/// What the one who runs tools of the host for a runtime does next.
pub enum DriverAction {
    /// Runs a tool, and hands its result to the runtime.
    Execute(AgentRuntimeToolCall),
    /// Asks the runtime for a call.
    Receive,
    Stop,
}

/// Runs the tools that a runtime asks for, one after the other, until it asks for no more or
/// does not answer.
pub fn run_host_tool_driver(event: DriverEvent) -> (action: DriverAction)
    ensures
        action == driver_action(event),
{
    match event {
        DriverEvent::Called(Ok(Some(call))) => DriverAction::Execute(call),
        DriverEvent::Called(_) => DriverAction::Stop,
        DriverEvent::Returned(Ok(_)) => DriverAction::Receive,
        DriverEvent::Returned(Err(_)) => DriverAction::Stop,
    }
}

/// The answer to a question about a thread.
pub enum Routed<'a, N, T> {
    /// The native thread knows it.
    Native(&'a N),
    External(T),
}

/// Whether an event is the one that a runtime handed out. One that has no more events is dead.
pub open spec fn is_event_of(
    event: Result<Event, CodexErr>,
    received: Result<Option<Event>, AgentRuntimeError>,
) -> bool {
    match received {
        Ok(Some(handed)) => event == Ok::<Event, CodexErr>(handed),
        Ok(None) => event matches Err(error) && error.deep_view()
            == CodexErrView::InternalAgentDied,
        Err(failure) => event matches Err(error) && error.deep_view() == runtime_failure(
            failure.deep_view(),
        ),
    }
}

/// The thread that a handle stands for when it is made, with the status that the runtime gives.
pub open spec fn new_external<M>(
    thread_id: Seq<char>,
    metadata: M,
    status: StatusView,
    has_host_tools: bool,
    has_persistence: bool,
) -> ExternalView<M> {
    ExternalView {
        thread_id,
        metadata,
        next_submission: 0,
        status,
        has_host_tools,
        has_persistence,
    }
}

/// The event that a runtime handed out. A runtime that has no more events is dead.
pub fn received_event(received: Result<Option<Event>, AgentRuntimeError>) -> (event: Result<
    Event,
    CodexErr,
>)
    ensures
        is_event_of(event, received),
{
    match received {
        Ok(Some(event)) => Ok(event),
        Ok(None) => Err(CodexErr::InternalAgentDied),
        Err(error) => Err(runtime_error(error)),
    }
}

impl<M> ExternalAgentThread<M> {
    /// The id of the thread.
    pub fn thread_id(&self) -> (id: &ThreadId)
        ensures
            id.deep_view() == self@.thread_id,
    {
        &self.thread_id
    }

    /// The data of the host that is carried along.
    pub fn metadata(&self) -> (metadata: &M)
        ensures
            *metadata == self@.metadata,
    {
        &self.metadata
    }

    /// Where the agent stands.
    pub fn agent_status(&self) -> (status: AgentStatus)
        ensures
            status.deep_view() == self@.status,
    {
        self.status.clone()
    }

    /// Whether the agent works on a turn.
    pub fn is_turn_active(&self) -> (active: bool)
        ensures
            active == (self@.status is Running),
    {
        match &self.status {
            AgentStatus::Running => true,
            _ => false,
        }
    }

    /// Whether the thread is shut down.
    pub fn is_terminated(&self) -> (terminated: bool)
        ensures
            terminated == (self@.status is Shutdown),
    {
        match &self.status {
            AgentStatus::Shutdown => true,
            _ => false,
        }
    }

    /// Takes in an operation: whom it goes to.
    fn submit(&mut self, op: Op) -> (step: Result<SubmitStep, CodexErr>)
        ensures
            final(self)@ == after_submit(old(self)@, op.body),
            is_step_of(step, old(self)@, op),
    {
        if is_host_response_op(&op) {
            if !self.has_host_tools {
                return Err(
                    CodexErr::UnsupportedOperation(
                        "external thread has no Codex host tool context".to_owned(),
                    ),
                );
            }
            return Ok(SubmitStep::HostResponse(op));
        }
        let is_shutdown = matches!(&op.body, OpBody::Shutdown);
        let number: u64 = self.next_submission_id;
        self.next_submission_id = number.wrapping_add(1);
        let mut submission_id = "external-".to_owned();
        submission_id.append(self.thread_id.value.as_str());
        submission_id.append("-");
        submission_id.append(decimal_text(number).as_str());
        let host_tools = if !self.has_host_tools {
            HostToolsStep::Nothing
        } else {
            match &op.body {
                OpBody::UserInput { .. }
                | OpBody::InterAgentCommunication { .. } => HostToolsStep::ResetForTurn,
                OpBody::Interrupt => HostToolsStep::Interrupt,
                _ => HostToolsStep::Nothing,
            }
        };
        let operation = AgentRuntimeOperation { submission_id, op };
        Ok(SubmitStep::Runtime { operation, host_tools, is_shutdown })
    }

    /// Takes in the answer of the runtime to an operation: the id of the submission.
    pub fn finish_submit(
        &mut self,
        submission_id: String,
        is_shutdown: bool,
        reply: Result<(), AgentRuntimeError>,
    ) -> (submitted: Result<String, CodexErr>)
        ensures
            final(self)@ == after_answer(old(self)@, is_shutdown, reply is Ok),
            match reply {
                Ok(_) => submitted == Ok::<String, CodexErr>(submission_id),
                Err(failure) => submitted matches Err(error) && error.deep_view()
                    == runtime_failure(failure.deep_view()),
            },
    {
        match reply {
            Ok(_) => {
                if is_shutdown {
                    self.status = AgentStatus::Shutdown;
                }
                Ok(submission_id)
            },
            Err(error) => Err(runtime_error(error)),
        }
    }

    /// Takes in an event before it is handed out, with the status that it puts the agent in,
    /// where it does.
    pub fn observe(&mut self, event: Event, status: Option<AgentStatus>) -> (observed: Observed)
        ensures
            final(self)@ == after_event(old(self)@, status.deep_view()),
            observed.completion == announced(status),
            observed.delivery@ == delivery_of(event, old(self)@.has_persistence),
    {
        let mut completion: Option<AgentStatus> = None;
        if let Some(new) = status {
            let ends = match &new {
                AgentStatus::Completed(_) | AgentStatus::Errored(_) | AgentStatus::Shutdown => true,
                _ => false,
            };
            self.status = new.clone();
            if ends {
                completion = Some(new);
            }
        }
        let delivery = if self.has_persistence {
            let items = rollout_items(&event);
            let flush = match &event.msg {
                EventMsg::TurnComplete(_) | EventMsg::TurnAborted(_) => true,
                _ => false,
            };
            Delivery::Append(Appending { event, items, flush })
        } else {
            Delivery::HandOut(event)
        };
        Observed { completion, delivery }
    }

    /// Begins an attempt to shut the thread down.
    pub fn begin_shutdown(&self) -> (attempt: ShutdownAttempt)
        ensures
            attempt@ == (AttemptView { steps: shutdown_steps(self@), done: 0 }),
    {
        let mut steps: Vec<ShutdownStep> = Vec::new();
        if self.has_host_tools {
            steps.push(ShutdownStep::AbortHostToolDriver);
        }
        steps.push(ShutdownStep::Runtime);
        if self.has_host_tools {
            steps.push(ShutdownStep::HostTools);
        }
        if self.has_persistence {
            steps.push(ShutdownStep::Persistence);
        }
        assert(steps@ =~= shutdown_steps(self@));
        ShutdownAttempt { steps, done: 0 }
    }

    /// Takes in what came of the step that an attempt to shut down is at. The first failure
    /// ends the attempt; after the last step the thread is shut down.
    pub fn finish_shutdown_step(
        &mut self,
        attempt: ShutdownAttempt,
        outcome: Result<(), ShutdownFailure>,
    ) -> (next: Result<ShutdownAttempt, CodexErr>)
        ensures
            final(self)@ == thread_after_step(old(self)@, attempt@, outcome),
            match next {
                Ok(further) => after_step(attempt@, outcome) == Ok::<AttemptView, CodexErrView>(
                    further@,
                ),
                Err(error) => after_step(attempt@, outcome) == Err::<AttemptView, CodexErrView>(
                    error.deep_view(),
                ),
            },
    {
        if attempt.done >= attempt.steps.len() {
            return Ok(attempt);
        }
        match outcome {
            Ok(_) => {
                let done: usize = attempt.done + 1;
                if done == attempt.steps.len() {
                    self.status = AgentStatus::Shutdown;
                }
                Ok(ShutdownAttempt { steps: attempt.steps, done })
            },
            Err(ShutdownFailure::Runtime(error)) => Err(runtime_error(error)),
            Err(ShutdownFailure::HostTools(error)) => Err(error),
            Err(ShutdownFailure::Persistence(error)) => Err(
                persistence_error(PersistenceStep::Shutdown, error.as_str()),
            ),
        }
    }
}

impl<N, M> ManagedAgentThread<N, M> {
    /// The handle of a native thread.
    pub fn codex(thread: N) -> (managed: Self)
        ensures
            managed == ManagedAgentThread::<N, M>::Codex(thread),
    {
        ManagedAgentThread::Codex(thread)
    }

    /// The handle of a thread of an external runtime, with the status that the runtime gives.
    pub fn external(
        thread_id: ThreadId,
        metadata: M,
        status: Result<AgentStatus, AgentRuntimeError>,
        has_host_tools: bool,
        has_persistence: bool,
    ) -> (managed: Result<Self, CodexErr>)
        ensures
            match (status, managed) {
                (Ok(given), Ok(ManagedAgentThread::External(thread))) => thread@ == new_external(
                    thread_id.deep_view(),
                    metadata,
                    given.deep_view(),
                    has_host_tools,
                    has_persistence,
                ),
                (Err(failure), Err(error)) => error.deep_view() == runtime_failure(
                    failure.deep_view(),
                ),
                _ => false,
            },
    {
        match status {
            Ok(status) => Ok(
                ManagedAgentThread::External(
                    ExternalAgentThread {
                        thread_id,
                        metadata,
                        next_submission_id: 0,
                        status,
                        has_host_tools,
                        has_persistence,
                    },
                ),
            ),
            Err(error) => Err(runtime_error(error)),
        }
    }

    /// The native thread, where it is one.
    pub fn as_codex_thread(&self) -> (thread: Option<&N>)
        ensures
            match (*self, thread) {
                (ManagedAgentThread::Codex(native), Some(found)) => native == *found,
                (ManagedAgentThread::External(_), None) => true,
                _ => false,
            },
    {
        match self {
            ManagedAgentThread::Codex(thread) => Some(thread),
            ManagedAgentThread::External(_) => None,
        }
    }

    /// The id of the thread.
    pub fn thread_id<'a>(&'a self) -> (id: Routed<'a, N, &'a ThreadId>)
        ensures
            match (*self, id) {
                (ManagedAgentThread::Codex(native), Routed::Native(found)) => native == *found,
                (ManagedAgentThread::External(thread), Routed::External(known)) => known.deep_view()
                    == thread@.thread_id,
                _ => false,
            },
    {
        match self {
            ManagedAgentThread::Codex(thread) => Routed::Native(thread),
            ManagedAgentThread::External(thread) => Routed::External(thread.thread_id()),
        }
    }

    /// Where the agent stands.
    pub fn agent_status<'a>(&'a self) -> (status: Routed<'a, N, AgentStatus>)
        ensures
            match (*self, status) {
                (ManagedAgentThread::Codex(native), Routed::Native(found)) => native == *found,
                (ManagedAgentThread::External(thread), Routed::External(known)) => known.deep_view()
                    == thread@.status,
                _ => false,
            },
    {
        match self {
            ManagedAgentThread::Codex(thread) => Routed::Native(thread),
            ManagedAgentThread::External(thread) => Routed::External(thread.agent_status()),
        }
    }

    /// Whether the agent works on a turn.
    pub fn is_turn_active<'a>(&'a self) -> (active: Routed<'a, N, bool>)
        ensures
            match (*self, active) {
                (ManagedAgentThread::Codex(native), Routed::Native(found)) => native == *found,
                (ManagedAgentThread::External(thread), Routed::External(known)) => known == (
                thread@.status is Running),
                _ => false,
            },
    {
        match self {
            ManagedAgentThread::Codex(thread) => Routed::Native(thread),
            ManagedAgentThread::External(thread) => Routed::External(thread.is_turn_active()),
        }
    }

    /// Begins an attempt to shut the thread down.
    pub fn shutdown_and_wait<'a>(&'a self) -> (attempt: Routed<'a, N, ShutdownAttempt>)
        ensures
            match (*self, attempt) {
                (ManagedAgentThread::Codex(native), Routed::Native(found)) => native == *found,
                (ManagedAgentThread::External(thread), Routed::External(begun)) => begun@ == (
                AttemptView { steps: shutdown_steps(thread@), done: 0 }),
                _ => false,
            },
    {
        match self {
            ManagedAgentThread::Codex(thread) => Routed::Native(thread),
            ManagedAgentThread::External(thread) => Routed::External(thread.begin_shutdown()),
        }
    }

    /// Takes in an operation: whom it goes to.
    pub fn submit(&mut self, op: Op) -> (step: Result<SubmitStep, CodexErr>)
        ensures
            match (*old(self), *final(self)) {
                (ManagedAgentThread::Codex(before), ManagedAgentThread::Codex(after)) => before
                    == after && step == Ok::<SubmitStep, CodexErr>(SubmitStep::Native(op)),
                (ManagedAgentThread::External(before), ManagedAgentThread::External(after)) => {
                    &&& after@ == after_submit(before@, op.body)
                    &&& is_step_of(step, before@, op)
                },
                _ => false,
            },
    {
        match self {
            ManagedAgentThread::Codex(_) => Ok(SubmitStep::Native(op)),
            ManagedAgentThread::External(thread) => thread.submit(op),
        }
    }

    /// Where the record of the thread is read; a thread that the host does not persist has none.
    pub fn read_thread(&self) -> (reader: Result<ThreadReader, CodexErr>)
        ensures
            match *self {
                ManagedAgentThread::Codex(_) => reader == Ok::<ThreadReader, CodexErr>(
                    ThreadReader::Native,
                ),
                ManagedAgentThread::External(thread) => if thread@.has_persistence {
                    reader == Ok::<ThreadReader, CodexErr>(ThreadReader::Persistence)
                } else {
                    reader matches Err(error) && error.deep_view()
                        == CodexErrView::UnsupportedOperation(
                        "thread "@ + thread@.thread_id + " has no host persistence"@,
                    )
                },
            },
    {
        match self {
            ManagedAgentThread::Codex(_) => Ok(ThreadReader::Native),
            ManagedAgentThread::External(thread) => {
                if thread.has_persistence {
                    return Ok(ThreadReader::Persistence);
                }
                let mut message = "thread ".to_owned();
                message.append(thread.thread_id.value.as_str());
                message.append(" has no host persistence");
                Err(CodexErr::UnsupportedOperation(message))
            },
        }
    }
}

/// Submissions to a thread have different ids as long as fewer than all numbers lie between
/// them.
pub proof fn submission_ids_are_distinct(
    thread_id: Seq<char>,
    number: u64,
    earlier: nat,
    later: nat,
)
    requires
        earlier < later < earlier + 0x1_0000_0000_0000_0000,
    ensures
        submission_id_text(thread_id, number_after(number, earlier)) != submission_id_text(
            thread_id,
            number_after(number, later),
        ),
{
    numbers_do_not_repeat(number, earlier, later);
    let first = number_after(number, earlier);
    let second = number_after(number, later);
    let prefix = "external-"@ + thread_id + "-"@;
    if submission_id_text(thread_id, first) == submission_id_text(thread_id, second) {
        assert(submission_id_text(thread_id, first).skip(prefix.len() as int) =~= decimal(
            first as nat,
        ));
        assert(submission_id_text(thread_id, second).skip(prefix.len() as int) =~= decimal(
            second as nat,
        ));
        decimal_is_injective(first as nat, second as nat);
    }
}

/// An operation takes a number exactly when it goes to the runtime, and changes nothing else.
pub proof fn submissions_only_count<M>(thread: ExternalView<M>, body: OpBody)
    ensures
        after_submit(thread, body).thread_id == thread.thread_id,
        after_submit(thread, body).status == thread.status,
        after_submit(thread, body).has_host_tools == thread.has_host_tools,
        after_submit(thread, body).has_persistence == thread.has_persistence,
        after_submit(thread, body).metadata == thread.metadata,
        (after_submit(thread, body).next_submission == thread.next_submission) == answers_host(
            body,
        ),
{
}

/// The record of a thread starts each entry with the event itself and holds it once; only a
/// complete item adds another entry.
pub proof fn every_event_is_recorded(msg: EventMsgView)
    ensures
        rollout_of(msg).len() == if msg is ItemCompleted {
            2nat
        } else {
            1nat
        },
        rollout_of(msg)[0] == RolloutView::EventMsg(msg),
        msg matches EventMsgView::ItemCompleted { turn_id, item, .. } ==> rollout_of(msg)[1]
            == (RolloutView::ExternalRuntimeItem { turn_id, item }),
{
}

/// Shutting down always reaches the runtime, stops the tools of the host before it, and
/// closes the record last.
pub proof fn shutdown_is_ordered<M>(thread: ExternalView<M>)
    ensures
        shutdown_steps(thread).contains(ShutdownStep::Runtime),
        thread.has_host_tools ==> shutdown_steps(thread)[0] == ShutdownStep::AbortHostToolDriver,
        thread.has_persistence ==> shutdown_steps(thread).last() == ShutdownStep::Persistence,
        shutdown_steps(thread).no_duplicates(),
{
    let steps = shutdown_steps(thread);
    if thread.has_host_tools {
        assert(steps[1] == ShutdownStep::Runtime);
    } else {
        assert(steps[0] == ShutdownStep::Runtime);
    }
}

/// An event of a persisted thread is appended first, with exactly its entries. A failed append
/// ends the delivery as a fatal failure. After a successful one the record is flushed exactly
/// where the turn is over; a failed flush ends the delivery as a fatal failure. Otherwise the
/// event is handed out.
pub proof fn recorded_events_are_handed_out(
    event: Event,
    append: Result<(), String>,
    flush: Result<(), String>,
)
    ensures
        ({
            let first = delivery_of(event, true);
            let second = after_recording(first, append);
            &&& first matches DeliveryView::Append(appending) && appending.event == event
                && appending.items == rollout_of(event.msg.deep_view())
            &&& match append {
                Err(error) => second == Err::<DeliveryView, CodexErrView>(
                    persistence_failure(PersistenceStep::Append, error@),
                ),
                Ok(_) => if flushes_after(event.msg.deep_view()) {
                    second == Ok::<DeliveryView, CodexErrView>(DeliveryView::Flush { event })
                        && after_recording(second->Ok_0, flush) == match flush {
                        Ok(_) => Ok::<DeliveryView, CodexErrView>(DeliveryView::HandOut { event }),
                        Err(error) => Err::<DeliveryView, CodexErrView>(
                            persistence_failure(PersistenceStep::Flush, error@),
                        ),
                    }
                } else {
                    second == Ok::<DeliveryView, CodexErrView>(DeliveryView::HandOut { event })
                },
            }
        }),
{
}

/// An event of a thread that is not persisted is handed out at once.
pub proof fn unrecorded_events_are_handed_out(event: Event)
    ensures
        delivery_of(event, false) == (DeliveryView::HandOut { event }),
{
}

/// An attempt to shut a thread down, and the thread, after what came of the steps one by one.
pub open spec fn after_steps<M>(
    thread: ExternalView<M>,
    outcomes: Seq<Result<(), ShutdownFailure>>,
) -> (ExternalView<M>, Result<AttemptView, CodexErrView>)
    decreases outcomes.len(),
{
    if outcomes.len() == 0 {
        (thread, Ok(AttemptView { steps: shutdown_steps(thread), done: 0 }))
    } else {
        let earlier = after_steps(thread, outcomes.drop_last());
        match earlier.1 {
            Ok(attempt) => (
                thread_after_step(earlier.0, attempt, outcomes.last()),
                after_step(attempt, outcomes.last()),
            ),
            Err(error) => (earlier.0, Err(error)),
        }
    }
}

/// As long as steps succeed, the next one comes; the thread is shut down with the last and
/// unchanged before.
pub proof fn shutdown_is_set_after_the_last_step<M>(
    thread: ExternalView<M>,
    outcomes: Seq<Result<(), ShutdownFailure>>,
)
    requires
        outcomes.len() <= shutdown_steps(thread).len(),
        forall|i: int| 0 <= i < outcomes.len() ==> #[trigger] outcomes[i] is Ok,
    ensures
        after_steps(thread, outcomes).1 == Ok::<AttemptView, CodexErrView>(
            AttemptView { steps: shutdown_steps(thread), done: outcomes.len() },
        ),
        after_steps(thread, outcomes).0 == if outcomes.len() == shutdown_steps(thread).len() {
            ExternalView { status: StatusView::Shutdown, ..thread }
        } else {
            thread
        },
    decreases outcomes.len(),
{
    if outcomes.len() > 0 {
        let earlier = outcomes.drop_last();
        assert forall|i: int| 0 <= i < earlier.len() implies #[trigger] earlier[i] is Ok by {
            assert(earlier[i] == outcomes[i]);
        }
        shutdown_is_set_after_the_last_step(thread, earlier);
        assert(outcomes[outcomes.len() - 1] is Ok);
    }
}

/// The first step that fails ends the attempt with its failure and leaves the thread as it was,
/// whatever comes after it.
pub proof fn failed_shutdown_changes_nothing<M>(
    thread: ExternalView<M>,
    outcomes: Seq<Result<(), ShutdownFailure>>,
    failed: int,
)
    requires
        0 <= failed < outcomes.len(),
        failed < shutdown_steps(thread).len(),
        forall|i: int| 0 <= i < failed ==> #[trigger] outcomes[i] is Ok,
        outcomes[failed] is Err,
    ensures
        after_steps(thread, outcomes) == (
            thread,
            Err::<AttemptView, CodexErrView>(shutdown_failure(outcomes[failed]->Err_0)),
        ),
    decreases outcomes.len(),
{
    let earlier = outcomes.drop_last();
    if failed == outcomes.len() - 1 {
        assert forall|i: int| 0 <= i < earlier.len() implies #[trigger] earlier[i] is Ok by {
            assert(earlier[i] == outcomes[i]);
        }
        shutdown_is_set_after_the_last_step(thread, earlier);
    } else {
        assert forall|i: int| 0 <= i < failed implies #[trigger] earlier[i] is Ok by {
            assert(earlier[i] == outcomes[i]);
        }
        assert(earlier[failed] == outcomes[failed]);
        failed_shutdown_changes_nothing(thread, earlier, failed);
    }
}

} // verus!
