//! What the operations of the host mean for the thread that stands for a session.
//!
//! The functions here are the model of the operations in [`crate::pi_thread`]: which command an
//! operation becomes, what it changes of the thread, and how tool calls and their results
//! travel.
use vstd::prelude::*;
use vstd::utf8::*;

use crate::agent_runtime::{
    AgentRuntimeErrorKind, AgentRuntimeHostToolDefinition, AgentRuntimeOperation,
    AgentRuntimeResumeRequest, AgentRuntimeSpawnRequest, AgentRuntimeToolResult, ErrorView,
    HostToolDefinitionView, PersistenceView,
};
use crate::json::{json_member_text, json_text, json_view, JsonView};
use crate::pi_proto::{
    CommandView, HostToolRequest, HostToolResultView, HostToolView, ResponseResult,
    RuntimeErrorView, RuntimeResponse, SpawnedSession,
};
use crate::pi_translation::{turn_aborted_view, turn_of, SessionView, ThreadView};
use crate::protocol::{EventMsgView, EventView, OpBody, StatusView, UserInput};
use crate::text::joined;

verus! {

/// A failure of the protocol with the sidecar.
pub open spec fn protocol_failure(message: Seq<char>) -> ErrorView {
    ErrorView { kind: AgentRuntimeErrorKind::Protocol, message }
}

/// The text of a setting; one that is missing or no string is empty.
pub open spec fn setting(config: JsonView, key: Seq<char>) -> Seq<char> {
    match json_member_text(config, key) {
        Some(text) => text,
        None => Seq::empty(),
    }
}

/// A tool of the host as the sidecar is told of it: the schema is its compact JSON text.
pub open spec fn encoded_tool(definition: HostToolDefinitionView) -> HostToolView {
    HostToolView {
        name: definition.name,
        description: definition.description,
        input_schema_json: encode_utf8(json_text(definition.input_schema)),
    }
}

/// The tools of the host as the sidecar is told of them.
pub open spec fn encoded_tools(definitions: Seq<AgentRuntimeHostToolDefinition>) -> Seq<
    HostToolView,
> {
    definitions.map_values(
        |definition: AgentRuntimeHostToolDefinition| encoded_tool(definition.deep_view()),
    )
}

/// The model that a request asks for: the setting comes before the request.
pub open spec fn requested_model(request: AgentRuntimeSpawnRequest) -> Seq<char> {
    match json_member_text(json_view(request.runtime_config), "model"@) {
        Some(model) => model,
        None => match request.model {
            Some(model) => model@,
            None => Seq::empty(),
        },
    }
}

/// The command that opens a session.
pub open spec fn spawn_view(request: AgentRuntimeSpawnRequest) -> CommandView {
    let config = json_view(request.runtime_config);
    CommandView::Spawn {
        codex_thread_id: request.thread_id.deep_view(),
        cwd: request.cwd@,
        agent_dir: setting(config, "agent_dir"@),
        session_dir: setting(config, "session_dir"@),
        provider: setting(config, "provider"@),
        model: requested_model(request),
        thinking_level: setting(config, "thinking_level"@),
        host_tools: encoded_tools(request.host_tools@),
    }
}

/// The command that opens a persisted session again.
pub open spec fn resume_view(request: AgentRuntimeResumeRequest) -> CommandView {
    CommandView::Resume {
        codex_thread_id: request.thread_id.deep_view(),
        session_locator: request.state.session_locator@,
        cwd_override: request.cwd@,
        host_tools: encoded_tools(request.host_tools@),
        agent_dir: setting(json_view(request.state.metadata), "agent_dir"@),
    }
}

/// The failure that answers a response without data of a session.
pub open spec fn not_spawned() -> ErrorView {
    protocol_failure("Pi runtime spawn did not return spawned session metadata"@)
}

/// The session that a response tells of, where it does.
pub open spec fn spawned_session(response: RuntimeResponse) -> Option<SpawnedSession> {
    match response.result {
        Some(ResponseResult::Spawned(spawned)) => Some(spawned),
        _ => None,
    }
}

/// A thread whose session was just opened.
pub open spec fn opened(
    runtime_id: Seq<char>,
    thread_id: Seq<char>,
    agent_dir: Seq<char>,
    spawned: SpawnedSession,
) -> ThreadView {
    ThreadView {
        session: SessionView {
            runtime_id,
            thread_id,
            session_locator: spawned.session_locator@,
            provider: spawned.provider@,
            model: spawned.model@,
            thinking_level: spawned.thinking_level@,
            agent_dir,
        },
        pending_host_tools: Map::empty(),
        active_turn: None,
        interrupt_pending: false,
        status: StatusView::PendingInit,
        token_usage: None,
    }
}

/// A piece of user input as text, where the sidecar takes it.
pub open spec fn rendered_input(item: UserInput) -> Option<Seq<char>> {
    match item {
        UserInput::Text { text } => Some(text@),
        UserInput::Image { image_url } => Some("[image]("@ + image_url@ + ")"@),
        UserInput::LocalImage { path } => Some("[local image: "@ + path@ + "]"@),
        UserInput::Skill { name, path } => Some("[skill "@ + name@ + ": "@ + path@ + "]"@),
        UserInput::Mention { name, path } => Some("["@ + name@ + "]("@ + path@ + ")"@),
        UserInput::Native(_) => None,
    }
}

/// Whether the sidecar takes every piece of an input.
pub open spec fn is_renderable(items: Seq<UserInput>) -> bool {
    forall|i: int| 0 <= i < items.len() ==> rendered_input(#[trigger] items[i]) is Some
}

/// The text of an input: the pieces in order, an empty line between neighbours.
pub open spec fn rendered_inputs(items: Seq<UserInput>) -> Seq<char> {
    joined(items.map_values(|item: UserInput| rendered_input(item)->0), "\n\n"@)
}

/// The failure that answers an input that the sidecar does not take.
pub open spec fn unsupported_input() -> ErrorView {
    ErrorView {
        kind: AgentRuntimeErrorKind::UnsupportedOperation,
        message: "Pi runtime received an unsupported user input item"@,
    }
}

/// The failure that answers an operation that the sidecar does not know.
pub open spec fn unsupported_operation(kind: Seq<char>) -> ErrorView {
    ErrorView {
        kind: AgentRuntimeErrorKind::UnsupportedOperation,
        message: "Pi runtime does not support Codex operation `"@ + kind + "`"@,
    }
}

/// The command that starts a turn: a running agent gets it as a follow-up.
pub open spec fn turn_command(thread: ThreadView, text: Seq<char>) -> CommandView {
    if thread.status is Running {
        CommandView::FollowUp { text }
    } else {
        CommandView::Prompt { text }
    }
}

/// What is left to do once the session has answered a command.
pub enum FollowupView {
    Nothing,
    Interrupt { turn: Option<Seq<char>> },
    Shutdown,
}

/// The command that an operation becomes and what is left to do after the answer, or why the
/// operation is refused.
pub open spec fn submission(thread: ThreadView, operation: AgentRuntimeOperation) -> Result<
    (CommandView, FollowupView),
    ErrorView,
> {
    match operation.op.body {
        OpBody::UserInput { items } => if is_renderable(items@) {
            Ok((turn_command(thread, rendered_inputs(items@)), FollowupView::Nothing))
        } else {
            Err(unsupported_input())
        },
        OpBody::InterAgentCommunication { communication } if communication.trigger_turn => Ok(
            (turn_command(thread, communication.content@), FollowupView::Nothing),
        ),
        OpBody::Interrupt => Ok(
            (CommandView::Interrupt, FollowupView::Interrupt { turn: thread.active_turn }),
        ),
        OpBody::Shutdown => Ok((CommandView::Close, FollowupView::Shutdown)),
        _ => Err(unsupported_operation(operation.op.kind@)),
    }
}

/// The thread after an operation was submitted: a turn becomes the active one and ends an
/// interruption, an interruption takes the active turn, a refusal changes nothing.
pub open spec fn thread_after_submission(
    thread: ThreadView,
    operation: AgentRuntimeOperation,
) -> ThreadView {
    match submission(thread, operation) {
        Ok((_, FollowupView::Nothing)) => ThreadView {
            active_turn: Some(operation.submission_id@),
            interrupt_pending: false,
            ..thread
        },
        Ok((_, FollowupView::Interrupt { .. })) => ThreadView {
            active_turn: None,
            interrupt_pending: true,
            ..thread
        },
        _ => thread,
    }
}

/// The id under which an interruption is reported.
pub open spec fn interruption_id(thread: ThreadView, turn: Option<Seq<char>>) -> Seq<char> {
    match turn {
        Some(id) => id,
        None => "pi-interrupt-"@ + thread.session.thread_id,
    }
}

/// The report that a session was closed.
pub open spec fn shutdown_view(thread: ThreadView) -> EventView {
    EventView { id: thread.session.thread_id, msg: EventMsgView::ShutdownComplete }
}

/// The thread after the session has answered a command. A refused interruption gives the turn
/// back.
pub open spec fn thread_after_reply(
    thread: ThreadView,
    followup: FollowupView,
    accepted: bool,
) -> ThreadView {
    match (followup, accepted) {
        (FollowupView::Interrupt { .. }, true) => ThreadView {
            status: StatusView::Interrupted,
            ..thread
        },
        (FollowupView::Interrupt { turn }, false) => ThreadView {
            active_turn: turn,
            interrupt_pending: false,
            ..thread
        },
        (FollowupView::Shutdown, true) => ThreadView { status: StatusView::Shutdown, ..thread },
        _ => thread,
    }
}

/// Whether the session is unregistered after it has answered a command: it accepted its close.
pub open spec fn unregisters(followup: FollowupView, accepted: bool) -> bool {
    followup is Shutdown && accepted
}

/// The report that comes of an accepted command.
pub open spec fn reply_report(thread: ThreadView, followup: FollowupView) -> Option<EventView> {
    match followup {
        FollowupView::Nothing => None,
        FollowupView::Interrupt { turn } => Some(
            turn_aborted_view(interruption_id(thread, turn), turn),
        ),
        FollowupView::Shutdown => Some(shutdown_view(thread)),
    }
}

/// The failure that answers a tool request, where it is refused: it targets another session, or
/// its arguments are no JSON document.
pub open spec fn tool_request_failure(
    thread: ThreadView,
    request: HostToolRequest,
    arguments: Result<JsonView, Seq<char>>,
) -> Option<ErrorView> {
    if request.session_id@ != thread.session.thread_id {
        Some(
            protocol_failure(
                "Pi host tool request targeted session "@ + request.session_id@ + ", expected "@
                    + thread.session.thread_id,
            ),
        )
    } else {
        match arguments {
            Ok(_) => None,
            Err(message) => Some(
                protocol_failure(
                    "Pi host tool "@ + request.tool_name@ + " sent invalid arguments JSON: "@
                        + message,
                ),
            ),
        }
    }
}

/// The thread after a tool request: an accepted one waits for its result.
pub open spec fn thread_after_tool_request(
    thread: ThreadView,
    request: HostToolRequest,
    arguments: Result<JsonView, Seq<char>>,
) -> ThreadView {
    if tool_request_failure(thread, request, arguments) is None {
        ThreadView {
            pending_host_tools: thread.pending_host_tools.insert(
                request.tool_call_id@,
                request.request_id@,
            ),
            ..thread
        }
    } else {
        thread
    }
}

/// The failure that answers a result that no call waits for.
pub open spec fn no_pending_call(call_id: Seq<char>) -> ErrorView {
    protocol_failure("Pi host tool result has no pending call "@ + call_id)
}

/// What the sidecar is told of a failed tool call.
pub open spec fn tool_failure(message: Seq<char>) -> RuntimeErrorView {
    RuntimeErrorView {
        code: "host_tool_failed"@,
        message,
        retryable: false,
        details_json: Seq::empty(),
    }
}

/// The message that carries a result to the sidecar: it answers the request that waits for it.
pub open spec fn tool_result_view(thread: ThreadView, result: AgentRuntimeToolResult) -> Result<
    HostToolResultView,
    ErrorView,
> {
    if thread.pending_host_tools.contains_key(result.call_id@) {
        Ok(
            HostToolResultView {
                request_id: thread.pending_host_tools[result.call_id@],
                session_id: thread.session.thread_id,
                tool_call_id: result.call_id@,
                result_json: encode_utf8(json_text(json_view(result.output))),
                error: if result.is_error {
                    Some(tool_failure(json_text(json_view(result.output))))
                } else {
                    None
                },
            },
        )
    } else {
        Err(no_pending_call(result.call_id@))
    }
}

/// The thread after a result was handed over: the call waits no longer.
pub open spec fn thread_after_tool_result(thread: ThreadView, call_id: Seq<char>) -> ThreadView {
    ThreadView { pending_host_tools: thread.pending_host_tools.remove(call_id), ..thread }
}

/// What is kept of a thread to open its session again.
pub open spec fn persisted(thread: ThreadView) -> PersistenceView {
    PersistenceView {
        runtime_id: thread.session.runtime_id,
        session_locator: thread.session.session_locator,
        metadata: JsonView::Object(
            map![
                "provider"@ => JsonView::String(thread.session.provider),
                "model"@ => JsonView::String(thread.session.model),
                "thinking_level"@ => JsonView::String(thread.session.thinking_level),
                "agent_dir"@ => JsonView::String(thread.session.agent_dir),
            ],
        ),
    }
}

/// A thread that was just opened bears the id that the host gave it and belongs to the runtime
/// that opened it.
pub proof fn opened_thread_bears_its_id(
    runtime_id: Seq<char>,
    thread_id: Seq<char>,
    agent_dir: Seq<char>,
    spawned: SpawnedSession,
)
    ensures
        ({
            let thread = opened(runtime_id, thread_id, agent_dir, spawned);
            &&& thread.session.thread_id == thread_id
            &&& thread.session.runtime_id == runtime_id
            &&& persisted(thread).runtime_id == runtime_id
        }),
{
}

/// An operation that is refused leaves the thread as it was.
pub proof fn refused_operation_changes_nothing(
    thread: ThreadView,
    operation: AgentRuntimeOperation,
)
    requires
        submission(thread, operation) is Err,
    ensures
        thread_after_submission(thread, operation) == thread,
{
}

/// Once a turn is submitted, the events of the session belong to it.
pub proof fn submitted_turn_is_active(
    thread: ThreadView,
    operation: AgentRuntimeOperation,
    sequence: u64,
)
    requires
        submission(thread, operation) is Ok,
        submission(thread, operation)->Ok_0.1 is Nothing,
    ensures
        turn_of(thread_after_submission(thread, operation), sequence) == operation.submission_id@,
{
}

/// A turn that is submitted ends a pending interruption.
pub proof fn submitted_turn_ends_interruption(
    thread: ThreadView,
    operation: AgentRuntimeOperation,
)
    requires
        submission(thread, operation) is Ok,
        submission(thread, operation)->Ok_0.1 is Nothing,
    ensures
        !thread_after_submission(thread, operation).interrupt_pending,
{
}

/// An interruption that the session refuses leaves the thread as it was before.
pub proof fn refused_interruption_restores_the_thread(
    thread: ThreadView,
    operation: AgentRuntimeOperation,
)
    requires
        operation.op.body is Interrupt,
        !thread.interrupt_pending,
    ensures
        submission(thread, operation) is Ok,
        thread_after_reply(
            thread_after_submission(thread, operation),
            submission(thread, operation)->Ok_0.1,
            false,
        ) == thread,
{
}

/// An interruption that the session accepts is reported under the turn that was active, and
/// leaves the thread interrupted and without one.
pub proof fn accepted_interruption_ends_the_turn(
    thread: ThreadView,
    operation: AgentRuntimeOperation,
)
    requires
        operation.op.body is Interrupt,
    ensures
        ({
            let asked = thread_after_submission(thread, operation);
            let followup = submission(thread, operation)->Ok_0.1;
            let after = thread_after_reply(asked, followup, true);
            &&& submission(thread, operation) is Ok
            &&& after.status is Interrupted
            &&& after.active_turn is None
            &&& after.interrupt_pending
            &&& reply_report(asked, followup) == Some(
                turn_aborted_view(interruption_id(thread, thread.active_turn), thread.active_turn),
            )
        }),
{
}

/// No operation and no answer to one changes the identity of a session, nor the tool calls
/// that wait for a result.
pub proof fn operations_leave_the_session(
    thread: ThreadView,
    operation: AgentRuntimeOperation,
    followup: FollowupView,
    accepted: bool,
)
    ensures
        thread_after_submission(thread, operation).session == thread.session,
        thread_after_submission(thread, operation).pending_host_tools
            == thread.pending_host_tools,
        thread_after_reply(thread, followup, accepted).session == thread.session,
        thread_after_reply(thread, followup, accepted).pending_host_tools
            == thread.pending_host_tools,
{
}

/// The result of a tool call answers the request that asked for the call, and only once.
pub proof fn tool_result_answers_its_request(
    thread: ThreadView,
    request: HostToolRequest,
    arguments: Result<JsonView, Seq<char>>,
    result: AgentRuntimeToolResult,
    second: AgentRuntimeToolResult,
)
    requires
        tool_request_failure(thread, request, arguments) is None,
        result.call_id@ == request.tool_call_id@,
        second.call_id@ == request.tool_call_id@,
    ensures
        ({
            let waiting = thread_after_tool_request(thread, request, arguments);
            let answered = thread_after_tool_result(waiting, result.call_id@);
            let message = tool_result_view(waiting, result);
            &&& message is Ok
            &&& message->Ok_0.request_id == request.request_id@
            &&& message->Ok_0.session_id == request.session_id@
            &&& message->Ok_0.error is Some == result.is_error
            &&& tool_result_view(answered, second) == Err::<HostToolResultView, ErrorView>(
                no_pending_call(second.call_id@),
            )
        }),
{
}

/// A tool call that is asked for or answered leaves the other calls as they are.
pub proof fn tool_calls_are_independent(
    thread: ThreadView,
    request: HostToolRequest,
    arguments: Result<JsonView, Seq<char>>,
    other: AgentRuntimeToolResult,
)
    requires
        other.call_id@ != request.tool_call_id@,
    ensures
        tool_result_view(thread_after_tool_request(thread, request, arguments), other)
            == tool_result_view(thread, other),
        tool_result_view(thread_after_tool_result(thread, request.tool_call_id@), other)
            == tool_result_view(thread, other),
{
}

/// What is kept of a thread opens the same session again, in the same agent directory.
pub proof fn persisted_thread_resumes(thread: ThreadView, request: AgentRuntimeResumeRequest)
    requires
        request.state.deep_view() == persisted(thread),
    ensures
        ({
            let command = resume_view(request);
            &&& command->Resume_session_locator == thread.session.session_locator
            &&& command->Resume_agent_dir == thread.session.agent_dir
            &&& command->Resume_codex_thread_id == request.thread_id.deep_view()
        }),
{
}

/// A session is unregistered exactly where it accepted the close that the host asked for. The
/// thread is then shut down and reports that; after a refused close it is as it was.
pub proof fn accepted_close_ends_the_session(
    thread: ThreadView,
    operation: AgentRuntimeOperation,
    accepted: bool,
)
    requires
        submission(thread, operation) is Ok,
    ensures
        ({
            let (command, followup) = submission(thread, operation)->Ok_0;
            let submitted = thread_after_submission(thread, operation);
            let answered = thread_after_reply(submitted, followup, accepted);
            &&& unregisters(followup, accepted) <==> command == CommandView::Close && accepted
            &&& unregisters(followup, accepted) ==> answered == (ThreadView {
                status: StatusView::Shutdown,
                ..thread
            }) && reply_report(submitted, followup) == Some(shutdown_view(thread))
            &&& command == CommandView::Close && !accepted ==> answered == thread
        }),
{
}

} // verus!
