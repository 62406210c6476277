//! What the sidecar is told when a session is opened, and what is kept to open it again.
//!
//! The laws here hold the commands against the requests of the host, field by field, and the
//! thread that comes of an answer against that answer.
use vstd::prelude::*;
use vstd::utf8::*;

use crate::agent_runtime::{
    AgentRuntimeError, AgentRuntimeErrorKind, AgentRuntimeHostToolDefinition,
    AgentRuntimeOperation, AgentRuntimeResumeRequest, AgentRuntimeSpawnRequest,
    AgentRuntimeToolCall, AgentRuntimeToolResult, ErrorView,
};
use crate::json::{json_text, json_view, JsonView};
use crate::pi_history::{operations_become_their_commands, starts_turn};
use crate::pi_operations::{
    opened, persisted, resume_view, setting, spawn_view, spawned_session, submission,
    thread_after_tool_request, thread_after_tool_result, tool_request_failure, tool_result_view,
};
use crate::pi_proto::{
    CommandView, HostToolRequest, HostToolView, ResponseResult, RuntimeResponse, SpawnedSession,
};
use crate::pi_thread::{is_call_of, is_opening_of, Opening};
use crate::pi_translation::ThreadView;
use crate::protocol::StatusView;

verus! {

/// Whether the sidecar is told of tools: of each one that is listed, in its place, by its name,
/// its description and the text of its schema, and of no other.
pub open spec fn tells_of(
    told: Seq<HostToolView>,
    listed: Seq<AgentRuntimeHostToolDefinition>,
) -> bool {
    &&& told.len() == listed.len()
    &&& forall|i: int|
        0 <= i < told.len() ==> {
            &&& (#[trigger] told[i]).name == listed[i].name@
            &&& told[i].description == listed[i].description@
            &&& told[i].input_schema_json == encode_utf8(
                json_text(json_view(listed[i].input_schema)),
            )
        }
}

/// The tools of the host that a command tells of.
pub open spec fn told_tools(command: CommandView) -> Seq<HostToolView> {
    match command {
        CommandView::Spawn { host_tools, .. } => host_tools,
        CommandView::Resume { host_tools, .. } => host_tools,
        _ => Seq::empty(),
    }
}

/// A session that is opened and one that is opened again are told of every tool that the
/// request lists, in order. Requests that list the same tools tell the same of them.
pub proof fn sessions_are_told_of_every_tool(
    spawn: AgentRuntimeSpawnRequest,
    resume: AgentRuntimeResumeRequest,
)
    ensures
        tells_of(told_tools(spawn_view(spawn)), spawn.host_tools@),
        tells_of(told_tools(resume_view(resume)), resume.host_tools@),
        spawn.host_tools@ == resume.host_tools@ ==> told_tools(spawn_view(spawn)) == told_tools(
            resume_view(resume),
        ),
{
}

/// A tool that is added to the request is told of after the others, which stay as they are.
pub proof fn added_tools_are_told_last(
    fewer: AgentRuntimeResumeRequest,
    more: AgentRuntimeResumeRequest,
    added: AgentRuntimeHostToolDefinition,
)
    requires
        more.host_tools@ == fewer.host_tools@.push(added),
    ensures
        told_tools(resume_view(more)).len() == told_tools(resume_view(fewer)).len() + 1,
        told_tools(resume_view(more)).drop_last() == told_tools(resume_view(fewer)),
        told_tools(resume_view(more)).last().name == added.name@,
        told_tools(resume_view(more)).last().description == added.description@,
{
    assert(told_tools(resume_view(more)).drop_last() =~= told_tools(resume_view(fewer)));
}

/// A setting is the text that the configuration has under its name. It is empty where the
/// configuration has none, or no text there, or is no object.
pub proof fn settings_are_read_by_name(config: JsonView, key: Seq<char>)
    ensures
        match config {
            JsonView::Object(members) => {
                &&& members.contains_key(key) ==> match members[key] {
                    JsonView::String(text) => setting(config, key) == text,
                    _ => setting(config, key).len() == 0,
                }
                &&& !members.contains_key(key) ==> setting(config, key).len() == 0
            },
            _ => setting(config, key).len() == 0,
        },
{
}

/// A new session is opened for the thread and the directory of the request, with the settings of
/// its configuration.
pub proof fn new_sessions_get_their_settings(request: AgentRuntimeSpawnRequest)
    ensures
        ({
            let config = json_view(request.runtime_config);
            &&& spawn_view(request) matches CommandView::Spawn {
                codex_thread_id,
                cwd,
                agent_dir,
                session_dir,
                provider,
                thinking_level,
                ..
            }
            &&& codex_thread_id == request.thread_id.value@
            &&& cwd == request.cwd@
            &&& agent_dir == setting(config, "agent_dir"@)
            &&& session_dir == setting(config, "session_dir"@)
            &&& provider == setting(config, "provider"@)
            &&& thinking_level == setting(config, "thinking_level"@)
        }),
{
}

/// The model of the configuration comes before the one of the request, even where it is empty;
/// where neither names one, the sidecar chooses.
pub proof fn configured_model_comes_first(request: AgentRuntimeSpawnRequest)
    ensures
        ({
            let model = spawn_view(request)->Spawn_model;
            let configured = match json_view(request.runtime_config) {
                JsonView::Object(members) if members.contains_key("model"@) => Some(
                    members["model"@],
                ),
                _ => None,
            };
            &&& configured matches Some(JsonView::String(text)) ==> model == text
            &&& !(configured matches Some(JsonView::String(_))) ==> match request.model {
                Some(asked) => model == asked@,
                None => model.len() == 0,
            }
        }),
{
}

/// A session is opened again where it was kept, for the thread and the directory of the request.
pub proof fn kept_sessions_are_found_again(request: AgentRuntimeResumeRequest)
    ensures
        resume_view(request) matches CommandView::Resume {
            codex_thread_id,
            session_locator,
            cwd_override,
            agent_dir,
            ..
        } && codex_thread_id == request.thread_id.value@ && session_locator
            == request.state.session_locator@ && cwd_override == request.cwd@ && agent_dir
            == setting(json_view(request.state.metadata), "agent_dir"@),
{
}

/// The thread of a session that was opened stands for that session as the sidecar describes it,
/// and nothing happened to it yet.
pub proof fn opened_threads_are_as_answered(
    runtime_id: Seq<char>,
    thread_id: Seq<char>,
    agent_dir: Seq<char>,
    response: RuntimeResponse,
    spawned: SpawnedSession,
)
    requires
        response.result == Some(ResponseResult::Spawned(spawned)),
    ensures
        spawned_session(response) == Some(spawned),
        ({
            let thread = opened(runtime_id, thread_id, agent_dir, spawned);
            &&& thread.session.thread_id == thread_id
            &&& thread.session.runtime_id == runtime_id
            &&& thread.session.agent_dir == agent_dir
            &&& thread.session.session_locator == spawned.session_locator@
            &&& thread.session.provider == spawned.provider@
            &&& thread.session.model == spawned.model@
            &&& thread.session.thinking_level == spawned.thinking_level@
            &&& thread.pending_host_tools.dom().is_empty()
            &&& thread.active_turn is None
            &&& !thread.interrupt_pending
            &&& thread.status == StatusView::PendingInit
            &&& thread.token_usage is None
        }),
{
    assert(opened(runtime_id, thread_id, agent_dir, spawned).pending_host_tools.dom()
        =~= Set::empty());
}

/// Only an answer that tells of a session opens one.
pub proof fn only_spawned_sessions_open(response: RuntimeResponse)
    ensures
        spawned_session(response) is Some <==> response.result matches Some(
            ResponseResult::Spawned(_),
        ),
{
}

/// What is kept of a thread names its runtime and where its session is, and holds the provider,
/// the model, the thinking level and the agent directory, each under its name, and no more.
pub proof fn kept_state_describes_the_session(thread: ThreadView)
    ensures
        persisted(thread).runtime_id == thread.session.runtime_id,
        persisted(thread).session_locator == thread.session.session_locator,
        ({
            let metadata = persisted(thread).metadata;
            &&& metadata is Object
            &&& setting(metadata, "provider"@) == thread.session.provider
            &&& setting(metadata, "model"@) == thread.session.model
            &&& setting(metadata, "thinking_level"@) == thread.session.thinking_level
            &&& setting(metadata, "agent_dir"@) == thread.session.agent_dir
            &&& metadata->Object_0.dom() == set![
                "provider"@,
                "model"@,
                "thinking_level"@,
                "agent_dir"@,
            ]
        }),
{
    reveal_strlit("provider");
    reveal_strlit("model");
    reveal_strlit("thinking_level");
    reveal_strlit("agent_dir");
    assert("provider"@.len() == 8 && "model"@.len() == 5 && "thinking_level"@.len() == 14
        && "agent_dir"@.len() == 9);
    assert(persisted(thread).metadata->Object_0.dom() =~= set![
        "provider"@,
        "model"@,
        "thinking_level"@,
        "agent_dir"@,
    ]);
}

/// What is kept depends on the session alone: no turn, status or tool call changes it.
pub proof fn kept_state_depends_on_the_session(first: ThreadView, second: ThreadView)
    requires
        first.session == second.session,
    ensures
        persisted(first) == persisted(second),
{
}

/// An operation that the sidecar does not take is refused as unsupported; the refusal names the
/// operation, but for an input of which a piece is not text.
pub proof fn refusals_name_the_operation(thread: ThreadView, operation: AgentRuntimeOperation)
    requires
        !starts_turn(operation),
        !(operation.op.body is Interrupt),
        !(operation.op.body is Shutdown),
    ensures
        submission(thread, operation) matches Err(error) && error == (ErrorView {
            kind: AgentRuntimeErrorKind::UnsupportedOperation,
            message: if operation.op.body is UserInput {
                "Pi runtime received an unsupported user input item"@
            } else {
                "Pi runtime does not support Codex operation `"@ + operation.op.kind@ + "`"@
            },
        }),
{
    operations_become_their_commands(thread, operation);
}

/// A tool request is taken exactly where it is meant for the session and its arguments are a
/// JSON document. A refusal is a failure of the protocol that says which of the two is wrong,
/// and changes nothing.
pub proof fn tool_requests_are_for_the_session(
    thread: ThreadView,
    request: HostToolRequest,
    arguments: Result<JsonView, Seq<char>>,
)
    ensures
        ({
            let failure = tool_request_failure(thread, request, arguments);
            let mine = request.session_id@ == thread.session.thread_id;
            &&& failure is None <==> mine && arguments is Ok
            &&& failure matches Some(error) ==> error.kind == AgentRuntimeErrorKind::Protocol
                && error.message == if mine {
                "Pi host tool "@ + request.tool_name@ + " sent invalid arguments JSON: "@
                    + arguments->Err_0
            } else {
                "Pi host tool request targeted session "@ + request.session_id@ + ", expected "@
                    + thread.session.thread_id
            }
            &&& failure is Some ==> thread_after_tool_request(thread, request, arguments) == thread
        }),
{
}

/// A tool request that is taken waits under the id of its call, and changes nothing else.
pub proof fn taken_tool_requests_wait(
    thread: ThreadView,
    request: HostToolRequest,
    arguments: Result<JsonView, Seq<char>>,
    other: Seq<char>,
)
    requires
        request.session_id@ == thread.session.thread_id,
        arguments is Ok,
    ensures
        ({
            let waiting = thread_after_tool_request(thread, request, arguments);
            let answered = thread_after_tool_result(waiting, request.tool_call_id@);
            &&& waiting.pending_host_tools.contains_key(request.tool_call_id@)
            &&& waiting.pending_host_tools[request.tool_call_id@] == request.request_id@
            &&& other != request.tool_call_id@ ==> waiting.pending_host_tools.contains_key(other)
                == thread.pending_host_tools.contains_key(other)
                && waiting.pending_host_tools[other] == thread.pending_host_tools[other]
            &&& waiting == (ThreadView {
                pending_host_tools: waiting.pending_host_tools,
                ..thread
            })
            &&& !answered.pending_host_tools.contains_key(request.tool_call_id@)
            &&& answered == (ThreadView {
                pending_host_tools: answered.pending_host_tools,
                ..thread
            })
        }),
{
}

/// The message that carries a result to the sidecar names the request, the session and the call
/// that it answers, and holds the text of the output; of a failed call the output is also the
/// message of the failure, which is not to be tried again.
pub proof fn results_are_carried_whole(thread: ThreadView, result: AgentRuntimeToolResult)
    ensures
        tool_result_view(thread, result) is Ok <==> thread.pending_host_tools.contains_key(
            result.call_id@,
        ),
        match tool_result_view(thread, result) {
            Ok(message) => {
                let text = json_text(json_view(result.output));
                &&& message.request_id == thread.pending_host_tools[result.call_id@]
                &&& message.session_id == thread.session.thread_id
                &&& message.tool_call_id == result.call_id@
                &&& message.result_json == encode_utf8(text)
                &&& message.error is Some <==> result.is_error
                &&& message.error matches Some(error) ==> error.code == "host_tool_failed"@
                    && error.message == text && !error.retryable && error.details_json.len() == 0
            },
            Err(error) => error == (ErrorView {
                kind: AgentRuntimeErrorKind::Protocol,
                message: "Pi host tool result has no pending call "@ + result.call_id@,
            }),
        },
{
}

/// A session opens exactly where the sidecar answers with one. Where it refuses the request, the
/// refusal is handed on and the session is to be unregistered; where it answers with anything
/// else, that is a failure of the protocol, and the session stays registered.
pub proof fn sessions_open_as_answered(
    opening: Opening,
    runtime_id: Seq<char>,
    thread_id: Seq<char>,
    agent_dir: Seq<char>,
    reply: Result<RuntimeResponse, AgentRuntimeError>,
)
    requires
        is_opening_of(opening, runtime_id, thread_id, agent_dir, reply),
    ensures
        opening is Opened <==> (reply matches Ok(response) && (response.result matches Some(
            ResponseResult::Spawned(_),
        ))),
        match opening {
            Opening::Opened(thread) => {
                &&& thread.deep_view().session.thread_id == thread_id
                &&& thread.deep_view().session.runtime_id == runtime_id
                &&& thread.deep_view().session.agent_dir == agent_dir
                &&& thread.deep_view().session.session_locator
                    == reply->Ok_0.result->0->Spawned_0.session_locator@
                &&& thread.deep_view().status == StatusView::PendingInit
            },
            Opening::Failed { error, unregister } => match reply {
                Err(refusal) => error == refusal && unregister,
                Ok(_) => error.kind == AgentRuntimeErrorKind::Protocol && error.message@
                    == "Pi runtime spawn did not return spawned session metadata"@ && !unregister,
            },
        },
{
}

/// A tool call that the host takes is the one that was asked for, by name and with its
/// arguments; and a result that bears the id of the call answers the request that asked for it.
pub proof fn calls_are_answered_under_their_id(
    thread: ThreadView,
    request: HostToolRequest,
    arguments: Result<JsonView, Seq<char>>,
    call: AgentRuntimeToolCall,
    result: AgentRuntimeToolResult,
)
    requires
        tool_request_failure(thread, request, arguments) is None,
        is_call_of(call, request, arguments),
        result.call_id@ == call.call_id@,
    ensures
        call.tool_name@ == request.tool_name@,
        Ok::<JsonView, Seq<char>>(json_view(call.arguments)) == arguments,
        ({
            let waiting = thread_after_tool_request(thread, request, arguments);
            &&& tool_result_view(waiting, result) matches Ok(message)
            &&& message.request_id == request.request_id@
            &&& message.tool_call_id == request.tool_call_id@
            &&& message.session_id == request.session_id@
        }),
{
}

} // verus!
