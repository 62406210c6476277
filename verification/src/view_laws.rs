//! What the views of messages show.
//!
//! The other laws speak of events, commands, results and failures through their views. The laws
//! here say that a view shows every field of a value under its own name, so that what holds of
//! the view holds of what is sent.
use vstd::prelude::*;

use crate::agent_runtime::{
    AgentRuntimeError, AgentRuntimeHostToolDefinition, AgentRuntimePersistence,
};
use crate::external_host_tools::{PayloadView, ToolPayload};
use crate::json::{json_view, JsonView};
use crate::managed_agent_thread::{RolloutItem, RolloutView};
use crate::pi_operations::FollowupView;
use crate::pi_proto::{Command, CommandView, HostToolDefinition, HostToolResult, RuntimeError};
use crate::pi_thread::Followup;
use crate::protocol::{
    AbortReasonView, AgentMessageItem, AgentStatus, CodexErr, CodexErrView, Event, EventMsg,
    EventMsgView, ReasoningItem, StatusView, TurnAbortReason, TurnItem, TurnItemView,
};
use crate::spawn_agent::{SpawnStep, StepView};
use crate::spawn_laws::is_text;

verus! {

/// Whether characters are those of texts, one by one.
pub open spec fn are_texts(characters: Seq<Seq<char>>, texts: Seq<String>) -> bool {
    &&& characters.len() == texts.len()
    &&& forall|i: int| 0 <= i < texts.len() ==> #[trigger] characters[i] == texts[i]@
}

/// Whether data is that of an optional JSON value.
pub open spec fn is_json(data: Option<JsonView>, value: Option<serde_json::Value>) -> bool {
    match (data, value) {
        (Some(found), Some(given)) => found == json_view(given),
        (None, None) => true,
        _ => false,
    }
}

/// The view of a message shows its id, its texts, its phase and its citation.
pub proof fn message_views_show_everything(message: AgentMessageItem)
    ensures
        message.deep_view().id == message.id@,
        are_texts(message.deep_view().content, message.content@),
        message.deep_view().phase == message.phase,
        is_json(message.deep_view().memory_citation, message.memory_citation),
{
}

/// The view of reasoning shows its id and its texts, summaries and raw ones apart.
pub proof fn reasoning_views_show_everything(reasoning: ReasoningItem)
    ensures
        reasoning.deep_view().id == reasoning.id@,
        are_texts(reasoning.deep_view().summary_text, reasoning.summary_text@),
        are_texts(reasoning.deep_view().raw_content, reasoning.raw_content@),
{
}

/// The view of an item is that of a message, of reasoning or of a native item, as it is one.
pub proof fn item_views_show_everything(item: TurnItem)
    ensures
        match (item, item.deep_view()) {
            (TurnItem::AgentMessage(message), TurnItemView::AgentMessage(seen)) => seen
                == message.deep_view(),
            (TurnItem::Reasoning(reasoning), TurnItemView::Reasoning(seen)) => seen
                == reasoning.deep_view(),
            (TurnItem::Native(native), TurnItemView::Native(seen)) => seen == json_view(native),
            _ => false,
        },
{
}

/// The view of an event shows what it reports, and every field of that under its own name.
pub proof fn event_views_show_everything(event: Event)
    ensures
        event.deep_view().id == event.id@,
        match (event.msg, event.deep_view().msg) {
            (
                EventMsg::TurnStarted(started),
                EventMsgView::TurnStarted {
                    turn_id,
                    trace_id,
                    started_at,
                    model_context_window,
                    collaboration_mode_kind,
                },
            ) => {
                &&& turn_id == started.turn_id@
                &&& is_text(trace_id, started.trace_id)
                &&& started_at == started.started_at
                &&& model_context_window == started.model_context_window
                &&& collaboration_mode_kind == started.collaboration_mode_kind
            },
            (
                EventMsg::ItemStarted(started),
                EventMsgView::ItemStarted { thread_id, turn_id, item, started_at_ms },
            ) => {
                &&& thread_id == started.thread_id.value@
                &&& turn_id == started.turn_id@
                &&& item == started.item.deep_view()
                &&& started_at_ms == started.started_at_ms
            },
            (
                EventMsg::ItemCompleted(completed),
                EventMsgView::ItemCompleted { thread_id, turn_id, item, completed_at_ms },
            ) => {
                &&& thread_id == completed.thread_id.value@
                &&& turn_id == completed.turn_id@
                &&& item == completed.item.deep_view()
                &&& completed_at_ms == completed.completed_at_ms
            },
            (
                EventMsg::AgentMessageContentDelta(piece),
                EventMsgView::AgentMessageContentDelta { thread_id, turn_id, item_id, delta },
            ) => {
                &&& thread_id == piece.thread_id@
                &&& turn_id == piece.turn_id@
                &&& item_id == piece.item_id@
                &&& delta == piece.delta@
            },
            (
                EventMsg::ReasoningContentDelta(piece),
                EventMsgView::ReasoningContentDelta {
                    thread_id,
                    turn_id,
                    item_id,
                    delta,
                    summary_index,
                },
            ) => {
                &&& thread_id == piece.thread_id@
                &&& turn_id == piece.turn_id@
                &&& item_id == piece.item_id@
                &&& delta == piece.delta@
                &&& summary_index == piece.summary_index
            },
            (
                EventMsg::TurnComplete(complete),
                EventMsgView::TurnComplete {
                    turn_id,
                    last_agent_message,
                    error,
                    started_at,
                    completed_at,
                    duration_ms,
                    time_to_first_token_ms,
                },
            ) => {
                &&& turn_id == complete.turn_id@
                &&& is_text(last_agent_message, complete.last_agent_message)
                &&& is_json(error, complete.error)
                &&& started_at == complete.started_at
                &&& completed_at == complete.completed_at
                &&& duration_ms == complete.duration_ms
                &&& time_to_first_token_ms == complete.time_to_first_token_ms
            },
            (
                EventMsg::TurnAborted(aborted),
                EventMsgView::TurnAborted {
                    aborted_turn_id,
                    reason,
                    started_at,
                    completed_at,
                    duration_ms,
                },
            ) => {
                &&& is_text(aborted_turn_id, aborted.turn_id)
                &&& match (aborted.reason, reason) {
                    (TurnAbortReason::Interrupted, AbortReasonView::Interrupted) => true,
                    (TurnAbortReason::Native(name), AbortReasonView::Native(seen)) => seen == name@,
                    _ => false,
                }
                &&& started_at == aborted.started_at
                &&& completed_at == aborted.completed_at
                &&& duration_ms == aborted.duration_ms
            },
            (EventMsg::TokenCount(count), EventMsgView::TokenCount { info, rate_limits }) => info
                == count.info && is_json(rate_limits, count.rate_limits),
            (EventMsg::Error(error), EventMsgView::Error { message, codex_error_info }) => message
                == error.message@ && codex_error_info == error.codex_error_info,
            (EventMsg::ShutdownComplete, EventMsgView::ShutdownComplete) => true,
            (EventMsg::Native(native), EventMsgView::Native(seen)) => seen == json_view(native),
            _ => false,
        },
{
}

/// The view of a status is the status, with its text where it has one.
pub proof fn status_views_show_everything(status: AgentStatus)
    ensures
        match (status, status.deep_view()) {
            (AgentStatus::PendingInit, StatusView::PendingInit) => true,
            (AgentStatus::Running, StatusView::Running) => true,
            (AgentStatus::Interrupted, StatusView::Interrupted) => true,
            (AgentStatus::Completed(text), StatusView::Completed(seen)) => is_text(seen, text),
            (AgentStatus::Errored(text), StatusView::Errored(seen)) => seen == text@,
            (AgentStatus::Shutdown, StatusView::Shutdown) => true,
            _ => false,
        },
{
}

/// The view of a failure is its category and its message.
pub proof fn failure_views_show_everything(
    failure: CodexErr,
    error: AgentRuntimeError,
    reported: RuntimeError,
)
    ensures
        match (failure, failure.deep_view()) {
            (CodexErr::Fatal(message), CodexErrView::Fatal(seen)) => seen == message@,
            (CodexErr::InvalidRequest(message), CodexErrView::InvalidRequest(seen)) => seen
                == message@,
            (CodexErr::UnsupportedOperation(message), CodexErrView::UnsupportedOperation(seen)) => {
                seen == message@
            },
            (CodexErr::InternalAgentDied, CodexErrView::InternalAgentDied) => true,
            _ => false,
        },
        error.deep_view().kind == error.kind,
        error.deep_view().message == error.message@,
        reported.deep_view().code == reported.code@,
        reported.deep_view().message == reported.message@,
        reported.deep_view().retryable == reported.retryable,
        reported.deep_view().details_json == reported.details_json@,
{
}

/// The view of a command shows every field of it under its own name, and every tool in its
/// place.
pub proof fn command_views_show_everything(command: Command)
    ensures
        match (command, command.deep_view()) {
            (
                Command::Spawn(spawn),
                CommandView::Spawn {
                    codex_thread_id,
                    cwd,
                    agent_dir,
                    session_dir,
                    provider,
                    model,
                    thinking_level,
                    host_tools,
                },
            ) => {
                &&& codex_thread_id == spawn.codex_thread_id@
                &&& cwd == spawn.cwd@
                &&& agent_dir == spawn.agent_dir@
                &&& session_dir == spawn.session_dir@
                &&& provider == spawn.provider@
                &&& model == spawn.model@
                &&& thinking_level == spawn.thinking_level@
                &&& host_tools.len() == spawn.host_tools@.len()
                &&& forall|i: int|
                    0 <= i < host_tools.len() ==> #[trigger] host_tools[i]
                        == spawn.host_tools@[i].deep_view()
            },
            (
                Command::Resume(resume),
                CommandView::Resume {
                    codex_thread_id,
                    session_locator,
                    cwd_override,
                    host_tools,
                    agent_dir,
                },
            ) => {
                &&& codex_thread_id == resume.codex_thread_id@
                &&& session_locator == resume.session_locator@
                &&& cwd_override == resume.cwd_override@
                &&& agent_dir == resume.agent_dir@
                &&& host_tools.len() == resume.host_tools@.len()
                &&& forall|i: int|
                    0 <= i < host_tools.len() ==> #[trigger] host_tools[i]
                        == resume.host_tools@[i].deep_view()
            },
            (Command::Prompt { text }, CommandView::Prompt { text: seen }) => seen == text@,
            (Command::FollowUp { text }, CommandView::FollowUp { text: seen }) => seen == text@,
            (Command::Interrupt, CommandView::Interrupt) => true,
            (Command::Close, CommandView::Close) => true,
            _ => false,
        },
{
}

/// The views of a tool, as the host describes it and as the sidecar is told of it, show its
/// name, its description and its schema.
pub proof fn tool_views_show_everything(
    definition: AgentRuntimeHostToolDefinition,
    told: HostToolDefinition,
)
    ensures
        definition.deep_view().name == definition.name@,
        definition.deep_view().description == definition.description@,
        definition.deep_view().input_schema == json_view(definition.input_schema),
        told.deep_view().name == told.name@,
        told.deep_view().description == told.description@,
        told.deep_view().input_schema_json == told.input_schema_json@,
{
}

/// The view of a result that is sent shows what it answers, what it holds and its failure.
pub proof fn result_views_show_everything(result: HostToolResult)
    ensures
        result.deep_view().request_id == result.request_id@,
        result.deep_view().session_id == result.session_id@,
        result.deep_view().tool_call_id == result.tool_call_id@,
        result.deep_view().result_json == result.result_json@,
        match (result.error, result.deep_view().error) {
            (Some(error), Some(seen)) => seen == error.deep_view(),
            (None, None) => true,
            _ => false,
        },
{
}

/// The view of what is kept of a session shows its runtime, its place and its data.
pub proof fn kept_views_show_everything(state: AgentRuntimePersistence)
    ensures
        state.deep_view().runtime_id == state.runtime_id@,
        state.deep_view().session_locator == state.session_locator@,
        state.deep_view().metadata == json_view(state.metadata),
{
}

/// The view of what a tool is called with, of an entry of a record and of what is left to do
/// after an answer shows everything of it.
pub proof fn other_views_show_everything(
    payload: ToolPayload,
    entry: RolloutItem,
    followup: Followup,
)
    ensures
        match (payload, payload.deep_view()) {
            (ToolPayload::Function { arguments }, PayloadView::Function { arguments: seen }) => {
                seen == arguments@
            },
            (ToolPayload::Custom { input }, PayloadView::Custom { input: seen }) => seen == input@,
            _ => false,
        },
        match (entry, entry.deep_view()) {
            (RolloutItem::EventMsg(msg), RolloutView::EventMsg(seen)) => seen == msg.deep_view(),
            (
                RolloutItem::ExternalRuntimeItem { turn_id, item },
                RolloutView::ExternalRuntimeItem { turn_id: seen_turn, item: seen_item },
            ) => seen_turn == turn_id@ && seen_item == item.deep_view(),
            _ => false,
        },
        match (followup, followup.deep_view()) {
            (Followup::Nothing, FollowupView::Nothing) => true,
            (Followup::Interrupt { turn_id }, FollowupView::Interrupt { turn }) => is_text(
                turn,
                turn_id,
            ),
            (Followup::Shutdown, FollowupView::Shutdown) => true,
            _ => false,
        },
{
}

/// The view of a step on the way to a spawned agent shows everything that the host is told.
pub proof fn step_views_show_everything(step: SpawnStep)
    ensures
        match (step, step.deep_view()) {
            (SpawnStep::ReadMessage { message }, StepView::ReadMessage { message: seen }) => seen
                == message@,
            (SpawnStep::BuildConfig, StepView::BuildConfig) => true,
            (SpawnStep::RequireExternalRuntime, StepView::RequireExternalRuntime) => true,
            (SpawnStep::SetServiceTier { tier }, StepView::SetServiceTier { tier: seen }) => seen
                == tier@,
            (
                SpawnStep::RejectFullForkOverrides { role, model, reasoning_effort },
                StepView::RejectFullForkOverrides {
                    role: seen_role,
                    model: seen_model,
                    reasoning_effort: seen_effort,
                },
            ) => is_text(seen_role, role) && is_text(seen_model, model) && is_text(
                seen_effort,
                reasoning_effort,
            ),
            (
                SpawnStep::ApplyModelOverrides { model, reasoning_effort },
                StepView::ApplyModelOverrides {
                    model: seen_model,
                    reasoning_effort: seen_effort,
                },
            ) => is_text(seen_model, model) && is_text(seen_effort, reasoning_effort),
            (SpawnStep::ApplyRole { role }, StepView::ApplyRole { role: seen }) => is_text(
                seen,
                role,
            ),
            (
                SpawnStep::ApplyServiceTier { requested },
                StepView::ApplyServiceTier { requested: seen },
            ) => is_text(seen, requested),
            (SpawnStep::ApplyRuntimeOverrides, StepView::ApplyRuntimeOverrides) => true,
            (
                SpawnStep::BuildSource { role, task_name },
                StepView::BuildSource { role: seen_role, task_name: seen_name },
            ) => is_text(seen_role, role) && seen_name == task_name@,
            _ => false,
        },
{
}

} // verus!
