//! What the host offers to external runtimes and hands back to them, and how it picks devices.
//!
//! The laws here hold what a runtime is told of the tools of the host against the tools, what a
//! tool is called with against what the runtime asked for, and what the runtime gets against
//! what the tool gave.
use vstd::prelude::*;

use crate::agent_runtime::{
    AgentRuntimeOperation, AgentRuntimeToolResult, HostToolDefinitionView,
};
use crate::audio_device::{
    configured, device_failure, distinct, is_choice_of, missing_device, BidiAudioConfig,
    BidiAudioDeviceKind, DeviceChoice, DeviceRequest,
};
use crate::external_host_tools::{
    definition_view, definitions_view, external_host_tools, failure_view, is_external_host_tool,
    is_result_of, output_view, patch_schema, payload_view, tool_not_offered, PayloadView,
    ToolSpec,
};
use crate::fake_agent_runtime::{scripted_events, scripted_turn};
use crate::followup_task::{reached_by, FollowupToolKind, MessageTargetKind};
use crate::json::{json_member, json_text, json_view, JsonView};
use crate::pi_laws::streamed_text;
use crate::protocol::{CodexErrView, EventMsgView, MessagePhase, TurnItemView};

verus! {

/// The host offers the tools that it lists and no other: two, each listed once.
pub proof fn offered_tools_are_listed(name: Seq<char>)
    ensures
        is_external_host_tool(name) <==> external_host_tools().contains(name),
        external_host_tools().len() == 2,
        external_host_tools().no_duplicates(),
{
    let names = external_host_tools();
    reveal_strlit("exec_command");
    reveal_strlit("apply_patch");
    assert("exec_command"@.len() == 12 && "apply_patch"@.len() == 11);
    assert(names[0] == "exec_command"@ && names[1] == "apply_patch"@);
}

/// A tool with structured arguments is told of exactly where it is offered, under its own name
/// and with its own description and schema; one without a schema fails. Of the text tools the
/// patch tool alone is told of, in the same terms. Nothing is told of any other tool.
pub proof fn tools_are_told_as_they_are(spec: ToolSpec)
    ensures
        match spec {
            ToolSpec::Function { name, description, parameters } => {
                let told = definition_view(spec);
                &&& told is Some <==> external_host_tools().contains(name@)
                &&& told is Some && parameters is Ok ==> told->0 == Ok::<
                    HostToolDefinitionView,
                    CodexErrView,
                >(
                    HostToolDefinitionView {
                        name: name@,
                        description: description@,
                        input_schema: json_view(parameters->Ok_0),
                    },
                )
                &&& told is Some && parameters is Err ==> told->0 == Err::<
                    HostToolDefinitionView,
                    CodexErrView,
                >(
                    CodexErrView::Fatal(
                        "failed to serialize host tool schema: "@ + parameters->Err_0@,
                    ),
                )
            },
            ToolSpec::Freeform { name, description } => {
                let told = definition_view(spec);
                &&& told is Some <==> name@ == "apply_patch"@
                &&& told is Some ==> told->0 is Ok && told->0->Ok_0.name == name@
                    && told->0->Ok_0.description
                    == "Apply a patch through Codex's native sandbox, approval, and diff pipeline."@
            },
            ToolSpec::Other => definition_view(spec) is None,
        },
{
    let names = external_host_tools();
    assert(names[0] == "exec_command"@ && names[1] == "apply_patch"@);
}

/// The arguments that the patch tool is described with are those that it is called with: an
/// object that has to have one text, the patch, and may have nothing else. Its description is
/// the one of the tool.
pub proof fn patches_are_asked_for_as_they_are_taken(
    name: String,
    description: String,
    patch: Seq<char>,
)
    requires
        name@ == "apply_patch"@,
    ensures
        ({
            let told = definition_view(ToolSpec::Freeform { name, description });
            let schema = told->0->Ok_0.input_schema;
            let property = json_member(
                json_member(schema, "properties"@)->0,
                "patch"@,
            )->0;
            let arguments = JsonView::Object(map!["patch"@ => JsonView::String(patch)]);
            &&& json_member(schema, "type"@) == Some(JsonView::String("object"@))
            &&& json_member(schema, "required"@) == Some(
                JsonView::Array(seq![JsonView::String("patch"@)]),
            )
            &&& json_member(schema, "additionalProperties"@) == Some(JsonView::Bool(false))
            &&& json_member(schema, "properties"@) == Some(
                JsonView::Object(map!["patch"@ => property]),
            )
            &&& json_member(property, "type"@) == Some(JsonView::String("string"@))
            &&& json_member(property, "description"@) == Some(JsonView::String(description@))
            &&& payload_view(name@, arguments) == Ok::<PayloadView, CodexErrView>(
                PayloadView::Custom { input: patch },
            )
        }),
{
    reveal_strlit("type");
    reveal_strlit("description");
    reveal_strlit("properties");
    reveal_strlit("required");
    reveal_strlit("additionalProperties");
    assert("type"@.len() == 4 && "description"@.len() == 11 && "properties"@.len() == 10
        && "required"@.len() == 8 && "additionalProperties"@.len() == 20);
    let property = json_member(
        json_member(patch_schema(description@), "properties"@)->0,
        "patch"@,
    )->0;
    assert(json_member(patch_schema(description@), "properties"@)->0->Object_0
        =~= map!["patch"@ => property]);
}

/// What a runtime is told of tools is told of one after the other: telling of more tools adds to
/// what was told before, and the first failure ends it.
pub proof fn tools_are_told_one_by_one(first: Seq<ToolSpec>, second: Seq<ToolSpec>)
    ensures
        match (definitions_view(first), definitions_view(second)) {
            (Ok(told), Ok(more)) => definitions_view(first + second) == Ok::<
                Seq<HostToolDefinitionView>,
                CodexErrView,
            >(told + more),
            (Err(error), _) => definitions_view(first + second) == Err::<
                Seq<HostToolDefinitionView>,
                CodexErrView,
            >(error),
            (Ok(_), Err(error)) => definitions_view(first + second) == Err::<
                Seq<HostToolDefinitionView>,
                CodexErrView,
            >(error),
        },
    decreases second.len(),
{
    if second.len() == 0 {
        assert(first + second =~= first);
        if definitions_view(first) is Ok {
            let told = definitions_view(first)->Ok_0;
            assert(told + Seq::<HostToolDefinitionView>::empty() =~= told);
        }
    } else {
        tools_are_told_one_by_one(first, second.drop_last());
        assert((first + second).drop_last() =~= first + second.drop_last());
        assert((first + second).last() == second.last());
        if definitions_view(first) is Ok && definitions_view(second) is Ok {
            assert(definitions_view(first + second)->Ok_0 =~= definitions_view(first)->Ok_0
                + definitions_view(second)->Ok_0);
        }
    }
}

/// One tool alone is told of as it is.
pub proof fn one_tool_is_told_as_it_is(spec: ToolSpec)
    ensures
        definitions_view(seq![spec]) == match definition_view(spec) {
            None => Ok::<Seq<HostToolDefinitionView>, CodexErrView>(Seq::empty()),
            Some(Ok(told)) => Ok::<Seq<HostToolDefinitionView>, CodexErrView>(seq![told]),
            Some(Err(error)) => Err::<Seq<HostToolDefinitionView>, CodexErrView>(error),
        },
{
    assert(seq![spec].drop_last() =~= Seq::empty());
    reveal_with_fuel(definitions_view, 2);
    if let Some(Ok(told)) = definition_view(spec) {
        assert(Seq::empty().push(told) =~= seq![told]);
    }
}

/// A tool is called with what the runtime asked for: the patch tool with the text of its patch,
/// and not at all without one; any other tool with its arguments as they came.
pub proof fn tools_are_called_as_asked(name: Seq<char>, arguments: JsonView)
    ensures
        match payload_view(name, arguments) {
            Ok(PayloadView::Custom { input }) => name == "apply_patch"@ && (
            arguments matches JsonView::Object(members) && members.contains_key("patch"@)
                && members["patch"@] == JsonView::String(input)),
            Ok(PayloadView::Function { arguments: text }) => name != "apply_patch"@ && text
                == json_text(arguments),
            Err(error) => name == "apply_patch"@ && error == CodexErrView::InvalidRequest(
                "Codex-hosted apply_patch requires a string `patch` argument"@,
            ),
        },
        name == "apply_patch"@ && (arguments matches JsonView::Object(members)
            && members.contains_key("patch"@) && members["patch"@] is String) ==> payload_view(
            name,
            arguments,
        ) is Ok,
        tool_not_offered(name) == CodexErrView::InvalidRequest(
            "external runtime requested unavailable host tool `"@ + name + "`"@,
        ),
{
}

/// The text of the one piece of content that an output has.
pub open spec fn content_text(output: JsonView) -> Option<JsonView> {
    match json_member(output, "content"@) {
        Some(JsonView::Array(pieces)) if pieces.len() == 1 && json_member(pieces[0], "type"@)
            == Some(JsonView::String("text"@)) => json_member(pieces[0], "text"@),
        _ => None,
    }
}

/// A runtime gets the value that a tool gave whole, as details, and beside it one piece of text:
/// of a string its characters, of any other value its JSON text.
pub proof fn runtimes_get_what_the_tool_gave(value: JsonView)
    ensures
        json_member(output_view(value), "details"@) == Some(value),
        content_text(output_view(value)) == Some(
            JsonView::String(
                match value {
                    JsonView::String(text) => text,
                    _ => json_text(value),
                },
            ),
        ),
        output_view(value) is Object,
        output_view(value)->Object_0.dom() == set!["content"@, "details"@],
{
    reveal_strlit("content");
    reveal_strlit("details");
    reveal_strlit("type");
    reveal_strlit("text");
    assert("content"@[0] != "details"@[0]);
    assert("type"@[1] != "text"@[1]);
    assert(output_view(value)->Object_0.dom() =~= set!["content"@, "details"@]);
}

/// A runtime gets the message of a failure as text and, under `error`, in the details.
pub proof fn runtimes_get_the_failure(message: Seq<char>)
    ensures
        content_text(failure_view(message)) == Some(JsonView::String(message)),
        json_member(failure_view(message), "details"@) == Some(
            JsonView::Object(map!["error"@ => JsonView::String(message)]),
        ),
{
    reveal_strlit("content");
    reveal_strlit("details");
    reveal_strlit("type");
    reveal_strlit("text");
    assert("content"@[0] != "details"@[0]);
    assert("type"@[1] != "text"@[1]);
}

/// A scripted turn is one turn with one message: it begins, the message begins empty, is
/// streamed, and is complete with what was streamed, and the turn ends with it. The message is
/// named after the submission, and every event belongs to the submission and the thread.
pub proof fn scripted_turns_tell_one_message(thread_id: Seq<char>, submission_id: Seq<char>)
    ensures
        ({
            let events = scripted_turn(thread_id, submission_id);
            let id = submission_id + "-message"@;
            let text = streamed_text(events, id);
            &&& events.len() == 5
            &&& text.len() > 0
            &&& events[0].msg matches EventMsgView::TurnStarted { turn_id, .. } && turn_id
                == submission_id
            &&& events[1].msg matches EventMsgView::ItemStarted {
                thread_id: thread,
                turn_id,
                item: TurnItemView::AgentMessage(message),
                ..
            } && thread == thread_id && turn_id == submission_id && message.id == id
                && message.content.len() == 0
            &&& events[2].msg matches EventMsgView::AgentMessageContentDelta {
                thread_id: thread,
                turn_id,
                item_id,
                delta,
            } && thread == thread_id && turn_id == submission_id && item_id == id && delta == text
            &&& events[3].msg matches EventMsgView::ItemCompleted {
                thread_id: thread,
                turn_id,
                item: TurnItemView::AgentMessage(message),
                ..
            } && thread == thread_id && turn_id == submission_id && message.id == id
                && message.content == seq![text] && message.phase == Some(
                MessagePhase::FinalAnswer,
            )
            &&& events[4].msg matches EventMsgView::TurnComplete {
                turn_id,
                last_agent_message,
                error,
                ..
            } && turn_id == submission_id && last_agent_message == Some(text) && error is None
            &&& forall|i: int| 0 <= i < 5 ==> (#[trigger] events[i]).id == submission_id
        }),
{
    let events = scripted_turn(thread_id, submission_id);
    let id = submission_id + "-message"@;
    reveal_strlit("Hello from the fake external runtime.");
    reveal_with_fuel(streamed_text, 6);
    let message = "Hello from the fake external runtime."@;
    assert(events.drop_last().drop_last().drop_last().drop_last().drop_last() =~= Seq::empty());
    assert(streamed_text(events, id) =~= message);
    assert(message.len() > 0);
}

/// The follow-up tool for external runtimes reaches their agents only; the other reaches every
/// agent.
pub proof fn followups_reach_their_agents(kind: FollowupToolKind)
    ensures
        reached_by(kind) == MessageTargetKind::ExternalRuntime <==> kind
            == FollowupToolKind::ExternalRuntime,
        reached_by(kind) == MessageTargetKind::Any <==> kind == FollowupToolKind::Reserved,
{
}

/// The names of devices are listed in the order in which they were met: further devices change
/// nothing of what was listed, and add each new name at the end.
pub proof fn devices_are_listed_as_they_were_met(
    names: Seq<Option<Seq<char>>>,
    more: Seq<Option<Seq<char>>>,
)
    ensures
        distinct(names).len() <= distinct(names + more).len(),
        distinct(names + more).take(distinct(names).len() as int) == distinct(names),
    decreases more.len(),
{
    let listed = distinct(names);
    if more.len() == 0 {
        assert(names + more =~= names);
        assert(listed.take(listed.len() as int) =~= listed);
    } else {
        devices_are_listed_as_they_were_met(names, more.drop_last());
        assert((names + more).drop_last() =~= names + more.drop_last());
        let earlier = distinct(names + more.drop_last());
        assert(distinct(names + more).take(listed.len() as int) =~= earlier.take(
            listed.len() as int,
        ));
    }
}

/// Each direction has its own configured device, and what is said where there is none names the
/// direction and, where one was configured, the device.
pub proof fn directions_have_their_own_device(config: BidiAudioConfig, name: Seq<char>)
    ensures
        configured(BidiAudioDeviceKind::Microphone, config) == config.microphone.deep_view(),
        configured(BidiAudioDeviceKind::Speaker, config) == config.speaker.deep_view(),
        missing_device(BidiAudioDeviceKind::Microphone, Some(name)) == "configured microphone `"@
            + name + "` was unavailable and no default input audio device was found"@,
        missing_device(BidiAudioDeviceKind::Speaker, Some(name)) == "configured speaker `"@ + name
            + "` was unavailable and no default output audio device was found"@,
        missing_device(BidiAudioDeviceKind::Microphone, None) == "no input audio device available"@,
        missing_device(BidiAudioDeviceKind::Speaker, None) == "no output audio device available"@,
{
}

/// A failed request to the system says what was asked for, in which direction, and why it
/// failed.
pub proof fn device_failures_say_what_failed(error: Seq<char>)
    ensures
        device_failure(DeviceRequest::Enumerate, BidiAudioDeviceKind::Microphone, error)
            == "failed to enumerate input audio devices: "@ + error,
        device_failure(DeviceRequest::Enumerate, BidiAudioDeviceKind::Speaker, error)
            == "failed to enumerate output audio devices: "@ + error,
        device_failure(DeviceRequest::DefaultConfig, BidiAudioDeviceKind::Microphone, error)
            == "failed to get default input config: "@ + error,
        device_failure(DeviceRequest::DefaultConfig, BidiAudioDeviceKind::Speaker, error)
            == "failed to get default output config: "@ + error,
{
}

/// The result of a call bears the id of the call. It is a failure exactly where the tool failed,
/// and then tells its message; else it is what the tool gave, as it is.
pub proof fn results_tell_what_came_of_the_call(
    result: AgentRuntimeToolResult,
    call_id: String,
    outcome: Result<serde_json::Value, String>,
)
    requires
        is_result_of(result, call_id, outcome),
    ensures
        result.call_id@ == call_id@,
        result.is_error <==> outcome is Err,
        outcome matches Ok(output) ==> json_view(result.output) == json_view(output),
        outcome matches Err(message) ==> content_text(json_view(result.output)) == Some(
            JsonView::String(message@),
        ),
{
    if let Err(message) = outcome {
        runtimes_get_the_failure(message@);
    }
}

/// A shutdown of a scripted agent plays nothing; every other operation plays the one script,
/// under its own submission.
pub proof fn every_operation_plays_the_script(
    thread_id: Seq<char>,
    operation: AgentRuntimeOperation,
)
    ensures
        scripted_events(thread_id, operation).len() == if operation.op.body is Shutdown {
            0nat
        } else {
            5nat
        },
        forall|i: int|
            0 <= i < scripted_events(thread_id, operation).len() ==> (#[trigger] scripted_events(
                thread_id,
                operation,
            )[i]).id == operation.submission_id@,
{
}

/// The device that is used has the name that is configured for the direction, and none before it
/// in the list has. The default of the system is used only where no device has that name, and
/// is said to be a substitute exactly where one was configured. There is a failure only where
/// there is no default either.
pub proof fn configured_devices_come_first(
    choice: Result<DeviceChoice, String>,
    kind: BidiAudioDeviceKind,
    config: BidiAudioConfig,
    names: Seq<Option<Seq<char>>>,
    has_default: bool,
)
    requires
        is_choice_of(choice, kind, config, names, has_default),
    ensures
        ({
            let wanted = match kind {
                BidiAudioDeviceKind::Microphone => config.microphone,
                BidiAudioDeviceKind::Speaker => config.speaker,
            };
            let found = wanted is Some && exists|i: int|
                0 <= i < names.len() && #[trigger] names[i] == Some(wanted->0@);
            &&& found <==> (choice matches Ok(DeviceChoice::Listed(_)))
            &&& choice matches Ok(DeviceChoice::Listed(position)) ==> position < names.len()
                && names[position as int] == Some(wanted->0@) && forall|i: int|
                0 <= i < position ==> #[trigger] names[i] != Some(wanted->0@)
            &&& choice matches Ok(DeviceChoice::SystemDefault { fell_back }) ==> has_default
                && fell_back == wanted is Some
            &&& choice is Err <==> !found && !has_default
        }),
{
    let wanted = configured(kind, config);
    if wanted is Some && names.contains(wanted) {
        let i = choose|i: int| 0 <= i < names.len() && names[i] == wanted;
        assert(names[i] == Some(wanted->0));
    }
}

} // verus!
