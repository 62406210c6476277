//! How a session of the sidecar is opened, and what is sent to it as text.
use vstd::prelude::*;
use vstd::string::*;

use crate::agent_runtime::{
    AgentRuntimeError, AgentRuntimeErrorKind, AgentRuntimeHostToolDefinition,
    AgentRuntimeResumeRequest, AgentRuntimeSpawnRequest,
};
use crate::json::{json_get, json_member_text, json_to_vec, json_view};
use crate::pi_operations::{
    encoded_tools, is_renderable, not_spawned, protocol_failure, rendered_input, rendered_inputs,
    resume_view, setting, spawn_view, spawned_session, unsupported_input,
};
use crate::pi_proto::{
    Command, HostToolDefinition, HostToolView, ResponseResult, ResumeRequest, RuntimeResponse, SpawnRequest,
    SpawnedSession,
};
use crate::protocol::{InterAgentCommunication, UserInput};
use crate::text::join;

verus! {

/// A failure of the protocol with the sidecar.
pub fn protocol_error(message: String) -> (error: AgentRuntimeError)
    ensures
        error.deep_view() == protocol_failure(message@),
{
    AgentRuntimeError::new(AgentRuntimeErrorKind::Protocol, message)
}

/// A setting of a configuration object, where it is a string.
pub fn config_string(config: &serde_json::Value, key: &str) -> (text: Option<String>)
    ensures
        text.deep_view() == json_member_text(json_view(*config), key@),
{
    match json_get(config, key) {
        Some(member) => match member.as_str() {
            Some(text) => Some(text.to_owned()),
            None => None,
        },
        None => None,
    }
}

/// A setting of a configuration object, or the empty text.
fn setting_or_empty(config: &serde_json::Value, key: &str) -> (text: String)
    ensures
        text@ == setting(json_view(*config), key@),
{
    match config_string(config, key) {
        Some(text) => text,
        None => String::new(),
    }
}

/// Tells of a tool of the host in the terms of the sidecar, for the bytes of its schema.
pub fn encode_host_tool(
    definition: &AgentRuntimeHostToolDefinition,
    schema: Result<Vec<u8>, String>,
) -> (tool: Result<HostToolDefinition, AgentRuntimeError>)
    ensures
        match (schema, tool) {
            (Ok(bytes), Ok(told)) => told.deep_view() == (HostToolView {
                name: definition.name@,
                description: definition.description@,
                input_schema_json: bytes@,
            }),
            (Err(message), Err(error)) => error.deep_view() == protocol_failure(
                "failed to encode host tool schema: "@ + message@,
            ),
            _ => false,
        },
{
    match schema {
        Ok(input_schema_json) => Ok(
            HostToolDefinition {
                name: definition.name.clone(),
                description: definition.description.clone(),
                input_schema_json,
            },
        ),
        Err(error) => {
            let mut message = "failed to encode host tool schema: ".to_owned();
            message.append(error.as_str());
            Err(protocol_error(message))
        },
    }
}

/// Tells of tools of the host in the terms of the sidecar. Encoding a schema does not fail.
pub fn encode_host_tools(definitions: Vec<AgentRuntimeHostToolDefinition>) -> (tools: Result<
    Vec<HostToolDefinition>,
    AgentRuntimeError,
>)
    ensures
        tools is Ok,
        tools->Ok_0.deep_view() == encoded_tools(definitions@),
{
    let mut tools: Vec<HostToolDefinition> = Vec::new();
    let ghost all = encoded_tools(definitions@);
    let mut index: usize = 0;
    while index < definitions.len()
        invariant
            all == encoded_tools(definitions@),
            index <= definitions@.len(),
            tools.deep_view() == all.take(index as int),
        decreases definitions@.len() - index,
    {
        let definition = &definitions[index];
        let schema = json_to_vec(&definition.input_schema);
        match encode_host_tool(definition, schema) {
            Ok(tool) => {
                let ghost told = tools.deep_view();
                tools.push(tool);
                assert(tools.deep_view() =~= told.push(tool.deep_view()));
                assert(tools.deep_view() =~= all.take(index + 1));
            },
            Err(error) => {
                return Err(error);
            },
        }
        index = index + 1;
    }
    assert(all.take(all.len() as int) =~= all);
    Ok(tools)
}

/// The command that opens a session, and the agent directory that it names.
pub fn spawn_command(request: AgentRuntimeSpawnRequest) -> (command: Result<
    (Command, String),
    AgentRuntimeError,
>)
    ensures
        command is Ok,
        command->Ok_0.0.deep_view() == spawn_view(request),
        command->Ok_0.1@ == setting(json_view(request.runtime_config), "agent_dir"@),
{
    let runtime_config = request.runtime_config;
    let agent_dir = setting_or_empty(&runtime_config, "agent_dir");
    let model = match config_string(&runtime_config, "model") {
        Some(model) => model,
        None => match request.model {
            Some(model) => model,
            None => String::new(),
        },
    };
    let host_tools = match encode_host_tools(request.host_tools) {
        Ok(host_tools) => host_tools,
        Err(error) => {
            return Err(error);
        },
    };
    let spawn = SpawnRequest {
        codex_thread_id: request.thread_id.value,
        cwd: request.cwd,
        agent_dir: agent_dir.clone(),
        session_dir: setting_or_empty(&runtime_config, "session_dir"),
        provider: setting_or_empty(&runtime_config, "provider"),
        model,
        thinking_level: setting_or_empty(&runtime_config, "thinking_level"),
        host_tools,
    };
    Ok((Command::Spawn(spawn), agent_dir))
}

/// The command that opens a persisted session again, and the agent directory that it names.
pub fn resume_command(request: AgentRuntimeResumeRequest) -> (command: Result<
    (Command, String),
    AgentRuntimeError,
>)
    ensures
        command is Ok,
        command->Ok_0.0.deep_view() == resume_view(request),
        command->Ok_0.1@ == setting(json_view(request.state.metadata), "agent_dir"@),
{
    let agent_dir = setting_or_empty(&request.state.metadata, "agent_dir");
    let host_tools = match encode_host_tools(request.host_tools) {
        Ok(host_tools) => host_tools,
        Err(error) => {
            return Err(error);
        },
    };
    let resume = ResumeRequest {
        codex_thread_id: request.thread_id.value,
        session_locator: request.state.session_locator,
        cwd_override: request.cwd,
        host_tools,
        agent_dir: agent_dir.clone(),
    };
    Ok((Command::Resume(resume), agent_dir))
}

/// The session that a response tells of.
pub fn expect_spawned(response: RuntimeResponse) -> (spawned: Result<
    SpawnedSession,
    AgentRuntimeError,
>)
    ensures
        spawned is Ok == (spawned_session(response) is Some),
        spawned matches Ok(session) ==> spawned_session(response) == Some(session),
        spawned matches Err(error) ==> error.deep_view() == not_spawned(),
{
    match response.result {
        Some(ResponseResult::Spawned(spawned)) => Ok(spawned),
        _ => Err(
            protocol_error("Pi runtime spawn did not return spawned session metadata".to_owned()),
        ),
    }
}

/// A piece of user input as text.
fn render_item(item: &UserInput) -> (text: Option<String>)
    ensures
        text.deep_view() == rendered_input(*item),
{
    match item {
        UserInput::Text { text } => Some(text.clone()),
        UserInput::Image { image_url } => {
            let mut text = "[image](".to_owned();
            text.append(image_url.as_str());
            text.append(")");
            Some(text)
        },
        UserInput::LocalImage { path } => {
            let mut text = "[local image: ".to_owned();
            text.append(path.as_str());
            text.append("]");
            Some(text)
        },
        UserInput::Skill { name, path } => {
            let mut text = "[skill ".to_owned();
            text.append(name.as_str());
            text.append(": ");
            text.append(path.as_str());
            text.append("]");
            Some(text)
        },
        UserInput::Mention { name, path } => {
            let mut text = "[".to_owned();
            text.append(name.as_str());
            text.append("](");
            text.append(path.as_str());
            text.append(")");
            Some(text)
        },
        UserInput::Native(_) => None,
    }
}

/// The text of an input, where the sidecar takes every piece of it.
pub fn render_user_input(items: Vec<UserInput>) -> (text: Result<String, AgentRuntimeError>)
    ensures
        text is Ok == is_renderable(items@),
        text matches Ok(rendered) ==> rendered@ == rendered_inputs(items@),
        text matches Err(error) ==> error.deep_view() == unsupported_input(),
{
    let mut rendered: Vec<String> = Vec::new();
    let ghost texts = items@.map_values(|item: UserInput| rendered_input(item)->0);
    let mut index: usize = 0;
    while index < items.len()
        invariant
            texts == items@.map_values(|item: UserInput| rendered_input(item)->0),
            index <= items@.len(),
            forall|i: int| 0 <= i < index ==> rendered_input(#[trigger] items@[i]) is Some,
            rendered.deep_view() == texts.take(index as int),
        decreases items@.len() - index,
    {
        let ghost done = rendered.deep_view();
        match render_item(&items[index]) {
            Some(text) => {
                rendered.push(text);
                assert(rendered.deep_view() =~= done.push(text@));
                assert(rendered.deep_view() =~= texts.take(index + 1));
            },
            None => {
                assert(rendered_input(items@[index as int]) is None);
                return Err(
                    AgentRuntimeError::new(
                        AgentRuntimeErrorKind::UnsupportedOperation,
                        "Pi runtime received an unsupported user input item".to_owned(),
                    ),
                );
            },
        }
        index = index + 1;
    }
    assert(texts.take(texts.len() as int) =~= texts);
    Ok(join(&rendered, "\n\n"))
}

/// The text of a message from another agent.
pub fn render_communication(communication: InterAgentCommunication) -> (text: String)
    ensures
        text == communication.content,
{
    communication.content
}

} // verus!
