//! The tools that the host runs for an external runtime.
//!
//! The host offers two of its tools. A runtime asks for one by name; the host checks the
//! request, runs the tool in a session of its own, and shapes what comes back.
use vstd::prelude::*;
use vstd::string::*;

use crate::agent_runtime::{
    AgentRuntimeHostToolDefinition, AgentRuntimeToolCall, AgentRuntimeToolResult,
    HostToolDefinitionView,
};
use crate::json::{
    array_of_one, json_bool, json_display, json_get, json_member_text, json_members,
    json_object, json_string, json_string_text, json_text, json_to_string, json_view,
    object_of_one, object_of_two, JsonView,
};
use crate::protocol::{CodexErr, CodexErrView};
use crate::text::same_text;
use crate::text_map::entries_map;

verus! {

/// A tool that the host has, as it describes it.
pub enum ToolSpec {
    /// A tool with structured arguments. Its parameters are the JSON schema of the arguments,
    /// or why there is none.
    Function { name: String, description: String, parameters: Result<serde_json::Value, String> },
    /// A tool that takes text.
    Freeform { name: String, description: String },
    /// Any other tool.
    Other,
}

/// What a tool is called with.
#[derive(Debug, PartialEq, Eq)]
pub enum ToolPayload {
    Function { arguments: String },
    Custom { input: String },
}

/// Deep view of [`ToolPayload`].
pub enum PayloadView {
    Function { arguments: Seq<char> },
    Custom { input: Seq<char> },
}

impl DeepView for ToolPayload {
    type V = PayloadView;

    open spec fn deep_view(&self) -> PayloadView {
        match self {
            ToolPayload::Function { arguments } => PayloadView::Function { arguments: arguments@ },
            ToolPayload::Custom { input } => PayloadView::Custom { input: input@ },
        }
    }
}

/// The names of the tools that the host offers, in the order in which it lists them.
pub open spec fn external_host_tools() -> Seq<Seq<char>> {
    seq!["exec_command"@, "apply_patch"@]
}

/// Whether the host offers a tool.
pub open spec fn is_external_host_tool(name: Seq<char>) -> bool {
    name == "exec_command"@ || name == "apply_patch"@
}

/// The names of the tools that the host offers.
pub fn external_host_tool_names() -> (names: Vec<String>)
    ensures
        names.deep_view() == external_host_tools(),
{
    let mut names: Vec<String> = Vec::new();
    names.push("exec_command".to_owned());
    names.push("apply_patch".to_owned());
    assert(names.deep_view() =~= external_host_tools());
    names
}

/// Whether the host offers a tool.
fn offers(name: &str) -> (offered: bool)
    ensures
        offered == is_external_host_tool(name@),
{
    same_text(name, "exec_command") || same_text(name, "apply_patch")
}

/// The schema of the arguments of a text tool that is described by a text: one text.
pub open spec fn patch_schema(description: Seq<char>) -> JsonView {
    JsonView::Object(
        map![
            "type"@ => JsonView::String("object"@),
            "properties"@ => JsonView::Object(
                map![
                    "patch"@ => JsonView::Object(
                        map![
                            "type"@ => JsonView::String("string"@),
                            "description"@ => JsonView::String(description),
                        ],
                    ),
                ],
            ),
            "required"@ => JsonView::Array(seq![JsonView::String("patch"@)]),
            "additionalProperties"@ => JsonView::Bool(false),
        ],
    )
}

fn patch_schema_value(description: String) -> (schema: serde_json::Value)
    ensures
        json_view(schema) == patch_schema(description@),
{
    proof {
        reveal_strlit("type");
        reveal_strlit("description");
        assert("type"@.len() == 4 && "description"@.len() == 11);
    }
    let patch = object_of_two(
        "type",
        json_string("string".to_owned()),
        "description",
        json_string(description),
    );
    let properties = object_of_one("patch", patch);
    let required = array_of_one(json_string("patch".to_owned()));
    let mut members: Vec<(String, serde_json::Value)> = Vec::new();
    members.push(("type".to_owned(), json_string("object".to_owned())));
    members.push(("properties".to_owned(), properties));
    members.push(("required".to_owned(), required));
    members.push(("additionalProperties".to_owned(), json_bool(false)));
    proof {
        reveal_with_fuel(entries_map, 5);
        reveal_strlit("properties");
        reveal_strlit("required");
        reveal_strlit("additionalProperties");
        assert("properties"@.len() == 10 && "required"@.len() == 8
            && "additionalProperties"@.len() == 20);
        let all = members@;
        assert(all.drop_last().drop_last().drop_last().drop_last() =~= Seq::empty());
        assert(json_members(all) =~= patch_schema(description@)->Object_0);
    }
    json_object(members)
}

/// What a runtime is told of a tool: nothing of one that is not offered, and of a patch tool
/// that takes text a description and a schema of the host's own.
pub open spec fn definition_view(spec: ToolSpec) -> Option<
    Result<HostToolDefinitionView, CodexErrView>,
> {
    match spec {
        ToolSpec::Function { name, description, parameters } => if is_external_host_tool(name@) {
            Some(
                match parameters {
                    Ok(schema) => Ok(
                        HostToolDefinitionView {
                            name: name@,
                            description: description@,
                            input_schema: json_view(schema),
                        },
                    ),
                    Err(error) => Err(
                        CodexErrView::Fatal("failed to serialize host tool schema: "@ + error@),
                    ),
                },
            )
        } else {
            None
        },
        ToolSpec::Freeform { name, description } => if name@ == "apply_patch"@ {
            Some(
                Ok(
                    HostToolDefinitionView {
                        name: name@,
                        description: "Apply a patch through Codex's native sandbox, approval, and diff pipeline."@,
                        input_schema: patch_schema(description@),
                    },
                ),
            )
        } else {
            None
        },
        ToolSpec::Other => None,
    }
}

/// What a runtime is told of a tool.
pub fn host_tool_definition(spec: ToolSpec) -> (definition: Option<
    Result<AgentRuntimeHostToolDefinition, CodexErr>,
>)
    ensures
        match definition {
            Some(Ok(told)) => definition_view(spec) == Some(
                Ok::<HostToolDefinitionView, CodexErrView>(told.deep_view()),
            ),
            Some(Err(error)) => definition_view(spec) == Some(
                Err::<HostToolDefinitionView, CodexErrView>(error.deep_view()),
            ),
            None => definition_view(spec) is None,
        },
{
    match spec {
        ToolSpec::Function { name, description, parameters } => {
            if !offers(name.as_str()) {
                return None;
            }
            match parameters {
                Ok(input_schema) => Some(
                    Ok(AgentRuntimeHostToolDefinition { name, description, input_schema }),
                ),
                Err(error) => {
                    let mut message = "failed to serialize host tool schema: ".to_owned();
                    message.append(error.as_str());
                    Some(Err(CodexErr::Fatal(message)))
                },
            }
        },
        ToolSpec::Freeform { name, description } => {
            if !same_text(name.as_str(), "apply_patch") {
                return None;
            }
            Some(
                Ok(
                    AgentRuntimeHostToolDefinition {
                        name,
                        description: "Apply a patch through Codex's native sandbox, approval, and diff pipeline.".to_owned(),
                        input_schema: patch_schema_value(description),
                    },
                ),
            )
        },
        ToolSpec::Other => None,
    }
}

/// What a runtime is told of tools: of each that is offered, in order; the first that cannot be
/// described fails the whole.
pub open spec fn definitions_view(specs: Seq<ToolSpec>) -> Result<
    Seq<HostToolDefinitionView>,
    CodexErrView,
>
    decreases specs.len(),
{
    if specs.len() == 0 {
        Ok(Seq::empty())
    } else {
        match definitions_view(specs.drop_last()) {
            Err(error) => Err(error),
            Ok(earlier) => match definition_view(specs.last()) {
                None => Ok(earlier),
                Some(Ok(told)) => Ok(earlier.push(told)),
                Some(Err(error)) => Err(error),
            },
        }
    }
}

proof fn lemma_first_failure_counts(specs: Seq<ToolSpec>, count: int)
    requires
        0 <= count <= specs.len(),
        definitions_view(specs.take(count)) is Err,
    ensures
        definitions_view(specs) == definitions_view(specs.take(count)),
    decreases specs.len() - count,
{
    if count == specs.len() {
        assert(specs.take(count) =~= specs);
    } else {
        assert(specs.take(count + 1).drop_last() =~= specs.take(count));
        lemma_first_failure_counts(specs, count + 1);
    }
}

/// What a runtime is told of the tools that were found under the offered names.
pub fn definitions(specs: Vec<ToolSpec>) -> (definitions: Result<
    Vec<AgentRuntimeHostToolDefinition>,
    CodexErr,
>)
    ensures
        match definitions {
            Ok(told) => definitions_view(specs@) == Ok::<
                Seq<HostToolDefinitionView>,
                CodexErrView,
            >(told.deep_view()),
            Err(error) => definitions_view(specs@) == Err::<
                Seq<HostToolDefinitionView>,
                CodexErrView,
            >(error.deep_view()),
        },
{
    let ghost all = specs@;
    let mut left = specs;
    let ghost mut done: int = 0;
    let mut told: Vec<AgentRuntimeHostToolDefinition> = Vec::new();
    assert(told.deep_view() =~= Seq::empty());
    while left.len() > 0
        invariant
            all == specs@,
            0 <= done <= all.len(),
            left@ == all.skip(done),
            definitions_view(all.take(done)) == Ok::<Seq<HostToolDefinitionView>, CodexErrView>(
                told.deep_view(),
            ),
        decreases left@.len(),
    {
        let ghost before = told.deep_view();
        let spec = left.remove(0);
        proof {
            assert(spec == all[done]);
            assert(left@ =~= all.skip(done + 1));
            assert(all.take(done + 1).drop_last() =~= all.take(done));
            assert(all.take(done + 1).last() == spec);
        }
        match host_tool_definition(spec) {
            None => {},
            Some(Ok(definition)) => {
                told.push(definition);
                assert(told.deep_view() =~= before.push(definition.deep_view()));
            },
            Some(Err(error)) => {
                proof {
                    lemma_first_failure_counts(all, done + 1);
                }
                return Err(error);
            },
        }
        proof {
            done = done + 1;
        }
    }
    assert(all.take(done) =~= all);
    Ok(told)
}

/// The failure that answers a request for a tool that is not offered.
pub open spec fn tool_not_offered(name: Seq<char>) -> CodexErrView {
    CodexErrView::InvalidRequest(
        "external runtime requested unavailable host tool `"@ + name + "`"@,
    )
}

/// What a tool is called with: a patch tool gets the text of the patch, any other the compact
/// JSON text of its arguments. A patch tool without a patch is not called.
pub open spec fn payload_view(name: Seq<char>, arguments: JsonView) -> Result<
    PayloadView,
    CodexErrView,
> {
    if name == "apply_patch"@ {
        match json_member_text(arguments, "patch"@) {
            Some(patch) => Ok(PayloadView::Custom { input: patch }),
            None => Err(
                CodexErrView::InvalidRequest(
                    "Codex-hosted apply_patch requires a string `patch` argument"@,
                ),
            ),
        }
    } else {
        Ok(PayloadView::Function { arguments: json_text(arguments) })
    }
}

/// What a tool with structured arguments is called with, for their text.
pub fn function_payload(arguments: Result<String, String>) -> (payload: Result<
    ToolPayload,
    CodexErr,
>)
    ensures
        match (arguments, payload) {
            (Ok(text), Ok(made)) => made == (ToolPayload::Function { arguments: text }),
            (Err(reason), Err(error)) => error.deep_view() == CodexErrView::InvalidRequest(
                "failed to encode host tool arguments: "@ + reason@,
            ),
            _ => false,
        },
{
    match arguments {
        Ok(arguments) => Ok(ToolPayload::Function { arguments }),
        Err(error) => {
            let mut message = "failed to encode host tool arguments: ".to_owned();
            message.append(error.as_str());
            Err(CodexErr::InvalidRequest(message))
        },
    }
}

/// What a tool is called with, for the arguments that the runtime gave.
pub fn host_tool_payload(tool_name: &str, arguments: serde_json::Value) -> (payload: Result<
    ToolPayload,
    CodexErr,
>)
    ensures
        match payload {
            Ok(made) => payload_view(tool_name@, json_view(arguments)) == Ok::<
                PayloadView,
                CodexErrView,
            >(made.deep_view()),
            Err(error) => payload_view(tool_name@, json_view(arguments)) == Err::<
                PayloadView,
                CodexErrView,
            >(error.deep_view()),
        },
{
    if same_text(tool_name, "apply_patch") {
        let patch = match json_get(&arguments, "patch") {
            Some(member) => match member.as_str() {
                Some(patch) => Some(patch.to_owned()),
                None => None,
            },
            None => None,
        };
        return match patch {
            Some(input) => Ok(ToolPayload::Custom { input }),
            None => Err(
                CodexErr::InvalidRequest(
                    "Codex-hosted apply_patch requires a string `patch` argument".to_owned(),
                ),
            ),
        };
    }
    function_payload(json_to_string(&arguments))
}

/// The failure of a tool that ran.
pub fn execution_error(error: &str) -> (failure: CodexErr)
    ensures
        failure.deep_view() == CodexErrView::Fatal("host tool execution failed: "@ + error@),
{
    let mut message = "host tool execution failed: ".to_owned();
    message.append(error);
    CodexErr::Fatal(message)
}

/// One piece of text as content of a result.
pub open spec fn text_content(text: Seq<char>) -> JsonView {
    JsonView::Array(
        seq![
            JsonView::Object(
                map!["type"@ => JsonView::String("text"@), "text"@ => JsonView::String(text)],
            ),
        ],
    )
}

fn text_content_value(text: String) -> (content: serde_json::Value)
    ensures
        json_view(content) == text_content(text@),
{
    proof {
        reveal_strlit("type");
        reveal_strlit("text");
        assert("type"@[1] != "text"@[1]);
    }
    array_of_one(object_of_two("type", json_string("text".to_owned()), "text", json_string(text)))
}

/// The text of a value: of a string its characters, of any other value its compact JSON text.
pub open spec fn shown_text(value: JsonView) -> Seq<char> {
    match json_string_text(value) {
        Some(text) => text,
        None => json_text(value),
    }
}

/// A text as content, and a value as details.
pub open spec fn output_of(text: Seq<char>, value: JsonView) -> JsonView {
    JsonView::Object(map!["content"@ => text_content(text), "details"@ => value])
}

/// A text as content, and a value as details.
pub fn output_with_text(text: String, value: serde_json::Value) -> (output: serde_json::Value)
    ensures
        json_view(output) == output_of(text@, json_view(value)),
{
    proof {
        reveal_strlit("content");
        reveal_strlit("details");
        assert("content"@[0] != "details"@[0]);
    }
    object_of_two("content", text_content_value(text), "details", value)
}

/// What a runtime gets of the value that a tool returned: its text, and the value as details.
pub open spec fn output_view(value: JsonView) -> JsonView {
    output_of(shown_text(value), value)
}

/// What a runtime gets of the value that a tool returned.
pub fn tool_output(value: serde_json::Value) -> (output: serde_json::Value)
    ensures
        json_view(output) == output_view(json_view(value)),
{
    let text = match value.as_str() {
        Some(text) => text.to_owned(),
        None => match json_to_string(&value) {
            Ok(text) => text,
            Err(_) => json_display(&value),
        },
    };
    output_with_text(text, value)
}

/// What a runtime gets of a failure: its message as text and in the details.
pub open spec fn failure_view(message: Seq<char>) -> JsonView {
    output_of(message, JsonView::Object(map!["error"@ => JsonView::String(message)]))
}

/// Whether a result is the one of a call: what the tool gave, or the message of a failure.
pub open spec fn is_result_of(
    result: AgentRuntimeToolResult,
    call_id: String,
    outcome: Result<serde_json::Value, String>,
) -> bool {
    &&& result.call_id == call_id
    &&& result.is_error == (outcome is Err)
    &&& match outcome {
        Ok(output) => result.output == output,
        Err(message) => json_view(result.output) == failure_view(message@),
    }
}

/// The result of a call: what the tool gave, or the message of a failure.
pub fn tool_result(call_id: String, outcome: Result<serde_json::Value, String>) -> (result:
    AgentRuntimeToolResult)
    ensures
        is_result_of(result, call_id, outcome),
{
    match outcome {
        Ok(output) => AgentRuntimeToolResult { call_id, output, is_error: false },
        Err(message) => {
            let details = object_of_one("error", json_string(message.clone()));
            AgentRuntimeToolResult {
                call_id,
                output: output_with_text(message, details),
                is_error: true,
            }
        },
    }
}

/// The turn in which the host runs tools for an external runtime.
pub struct ExternalHostTools {
    turn_id: String,
}

impl View for ExternalHostTools {
    type V = Seq<char>;

    closed spec fn view(&self) -> Seq<char> {
        self.turn_id@
    }
}

impl ExternalHostTools {
    /// Before the first turn tools run in a turn of their own.
    pub fn new() -> (tools: Self)
        ensures
            tools@ == "external-host-tools"@,
    {
        ExternalHostTools { turn_id: "external-host-tools".to_owned() }
    }

    /// From now on tools run in another turn.
    pub fn reset_for_turn(&mut self, turn_id: &str)
        ensures
            final(self)@ == turn_id@,
    {
        self.turn_id = turn_id.to_owned();
    }

    /// Accepts a call of a tool that is offered: the turn in which it runs.
    pub fn accept_call(&self, call: &AgentRuntimeToolCall) -> (turn: Result<String, CodexErr>)
        ensures
            turn is Ok == is_external_host_tool(call.tool_name@),
            turn matches Ok(id) ==> id@ == self@,
            turn matches Err(error) ==> error.deep_view() == tool_not_offered(call.tool_name@),
    {
        if !offers(call.tool_name.as_str()) {
            let mut message = "external runtime requested unavailable host tool `".to_owned();
            message.append(call.tool_name.as_str());
            message.append("`");
            return Err(CodexErr::InvalidRequest(message));
        }
        Ok(self.turn_id.clone())
    }
}

/// A runtime is only ever told of tools that the host offers, and at most once of each of the
/// tools that were found.
pub proof fn only_offered_tools_are_told(specs: Seq<ToolSpec>, index: int)
    requires
        definitions_view(specs) is Ok,
        0 <= index < definitions_view(specs)->Ok_0.len(),
    ensures
        is_external_host_tool(definitions_view(specs)->Ok_0[index].name),
        definitions_view(specs)->Ok_0.len() <= specs.len(),
    decreases specs.len(),
{
    if specs.len() > 0 {
        let earlier = definitions_view(specs.drop_last())->Ok_0;
        if index < earlier.len() {
            only_offered_tools_are_told(specs.drop_last(), index);
        } else if earlier.len() > 0 {
            only_offered_tools_are_told(specs.drop_last(), 0);
        }
    }
}

/// Every tool that a runtime is told of is one that it may call:
/// it stands among the offered names.
pub proof fn told_tools_may_be_called(spec: ToolSpec)
    requires
        definition_view(spec) is Some,
        definition_view(spec)->0 is Ok,
    ensures
        is_external_host_tool(definition_view(spec)->0->Ok_0.name),
        external_host_tools().contains(definition_view(spec)->0->Ok_0.name),
{
    let names = external_host_tools();
    assert(names[0] == "exec_command"@ && names[1] == "apply_patch"@);
}

} // verus!
