use agent_runtime::agent_runtime::AgentRuntimeToolCall;
use agent_runtime::external_host_tools::{
    definitions, execution_error, external_host_tool_names, function_payload,
    host_tool_definition, host_tool_payload, output_with_text, tool_output, tool_result, ExternalHostTools, ToolPayload, ToolSpec,
};
use agent_runtime::protocol::CodexErr;
use serde_json::Value;

fn json(text: &str) -> Value {
    serde_json::from_str(text).expect("test document")
}

fn function(name: &str, parameters: Result<Value, String>) -> ToolSpec {
    ToolSpec::Function {
        name: name.to_string(),
        description: "does things".to_string(),
        parameters,
    }
}

fn freeform(name: &str) -> ToolSpec {
    ToolSpec::Freeform {
        name: name.to_string(),
        description: "a grammar".to_string(),
    }
}

fn call(tool_name: &str) -> AgentRuntimeToolCall {
    AgentRuntimeToolCall {
        call_id: "c".to_string(),
        tool_name: tool_name.to_string(),
        arguments: Value::Null,
    }
}

#[test]
fn two_tools_are_offered() {
    assert_eq!(
        external_host_tool_names(),
        vec!["exec_command".to_string(), "apply_patch".to_string()]
    );
    let told = definitions(vec![
        function("exec_command", Ok(json(r#"{"type":"object"}"#))),
        function("shell", Ok(Value::Null)),
        ToolSpec::Other,
        freeform("other"),
        freeform("apply_patch"),
    ])
    .expect("definitions");
    assert_eq!(told.len(), 2);
    assert_eq!(told[0].name, "exec_command");
    assert_eq!(told[0].description, "does things");
    assert_eq!(told[0].input_schema, json(r#"{"type":"object"}"#));
    assert_eq!(told[1].name, "apply_patch");
    assert_eq!(
        told[1].description,
        "Apply a patch through Codex's native sandbox, approval, and diff pipeline."
    );
    assert_eq!(
        told[1].input_schema,
        json(
            r#"{"type":"object","properties":{"patch":{"type":"string","description":"a grammar"}},"required":["patch"],"additionalProperties":false}"#
        )
    );
}

#[test]
fn tools_without_a_schema_fail_the_whole() {
    let error = definitions(vec![
        function("shell", Err("hidden".to_string())),
        function("exec_command", Err("first".to_string())),
        function("apply_patch", Err("second".to_string())),
    ])
    .expect_err("no schema");
    assert_eq!(
        error,
        CodexErr::Fatal("failed to serialize host tool schema: first".to_string())
    );
    assert!(host_tool_definition(function("shell", Err("x".to_string()))).is_none());
    assert!(matches!(
        host_tool_definition(function("apply_patch", Ok(Value::Null))),
        Some(Ok(_))
    ));
    assert!(host_tool_definition(ToolSpec::Other).is_none());
    assert!(definitions(Vec::new()).expect("nothing").is_empty());
}

#[test]
fn payloads_depend_on_the_tool() {
    assert_eq!(
        host_tool_payload("apply_patch", json(r#"{"patch":"*** Begin"}"#)),
        Ok(ToolPayload::Custom {
            input: "*** Begin".to_string()
        })
    );
    for arguments in [r#"{"patch":1}"#, "{}", r#""patch""#] {
        assert_eq!(
            host_tool_payload("apply_patch", json(arguments)),
            Err(CodexErr::InvalidRequest(
                "Codex-hosted apply_patch requires a string `patch` argument".to_string()
            ))
        );
    }
    assert_eq!(
        host_tool_payload("exec_command", json(r#"{ "cmd": "ls" }"#)),
        Ok(ToolPayload::Function {
            arguments: r#"{"cmd":"ls"}"#.to_string()
        })
    );
}

#[test]
fn arguments_that_cannot_be_encoded_are_refused() {
    assert_eq!(
        function_payload(Ok("{}".to_string())),
        Ok(ToolPayload::Function {
            arguments: "{}".to_string()
        })
    );
    assert_eq!(
        function_payload(Err("why".to_string())),
        Err(CodexErr::InvalidRequest(
            "failed to encode host tool arguments: why".to_string()
        ))
    );
}

#[test]
fn outputs_are_shown_as_text() {
    assert_eq!(
        output_with_text("shown".to_string(), json("[true]")),
        json(r#"{"content":[{"type":"text","text":"shown"}],"details":[true]}"#)
    );
    assert_eq!(
        tool_output(json(r#""plain \"text\"""#)),
        json(r#"{"content":[{"type":"text","text":"plain \"text\""}],"details":"plain \"text\""}"#)
    );
    assert_eq!(
        tool_output(json(r#"{ "exit_code": 0 }"#)),
        json(
            r#"{"content":[{"type":"text","text":"{\"exit_code\":0}"}],"details":{"exit_code":0}}"#
        )
    );
}

#[test]
fn results_carry_output_or_failure() {
    let done = tool_result("c".to_string(), Ok(json("[1]")));
    assert_eq!(done.call_id, "c");
    assert_eq!(done.output, json("[1]"));
    assert!(!done.is_error);
    let failed = tool_result("d".to_string(), Err("no".to_string()));
    assert_eq!(failed.call_id, "d");
    assert!(failed.is_error);
    assert_eq!(
        failed.output,
        json(r#"{"content":[{"type":"text","text":"no"}],"details":{"error":"no"}}"#)
    );
    assert_eq!(
        execution_error("x"),
        CodexErr::Fatal("host tool execution failed: x".to_string())
    );
}

#[test]
fn calls_run_in_the_turn_that_was_set() {
    let mut tools = ExternalHostTools::new();
    assert_eq!(
        tools.accept_call(&call("exec_command")),
        Ok("external-host-tools".to_string())
    );
    tools.reset_for_turn("external-t-0");
    assert_eq!(
        tools.accept_call(&call("apply_patch")),
        Ok("external-t-0".to_string())
    );
    assert_eq!(
        tools.accept_call(&call("shell")),
        Err(CodexErr::InvalidRequest(
            "external runtime requested unavailable host tool `shell`".to_string()
        ))
    );
}
