use agent_runtime::agent_runtime::{
    AgentRuntimeError, AgentRuntimeErrorKind, AgentRuntimeHostToolDefinition, AgentRuntimeId,
    AgentRuntimeOperation, AgentRuntimeResumeRequest, AgentRuntimeSpawnRequest,
    AgentRuntimeToolResult,
};
use agent_runtime::pi_proto::{
    Command, HostToolRequest, MessageBoundary, MessageDelta, PiEvent, PiTokenUsage,
    ResponseResult, RuntimeError, RuntimeResponse, SessionEvent, SpawnedSession,
};
use agent_runtime::pi_session::{
    config_string, encode_host_tool, encode_host_tools, expect_spawned, render_communication, render_user_input,
    resume_command, spawn_command,
};
use agent_runtime::pi_thread::{
    open_thread, reasoning_id, saturating_i64, tool_result_message, Followup, Opening, PiRuntimeThread, ThreadEvents,
};
use agent_runtime::protocol::{
    AgentStatus, Event, EventMsg, InterAgentCommunication, MessagePhase, Op, OpBody, ThreadId,
    TurnAbortReason, TurnItem, UserInput,
};
use serde_json::Value;

fn json(text: &str) -> Value {
    serde_json::from_str(text).expect("test document")
}

fn thread_id(value: &str) -> ThreadId {
    ThreadId {
        value: value.to_string(),
    }
}

fn spawned() -> SpawnedSession {
    SpawnedSession {
        session_locator: "/sessions/1".to_string(),
        provider: "faux".to_string(),
        model: "faux-1".to_string(),
        thinking_level: "high".to_string(),
    }
}

fn thread() -> PiRuntimeThread {
    PiRuntimeThread::new(
        AgentRuntimeId::new("pi").expect("valid id"),
        thread_id("thread-1"),
        spawned(),
        "/agents".to_string(),
    )
}

fn event(sequence: u64, event: PiEvent) -> SessionEvent {
    SessionEvent {
        session_id: "thread-1".to_string(),
        sequence,
        event: Some(event),
    }
}

fn boundary(id: &str, role: &str) -> MessageBoundary {
    MessageBoundary {
        message_id: id.to_string(),
        role: role.to_string(),
    }
}

fn piece(id: &str, text: &str) -> MessageDelta {
    MessageDelta {
        message_id: id.to_string(),
        delta: text.to_string(),
    }
}

fn drain(events: &mut ThreadEvents) -> Vec<Event> {
    let mut all = Vec::new();
    while let Some(event) = events.pop_front() {
        all.push(event);
    }
    all
}

fn op(kind: &str, body: OpBody) -> Op {
    Op {
        kind: kind.to_string(),
        body,
    }
}

fn operation(submission_id: &str, op: Op) -> AgentRuntimeOperation {
    AgentRuntimeOperation {
        submission_id: submission_id.to_string(),
        op,
    }
}

fn prompt(submission_id: &str, text: &str) -> AgentRuntimeOperation {
    let items = vec![UserInput::Text {
        text: text.to_string(),
    }];
    operation(submission_id, op("user_input", OpBody::UserInput { items }))
}

fn interrupt() -> AgentRuntimeOperation {
    operation("interrupt-1", op("interrupt", OpBody::Interrupt))
}

fn refusal() -> AgentRuntimeError {
    AgentRuntimeError::new(AgentRuntimeErrorKind::Unavailable, "gone".to_string())
}

#[test]
fn spawn_metadata_round_trips() {
    let request = AgentRuntimeSpawnRequest {
        thread_id: thread_id("thread-1"),
        parent_thread_id: Some(thread_id("thread-0")),
        role: Some("pi_worker".to_string()),
        cwd: "/work".to_string(),
        model: None,
        model_provider: "pi".to_string(),
        runtime_config: json(r#"{"provider":"faux","model":"faux-1","thinking_level":"high"}"#),
        host_tools: Vec::new(),
    };
    let (command, agent_dir) = spawn_command(request).expect("spawn command");
    let Command::Spawn(spawn) = command else {
        panic!("a session is spawned");
    };
    assert_eq!(agent_dir, "");
    assert_eq!(spawn.codex_thread_id, "thread-1");
    assert_eq!(spawn.cwd, "/work");
    assert_eq!(spawn.provider, "faux");
    assert_eq!(spawn.model, "faux-1");
    assert_eq!(spawn.thinking_level, "high");
    assert_eq!(spawn.session_dir, "");
    assert!(spawn.host_tools.is_empty());

    let response = RuntimeResponse {
        request_id: "pi-runtime-0".to_string(),
        result: Some(ResponseResult::Spawned(spawned())),
    };
    let opening = open_thread(
        AgentRuntimeId::new("pi").expect("valid id"),
        thread_id("thread-1"),
        agent_dir,
        Ok(response),
    );
    let Opening::Opened(mut thread) = opening else {
        panic!("Pi sidecar spawn should succeed");
    };
    assert_eq!(thread.thread_id(), &thread_id("thread-1"));
    assert_eq!(thread.status(), AgentStatus::PendingInit);
    assert!(thread.token_usage().is_none());

    let (command, followup) = thread
        .submit(prompt("pi-turn-1", "Reply through Pi"))
        .expect("submit Pi prompt");
    assert_eq!(
        command,
        Command::Prompt {
            text: "Reply through Pi".to_string()
        }
    );
    assert_eq!(thread.finish(followup, Ok(())), Ok(None));

    let mut events = ThreadEvents::new();
    let usage = PiTokenUsage {
        input_tokens: 3,
        output_tokens: 5,
        cache_read_tokens: 2,
        total_tokens: u64::MAX,
    };
    let script = [
        PiEvent::AgentStart,
        PiEvent::TurnStart,
        PiEvent::MessageStart(boundary("m1", "assistant")),
        PiEvent::TextDelta(piece("m1", "Hello from the ")),
        PiEvent::TextDelta(piece("m1", "real Pi SDK sidecar.")),
        PiEvent::MessageEnd(boundary("m1", "assistant")),
        PiEvent::TokenUsage(usage),
        PiEvent::AgentEnd {
            last_assistant_text: "Hello from the real Pi SDK sidecar.".to_string(),
        },
    ];
    for (sequence, happened) in script.into_iter().enumerate() {
        thread.translate_event(&mut events, event(sequence as u64, happened));
    }
    let mut streamed_text = String::new();
    let mut completed_text = String::new();
    let mut saw_turn_started = false;
    let mut saw_turn_completed = false;
    let mut saw_token_count = false;
    for event in drain(&mut events) {
        assert_eq!(event.id, "pi-turn-1");
        match event.msg {
            EventMsg::TurnStarted(event) => {
                saw_turn_started = true;
                assert_eq!(event.turn_id, "pi-turn-1");
            }
            EventMsg::AgentMessageContentDelta(event) => streamed_text.push_str(&event.delta),
            EventMsg::ItemCompleted(event) => match event.item {
                TurnItem::AgentMessage(item) => {
                    assert_eq!(item.phase, Some(MessagePhase::FinalAnswer));
                    completed_text = item.content.concat();
                }
                _ => panic!("only a message is complete"),
            },
            EventMsg::TurnComplete(event) => {
                saw_turn_completed = true;
                assert_eq!(
                    event.last_agent_message.as_deref(),
                    Some("Hello from the real Pi SDK sidecar.")
                );
            }
            EventMsg::TokenCount(event) => {
                saw_token_count = true;
                let last = event.info.expect("token counts").last_token_usage;
                assert_eq!(last.input_tokens, 3);
                assert_eq!(last.cached_input_tokens, 2);
                assert_eq!(last.output_tokens, 5);
                assert_eq!(last.total_tokens, i64::MAX);
                assert_eq!(last.cache_write_input_tokens, 0);
                assert_eq!(last.reasoning_output_tokens, 0);
            }
            _ => {}
        }
    }
    assert!(saw_turn_started);
    assert!(saw_turn_completed);
    assert!(saw_token_count);
    assert_eq!(streamed_text, "Hello from the real Pi SDK sidecar.");
    assert_eq!(completed_text, streamed_text);
    assert_eq!(
        thread.status(),
        AgentStatus::Completed(Some("Hello from the real Pi SDK sidecar.".to_string()))
    );
    assert_eq!(
        thread.token_usage().expect("token counts").total_token_usage.total_tokens,
        i64::MAX
    );

    let persistence = thread.persistence();
    assert_eq!(persistence.runtime_id.as_str(), "pi");
    assert_eq!(persistence.session_locator, "/sessions/1");
    assert_eq!(persistence.metadata["provider"], "faux");
    assert_eq!(persistence.metadata["model"], "faux-1");

    let (command, followup) = thread
        .submit(operation("close-1", op("shutdown", OpBody::Shutdown)))
        .expect("close Pi sidecar session");
    assert_eq!(command, Command::Close);
    let report = thread.finish(followup, Ok(())).expect("closed").expect("a report");
    assert_eq!(report.id, "thread-1");
    assert_eq!(report.msg, EventMsg::ShutdownComplete);
    assert_eq!(thread.status(), AgentStatus::Shutdown);
}

#[test]
fn persisted_thread_resumes_its_session() {
    let state = thread().persistence();
    let request = AgentRuntimeResumeRequest {
        thread_id: thread_id("thread-1"),
        parent_thread_id: None,
        cwd: "/elsewhere".to_string(),
        state,
        host_tools: Vec::new(),
    };
    let (command, agent_dir) = resume_command(request).expect("resume command");
    let Command::Resume(resume) = command else {
        panic!("a session is resumed");
    };
    assert_eq!(resume.session_locator, "/sessions/1");
    assert_eq!(resume.agent_dir, "/agents");
    assert_eq!(agent_dir, "/agents");
    assert_eq!(resume.codex_thread_id, "thread-1");
    assert_eq!(resume.cwd_override, "/elsewhere");

    let mut resumed = thread();
    let communication = InterAgentCommunication::new(
        "/root".to_string(),
        "/root/pi_worker".to_string(),
        Vec::new(),
        "say resumed".to_string(),
        true,
    );
    let body = OpBody::InterAgentCommunication { communication };
    let (command, _) = resumed
        .submit(operation("pi-turn-after-reload", op("inter_agent_communication", body)))
        .expect("submit resumed Pi turn");
    assert_eq!(
        command,
        Command::Prompt {
            text: "say resumed".to_string()
        }
    );
}

#[test]
fn host_tool_calls_round_trip() {
    let mut thread = thread();
    let request = HostToolRequest {
        request_id: "request-7".to_string(),
        session_id: "thread-1".to_string(),
        tool_call_id: "host-call-1".to_string(),
        tool_name: "exec_command".to_string(),
        arguments_json: br#"{"cmd":"pwd"}"#.to_vec(),
    };
    let call = thread
        .next_tool_call(Some(request))
        .expect("host tool request")
        .expect("host tool channel open");
    assert_eq!(call.call_id, "host-call-1");
    assert_eq!(call.tool_name, "exec_command");
    assert_eq!(call.arguments, json(r#"{"cmd":"pwd"}"#));
    let output = json(r#"{"content":[{"type":"text","text":"/work"}],"details":{"exit_code":0}}"#);
    let result = AgentRuntimeToolResult {
        call_id: call.call_id,
        output: output.clone(),
        is_error: false,
    };
    let message = thread.submit_tool_result(result.clone()).expect("return host tool result");
    assert_eq!(message.request_id, "request-7");
    assert_eq!(message.session_id, "thread-1");
    assert_eq!(message.tool_call_id, "host-call-1");
    assert_eq!(message.result_json, serde_json::to_vec(&output).expect("bytes"));
    assert_eq!(message.error, None);

    let error = thread.submit_tool_result(result).expect_err("answered once");
    assert_eq!(error.kind, AgentRuntimeErrorKind::Protocol);
    assert_eq!(error.message, "Pi host tool result has no pending call host-call-1");
}

fn tool_request(session_id: &str, call_id: &str, arguments: &str) -> HostToolRequest {
    HostToolRequest {
        request_id: format!("request-{call_id}"),
        session_id: session_id.to_string(),
        tool_call_id: call_id.to_string(),
        tool_name: "exec_command".to_string(),
        arguments_json: arguments.as_bytes().to_vec(),
    }
}

#[test]
fn failed_tool_calls_carry_the_output() {
    let mut thread = thread();
    assert!(thread.next_tool_call(Some(tool_request("thread-1", "a", "{}"))).is_ok());
    assert!(thread.next_tool_call(Some(tool_request("thread-1", "b", "[]"))).is_ok());
    let result = AgentRuntimeToolResult {
        call_id: "a".to_string(),
        output: json(r#"{"why": ["no", 1]}"#),
        is_error: true,
    };
    let message = thread.submit_tool_result(result).expect("pending");
    assert_eq!(message.request_id, "request-a");
    assert_eq!(
        message.error,
        Some(RuntimeError {
            code: "host_tool_failed".to_string(),
            message: r#"{"why":["no",1]}"#.to_string(),
            retryable: false,
            details_json: Vec::new(),
        })
    );
    let other = AgentRuntimeToolResult {
        call_id: "b".to_string(),
        output: Value::Null,
        is_error: false,
    };
    assert_eq!(thread.submit_tool_result(other).expect("pending").request_id, "request-b");
}

#[test]
fn tool_requests_for_another_session_are_refused() {
    let mut thread = thread();
    let error = thread
        .next_tool_call(Some(tool_request("thread-2", "a", "{}")))
        .expect_err("another session");
    assert_eq!(
        error.message,
        "Pi host tool request targeted session thread-2, expected thread-1"
    );
    assert_eq!(thread.next_tool_call(None), Ok(None));
}

#[test]
fn tool_requests_with_invalid_arguments_are_refused() {
    let mut thread = thread();
    let error = thread
        .next_tool_call(Some(tool_request("thread-1", "a", "{")))
        .expect_err("no JSON document");
    let expected = serde_json::from_str::<Value>("{").expect_err("no JSON document").to_string();
    assert_eq!(
        error.message,
        format!("Pi host tool exec_command sent invalid arguments JSON: {expected}")
    );
    let result = AgentRuntimeToolResult {
        call_id: "a".to_string(),
        output: Value::Null,
        is_error: false,
    };
    assert!(thread.submit_tool_result(result).is_err());
    let refused = thread.accept_tool_request(
        tool_request("thread-1", "a", ""),
        Err("why".to_string()),
    );
    assert_eq!(
        refused.expect_err("no arguments").message,
        "Pi host tool exec_command sent invalid arguments JSON: why"
    );
}

#[test]
fn reasoning_is_an_item_before_the_message() {
    let mut thread = thread();
    let mut events = ThreadEvents::new();
    thread.submit(prompt("t", "go")).expect("prompt");
    let script = [
        PiEvent::ThinkingDelta(piece("m", "think ")),
        PiEvent::ThinkingDelta(piece("m", "twice")),
        PiEvent::TextDelta(piece("m", "said")),
        PiEvent::MessageEnd(boundary("m", "assistant")),
    ];
    for happened in script {
        thread.translate_event(&mut events, event(1, happened));
    }
    let reports = drain(&mut events);
    assert_eq!(reports.len(), 7);
    match &reports[0].msg {
        EventMsg::ItemStarted(started) => match &started.item {
            TurnItem::Reasoning(item) => {
                assert_eq!(item.id, "m-reasoning");
                assert!(item.summary_text.is_empty());
            }
            _ => panic!("reasoning begins"),
        },
        _ => panic!("reasoning begins"),
    }
    match &reports[2].msg {
        EventMsg::ReasoningContentDelta(delta) => {
            assert_eq!(delta.delta, "twice");
            assert_eq!(delta.item_id, reasoning_id("m"));
            assert_eq!(delta.summary_index, 0);
        }
        _ => panic!("a piece of reasoning"),
    }
    match &reports[3].msg {
        EventMsg::ItemCompleted(completed) => match &completed.item {
            TurnItem::Reasoning(item) => {
                assert_eq!(item.summary_text, vec!["think twice".to_string()]);
                assert!(item.raw_content.is_empty());
            }
            _ => panic!("reasoning is complete"),
        },
        _ => panic!("reasoning is complete"),
    }
    assert!(matches!(&reports[4].msg, EventMsg::ItemStarted(_)));
    assert!(matches!(&reports[5].msg, EventMsg::AgentMessageContentDelta(_)));
    assert!(matches!(&reports[6].msg, EventMsg::ItemCompleted(_)));
}

#[test]
fn messages_of_others_are_not_reported() {
    let mut thread = thread();
    let mut events = ThreadEvents::new();
    for happened in [
        PiEvent::MessageStart(boundary("u", "user")),
        PiEvent::MessageEnd(boundary("u", "user")),
        PiEvent::MessageEnd(boundary("a", "assistant")),
        PiEvent::ToolExecutionStart,
        PiEvent::ToolExecutionUpdate,
        PiEvent::ToolExecutionEnd,
        PiEvent::TurnEnd,
        PiEvent::QueueUpdate,
        PiEvent::Compaction,
        PiEvent::Retry,
    ] {
        thread.translate_event(&mut events, event(1, happened));
    }
    thread.translate_event(
        &mut events,
        SessionEvent {
            session_id: "thread-1".to_string(),
            sequence: 2,
            event: None,
        },
    );
    assert!(drain(&mut events).is_empty());
}

#[test]
fn events_outside_a_turn_are_named_after_their_number() {
    let mut thread = thread();
    let mut events = ThreadEvents::new();
    thread.translate_event(&mut events, event(41, PiEvent::TurnStart));
    assert_eq!(drain(&mut events)[0].id, "pi-turn-41");
    assert_eq!(thread.status(), AgentStatus::Running);
}

#[test]
fn failures_of_the_session_are_reported() {
    let mut thread = thread();
    let mut events = ThreadEvents::new();
    let error = RuntimeError {
        code: "boom".to_string(),
        message: "it broke".to_string(),
        retryable: true,
        details_json: Vec::new(),
    };
    thread.translate_event(&mut events, event(1, PiEvent::Error(error)));
    assert_eq!(thread.status(), AgentStatus::Errored("it broke".to_string()));
    match &drain(&mut events)[0].msg {
        EventMsg::Error(reported) => {
            assert_eq!(reported.message, "Pi runtime error (boom): it broke");
        }
        _ => panic!("an error is reported"),
    }
}

#[test]
fn running_agents_get_follow_ups() {
    let mut thread = thread();
    let mut events = ThreadEvents::new();
    thread.submit(prompt("one", "first")).expect("prompt");
    thread.translate_event(&mut events, event(1, PiEvent::TurnStart));
    let (command, followup) = thread.submit(prompt("two", "second")).expect("follow-up");
    assert_eq!(
        command,
        Command::FollowUp {
            text: "second".to_string()
        }
    );
    assert_eq!(followup, Followup::Nothing);
    let error = thread.finish(followup, Err(refusal())).expect_err("refused");
    assert_eq!(error, refusal());
    thread.translate_event(&mut events, event(2, PiEvent::TurnStart));
    let ids: Vec<String> = drain(&mut events).into_iter().map(|event| event.id).collect();
    assert_eq!(ids, vec!["one".to_string(), "two".to_string()]);
}

#[test]
fn interrupted_threads_are_silent_until_the_run_ends() {
    let mut thread = thread();
    let mut events = ThreadEvents::new();
    thread.submit(prompt("turn", "go")).expect("prompt");
    thread.translate_event(&mut events, event(1, PiEvent::TurnStart));
    drain(&mut events);
    let (command, followup) = thread.submit(interrupt()).expect("interrupt");
    assert_eq!(command, Command::Interrupt);
    thread.translate_event(&mut events, event(2, PiEvent::TextDelta(piece("m", "late"))));
    let report = thread.finish(followup, Ok(())).expect("accepted").expect("a report");
    assert_eq!(report.id, "turn");
    match &report.msg {
        EventMsg::TurnAborted(aborted) => {
            assert_eq!(aborted.turn_id.as_deref(), Some("turn"));
            assert_eq!(aborted.reason, TurnAbortReason::Interrupted);
        }
        _ => panic!("the turn is aborted"),
    }
    events.enqueue(report);
    assert_eq!(thread.status(), AgentStatus::Interrupted);
    let end = PiEvent::AgentEnd {
        last_assistant_text: "late".to_string(),
    };
    thread.translate_event(&mut events, event(3, end));
    assert_eq!(drain(&mut events).len(), 1);
    assert_eq!(thread.status(), AgentStatus::Interrupted);
    thread.translate_event(&mut events, event(4, PiEvent::TurnStart));
    assert_eq!(drain(&mut events)[0].id, "pi-turn-4");
}

#[test]
fn refused_interruption_gives_the_turn_back() {
    let mut thread = thread();
    let mut events = ThreadEvents::new();
    thread.submit(prompt("turn", "go")).expect("prompt");
    let (_, followup) = thread.submit(interrupt()).expect("interrupt");
    assert_eq!(thread.finish(followup, Err(refusal())), Err(refusal()));
    assert_eq!(thread.status(), AgentStatus::PendingInit);
    thread.translate_event(&mut events, event(1, PiEvent::TurnStart));
    assert_eq!(drain(&mut events)[0].id, "turn");
}

#[test]
fn accepted_close_unregisters_the_session() {
    let close = || operation("", op("shutdown", OpBody::Shutdown));
    let mut thread = thread();
    let before = thread.status();
    let (command, followup) = thread.submit(close()).expect("close");
    assert_eq!(command, Command::Close);
    assert!(!followup.unregisters(&Err(refusal())));
    assert_eq!(thread.finish(followup, Err(refusal())), Err(refusal()));
    assert_eq!(thread.status(), before);

    let (_, followup) = thread.submit(prompt("one", "first")).expect("prompt");
    assert!(!followup.unregisters(&Ok(())));
    thread.finish(followup, Ok(())).expect("accepted prompt");
    let (_, followup) = thread.submit(interrupt()).expect("interrupt");
    assert!(!followup.unregisters(&Ok(())));
    thread.finish(followup, Ok(())).expect("accepted interruption");

    let (_, followup) = thread.submit(close()).expect("close");
    assert!(followup.unregisters(&Ok(())));
    let report = thread.finish(followup, Ok(())).expect("accepted close").expect("report");
    assert_eq!(report.msg, EventMsg::ShutdownComplete);
    assert_eq!(thread.status(), AgentStatus::Shutdown);
}

#[test]
fn interruption_without_a_turn_is_named_after_the_session() {
    let mut thread = thread();
    let (_, followup) = thread.submit(interrupt()).expect("interrupt");
    let report = thread.finish(followup, Ok(())).expect("accepted").expect("a report");
    assert_eq!(report.id, "pi-interrupt-thread-1");
    match &report.msg {
        EventMsg::TurnAborted(aborted) => assert_eq!(aborted.turn_id, None),
        _ => panic!("the turn is aborted"),
    }
}

#[test]
fn new_turn_ends_an_interruption() {
    let mut thread = thread();
    let mut events = ThreadEvents::new();
    thread.submit(interrupt()).expect("interrupt");
    thread.submit(prompt("next", "go")).expect("prompt");
    thread.translate_event(&mut events, event(1, PiEvent::TurnStart));
    assert_eq!(drain(&mut events)[0].id, "next");
}

#[test]
fn other_operations_are_refused() {
    let mut thread = thread();
    let error = thread
        .submit(operation("x", op("compact", OpBody::Native(Value::Null))))
        .expect_err("unknown operation");
    assert_eq!(error.kind, AgentRuntimeErrorKind::UnsupportedOperation);
    assert_eq!(
        error.message,
        "Pi runtime does not support Codex operation `compact`"
    );
    let quiet = InterAgentCommunication::new(
        "/root".to_string(),
        "/root/a".to_string(),
        Vec::new(),
        "fyi".to_string(),
        false,
    );
    let body = OpBody::InterAgentCommunication {
        communication: quiet,
    };
    assert!(thread.submit(operation("y", op("inter_agent_communication", body))).is_err());
}

#[test]
fn inputs_are_rendered_as_text() {
    let items = vec![
        UserInput::Text {
            text: "look".to_string(),
        },
        UserInput::Image {
            image_url: "http://x/y.png".to_string(),
        },
        UserInput::LocalImage {
            path: "/tmp/z.png".to_string(),
        },
        UserInput::Skill {
            name: "fix".to_string(),
            path: "/skills/fix".to_string(),
        },
        UserInput::Mention {
            name: "docs".to_string(),
            path: "app://docs".to_string(),
        },
    ];
    assert_eq!(
        render_user_input(items),
        Ok("look\n\n[image](http://x/y.png)\n\n[local image: /tmp/z.png]\n\n[skill fix: /skills/fix]\n\n[docs](app://docs)".to_string())
    );
    assert_eq!(render_user_input(Vec::new()), Ok(String::new()));
    let error = render_user_input(vec![UserInput::Native(Value::Null)]).expect_err("other input");
    assert_eq!(error.kind, AgentRuntimeErrorKind::UnsupportedOperation);
    assert_eq!(error.message, "Pi runtime received an unsupported user input item");
    let message = InterAgentCommunication::new(
        "a".to_string(),
        "b".to_string(),
        Vec::new(),
        "hi".to_string(),
        true,
    );
    assert_eq!(render_communication(message), "hi");
}

#[test]
fn settings_come_before_the_request() {
    let request = AgentRuntimeSpawnRequest {
        thread_id: thread_id("t"),
        parent_thread_id: None,
        role: None,
        cwd: "/w".to_string(),
        model: Some("asked".to_string()),
        model_provider: "pi".to_string(),
        runtime_config: json(r#"{"agent_dir":"/a","session_dir":"/s","model":7}"#),
        host_tools: vec![AgentRuntimeHostToolDefinition {
            name: "exec_command".to_string(),
            description: "Run a command through Codex".to_string(),
            input_schema: json(r#"{ "type": "object", "required": ["cmd"] }"#),
        }],
    };
    let (command, agent_dir) = spawn_command(request.clone()).expect("spawn command");
    let Command::Spawn(spawn) = command else {
        panic!("a session is spawned");
    };
    assert_eq!(agent_dir, "/a");
    assert_eq!(spawn.session_dir, "/s");
    assert_eq!(spawn.model, "asked");
    assert_eq!(spawn.host_tools[0].name, "exec_command");
    assert_eq!(spawn.host_tools[0].description, "Run a command through Codex");
    assert_eq!(
        spawn.host_tools[0].input_schema_json,
        br#"{"required":["cmd"],"type":"object"}"#.to_vec()
    );
    assert_eq!(
        encode_host_tools(request.host_tools).expect("tools")[0].input_schema_json.len(),
        36
    );
    assert_eq!(config_string(&request.runtime_config, "agent_dir"), Some("/a".to_string()));
    assert_eq!(config_string(&request.runtime_config, "model"), None);
    assert_eq!(config_string(&Value::Null, "model"), None);
}

#[test]
fn sessions_that_are_not_opened_are_reported() {
    let id = AgentRuntimeId::new("pi").expect("valid id");
    let failed = open_thread(id.clone(), thread_id("t"), String::new(), Err(refusal()));
    match failed {
        Opening::Failed { error, unregister } => {
            assert_eq!(error, refusal());
            assert!(unregister);
        }
        Opening::Opened(_) => panic!("nothing was opened"),
    }
    let empty = RuntimeResponse {
        request_id: "r".to_string(),
        result: Some(ResponseResult::Other),
    };
    match open_thread(id, thread_id("t"), String::new(), Ok(empty)) {
        Opening::Failed { error, unregister } => {
            assert_eq!(
                error.message,
                "Pi runtime spawn did not return spawned session metadata"
            );
            assert_eq!(error.kind, AgentRuntimeErrorKind::Protocol);
            assert!(!unregister);
        }
        Opening::Opened(_) => panic!("nothing was opened"),
    }
    let nothing = RuntimeResponse {
        request_id: "r".to_string(),
        result: None,
    };
    assert!(expect_spawned(nothing).is_err());
}

#[test]
fn values_that_cannot_be_encoded_are_refused() {
    let definition = AgentRuntimeHostToolDefinition {
        name: "n".to_string(),
        description: "d".to_string(),
        input_schema: Value::Null,
    };
    let tool = encode_host_tool(&definition, Ok(vec![1, 2])).expect("bytes");
    assert_eq!((tool.name.as_str(), tool.description.as_str()), ("n", "d"));
    assert_eq!(tool.input_schema_json, vec![1, 2]);
    let error = encode_host_tool(&definition, Err("why".to_string())).expect_err("no bytes");
    assert_eq!(error.kind, AgentRuntimeErrorKind::Protocol);
    assert_eq!(error.message, "failed to encode host tool schema: why");

    let message = |is_error, encoded| {
        tool_result_message(
            "r".to_string(),
            "s".to_string(),
            "c".to_string(),
            is_error,
            encoded,
            "text".to_string(),
        )
    };
    let sent = message(true, Ok(vec![3])).expect("bytes");
    assert_eq!(sent.result_json, vec![3]);
    assert_eq!(sent.error.expect("a failure").message, "text");
    assert_eq!(message(false, Ok(vec![3])).expect("bytes").error, None);
    assert_eq!(
        message(false, Err("why".to_string())).expect_err("no bytes").message,
        "failed to encode Pi host tool result: why"
    );
}

#[test]
fn counts_saturate() {
    assert_eq!(saturating_i64(0), 0);
    assert_eq!(saturating_i64(9_223_372_036_854_775_807), i64::MAX);
    assert_eq!(saturating_i64(9_223_372_036_854_775_808), i64::MAX);
}
