use agent_runtime::agent_runtime::AgentRuntimeId;
use agent_runtime::external_host_tools::ToolPayload;
use agent_runtime::followup_task::{
    FollowupToolKind, Handler as FollowupHandler, MessageDeliveryMode, MessageTargetKind,
};
use agent_runtime::protocol::{AgentStatus, ThreadId};
use agent_runtime::spawn_agent::{
    AgentSnapshot, FunctionCallError, Handler as SpawnHandler, SpawnAction, SpawnAgentArgs,
    SpawnAgentForkMode, SpawnAgentResult, SpawnCall, SpawnContext, SpawnEvent, SpawnMessage,
    SpawnReport, SpawnStep, SpawnToolKind, SpawnedAgent,
};

fn args_with_fork_turns(fork_turns: Option<&str>) -> SpawnAgentArgs {
    SpawnAgentArgs {
        message: "task".to_string(),
        task_name: "task".to_string(),
        agent_type: Some("pi_worker".to_string()),
        model: None,
        reasoning_effort: None,
        service_tier: None,
        fork_turns: fork_turns.map(str::to_string),
        fork_context: None,
    }
}

#[test]
fn external_runtime_spawn_defaults_to_no_fork() {
    assert!(args_with_fork_turns(None)
        .fork_mode(SpawnToolKind::ExternalRuntime)
        .expect("omitted fork_turns should be accepted")
        .is_none());
    assert!(args_with_fork_turns(Some("none"))
        .fork_mode(SpawnToolKind::ExternalRuntime)
        .expect("fork_turns=none should be accepted")
        .is_none());
}

#[test]
fn external_runtime_spawn_rejects_history_fork() {
    let error = args_with_fork_turns(Some("all"))
        .fork_mode(SpawnToolKind::ExternalRuntime)
        .expect_err("external runtime history forks must be rejected");
    assert_eq!(
        error,
        FunctionCallError::RespondToModel(
            "runtime_agents.spawn_agent cannot fork Codex history; omit `fork_turns` or pass `none`"
                .to_string()
        )
    );
}

#[test]
fn reserved_spawn_keeps_full_history_default() {
    assert!(matches!(
        args_with_fork_turns(None)
            .fork_mode(SpawnToolKind::Reserved)
            .expect("reserved default should remain valid"),
        Some(SpawnAgentForkMode::FullHistory)
    ));
}

type Call = SpawnCall<[u8; 2]>;

fn context(hide_agent_metadata: bool) -> SpawnContext<[u8; 2]> {
    SpawnContext {
        sender: thread_id("caller"),
        environments: [4, 2],
        author: None,
        root: "/root".to_string(),
        default_effort: "medium".to_string(),
        default_role: "default".to_string(),
        hide_agent_metadata,
    }
}

fn thread_id(value: &str) -> ThreadId {
    ThreadId {
        value: value.to_string(),
    }
}

fn respond(message: &str) -> FunctionCallError {
    FunctionCallError::RespondToModel(message.to_string())
}

fn begin(args: SpawnAgentArgs, kind: SpawnToolKind) -> Call {
    match SpawnCall::begin(args, kind, "call-1".to_string(), context(false)) {
        Ok(call) => call,
        Err(_) => panic!("the call begins"),
    }
}

fn take(call: Call, event: SpawnEvent) -> Call {
    match call.take(event) {
        Ok(call) => call,
        Err(_) => panic!("the call goes on"),
    }
}

fn refused(call: Call, event: SpawnEvent) -> FunctionCallError {
    match call.take(event) {
        Ok(_) => panic!("the call ends"),
        Err(error) => error,
    }
}

fn step(call: &Call) -> SpawnStep {
    match call.action() {
        SpawnAction::Perform(step) => step,
        _ => panic!("a step is due"),
    }
}

fn read_message() -> SpawnStep {
    SpawnStep::ReadMessage {
        message: "task".to_string(),
    }
}

fn spawned() -> SpawnedAgent {
    SpawnedAgent {
        thread_id: thread_id("new"),
        nickname: Some("Ada".to_string()),
        status: AgentStatus::Running,
    }
}

#[test]
fn external_agents_are_spawned_step_by_step() {
    let mut args = args_with_fork_turns(Some(" NONE "));
    args.agent_type = Some(" pi_worker ".to_string());
    args.service_tier = Some("fast".to_string());
    args.model = Some("m".to_string());
    let call = begin(args, SpawnToolKind::ExternalRuntime);
    assert_eq!(step(&call), read_message());
    let call = take(call, SpawnEvent::Done);
    assert_eq!(step(&call), read_message());
    let call = take(call, SpawnEvent::Message("do it".to_string()));
    assert_eq!(step(&call), SpawnStep::BuildConfig);
    let call = take(call, SpawnEvent::Done);
    assert_eq!(step(&call), SpawnStep::RequireExternalRuntime);
    assert_eq!(call.role(), Some("pi_worker".to_string()));
    let pi = AgentRuntimeId::new("pi").expect("valid id");
    let call = take(call, SpawnEvent::Runtime(Ok(pi)));
    assert_eq!(
        step(&call),
        SpawnStep::SetServiceTier {
            tier: "fast".to_string()
        }
    );
    let call = take(call, SpawnEvent::Done);
    assert_eq!(
        step(&call),
        SpawnStep::ApplyModelOverrides {
            model: Some("m".to_string()),
            reasoning_effort: None
        }
    );
    let call = take(call, SpawnEvent::Done);
    assert_eq!(
        step(&call),
        SpawnStep::ApplyRole {
            role: Some("pi_worker".to_string())
        }
    );
    let call = take(call, SpawnEvent::Done);
    assert_eq!(
        step(&call),
        SpawnStep::ApplyServiceTier {
            requested: Some("fast".to_string())
        }
    );
    let call = take(call, SpawnEvent::Done);
    assert_eq!(step(&call), SpawnStep::ApplyRuntimeOverrides);
    let call = take(call, SpawnEvent::Done);
    assert_eq!(
        step(&call),
        SpawnStep::BuildSource {
            role: Some("pi_worker".to_string()),
            task_name: "task".to_string()
        }
    );
    let call = take(call, SpawnEvent::Source(Some("/root/task".to_string())));
    match call.action() {
        SpawnAction::Spawn(order) => {
            assert_eq!(order.parent_thread_id, thread_id("caller"));
            assert_eq!(order.environments, &[4, 2]);
            assert_eq!(order.fork_mode, None);
            assert_eq!(order.fork_parent_spawn_call_id, None);
            match order.message {
                SpawnMessage::Communication(message) => {
                    assert_eq!(message.author, "/root");
                    assert_eq!(message.recipient, "/root/task");
                    assert_eq!(message.content, "do it");
                    assert!(message.other_recipients.is_empty());
                    assert!(message.trigger_turn);
                }
                _ => panic!("a communication is sent"),
            }
        }
        _ => panic!("the agent is spawned"),
    }
    let call = take(call, SpawnEvent::Spawned(spawned()));
    match call.action() {
        SpawnAction::TakeSnapshot(id) => assert_eq!(id, thread_id("new")),
        _ => panic!("the agent is looked at"),
    }
    let snapshot = AgentSnapshot {
        nickname: None,
        role: None,
        model: "m2".to_string(),
        reasoning_effort: Some("high".to_string()),
    };
    let call = take(call, SpawnEvent::Snapshot(Some(snapshot)));
    match call.action() {
        SpawnAction::Report(SpawnReport::ToolCall(reported)) => {
            assert_eq!(reported.id, "call-1");
            assert_eq!(reported.status, AgentStatus::Running);
            assert_eq!(reported.sender_thread_id, thread_id("caller"));
            assert_eq!(reported.receiver_thread_id, thread_id("new"));
            assert_eq!(reported.receiver_nickname.as_deref(), Some("Ada"));
            assert_eq!(reported.receiver_role.as_deref(), Some("pi_worker"));
            assert_eq!(reported.prompt, "do it");
            assert_eq!(reported.model, "m2");
            assert_eq!(reported.reasoning_effort, "high");
        }
        _ => panic!("the call is reported"),
    }
    let call = take(call, SpawnEvent::Done);
    match call.action() {
        SpawnAction::Count { role } => assert_eq!(role, "pi_worker"),
        _ => panic!("the agent is counted"),
    }
    let call = take(call, SpawnEvent::Done);
    match call.action() {
        SpawnAction::Finish(result) => assert_eq!(
            result,
            SpawnAgentResult::WithNickname {
                task_name: "/root/task".to_string(),
                nickname: Some("Ada".to_string())
            }
        ),
        _ => panic!("the call is answered"),
    }
}

#[test]
fn external_agents_need_an_external_role() {
    let mut unnamed = args_with_fork_turns(None);
    unnamed.agent_type = Some("  ".to_string());
    let call = begin(unnamed, SpawnToolKind::ExternalRuntime);
    let call = take(call, SpawnEvent::Message("m".to_string()));
    assert_eq!(
        refused(call, SpawnEvent::Done),
        respond("runtime_agents.spawn_agent requires `agent_type`")
    );

    let begun = || {
        let call = begin(args_with_fork_turns(None), SpawnToolKind::ExternalRuntime);
        let call = take(call, SpawnEvent::Message("m".to_string()));
        take(call, SpawnEvent::Done)
    };
    assert_eq!(
        refused(begun(), SpawnEvent::Runtime(Ok(AgentRuntimeId::codex()))),
        respond("runtime_agents.spawn_agent requires an external runtime role; agent_type `pi_worker` resolves to native Codex")
    );
    assert_eq!(
        refused(begun(), SpawnEvent::Runtime(Err("unknown role".to_string()))),
        respond("unknown role")
    );
    assert_eq!(
        step(&take(begun(), SpawnEvent::Done)),
        SpawnStep::RequireExternalRuntime
    );
    assert_eq!(
        refused(begun(), SpawnEvent::Failed(respond("stopped"))),
        respond("stopped")
    );
}

#[test]
fn native_agents_keep_the_history_of_the_caller() {
    let mut call = begin(args_with_fork_turns(None), SpawnToolKind::Reserved);
    call = take(call, SpawnEvent::Message("m".to_string()));
    call = take(call, SpawnEvent::Done);
    assert_eq!(
        step(&call),
        SpawnStep::RejectFullForkOverrides {
            role: Some("pi_worker".to_string()),
            model: None,
            reasoning_effort: None
        }
    );
    call = take(call, SpawnEvent::Done);
    call = take(call, SpawnEvent::Done);
    call = take(call, SpawnEvent::Done);
    assert!(matches!(step(&call), SpawnStep::BuildSource { .. }));
    call = take(call, SpawnEvent::Source(Some("/root/task".to_string())));
    match call.action() {
        SpawnAction::Spawn(order) => {
            assert_eq!(order.parent_thread_id, thread_id("caller"));
            assert_eq!(order.environments, &[4, 2]);
            assert_eq!(order.fork_mode, Some(SpawnAgentForkMode::FullHistory));
            assert_eq!(order.fork_parent_spawn_call_id.as_deref(), Some("call-1"));
            match order.message {
                SpawnMessage::ToolMessage {
                    author,
                    recipient,
                    message,
                } => {
                    assert_eq!(author, "/root");
                    assert_eq!(recipient, "/root/task");
                    assert_eq!(message, "m");
                }
                _ => panic!("the message of a tool is sent"),
            }
        }
        _ => panic!("the agent is spawned"),
    }
    call = take(call, SpawnEvent::Spawned(spawned()));
    call = take(call, SpawnEvent::Snapshot(None));
    match call.action() {
        SpawnAction::Report(SpawnReport::Started {
            id,
            agent_thread_id,
            agent_path,
        }) => {
            assert_eq!(id, "call-1");
            assert_eq!(agent_thread_id, thread_id("new"));
            assert_eq!(agent_path, "/root/task");
        }
        _ => panic!("the agent is reported"),
    }
}

#[test]
fn agents_need_a_path() {
    let mut call = begin(args_with_fork_turns(Some("3")), SpawnToolKind::Reserved);
    call = take(call, SpawnEvent::Message("m".to_string()));
    for _ in 0..5 {
        call = take(call, SpawnEvent::Done);
    }
    assert!(matches!(step(&call), SpawnStep::BuildSource { .. }));
    assert_eq!(
        refused(call, SpawnEvent::Source(None)),
        respond("spawned agent is missing a canonical task name")
    );
}

#[test]
fn metadata_is_hidden_on_request() {
    let begun = SpawnCall::begin(
        args_with_fork_turns(Some("all")),
        SpawnToolKind::Reserved,
        "c".to_string(),
        context(true),
    );
    let Ok(mut call) = begun else {
        panic!("the call begins");
    };
    call = take(call, SpawnEvent::Message("m".to_string()));
    for _ in 0..4 {
        call = take(call, SpawnEvent::Done);
    }
    call = take(call, SpawnEvent::Source(Some("/root/x".to_string())));
    call = take(call, SpawnEvent::Spawned(spawned()));
    call = take(call, SpawnEvent::Snapshot(None));
    call = take(call, SpawnEvent::Done);
    call = take(call, SpawnEvent::Done);
    match call.action() {
        SpawnAction::Finish(result) => assert_eq!(
            result,
            SpawnAgentResult::HiddenMetadata {
                task_name: "/root/x".to_string()
            }
        ),
        _ => panic!("the call is answered"),
    }
}

#[test]
fn agents_are_reported_and_counted_once() {
    let mut args = args_with_fork_turns(Some("none"));
    args.agent_type = None;
    let mut call = begin(args, SpawnToolKind::Reserved);
    let (mut spawns, mut reports, mut counts) = (0, 0, 0);
    loop {
        let event = match call.action() {
            SpawnAction::Perform(SpawnStep::ReadMessage { message }) => {
                SpawnEvent::Message(message)
            }
            SpawnAction::Perform(SpawnStep::BuildSource { .. }) => {
                SpawnEvent::Source(Some("/root/task".to_string()))
            }
            SpawnAction::Perform(_) => SpawnEvent::Done,
            SpawnAction::Spawn(_) => {
                spawns += 1;
                SpawnEvent::Spawned(spawned())
            }
            SpawnAction::TakeSnapshot(_) => SpawnEvent::Snapshot(None),
            SpawnAction::Report(SpawnReport::Started { id, .. }) => {
                assert_eq!(id, "call-1");
                reports += 1;
                SpawnEvent::Done
            }
            SpawnAction::Report(SpawnReport::ToolCall(_)) => panic!("a native agent"),
            SpawnAction::Count { role } => {
                assert_eq!(role, "default");
                counts += 1;
                SpawnEvent::Done
            }
            SpawnAction::Finish(_) => break,
        };
        call = take(call, event);
    }
    assert_eq!((spawns, reports, counts), (1, 1, 1));
}

#[test]
fn failed_spawns_are_not_reported() {
    let mut call = begin(args_with_fork_turns(Some("none")), SpawnToolKind::Reserved);
    call = take(call, SpawnEvent::Message("m".to_string()));
    for _ in 0..5 {
        call = take(call, SpawnEvent::Done);
    }
    call = take(call, SpawnEvent::Source(Some("/root/task".to_string())));
    assert!(matches!(call.action(), SpawnAction::Spawn(_)));
    call = take(call, SpawnEvent::Done);
    assert!(matches!(call.action(), SpawnAction::Spawn(_)));
    assert_eq!(
        refused(call, SpawnEvent::Failed(respond("no room"))),
        respond("no room")
    );
}

#[test]
fn fork_turns_are_read() {
    let mode = |turns: &str| args_with_fork_turns(Some(turns)).fork_mode(SpawnToolKind::Reserved);
    assert_eq!(mode(" 12 "), Ok(Some(SpawnAgentForkMode::LastNTurns(12))));
    assert_eq!(mode("+7"), Ok(Some(SpawnAgentForkMode::LastNTurns(7))));
    assert_eq!(mode("All"), Ok(Some(SpawnAgentForkMode::FullHistory)));
    assert_eq!(mode("None"), Ok(None));
    assert_eq!(mode("  "), Ok(Some(SpawnAgentForkMode::FullHistory)));
    for text in ["0", "-1", "1.5", "99999999999999999999999", "some", "+"] {
        assert_eq!(
            mode(text),
            Err(respond(
                "fork_turns must be `none`, `all`, or a positive integer string"
            ))
        );
    }
    let mut args = args_with_fork_turns(None);
    args.fork_context = Some(false);
    for kind in [SpawnToolKind::Reserved, SpawnToolKind::ExternalRuntime] {
        assert_eq!(
            args.fork_mode(kind),
            Err(respond(
                "fork_context is not supported in MultiAgentV2; use fork_turns instead"
            ))
        );
    }
    assert!(SpawnCall::begin(
        args,
        SpawnToolKind::Reserved,
        "c".to_string(),
        context(false)
    )
    .is_err());
}

#[test]
fn tools_have_names_and_kinds() {
    let native = SpawnHandler::new(1);
    let external = SpawnHandler::new_external_runtime(2);
    assert_eq!(native.tool_name(), "spawn_agent");
    assert_eq!(native.kind(), SpawnToolKind::Reserved);
    assert_eq!(external.kind(), SpawnToolKind::ExternalRuntime);
    assert_eq!((*native.options(), *external.options()), (1, 2));
    let structured = ToolPayload::Function {
        arguments: "{}".to_string(),
    };
    let text = ToolPayload::Custom {
        input: "x".to_string(),
    };
    assert!(native.matches_kind(&structured));
    assert!(!external.matches_kind(&text));

    let any = FollowupHandler::default();
    let runtime = FollowupHandler::new_external_runtime();
    assert_eq!(any.tool_name(), "followup_task");
    assert_eq!(any.kind(), FollowupToolKind::Reserved);
    assert_eq!(runtime.kind(), FollowupToolKind::ExternalRuntime);
    assert!(any.matches_kind(&structured));
    assert!(!runtime.matches_kind(&text));
    let sent = runtime.handle_call("/root/a".to_string(), "more".to_string());
    assert_eq!(sent.mode, MessageDeliveryMode::TriggerTurn);
    assert_eq!(sent.target_kind, MessageTargetKind::ExternalRuntime);
    assert_eq!(sent.target, "/root/a");
    assert_eq!(sent.message, "more");
    let sent = any.handle_call("/root/b".to_string(), "less".to_string());
    assert_eq!(sent.target_kind, MessageTargetKind::Any);
}
