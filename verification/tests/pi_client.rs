use agent_runtime::agent_runtime::AgentRuntimeErrorKind;
use agent_runtime::pi_client::{
    finish_handshake, finish_request, handshake_request, host_tool_result_envelope, unavailable,
    validate_handshake, ClientSlot, ClientStep, Delivery, PiRuntimeClient, RequestOutcome,
    PROTOCOL_VERSION,
};
use agent_runtime::pi_connection::{
    connect_when_ready, connection_error, frame_header, frame_length, ConnectionStep, HeaderRead,
    ProcessState, CONNECT_RETRY_MS, MAX_FRAME_BYTES,
};
use agent_runtime::pi_proto::{
    Command, Envelope, HandshakeResponse, HostToolRequest, HostToolResult, Payload,
    ResponseResult, RuntimeError, RuntimeResponse, SessionEvent,
};

type Client = PiRuntimeClient<u8, u16, u32>;

fn envelope(payload: Payload) -> Envelope {
    Envelope {
        protocol_version: PROTOCOL_VERSION,
        payload: Some(payload),
    }
}

fn response(request_id: &str) -> RuntimeResponse {
    RuntimeResponse {
        request_id: request_id.to_string(),
        result: Some(ResponseResult::Other),
    }
}

fn failure(code: &str, message: &str) -> RuntimeError {
    RuntimeError {
        code: code.to_string(),
        message: message.to_string(),
        retryable: false,
        details_json: Vec::new(),
    }
}

fn session_event(session_id: &str) -> SessionEvent {
    SessionEvent {
        session_id: session_id.to_string(),
        sequence: 1,
        event: None,
    }
}

fn tool_request(session_id: &str) -> HostToolRequest {
    HostToolRequest {
        request_id: "r".to_string(),
        session_id: session_id.to_string(),
        tool_call_id: "c".to_string(),
        tool_name: "t".to_string(),
        arguments_json: Vec::new(),
    }
}

#[test]
fn client_is_launched_until_there_is_one() {
    let mut slot: ClientSlot<u8> = ClientSlot::new();
    for _ in 0..2 {
        assert!(matches!(slot.step(), ClientStep::Launch));
        let error = unavailable("no sidecar".to_string());
        assert_eq!(slot.finish_launch(Err(error)), Err(unavailable("no sidecar".to_string())));
    }
    assert!(matches!(slot.step(), ClientStep::Launch));
    assert_eq!(slot.finish_launch(Ok(7)), Ok(&7));
    for _ in 0..2 {
        assert!(matches!(slot.step(), ClientStep::Reuse(&7)));
    }
}

#[test]
fn requests_are_numbered_and_answered_once() {
    let mut client = Client::new();
    let (first, sent) = client.begin_request("s", Command::Interrupt, 10);
    let (second, _) = client.begin_request("s", Command::Close, 20);
    assert_eq!(first, "pi-runtime-0");
    assert_eq!(second, "pi-runtime-1");
    assert_eq!(sent.protocol_version, 2);
    match sent.payload {
        Some(Payload::Request(request)) => {
            assert_eq!(request.request_id, "pi-runtime-0");
            assert_eq!(request.session_id, "s");
            assert_eq!(request.command, Some(Command::Interrupt));
        }
        _ => panic!("a request is sent"),
    }
    match client.dispatch(envelope(Payload::Response(response("pi-runtime-1")))) {
        Delivery::Response(waiter, delivered) => {
            assert_eq!(waiter, 20);
            assert_eq!(delivered, response("pi-runtime-1"));
        }
        _ => panic!("somebody waits"),
    }
    assert!(matches!(
        client.dispatch(envelope(Payload::Response(response("pi-runtime-1")))),
        Delivery::Dropped
    ));
    client.abandon_request("pi-runtime-0");
    assert!(matches!(
        client.dispatch(envelope(Payload::Response(response("pi-runtime-0")))),
        Delivery::Dropped
    ));
}

#[test]
fn sessions_take_their_events_and_tool_requests() {
    let mut client = Client::new();
    assert!(client.register_session("a", 1, 2).is_ok());
    assert!(client.register_session("b", 3, 4).is_ok());
    assert!(matches!(
        client.dispatch(envelope(Payload::Event(session_event("b")))),
        Delivery::Event(3, _)
    ));
    assert!(matches!(
        client.dispatch(envelope(Payload::HostToolRequest(tool_request("a")))),
        Delivery::HostToolRequest(2, _)
    ));
    client.unregister_session("a");
    assert!(matches!(
        client.dispatch(envelope(Payload::Event(session_event("a")))),
        Delivery::Dropped
    ));
    assert!(matches!(
        client.dispatch(envelope(Payload::HostToolRequest(tool_request("a")))),
        Delivery::Dropped
    ));
    client.close();
    assert!(matches!(
        client.dispatch(envelope(Payload::Event(session_event("b")))),
        Delivery::Dropped
    ));
    assert!(matches!(
        client.dispatch(Envelope {
            protocol_version: 2,
            payload: None
        }),
        Delivery::Unexpected
    ));
    assert!(matches!(
        client.dispatch(handshake_request("1")),
        Delivery::Unexpected
    ));
}

#[test]
fn second_registration_takes_only_the_events() {
    let mut client = Client::new();
    client.register_session("a", 1, 2).expect("first");
    let error = client.register_session("a", 5, 6).expect_err("second");
    assert_eq!(error.kind, AgentRuntimeErrorKind::Protocol);
    assert_eq!(error.message, "Pi runtime session already registered: a");
    assert!(matches!(
        client.dispatch(envelope(Payload::Event(session_event("a")))),
        Delivery::Event(5, _)
    ));
    assert!(matches!(
        client.dispatch(envelope(Payload::HostToolRequest(tool_request("a")))),
        Delivery::HostToolRequest(2, _)
    ));
}

#[test]
fn requests_end_in_a_response_or_a_failure() {
    assert_eq!(
        finish_request("r", RequestOutcome::Response(response("r"))),
        Ok(response("r"))
    );
    let late = finish_request("pi-runtime-3", RequestOutcome::TimedOut).expect_err("late");
    assert_eq!(late.kind, AgentRuntimeErrorKind::Unavailable);
    assert_eq!(late.message, "timed out waiting for Pi runtime request pi-runtime-3");
    let closed = finish_request("r", RequestOutcome::Closed).expect_err("closed");
    assert_eq!(closed.kind, AgentRuntimeErrorKind::Unavailable);
    assert_eq!(closed.message, "Pi runtime connection closed before responding");
    let refused = finish_request(
        "r",
        RequestOutcome::Response(RuntimeResponse {
            request_id: "r".to_string(),
            result: Some(ResponseResult::Error(failure("busy", "try later"))),
        }),
    )
    .expect_err("refused");
    assert_eq!(refused.kind, AgentRuntimeErrorKind::Protocol);
    assert_eq!(refused.message, "Pi runtime request failed (busy): try later");
}

fn handshake_response(selected_version: u32, error: Option<RuntimeError>) -> Envelope {
    envelope(Payload::HandshakeResponse(HandshakeResponse {
        selected_version,
        error,
    }))
}

#[test]
fn handshake_offers_one_version() {
    match handshake_request("1.2.3").payload {
        Some(Payload::HandshakeRequest(offer)) => {
            assert_eq!(offer.minimum_version, 2);
            assert_eq!(offer.maximum_version, 2);
            assert_eq!(offer.client_name, "codex-pi-runtime-provider");
            assert_eq!(offer.client_version, "1.2.3");
        }
        _ => panic!("an offer is sent"),
    }
    assert_eq!(validate_handshake(handshake_response(2, None)), Ok(()));
    assert_eq!(finish_handshake(Some(handshake_response(2, None))), Ok(()));
}

#[test]
fn handshake_failures_are_told_apart() {
    let closed = finish_handshake(None).expect_err("closed");
    assert_eq!(closed.message, "Pi runtime closed during handshake");
    let other = validate_handshake(envelope(Payload::Response(response("r")))).expect_err("other");
    assert_eq!(other.message, "expected Pi runtime handshake response");
    let failed = validate_handshake(handshake_response(2, Some(failure("old", "update"))))
        .expect_err("failed");
    assert_eq!(failed.message, "Pi runtime handshake failed (old): update");
    let version = validate_handshake(handshake_response(13, None)).expect_err("version");
    assert_eq!(version.message, "Pi runtime selected protocol 13, expected 2");
    assert_eq!(version.kind, AgentRuntimeErrorKind::Protocol);
}

#[test]
fn tool_results_travel_in_an_envelope() {
    let result = HostToolResult {
        request_id: "r".to_string(),
        session_id: "s".to_string(),
        tool_call_id: "c".to_string(),
        result_json: vec![1],
        error: None,
    };
    let sent = host_tool_result_envelope(result);
    assert_eq!(sent.protocol_version, 2);
    assert!(matches!(sent.payload, Some(Payload::HostToolResult(_))));
}

#[test]
fn frames_announce_their_length() {
    let message = vec![7; 0x01_02_03];
    let header = frame_header(&message).expect("short message");
    assert_eq!(header, [0, 1, 2, 3]);
    assert_eq!(frame_length(HeaderRead::Header(header)), Ok(Some(0x01_02_03)));
    assert_eq!(frame_header(&Vec::new()), Ok([0, 0, 0, 0]));
    assert_eq!(frame_length(HeaderRead::EndOfStream), Ok(None));
}

#[test]
fn frames_have_a_limit_both_ways() {
    assert_eq!(MAX_FRAME_BYTES, 16_777_216);
    let longest = vec![0; MAX_FRAME_BYTES];
    assert_eq!(frame_header(&longest), Ok([1, 0, 0, 0]));
    assert_eq!(
        frame_length(HeaderRead::Header([1, 0, 0, 0])),
        Ok(Some(MAX_FRAME_BYTES))
    );
    let longer = vec![0; MAX_FRAME_BYTES + 1];
    let error = frame_header(&longer).expect_err("too long");
    assert_eq!(error.kind, AgentRuntimeErrorKind::Protocol);
    assert_eq!(error.message, "Pi runtime frame exceeds 16777216 bytes");
    let error = frame_length(HeaderRead::Header([1, 0, 0, 1])).expect_err("too long");
    assert_eq!(
        error.message,
        "Pi runtime frame length 16777217 exceeds 16777216"
    );
    let error = frame_length(HeaderRead::Failed("reset".to_string())).expect_err("broken");
    assert_eq!(error.kind, AgentRuntimeErrorKind::Unavailable);
    assert_eq!(error.message, "failed to read Pi runtime frame length: reset");
}

#[test]
fn connecting_is_tried_while_the_process_runs() {
    assert_eq!(
        connect_when_ready(ProcessState::Running, false, "refused"),
        Ok(CONNECT_RETRY_MS)
    );
    assert_eq!(CONNECT_RETRY_MS, 25);
    let late = connect_when_ready(ProcessState::Running, true, "refused").expect_err("late");
    assert_eq!(late.message, "timed out connecting to Pi runtime socket: refused");
    let exited = connect_when_ready(
        ProcessState::Exited("exit status: 1".to_string()),
        false,
        "refused",
    )
    .expect_err("exited");
    assert_eq!(
        exited.message,
        "Pi runtime exited before opening its socket (exit status: 1)"
    );
    let unknown = connect_when_ready(ProcessState::Unknown("denied".to_string()), true, "refused")
        .expect_err("unknown");
    assert_eq!(unknown.message, "failed to inspect Pi runtime process: denied");
    assert_eq!(unknown.kind, AgentRuntimeErrorKind::Unavailable);
}

#[test]
fn steps_of_the_connection_fail_with_their_name() {
    let start = ConnectionStep::Start {
        executable: "bun".to_string(),
    };
    let cases = [
        (
            ConnectionStep::CreateSocketDirectory,
            "failed to create Pi runtime socket directory: x",
        ),
        (start, "failed to start Pi runtime executable bun: x"),
        (
            ConnectionStep::WriteLength,
            "failed to write Pi runtime frame length: x",
        ),
        (ConnectionStep::WriteFrame, "failed to write Pi runtime frame: x"),
        (ConnectionStep::Flush, "failed to flush Pi runtime frame: x"),
        (ConnectionStep::ReadFrame, "failed to read Pi runtime frame: x"),
    ];
    for (step, expected) in cases {
        let error = connection_error(step, "x");
        assert_eq!(error.message, expected);
        assert_eq!(error.kind, AgentRuntimeErrorKind::Unavailable);
    }
    let decode = connection_error(ConnectionStep::Decode, "x");
    assert_eq!(decode.message, "failed to decode Pi runtime frame: x");
    assert_eq!(decode.kind, AgentRuntimeErrorKind::Protocol);
    assert_eq!(unavailable("y".to_string()).message, "y");
}
