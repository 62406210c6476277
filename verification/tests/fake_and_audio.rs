use agent_runtime::agent_runtime::{AgentRuntimeErrorKind, AgentRuntimeOperation};
use agent_runtime::audio_device::{
    configured_name, device_error, find_device_by_name, list_bidi_audio_device_names,
    missing_device_error, select_device, BidiAudioConfig, BidiAudioDeviceKind, DeviceChoice,
    DeviceRequest,
};
use agent_runtime::fake_agent_runtime::{
    listener_closed, FakeAgentRuntimeProvider, ENABLE_FAKE_AGENT_RUNTIME_ENV,
};
use agent_runtime::protocol::{
    AgentStatus, EventMsg, Op, OpBody, ThreadId, TokenUsage, TurnItem,
};

fn operation(body: OpBody) -> AgentRuntimeOperation {
    AgentRuntimeOperation {
        submission_id: "s".to_string(),
        op: Op {
            kind: "op".to_string(),
            body,
        },
    }
}

#[test]
fn fake_runtime_plays_its_script() {
    let provider = FakeAgentRuntimeProvider::new();
    assert_eq!(provider.id().as_str(), "fake");
    let thread = provider.spawn(ThreadId {
        value: "t".to_string(),
    });
    assert_eq!(thread.thread_id().value, "t");
    assert_eq!(thread.runtime_id().as_str(), "fake");
    assert_eq!(thread.status(), AgentStatus::PendingInit);
    let events = thread.submit(operation(OpBody::Interrupt));
    assert_eq!(events.len(), 5);
    let text = "Hello from the fake external runtime.";
    for event in &events {
        assert_eq!(event.id, "s");
    }
    assert!(matches!(&events[0].msg, EventMsg::TurnStarted(_)));
    match (&events[1].msg, &events[2].msg, &events[3].msg, &events[4].msg) {
        (
            EventMsg::ItemStarted(started),
            EventMsg::AgentMessageContentDelta(delta),
            EventMsg::ItemCompleted(completed),
            EventMsg::TurnComplete(end),
        ) => {
            assert_eq!(started.thread_id.value, "t");
            match (&started.item, &completed.item) {
                (TurnItem::AgentMessage(first), TurnItem::AgentMessage(last)) => {
                    assert_eq!(first.id, "s-message");
                    assert!(first.content.is_empty());
                    assert_eq!(last.id, "s-message");
                    assert_eq!(last.content, vec![text.to_string()]);
                }
                _ => panic!("the items are messages"),
            }
            assert_eq!(delta.item_id, "s-message");
            assert_eq!(delta.delta, text);
            assert_eq!(delta.thread_id, "t");
            assert_eq!(end.last_agent_message.as_deref(), Some(text));
        }
        _ => panic!("the script is played"),
    }
    assert!(thread.submit(operation(OpBody::Shutdown)).is_empty());
}

#[test]
fn fake_runtime_keeps_nothing() {
    let provider = FakeAgentRuntimeProvider::new();
    let thread = provider.spawn(ThreadId {
        value: "t".to_string(),
    });
    let state = thread.persistence();
    assert_eq!(state.runtime_id.as_str(), "fake");
    assert_eq!(state.session_locator, "t");
    assert_eq!(state.metadata.to_string(), r#"{"kind":"fake"}"#);
    let usage = thread.token_usage().expect("token counts");
    assert_eq!(usage.total_token_usage, TokenUsage::default());
    assert_eq!(usage.last_token_usage.total_tokens, 0);
    assert_eq!(usage.model_context_window, None);
    let error = provider.resume();
    assert_eq!(error.kind, AgentRuntimeErrorKind::UnsupportedOperation);
    assert_eq!(error.message, "the fake runtime does not persist sessions");
    let closed = listener_closed();
    assert_eq!(closed.kind, AgentRuntimeErrorKind::Unavailable);
    assert_eq!(closed.message, "fake runtime event listener closed");
    assert_eq!(
        ENABLE_FAKE_AGENT_RUNTIME_ENV,
        "CODEX_ENABLE_FAKE_AGENT_RUNTIME_FOR_TESTS"
    );
}

fn names(texts: &[Option<&str>]) -> Vec<Option<String>> {
    texts.iter().map(|text| text.map(str::to_string)).collect()
}

#[test]
fn device_names_are_listed_once() {
    let found = names(&[Some("b"), None, Some("a"), Some("b"), Some("a")]);
    assert_eq!(
        list_bidi_audio_device_names(&found),
        vec!["b".to_string(), "a".to_string()]
    );
    assert!(list_bidi_audio_device_names(&Vec::new()).is_empty());
}

fn config(microphone: Option<&str>, speaker: Option<&str>) -> BidiAudioConfig {
    BidiAudioConfig {
        microphone: microphone.map(str::to_string),
        speaker: speaker.map(str::to_string),
    }
}

#[test]
fn configured_device_is_chosen_where_it_is_there() {
    let found = names(&[None, Some("x"), Some("usb"), Some("usb")]);
    let chosen = config(Some("usb"), None);
    let kind = BidiAudioDeviceKind::Microphone;
    assert_eq!(configured_name(kind, &chosen), Some("usb"));
    assert_eq!(configured_name(BidiAudioDeviceKind::Speaker, &chosen), None);
    assert_eq!(find_device_by_name(&found, "usb"), Some(2));
    assert_eq!(find_device_by_name(&found, "hdmi"), None);
    assert_eq!(
        select_device(kind, &chosen, &found, true),
        Ok(DeviceChoice::Listed(2))
    );
    assert_eq!(
        select_device(kind, &chosen, &Vec::new(), true),
        Ok(DeviceChoice::SystemDefault { fell_back: true })
    );
    assert_eq!(
        select_device(BidiAudioDeviceKind::Speaker, &chosen, &found, true),
        Ok(DeviceChoice::SystemDefault { fell_back: false })
    );
}

#[test]
fn missing_devices_are_named() {
    let nothing = Vec::new();
    let both = config(Some("mic"), Some("box"));
    let none = config(None, None);
    assert_eq!(
        select_device(BidiAudioDeviceKind::Microphone, &both, &nothing, false),
        Err("configured microphone `mic` was unavailable and no default input audio device was found".to_string())
    );
    assert_eq!(
        select_device(BidiAudioDeviceKind::Speaker, &both, &nothing, false),
        Err("configured speaker `box` was unavailable and no default output audio device was found".to_string())
    );
    assert_eq!(
        select_device(BidiAudioDeviceKind::Microphone, &none, &nothing, false),
        Err("no input audio device available".to_string())
    );
    assert_eq!(
        missing_device_error(BidiAudioDeviceKind::Speaker, None),
        "no output audio device available"
    );
}

#[test]
fn system_failures_are_named() {
    let cases = [
        (
            DeviceRequest::Enumerate,
            BidiAudioDeviceKind::Microphone,
            "failed to enumerate input audio devices: x",
        ),
        (
            DeviceRequest::Enumerate,
            BidiAudioDeviceKind::Speaker,
            "failed to enumerate output audio devices: x",
        ),
        (
            DeviceRequest::DefaultConfig,
            BidiAudioDeviceKind::Microphone,
            "failed to get default input config: x",
        ),
        (
            DeviceRequest::DefaultConfig,
            BidiAudioDeviceKind::Speaker,
            "failed to get default output config: x",
        ),
    ];
    for (request, kind, expected) in cases {
        assert_eq!(device_error(request, kind, "x"), expected);
    }
}
