use agent_runtime::agent_runtime::AgentRuntimeErrorKind;
use agent_runtime::pi_config::{
    unsupported_platform, PiRuntimeConfig, PiRuntimeProvider, Timeout, VariableRead,
    PI_RUNTIME_ARGUMENTS_ENV, PI_RUNTIME_EXECUTABLE_ENV,
};
use std::time::Duration;

#[test]
fn new_uses_production_timeouts() {
    let config = PiRuntimeConfig::new("bun".into());
    assert_eq!(config.executable, Vec::from("bun"));
    assert_eq!(
        Duration::new(config.startup_timeout.secs, config.startup_timeout.subsec_nanos),
        Duration::from_secs(10)
    );
    assert_eq!(
        Duration::new(config.request_timeout.secs, config.request_timeout.subsec_nanos),
        Duration::from_secs(30)
    );
}

#[test]
fn environment_without_executable_gives_nothing() {
    let arguments = VariableRead::Text("broken".to_string());
    assert_eq!(PiRuntimeConfig::from_environment(None, arguments), Ok(None));
}

#[test]
fn environment_with_empty_executable_is_refused() {
    let error = PiRuntimeConfig::from_environment(Some(Vec::new()), VariableRead::NotPresent)
        .expect_err("empty executable");
    assert_eq!(error.kind, AgentRuntimeErrorKind::InvalidRuntimeId);
    assert_eq!(error.message, "CODEX_PI_RUNTIME_EXECUTABLE must not be empty");
}

#[test]
fn environment_without_arguments_lists_none() {
    let config = PiRuntimeConfig::from_environment(Some("bun".into()), VariableRead::NotPresent)
        .expect("valid environment")
        .expect("executable is set");
    assert_eq!(config, PiRuntimeConfig::new("bun".into()));
}

#[test]
fn environment_lists_arguments() {
    let arguments = VariableRead::Text("[\"run\", \"si\u{e9}ge\"]".to_string());
    let config = PiRuntimeConfig::from_environment(Some("bun".into()), arguments)
        .expect("valid environment")
        .expect("executable is set");
    assert_eq!(config.executable, Vec::from("bun"));
    assert_eq!(config.arguments, vec![Vec::from("run"), Vec::from("si\u{e9}ge")]);
    assert_eq!(config.startup_timeout, Timeout { secs: 10, subsec_nanos: 0 });
    assert_eq!(config.request_timeout, Timeout { secs: 30, subsec_nanos: 0 });
    assert!(config.environment.is_empty());
}

#[test]
fn environment_with_other_json_is_refused() {
    for text in ["{}", "[1]", "[\"a\"", ""] {
        let arguments = VariableRead::Text(text.to_string());
        let error = PiRuntimeConfig::from_environment(Some("bun".into()), arguments)
            .expect_err("no list of strings");
        assert_eq!(error.kind, AgentRuntimeErrorKind::InvalidRuntimeId);
        let expected = serde_json::from_str::<Vec<String>>(text)
            .expect_err("no list of strings")
            .to_string();
        assert_eq!(
            error.message,
            format!(
                "failed to parse CODEX_PI_RUNTIME_ARGUMENTS_JSON as a JSON string array: {expected}"
            )
        );
    }
}

#[test]
fn environment_with_unreadable_arguments_is_refused() {
    let arguments = VariableRead::Failed("not text".to_string());
    let error = PiRuntimeConfig::from_environment(Some("bun".into()), arguments)
        .expect_err("unreadable arguments");
    assert_eq!(
        error.message,
        "failed to read CODEX_PI_RUNTIME_ARGUMENTS_JSON: not text"
    );
}

#[test]
fn listed_arguments_are_taken_as_they_are() {
    let config = PiRuntimeConfig::with_listed_arguments(
        "bun".into(),
        Ok(vec!["".to_string(), "--x".to_string()]),
    )
    .expect("listed arguments");
    assert_eq!(config.arguments, vec![Vec::new(), Vec::from("--x")]);
    let error = PiRuntimeConfig::with_listed_arguments("bun".into(), Err("why".to_string()))
        .expect_err("refused list");
    assert_eq!(
        error.message,
        "failed to parse CODEX_PI_RUNTIME_ARGUMENTS_JSON as a JSON string array: why"
    );
}

#[test]
fn environment_holds_one_value_per_name() {
    let mut config = PiRuntimeConfig::new("bun".into());
    config.environment.insert("B".into(), "1".into());
    config.environment.insert("A".into(), "2".into());
    let mut other = PiRuntimeConfig::new("bun".into());
    other.environment.insert("A".into(), "0".into());
    other.environment.insert("A".into(), "2".into());
    assert_ne!(config, other);
    other.environment.insert("B".into(), "1".into());
    assert_eq!(config, other);
    let names: Vec<&Vec<u8>> = config.environment.keys().collect();
    assert_eq!(names, vec![&Vec::from("A"), &Vec::from("B")]);
}

#[test]
fn timeouts_are_kept_to_the_nanosecond() {
    assert_eq!(Timeout::from_secs(7), Timeout { secs: 7, subsec_nanos: 0 });
    let mut config = PiRuntimeConfig::new("bun".into());
    config.request_timeout = Timeout { secs: 0, subsec_nanos: 1 };
    assert_ne!(config, PiRuntimeConfig::new("bun".into()));
}

#[test]
fn socket_follows_the_arguments() {
    let mut config = PiRuntimeConfig::new("bun".into());
    config.arguments = vec!["a".into(), "b".into()];
    assert_eq!(
        config.launch_arguments(&Vec::from("/tmp/x.sock")),
        vec![
            Vec::from("a"),
            Vec::from("b"),
            Vec::from("--socket"),
            Vec::from("/tmp/x.sock")
        ]
    );
}

#[test]
fn provider_is_registered_as_pi() {
    let provider = PiRuntimeProvider::new(PiRuntimeConfig::new("bun".into()));
    assert_eq!(provider.id().as_str(), "pi");
    assert_eq!(provider.config().executable, Vec::from("bun"));
    let found = PiRuntimeProvider::from_environment(Some("node".into()), VariableRead::NotPresent)
        .expect("valid environment")
        .expect("executable is set");
    assert_eq!(found.id().as_str(), "pi");
    assert_eq!(found.config().executable, Vec::from("node"));
    assert!(matches!(
        PiRuntimeProvider::from_environment(None, VariableRead::NotPresent),
        Ok(None)
    ));
    assert!(PiRuntimeProvider::from_environment(Some(Vec::new()), VariableRead::NotPresent).is_err());
}

#[test]
fn variables_and_platform_have_their_names() {
    assert_eq!(PI_RUNTIME_EXECUTABLE_ENV, "CODEX_PI_RUNTIME_EXECUTABLE");
    assert_eq!(PI_RUNTIME_ARGUMENTS_ENV, "CODEX_PI_RUNTIME_ARGUMENTS_JSON");
    let error = unsupported_platform();
    assert_eq!(error.kind, AgentRuntimeErrorKind::UnsupportedOperation);
    assert_eq!(
        error.message,
        "the Pi runtime sidecar currently requires Unix domain sockets"
    );
}
