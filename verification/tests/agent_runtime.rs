use agent_runtime::agent_runtime::{
    tool_results_unsupported, AgentRuntimeError, AgentRuntimeErrorKind, AgentRuntimeId,
};

#[test]
fn ids_are_trimmed() {
    let id = AgentRuntimeId::new(" \t\u{2003}pi.worker_2-x\u{a0}\n").expect("valid id");
    assert_eq!(id.as_str(), "pi.worker_2-x");
    assert!(!id.is_codex());
}

#[test]
fn codex_is_the_builtin_id() {
    assert!(AgentRuntimeId::codex().is_codex());
    assert_eq!(AgentRuntimeId::codex().as_str(), AgentRuntimeId::CODEX);
    assert!(AgentRuntimeId::new(" codex ").expect("valid id").is_codex());
}

#[test]
fn ids_with_other_characters_are_refused() {
    for text in ["", "   ", "Pi", "pi worker", "pi/worker", "p\u{ef}"] {
        let error = AgentRuntimeId::new(text).expect_err("invalid id");
        assert_eq!(error.kind, AgentRuntimeErrorKind::InvalidRuntimeId);
        assert_eq!(
            error.message,
            format!(
                "invalid agent runtime id `{text}`; expected lowercase ASCII letters, digits, dots, hyphens, or underscores"
            )
        );
    }
}

#[test]
fn ids_convert_from_texts() {
    assert_eq!(AgentRuntimeId::try_from("pi").expect("valid id").as_str(), "pi");
    assert_eq!(
        AgentRuntimeId::try_from("pi ".to_string()).expect("valid id").as_str(),
        "pi"
    );
    assert!(AgentRuntimeId::try_from("P").is_err());
    assert!(AgentRuntimeId::try_from("?".to_string()).is_err());
}

#[test]
fn ids_read_back() {
    let id = AgentRuntimeId::new("  a-b ").expect("valid id");
    assert_eq!(AgentRuntimeId::new(id.as_str()).expect("valid id"), id);
    assert_eq!(id.clone(), id);
}

#[test]
fn errors_keep_category_and_message() {
    let error = AgentRuntimeError::new(AgentRuntimeErrorKind::Protocol, "broken".to_string());
    assert_eq!(error.kind, AgentRuntimeErrorKind::Protocol);
    assert_eq!(error.message, "broken");
    assert_eq!(error.clone(), error);
    let refused = tool_results_unsupported();
    assert_eq!(refused.kind, AgentRuntimeErrorKind::UnsupportedOperation);
    assert_eq!(refused.message, "agent runtime does not accept host tool results");
}
