use agent_runtime::agent_runtime::{AgentRuntimeErrorKind, AgentRuntimeId};
use agent_runtime::registry::{AgentRuntimeRegistry, ResolvedAgentRuntime};
use std::sync::Arc;

struct FakeProvider {
    id: AgentRuntimeId,
}

impl FakeProvider {
    fn new(id: &str) -> Self {
        Self {
            id: AgentRuntimeId::new(id).expect("valid fake runtime id"),
        }
    }
}

fn register(
    registry: &mut AgentRuntimeRegistry<Arc<FakeProvider>>,
    provider: Arc<FakeProvider>,
) -> Result<(), agent_runtime::agent_runtime::AgentRuntimeError> {
    let id = provider.id.clone();
    registry.register(&id, provider)
}

#[test]
fn registry_resolves_codex_as_the_builtin_default_provider() {
    let registry: AgentRuntimeRegistry<Arc<FakeProvider>> = AgentRuntimeRegistry::default();

    assert!(matches!(
        registry.resolve(&AgentRuntimeId::codex()),
        Ok(ResolvedAgentRuntime::Codex)
    ));
}

#[test]
fn registry_registers_and_resolves_external_provider() {
    let mut registry = AgentRuntimeRegistry::default();
    let provider = Arc::new(FakeProvider::new("pi"));
    register(&mut registry, Arc::clone(&provider)).expect("register provider");

    let id = AgentRuntimeId::new("pi").expect("valid runtime id");
    let resolved = registry.resolve(&id).expect("resolve provider");
    let ResolvedAgentRuntime::External(resolved) = resolved else {
        panic!("pi should resolve as an external provider");
    };
    assert!(Arc::ptr_eq(&provider, resolved));
}

#[test]
fn registry_rejects_duplicate_and_reserved_runtime_ids() {
    let mut registry = AgentRuntimeRegistry::default();
    register(&mut registry, Arc::new(FakeProvider::new("pi"))).expect("register provider");

    let duplicate = register(&mut registry, Arc::new(FakeProvider::new("pi")))
        .expect_err("duplicate provider should fail");
    let reserved = register(&mut registry, Arc::new(FakeProvider::new("codex")))
        .expect_err("reserved provider should fail");

    assert_eq!(duplicate.kind, AgentRuntimeErrorKind::DuplicateRuntime);
    assert_eq!(reserved.kind, AgentRuntimeErrorKind::DuplicateRuntime);
    assert_eq!(duplicate.message, "agent runtime `pi` is already registered");
    assert_eq!(
        reserved.message,
        "agent runtime `codex` is reserved for the built-in provider"
    );
}

#[test]
fn registry_reports_unknown_runtime() {
    let registry: AgentRuntimeRegistry<Arc<FakeProvider>> = AgentRuntimeRegistry::default();
    let error = registry
        .resolve(&AgentRuntimeId::new("missing").expect("valid runtime id"))
        .err()
        .expect("missing runtime should fail");

    assert_eq!(error.kind, AgentRuntimeErrorKind::UnknownRuntime);
    assert_eq!(error.message, "unknown agent runtime `missing`");
}

#[test]
fn second_registration_leaves_the_first_in_place() {
    let mut registry = AgentRuntimeRegistry::new();
    let first = Arc::new(FakeProvider::new("pi"));
    let second = Arc::new(FakeProvider::new("pi"));
    let other = Arc::new(FakeProvider::new("other"));
    assert!(register(&mut registry, Arc::clone(&first)).is_ok());
    assert!(register(&mut registry, Arc::clone(&second)).is_err());
    assert!(register(&mut registry, Arc::clone(&other)).is_ok());

    match registry.resolve(&first.id) {
        Ok(ResolvedAgentRuntime::External(found)) => {
            assert!(Arc::ptr_eq(found, &first));
            assert!(!Arc::ptr_eq(found, &second));
        }
        _ => panic!("the first provider should resolve"),
    }
    match registry.resolve(&other.id) {
        Ok(ResolvedAgentRuntime::External(found)) => assert!(Arc::ptr_eq(found, &other)),
        _ => panic!("the other provider should resolve"),
    }
}
