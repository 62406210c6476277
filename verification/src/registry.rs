//! Registry of the built-in runtime and of externally supplied runtime providers.
use vstd::prelude::*;
use vstd::string::*;

use crate::agent_runtime::{AgentRuntimeError, AgentRuntimeErrorKind, AgentRuntimeId, ErrorView};
use crate::text_map::TextMap;

verus! {

/// What a runtime id stands for.
pub enum ResolvedAgentRuntime<'a, P> {
    /// The built-in runtime.
    Codex,
    /// A registered provider.
    External(&'a P),
}

/// The failure of a registration, where it fails.
pub open spec fn registration_error<P>(providers: Map<Seq<char>, P>, id: Seq<char>) -> Option<
    ErrorView,
> {
    if id == "codex"@ {
        Some(
            ErrorView {
                kind: AgentRuntimeErrorKind::DuplicateRuntime,
                message: "agent runtime `codex` is reserved for the built-in provider"@,
            },
        )
    } else if providers.contains_key(id) {
        Some(
            ErrorView {
                kind: AgentRuntimeErrorKind::DuplicateRuntime,
                message: "agent runtime `"@ + id + "` is already registered"@,
            },
        )
    } else {
        None
    }
}

/// The providers after an attempt to register one.
pub open spec fn registered<P>(
    providers: Map<Seq<char>, P>,
    id: Seq<char>,
    provider: P,
) -> Map<Seq<char>, P> {
    if registration_error(providers, id) is None {
        providers.insert(id, provider)
    } else {
        providers
    }
}

/// The failure that answers an id that nobody registered.
pub open spec fn unknown_runtime(id: Seq<char>) -> ErrorView {
    ErrorView {
        kind: AgentRuntimeErrorKind::UnknownRuntime,
        message: "unknown agent runtime `"@ + id + "`"@,
    }
}

/// The answer to a lookup: the built-in runtime is `Ok(None)`, a provider `Ok(Some(_))`.
pub open spec fn resolution<P>(providers: Map<Seq<char>, P>, id: Seq<char>) -> Result<
    Option<P>,
    ErrorView,
> {
    if id == "codex"@ {
        Ok(None)
    } else if providers.contains_key(id) {
        Ok(Some(providers[id]))
    } else {
        Err(unknown_runtime(id))
    }
}

/// The agent runtimes that a host knows. The built-in one is reserved and never stored;
/// external providers register by stable id before threads are spawned.
pub struct AgentRuntimeRegistry<P> {
    external: TextMap<P>,
}

impl<P> View for AgentRuntimeRegistry<P> {
    type V = Map<Seq<char>, P>;

    closed spec fn view(&self) -> Map<Seq<char>, P> {
        self.external@
    }
}

impl<P> AgentRuntimeRegistry<P> {
    /// Every provider stands under one id, and none under the reserved one.
    pub closed spec fn wf(&self) -> bool {
        self.external.wf() && !self.external@.contains_key("codex"@)
    }

    /// A registry without external providers.
    pub fn new() -> (registry: Self)
        ensures
            registry.wf(),
            registry@ == Map::<Seq<char>, P>::empty(),
    {
        AgentRuntimeRegistry { external: TextMap::new() }
    }

    /// Adds a provider under its id.
    pub fn register(&mut self, runtime_id: &AgentRuntimeId, provider: P) -> (outcome: Result<
        (),
        AgentRuntimeError,
    >)
        requires
            old(self).wf(),
        ensures
            final(self).wf(),
            final(self)@ == registered(old(self)@, runtime_id@, provider),
            outcome is Ok == (registration_error(old(self)@, runtime_id@) is None),
            outcome matches Err(error) ==> registration_error(old(self)@, runtime_id@) == Some(
                error.deep_view(),
            ),
    {
        if runtime_id.is_codex() {
            return Err(
                AgentRuntimeError::new(
                    AgentRuntimeErrorKind::DuplicateRuntime,
                    "agent runtime `codex` is reserved for the built-in provider".to_owned(),
                ),
            );
        }
        if self.external.contains_key(runtime_id.as_str()) {
            let mut message = "agent runtime `".to_owned();
            message.append(runtime_id.as_str());
            message.append("` is already registered");
            return Err(AgentRuntimeError::new(AgentRuntimeErrorKind::DuplicateRuntime, message));
        }
        self.external.insert(runtime_id.as_str().to_owned(), provider);
        Ok(())
    }

    /// Finds what a runtime id stands for.
    pub fn resolve<'a>(&'a self, runtime_id: &AgentRuntimeId) -> (outcome: Result<
        ResolvedAgentRuntime<'a, P>,
        AgentRuntimeError,
    >)
        requires
            self.wf(),
        ensures
            match outcome {
                Ok(ResolvedAgentRuntime::Codex) => resolution(self@, runtime_id@) == Ok::<
                    Option<P>,
                    ErrorView,
                >(None),
                Ok(ResolvedAgentRuntime::External(provider)) => resolution(self@, runtime_id@)
                    == Ok::<Option<P>, ErrorView>(Some(*provider)),
                Err(error) => resolution(self@, runtime_id@) == Err::<Option<P>, ErrorView>(
                    error.deep_view(),
                ),
            },
    {
        if runtime_id.is_codex() {
            return Ok(ResolvedAgentRuntime::Codex);
        }
        match self.external.get(runtime_id.as_str()) {
            Some(provider) => Ok(ResolvedAgentRuntime::External(provider)),
            None => {
                let mut message = "unknown agent runtime `".to_owned();
                message.append(runtime_id.as_str());
                message.append("`");
                Err(AgentRuntimeError::new(AgentRuntimeErrorKind::UnknownRuntime, message))
            },
        }
    }
}

impl<P> Default for AgentRuntimeRegistry<P> {
    fn default() -> (registry: Self)
        ensures
            registry.wf(),
            registry@ == Map::<Seq<char>, P>::empty(),
    {
        AgentRuntimeRegistry::new()
    }
}

/// The built-in id resolves to the built-in runtime whatever is registered, and no
/// registration under it succeeds.
pub proof fn codex_is_reserved<P>(providers: Map<Seq<char>, P>, provider: P)
    ensures
        resolution(providers, "codex"@) == Ok::<Option<P>, ErrorView>(None),
        registration_error(providers, "codex"@) is Some,
        registered(providers, "codex"@, provider) == providers,
{
}

/// A provider that was registered is what its id resolves to.
pub proof fn registered_provider_resolves<P>(
    providers: Map<Seq<char>, P>,
    id: Seq<char>,
    provider: P,
)
    requires
        registration_error(providers, id) is None,
    ensures
        resolution(registered(providers, id, provider), id) == Ok::<Option<P>, ErrorView>(
            Some(provider),
        ),
{
}

/// A second registration under one id fails and leaves the first in place.
pub proof fn second_registration_is_refused<P>(
    providers: Map<Seq<char>, P>,
    id: Seq<char>,
    first: P,
    second: P,
)
    ensures
        ({
            let once = registered(providers, id, first);
            &&& registration_error(once, id) is Some
            &&& registered(once, id, second) == once
        }),
{
}

/// A registration does not change what other ids resolve to.
pub proof fn registration_leaves_other_ids<P>(
    providers: Map<Seq<char>, P>,
    id: Seq<char>,
    provider: P,
    other: Seq<char>,
)
    requires
        other != id,
    ensures
        resolution(registered(providers, id, provider), other) == resolution(providers, other),
{
}

} // verus!
