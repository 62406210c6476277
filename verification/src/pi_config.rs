//! How the sidecar is started: the configuration, and what the environment says of it.
use std::collections::BTreeMap;
use vstd::prelude::*;
use vstd::string::*;
use vstd::utf8::*;

use crate::agent_runtime::{
    runtime_id_reads_back, AgentRuntimeError, AgentRuntimeErrorKind, AgentRuntimeId, ErrorView,
};
use crate::json::{json_parse_string_list, json_string_list, string_list_view};

verus! {

/// The variable that names the executable of the sidecar.
pub const PI_RUNTIME_EXECUTABLE_ENV: &'static str = "CODEX_PI_RUNTIME_EXECUTABLE";

/// The variable that lists the arguments of the sidecar as a JSON array of strings.
pub const PI_RUNTIME_ARGUMENTS_ENV: &'static str = "CODEX_PI_RUNTIME_ARGUMENTS_JSON";

/// A span of time: whole seconds, and the nanoseconds beyond them.
#[derive(Clone, Copy, Debug, PartialEq, Eq, Structural)]
pub struct Timeout {
    pub secs: u64,
    pub subsec_nanos: u32,
}

impl Timeout {
    /// Fewer nanoseconds than make a second.
    pub open spec fn wf(&self) -> bool {
        self.subsec_nanos < 1_000_000_000
    }

    /// A span of whole seconds.
    pub fn from_secs(secs: u64) -> (timeout: Self)
        ensures
            timeout == whole_seconds(secs),
            timeout.wf(),
    {
        Timeout { secs, subsec_nanos: 0 }
    }
}

/// A span of whole seconds.
pub open spec fn whole_seconds(secs: u64) -> Timeout {
    Timeout { secs, subsec_nanos: 0 }
}

/// How the sidecar is started. Paths, arguments and variables are given by their bytes.
#[derive(Clone, Debug, PartialEq, Eq)]
pub struct PiRuntimeConfig {
    pub executable: Vec<u8>,
    pub arguments: Vec<Vec<u8>>,
    /// Variables that are set for the sidecar, by name.
    pub environment: BTreeMap<Vec<u8>, Vec<u8>>,
    pub startup_timeout: Timeout,
    pub request_timeout: Timeout,
}

/// Deep view of [`PiRuntimeConfig`].
#[verifier::ext_equal]
pub struct ConfigView {
    pub executable: Seq<u8>,
    pub arguments: Seq<Seq<u8>>,
    pub environment: Map<Seq<u8>, Seq<u8>>,
    pub startup_timeout: Timeout,
    pub request_timeout: Timeout,
}

impl DeepView for PiRuntimeConfig {
    type V = ConfigView;

    open spec fn deep_view(&self) -> ConfigView {
        ConfigView {
            executable: self.executable@,
            arguments: self.arguments.deep_view(),
            environment: self.environment.deep_view(),
            startup_timeout: self.startup_timeout,
            request_timeout: self.request_timeout,
        }
    }
}

impl PiRuntimeConfig {
    /// Both timeouts are spans of time.
    pub open spec fn wf(&self) -> bool {
        self.startup_timeout.wf() && self.request_timeout.wf()
    }
}

/// The configuration for an executable with arguments, with the timeouts of production.
pub open spec fn production_config(executable: Seq<u8>, arguments: Seq<Seq<u8>>) -> ConfigView {
    ConfigView {
        executable,
        arguments,
        environment: Map::empty(),
        startup_timeout: whole_seconds(10),
        request_timeout: whole_seconds(30),
    }
}

/// The arguments of the process: those of the configuration, then the socket.
pub open spec fn process_arguments(config: ConfigView, socket_path: Seq<u8>) -> Seq<Seq<u8>> {
    config.arguments + seq![encode_utf8("--socket"@), socket_path]
}

/// What came of reading a variable that has to be text.
pub enum VariableRead {
    Text(String),
    NotPresent,
    /// The variable could not be read as text, with a message.
    Failed(String),
}

/// A failure of the configuration.
pub open spec fn config_failure(message: Seq<char>) -> ErrorView {
    ErrorView { kind: AgentRuntimeErrorKind::InvalidRuntimeId, message }
}

/// A failure of the configuration.
fn config_error(message: String) -> (error: AgentRuntimeError)
    ensures
        error.deep_view() == config_failure(message@),
{
    AgentRuntimeError::new(AgentRuntimeErrorKind::InvalidRuntimeId, message)
}

/// The bytes of texts.
pub open spec fn encoded_texts(texts: Seq<Seq<char>>) -> Seq<Seq<u8>> {
    texts.map_values(|text: Seq<char>| encode_utf8(text))
}

/// The configuration for an executable with the arguments that were listed, or why the list is
/// refused.
pub open spec fn listed_config(
    executable: Seq<u8>,
    listed: Result<Seq<Seq<char>>, Seq<char>>,
) -> Result<ConfigView, ErrorView> {
    match listed {
        Ok(arguments) => Ok(production_config(executable, encoded_texts(arguments))),
        Err(error) => Err(
            config_failure(
                "failed to parse "@ + PI_RUNTIME_ARGUMENTS_ENV@ + " as a JSON string array: "@
                    + error,
            ),
        ),
    }
}

/// What the environment says: nothing, a configuration, or something that is refused.
pub open spec fn environment_config(
    executable: Option<Seq<u8>>,
    arguments: VariableRead,
) -> Result<Option<ConfigView>, ErrorView> {
    match executable {
        None => Ok(None),
        Some(path) => if path.len() == 0 {
            Err(config_failure(PI_RUNTIME_EXECUTABLE_ENV@ + " must not be empty"@))
        } else {
            match arguments {
                VariableRead::Text(text) => match listed_config(path, json_string_list(text@)) {
                    Ok(config) => Ok(Some(config)),
                    Err(error) => Err(error),
                },
                VariableRead::NotPresent => Ok(Some(production_config(path, Seq::empty()))),
                VariableRead::Failed(error) => Err(
                    config_failure(
                        "failed to read "@ + PI_RUNTIME_ARGUMENTS_ENV@ + ": "@ + error@,
                    ),
                ),
            }
        },
    }
}

/// The bytes of texts.
fn encode_texts(texts: &Vec<String>) -> (bytes: Vec<Vec<u8>>)
    ensures
        bytes.deep_view() == encoded_texts(texts.deep_view()),
{
    let mut bytes: Vec<Vec<u8>> = Vec::new();
    let ghost all = encoded_texts(texts.deep_view());
    let mut index: usize = 0;
    while index < texts.len()
        invariant
            all == encoded_texts(texts.deep_view()),
            index <= texts@.len(),
            bytes.deep_view() == all.take(index as int),
        decreases texts@.len() - index,
    {
        let ghost done = bytes.deep_view();
        let encoded = texts[index].as_str().as_bytes_vec();
        bytes.push(encoded);
        assert(encoded.deep_view() =~= encoded@);
        assert(bytes.deep_view() =~= done.push(encoded@));
        assert(bytes.deep_view() =~= all.take(index + 1));
        index = index + 1;
    }
    assert(all.take(all.len() as int) =~= all);
    bytes
}

impl PiRuntimeConfig {
    /// A configuration for an executable without arguments, with the timeouts of production.
    pub fn new(executable: Vec<u8>) -> (config: Self)
        ensures
            config.wf(),
            config.deep_view() == production_config(executable@, Seq::empty()),
    {
        let config = PiRuntimeConfig {
            executable,
            arguments: Vec::new(),
            environment: BTreeMap::new(),
            startup_timeout: Timeout::from_secs(10),
            request_timeout: Timeout::from_secs(30),
        };
        assert(config.arguments.deep_view() =~= Seq::empty());
        proof {
            vstd::std_specs::btree::lemma_btree_map_deepview_dom(config.environment);
            assert(config.environment.deep_view() =~= Map::empty());
        }
        config
    }

    /// A configuration for an executable with the arguments that were listed.
    pub fn with_listed_arguments(
        executable: Vec<u8>,
        listed: Result<Vec<String>, String>,
    ) -> (config: Result<Self, AgentRuntimeError>)
        ensures
            match config {
                Ok(accepted) => accepted.wf() && listed_config(
                    executable@,
                    string_list_view(listed),
                ) == Ok::<
                    ConfigView,
                    ErrorView,
                >(accepted.deep_view()),
                Err(error) => listed_config(executable@, string_list_view(listed)) == Err::<
                    ConfigView,
                    ErrorView,
                >(error.deep_view()),
            },
    {
        match listed {
            Ok(arguments) => {
                let mut config = Self::new(executable);
                config.arguments = encode_texts(&arguments);
                Ok(config)
            },
            Err(error) => {
                let mut message = "failed to parse ".to_owned();
                message.append(PI_RUNTIME_ARGUMENTS_ENV);
                message.append(" as a JSON string array: ");
                message.append(error.as_str());
                Err(config_error(message))
            },
        }
    }

    /// The configuration that the environment describes, given the two variables that count:
    /// the executable, where it is set, and the list of its arguments.
    pub fn from_environment(executable: Option<Vec<u8>>, arguments: VariableRead) -> (config: Result<
        Option<Self>,
        AgentRuntimeError,
    >)
        ensures
            ({
                let path = match executable {
                    Some(bytes) => Some(bytes@),
                    None => None,
                };
                match config {
                    Ok(Some(found)) => found.wf() && environment_config(path, arguments) == Ok::<
                        Option<ConfigView>,
                        ErrorView,
                    >(Some(found.deep_view())),
                    Ok(None) => environment_config(path, arguments) == Ok::<
                        Option<ConfigView>,
                        ErrorView,
                    >(None),
                    Err(error) => environment_config(path, arguments) == Err::<
                        Option<ConfigView>,
                        ErrorView,
                    >(error.deep_view()),
                }
            }),
    {
        let executable = match executable {
            Some(executable) => executable,
            None => {
                return Ok(None);
            },
        };
        if executable.len() == 0 {
            let mut message = PI_RUNTIME_EXECUTABLE_ENV.to_owned();
            message.append(" must not be empty");
            return Err(config_error(message));
        }
        match arguments {
            VariableRead::Text(text) => {
                let listed = json_parse_string_list(text.as_str());
                match Self::with_listed_arguments(executable, listed) {
                    Ok(config) => Ok(Some(config)),
                    Err(error) => Err(error),
                }
            },
            VariableRead::NotPresent => Ok(Some(Self::new(executable))),
            VariableRead::Failed(error) => {
                let mut message = "failed to read ".to_owned();
                message.append(PI_RUNTIME_ARGUMENTS_ENV);
                message.append(": ");
                message.append(error.as_str());
                Err(config_error(message))
            },
        }
    }

    /// The arguments of the process: those of the configuration, then the socket.
    pub fn launch_arguments(&self, socket_path: &Vec<u8>) -> (arguments: Vec<Vec<u8>>)
        ensures
            arguments.deep_view() == process_arguments(self.deep_view(), socket_path@),
    {
        let mut arguments: Vec<Vec<u8>> = Vec::new();
        let ghost all = self.deep_view().arguments;
        let mut index: usize = 0;
        while index < self.arguments.len()
            invariant
                all == self.arguments.deep_view(),
                index <= self.arguments@.len(),
                arguments.deep_view() == all.take(index as int),
            decreases self.arguments@.len() - index,
        {
            let ghost done = arguments.deep_view();
            let argument = clone_bytes(&self.arguments[index]);
            arguments.push(argument);
            assert(argument.deep_view() =~= self.arguments@[index as int].deep_view());
            assert(arguments.deep_view() =~= done.push(argument.deep_view()));
            assert(arguments.deep_view() =~= all.take(index + 1));
            index = index + 1;
        }
        let ghost listed = arguments.deep_view();
        assert(listed =~= all);
        let option = "--socket".as_bytes_vec();
        let socket = clone_bytes(socket_path);
        arguments.push(option);
        arguments.push(socket);
        assert(option.deep_view() =~= option@);
        assert(socket.deep_view() =~= socket_path@);
        assert(arguments.deep_view() =~= listed.push(option@).push(socket_path@));
        assert(arguments.deep_view() =~= all + seq![encode_utf8("--socket"@), socket_path@]);
        arguments
    }
}

fn clone_bytes(bytes: &Vec<u8>) -> (copy: Vec<u8>)
    ensures
        copy@ == bytes@,
{
    let copy = bytes.clone();
    assert(copy@ =~= bytes@);
    copy
}

/// The failure that answers every request on a system without Unix domain sockets.
pub fn unsupported_platform() -> (error: AgentRuntimeError)
    ensures
        error.deep_view() == (ErrorView {
            kind: AgentRuntimeErrorKind::UnsupportedOperation,
            message: "the Pi runtime sidecar currently requires Unix domain sockets"@,
        }),
{
    AgentRuntimeError::new(
        AgentRuntimeErrorKind::UnsupportedOperation,
        "the Pi runtime sidecar currently requires Unix domain sockets".to_owned(),
    )
}

/// Provider of the agents that run in the sidecar.
pub struct PiRuntimeProvider {
    runtime_id: AgentRuntimeId,
    config: PiRuntimeConfig,
}

impl PiRuntimeProvider {
    /// How the sidecar is started.
    pub closed spec fn spec_config(&self) -> PiRuntimeConfig {
        self.config
    }

    /// The id of the provider.
    pub closed spec fn runtime_id(&self) -> Seq<char> {
        self.runtime_id@
    }

    /// A provider that starts the sidecar with a configuration.
    pub fn new(config: PiRuntimeConfig) -> (provider: Self)
        ensures
            provider.runtime_id() == "pi"@,
            provider.spec_config() == config,
    {
        proof {
            reveal_strlit("pi");
            runtime_id_reads_back("pi"@);
        }
        match AgentRuntimeId::new("pi") {
            Ok(runtime_id) => PiRuntimeProvider { runtime_id, config },
            Err(_) => vstd::pervasive::unreached(),
        }
    }

    /// The provider that the environment describes.
    pub fn from_environment(executable: Option<Vec<u8>>, arguments: VariableRead) -> (provider:
        Result<Option<Self>, AgentRuntimeError>)
        ensures
            ({
                let path = match executable {
                    Some(bytes) => Some(bytes@),
                    None => None,
                };
                match provider {
                    Ok(Some(found)) => found.runtime_id() == "pi"@ && found.spec_config().wf()
                        && environment_config(
                        path,
                        arguments,
                    ) == Ok::<Option<ConfigView>, ErrorView>(
                        Some(found.spec_config().deep_view()),
                    ),
                    Ok(None) => environment_config(path, arguments) == Ok::<
                        Option<ConfigView>,
                        ErrorView,
                    >(None),
                    Err(error) => environment_config(path, arguments) == Err::<
                        Option<ConfigView>,
                        ErrorView,
                    >(error.deep_view()),
                }
            }),
    {
        match PiRuntimeConfig::from_environment(executable, arguments) {
            Ok(Some(config)) => Ok(Some(Self::new(config))),
            Ok(None) => Ok(None),
            Err(error) => Err(error),
        }
    }

    /// The id under which the provider is registered.
    pub fn id(&self) -> (id: &AgentRuntimeId)
        ensures
            id@ == self.runtime_id(),
    {
        &self.runtime_id
    }

    /// How the sidecar is started.
    pub fn config(&self) -> (config: &PiRuntimeConfig)
        ensures
            *config == self.spec_config(),
    {
        &self.config
    }
}

} // verus!
