//! The tools that spawn an agent: which requests they accept and what they do with them.
use vstd::prelude::*;
use vstd::string::*;

use crate::agent_runtime::AgentRuntimeId;
use crate::external_host_tools::ToolPayload;
use crate::protocol::{AgentStatus, InterAgentCommunication, ThreadId};
use crate::text::{ascii_lowercase, parse_usize, trim, trimmed, usize_value};

verus! {

/// Which of the two spawn tools is called.
#[derive(Clone, Copy, Debug, PartialEq, Eq, Structural)]
pub enum SpawnToolKind {
    /// The tool that spawns native agents.
    Reserved,
    /// The tool that spawns agents of external runtimes.
    ExternalRuntime,
}

/// How much of the parent's history a spawned agent starts from.
#[derive(Clone, Copy, Debug, PartialEq, Eq, Structural)]
pub enum SpawnAgentForkMode {
    FullHistory,
    LastNTurns(usize),
}

/// A failure of a tool call.
#[derive(Debug, PartialEq, Eq)]
pub enum FunctionCallError {
    /// The model is told what is wrong.
    RespondToModel(String),
}

impl DeepView for FunctionCallError {
    type V = Seq<char>;

    open spec fn deep_view(&self) -> Seq<char> {
        match self {
            FunctionCallError::RespondToModel(message) => message@,
        }
    }
}

/// The arguments of a spawn tool.
#[derive(Debug, PartialEq, Eq)]
pub struct SpawnAgentArgs {
    pub message: String,
    pub task_name: String,
    pub agent_type: Option<String>,
    pub model: Option<String>,
    pub reasoning_effort: Option<String>,
    pub service_tier: Option<String>,
    pub fork_turns: Option<String>,
    pub fork_context: Option<bool>,
}

/// What an optional text says: its characters without the white space around them, where any
/// are left.
pub open spec fn stated(text: Option<String>) -> Option<Seq<char>> {
    match text {
        Some(value) if trimmed(value@).len() > 0 => Some(trimmed(value@)),
        _ => None,
    }
}

fn stated_text<'a>(text: &'a Option<String>) -> (value: Option<&'a str>)
    ensures
        value.deep_view() == stated(*text),
{
    match text {
        Some(value) => {
            let normalized = trim(value.as_str());
            if normalized.is_empty() {
                None
            } else {
                Some(normalized)
            }
        },
        None => None,
    }
}

/// Whether a text is a word, capital or small letters alike.
pub open spec fn is_word(text: Seq<char>, word: Seq<char>) -> bool {
    ascii_lowercase(text) == ascii_lowercase(word)
}

/// The answer to a value of `fork_turns` that means nothing.
pub open spec fn fork_turns_message() -> Seq<char> {
    "fork_turns must be `none`, `all`, or a positive integer string"@
}

/// The fork mode that a request asks for, or why it is refused. Agents of external runtimes
/// never start from native history; for native ones the whole history is the default.
pub open spec fn requested_fork_mode(args: SpawnAgentArgs, kind: SpawnToolKind) -> Result<
    Option<SpawnAgentForkMode>,
    Seq<char>,
> {
    if args.fork_context is Some {
        Err("fork_context is not supported in MultiAgentV2; use fork_turns instead"@)
    } else {
        match (kind, stated(args.fork_turns)) {
            (SpawnToolKind::ExternalRuntime, None) => Ok(None),
            (SpawnToolKind::ExternalRuntime, Some(turns)) => if is_word(turns, "none"@) {
                Ok(None)
            } else {
                Err(
                    "runtime_agents.spawn_agent cannot fork Codex history; omit `fork_turns` or pass `none`"@,
                )
            },
            (SpawnToolKind::Reserved, None) => Ok(Some(SpawnAgentForkMode::FullHistory)),
            (SpawnToolKind::Reserved, Some(turns)) => if is_word(turns, "none"@) {
                Ok(None)
            } else if is_word(turns, "all"@) {
                Ok(Some(SpawnAgentForkMode::FullHistory))
            } else {
                match usize_value(turns) {
                    Some(count) if count > 0 => Ok(
                        Some(SpawnAgentForkMode::LastNTurns(count as usize)),
                    ),
                    _ => Err(fork_turns_message()),
                }
            },
        }
    }
}

impl SpawnAgentArgs {
    /// The fork mode that the request asks for.
    pub fn fork_mode(&self, kind: SpawnToolKind) -> (mode: Result<
        Option<SpawnAgentForkMode>,
        FunctionCallError,
    >)
        ensures
            match mode {
                Ok(accepted) => requested_fork_mode(*self, kind) == Ok::<
                    Option<SpawnAgentForkMode>,
                    Seq<char>,
                >(accepted),
                Err(error) => requested_fork_mode(*self, kind) == Err::<
                    Option<SpawnAgentForkMode>,
                    Seq<char>,
                >(error.deep_view()),
            },
    {
        if self.fork_context.is_some() {
            return Err(
                FunctionCallError::RespondToModel(
                    "fork_context is not supported in MultiAgentV2; use fork_turns instead".to_owned(),
                ),
            );
        }
        match kind {
            SpawnToolKind::ExternalRuntime => match stated_text(&self.fork_turns) {
                None => Ok(None),
                Some(turns) => {
                    if turns.eq_ignore_ascii_case("none") {
                        return Ok(None);
                    }
                    Err(
                        FunctionCallError::RespondToModel(
                            "runtime_agents.spawn_agent cannot fork Codex history; omit `fork_turns` or pass `none`".to_owned(),
                        ),
                    )
                },
            },
            SpawnToolKind::Reserved => match stated_text(&self.fork_turns) {
                None => Ok(Some(SpawnAgentForkMode::FullHistory)),
                Some(turns) => {
                    if turns.eq_ignore_ascii_case("none") {
                        return Ok(None);
                    }
                    if turns.eq_ignore_ascii_case("all") {
                        return Ok(Some(SpawnAgentForkMode::FullHistory));
                    }
                    match parse_usize(turns) {
                        Some(count) if count > 0 => Ok(Some(SpawnAgentForkMode::LastNTurns(count))),
                        _ => Err(
                            FunctionCallError::RespondToModel(
                                "fork_turns must be `none`, `all`, or a positive integer string".to_owned(),
                            ),
                        ),
                    }
                },
            },
        }
    }
}

/// The spawn tool, with options of the host.
pub struct Handler<O> {
    options: O,
    kind: SpawnToolKind,
}

impl<O> Handler<O> {
    /// The options of the host.
    pub closed spec fn given_options(&self) -> O {
        self.options
    }

    /// Which of the two tools it is.
    pub closed spec fn tool_kind(&self) -> SpawnToolKind {
        self.kind
    }

    /// The tool that spawns native agents.
    pub fn new(options: O) -> (handler: Self)
        ensures
            handler.given_options() == options,
            handler.tool_kind() == SpawnToolKind::Reserved,
    {
        Handler { options, kind: SpawnToolKind::Reserved }
    }

    /// The tool that spawns agents of external runtimes.
    pub fn new_external_runtime(options: O) -> (handler: Self)
        ensures
            handler.given_options() == options,
            handler.tool_kind() == SpawnToolKind::ExternalRuntime,
    {
        Handler { options, kind: SpawnToolKind::ExternalRuntime }
    }

    /// The options of the host.
    pub fn options(&self) -> (options: &O)
        ensures
            *options == self.given_options(),
    {
        &self.options
    }

    /// Which of the two tools it is.
    pub fn kind(&self) -> (kind: SpawnToolKind)
        ensures
            kind == self.tool_kind(),
    {
        self.kind
    }

    /// The name of the tool; both have the same.
    pub fn tool_name(&self) -> (name: &'static str)
        ensures
            name@ == "spawn_agent"@,
    {
        "spawn_agent"
    }

    /// Whether the tool takes a payload: it takes structured arguments.
    pub fn matches_kind(&self, payload: &ToolPayload) -> (taken: bool)
        ensures
            taken == (payload is Function),
    {
        match payload {
            ToolPayload::Function { .. } => true,
            ToolPayload::Custom { .. } => false,
        }
    }
}

/// One step on the way to a spawned agent. The first that fails ends the call.
#[derive(Debug, PartialEq, Eq)]
pub enum SpawnStep {
    /// The message for the agent is read out of the text that was asked for.
    ReadMessage { message: String },
    /// The configuration of the agent is built from that of the caller.
    BuildConfig,
    /// The role has to belong to an external runtime.
    RequireExternalRuntime,
    /// The configuration gets the tier that was asked for.
    SetServiceTier { tier: String },
    /// Nothing may be asked for that a copy of the caller's history rules out.
    RejectFullForkOverrides {
        role: Option<String>,
        model: Option<String>,
        reasoning_effort: Option<String>,
    },
    /// The configuration gets the model and the effort that were asked for.
    ApplyModelOverrides { model: Option<String>, reasoning_effort: Option<String> },
    /// The configuration gets what belongs to the role.
    ApplyRole { role: Option<String> },
    /// The tier of the configuration is settled, for the tier that was asked for.
    ApplyServiceTier { requested: Option<String> },
    /// The configuration gets what belongs to the caller's turn.
    ApplyRuntimeOverrides,
    /// The place of the agent in the tree of agents is made.
    BuildSource { role: Option<String>, task_name: String },
}

/// Deep view of [`SpawnStep`].
pub enum StepView {
    ReadMessage { message: Seq<char> },
    BuildConfig,
    RequireExternalRuntime,
    SetServiceTier { tier: Seq<char> },
    RejectFullForkOverrides {
        role: Option<Seq<char>>,
        model: Option<Seq<char>>,
        reasoning_effort: Option<Seq<char>>,
    },
    ApplyModelOverrides { model: Option<Seq<char>>, reasoning_effort: Option<Seq<char>> },
    ApplyRole { role: Option<Seq<char>> },
    ApplyServiceTier { requested: Option<Seq<char>> },
    ApplyRuntimeOverrides,
    BuildSource { role: Option<Seq<char>>, task_name: Seq<char> },
}

impl DeepView for SpawnStep {
    type V = StepView;

    open spec fn deep_view(&self) -> StepView {
        match self {
            SpawnStep::ReadMessage { message } => StepView::ReadMessage { message: message@ },
            SpawnStep::BuildConfig => StepView::BuildConfig,
            SpawnStep::RequireExternalRuntime => StepView::RequireExternalRuntime,
            SpawnStep::SetServiceTier { tier } => StepView::SetServiceTier { tier: tier@ },
            SpawnStep::RejectFullForkOverrides { role, model, reasoning_effort } => {
                StepView::RejectFullForkOverrides {
                    role: role.deep_view(),
                    model: model.deep_view(),
                    reasoning_effort: reasoning_effort.deep_view(),
                }
            },
            SpawnStep::ApplyModelOverrides { model, reasoning_effort } => {
                StepView::ApplyModelOverrides {
                    model: model.deep_view(),
                    reasoning_effort: reasoning_effort.deep_view(),
                }
            },
            SpawnStep::ApplyRole { role } => StepView::ApplyRole { role: role.deep_view() },
            SpawnStep::ApplyServiceTier { requested } => StepView::ApplyServiceTier {
                requested: requested.deep_view(),
            },
            SpawnStep::ApplyRuntimeOverrides => StepView::ApplyRuntimeOverrides,
            SpawnStep::BuildSource { role, task_name } => StepView::BuildSource {
                role: role.deep_view(),
                task_name: task_name@,
            },
        }
    }
}

/// The steps on the way to a spawned agent, in order. With the whole history of the caller
/// model, effort and role stay those of the caller; else they are applied. The tier that was
/// asked for is set before and settled after.
pub open spec fn spawn_steps(
    args: SpawnAgentArgs,
    kind: SpawnToolKind,
    fork_mode: Option<SpawnAgentForkMode>,
) -> Seq<StepView> {
    let role = stated(args.agent_type);
    let model = args.model.deep_view();
    let reasoning_effort = args.reasoning_effort.deep_view();
    seq![StepView::ReadMessage { message: args.message@ }, StepView::BuildConfig] + (match kind {
        SpawnToolKind::ExternalRuntime => seq![StepView::RequireExternalRuntime],
        SpawnToolKind::Reserved => Seq::empty(),
    }) + (match args.service_tier {
        Some(tier) => seq![StepView::SetServiceTier { tier: tier@ }],
        None => Seq::empty(),
    }) + (if fork_mode == Some(SpawnAgentForkMode::FullHistory) {
        seq![StepView::RejectFullForkOverrides { role, model, reasoning_effort }]
    } else {
        seq![
            StepView::ApplyModelOverrides { model, reasoning_effort },
            StepView::ApplyRole { role },
        ]
    }) + seq![
        StepView::ApplyServiceTier { requested: args.service_tier.deep_view() },
        StepView::ApplyRuntimeOverrides,
        StepView::BuildSource { role, task_name: args.task_name@ },
    ]
}

fn clone_text(text: &Option<String>) -> (copy: Option<String>)
    ensures
        copy.deep_view() == text.deep_view(),
{
    match text {
        Some(value) => Some(value.clone()),
        None => None,
    }
}

/// The failure that answers an external spawn without a role.
pub open spec fn role_required() -> Seq<char> {
    "runtime_agents.spawn_agent requires `agent_type`"@
}

/// The failure that answers an external spawn with a native role.
pub open spec fn native_role(role: Seq<char>) -> Seq<char> {
    "runtime_agents.spawn_agent requires an external runtime role; agent_type `"@ + role
        + "` resolves to native Codex"@
}

/// An agent that the host spawned.
pub struct SpawnedAgent {
    pub thread_id: ThreadId,
    pub nickname: Option<String>,
    pub status: AgentStatus,
}

/// What the host knows of an agent.
pub struct AgentSnapshot {
    pub nickname: Option<String>,
    pub role: Option<String>,
    pub model: String,
    pub reasoning_effort: Option<String>,
}

/// The nickname of a spawned agent: the one that the host knows by now comes first.
pub open spec fn agent_nickname(spawned: SpawnedAgent, snapshot: Option<AgentSnapshot>) -> Option<
    Seq<char>,
> {
    match snapshot {
        Some(AgentSnapshot { nickname: Some(name), .. }) => Some(name@),
        _ => spawned.nickname.deep_view(),
    }
}

/// The role of a spawned agent: the one that the host knows by now comes before the one that
/// was asked for.
pub open spec fn agent_role(requested: Option<String>, snapshot: Option<AgentSnapshot>) -> Option<
    Seq<char>,
> {
    match snapshot {
        Some(AgentSnapshot { role: Some(role), .. }) => Some(role@),
        _ => stated(requested),
    }
}

/// The nickname of a spawned agent.
pub fn nickname(spawned: &SpawnedAgent, snapshot: &Option<AgentSnapshot>) -> (name: Option<String>)
    ensures
        name.deep_view() == agent_nickname(*spawned, *snapshot),
{
    if let Some(known) = snapshot {
        if let Some(name) = &known.nickname {
            return Some(name.clone());
        }
    }
    clone_text(&spawned.nickname)
}

/// The call of the spawn tool as an item of the caller's turn.
pub struct SpawnToolCall {
    pub id: String,
    /// Where the new agent stands.
    pub status: AgentStatus,
    pub sender_thread_id: ThreadId,
    pub receiver_thread_id: ThreadId,
    pub receiver_nickname: Option<String>,
    pub receiver_role: Option<String>,
    pub prompt: String,
    pub model: String,
    pub reasoning_effort: String,
}

/// How a spawned agent is reported in the caller's turn.
pub enum SpawnReport {
    /// As the activity of an agent that started.
    Started { id: String, agent_thread_id: ThreadId, agent_path: String },
    ToolCall(SpawnToolCall),
}

/// The answer of the spawn tool.
#[derive(Debug, PartialEq, Eq)]
pub enum SpawnAgentResult {
    WithNickname { task_name: String, nickname: Option<String> },
    HiddenMetadata { task_name: String },
}

/// How the message reaches the spawned agent.
pub enum SpawnMessage {
    /// As the message of a tool, in the form that native agents exchange.
    ToolMessage { author: String, recipient: String, message: String },
    Communication(InterAgentCommunication),
}

/// What the host is told to spawn.
pub struct SpawnOrder<'a, E> {
    pub message: SpawnMessage,
    /// The thread that the agent belongs to.
    pub parent_thread_id: ThreadId,
    /// The environments that the agent works in.
    pub environments: &'a E,
    pub fork_mode: Option<SpawnAgentForkMode>,
    /// The call that spawns, where the agent starts from the history of the caller.
    pub fork_parent_spawn_call_id: Option<String>,
}

/// What a call of the spawn tool comes with besides its arguments.
pub struct SpawnContext<E> {
    /// The thread of the caller.
    pub sender: ThreadId,
    /// The environments that the caller works in.
    pub environments: E,
    /// The path of the caller, where it has one.
    pub author: Option<String>,
    /// The path of an agent that has no parent.
    pub root: String,
    /// The effort of an agent of which none is known.
    pub default_effort: String,
    /// The name under which an agent without a role is counted.
    pub default_role: String,
    pub hide_agent_metadata: bool,
}

/// How far a call of the spawn tool has come.
enum SpawnStage {
    /// A number of steps is done. The message is known once it was read.
    Steps { done: usize, message: String },
    Spawn { message: String, path: String },
    Snapshot { message: String, path: String, spawned: SpawnedAgent },
    Report {
        message: String,
        path: String,
        spawned: SpawnedAgent,
        snapshot: Option<AgentSnapshot>,
    },
    Count { path: String, nickname: Option<String> },
    Finish { path: String, nickname: Option<String> },
}

/// How far a call of the spawn tool has come.
pub enum StageView {
    Steps { done: nat, message: Seq<char> },
    Spawn { message: Seq<char>, path: Seq<char> },
    Snapshot { message: Seq<char>, path: Seq<char>, spawned: SpawnedAgent },
    Report {
        message: Seq<char>,
        path: Seq<char>,
        spawned: SpawnedAgent,
        snapshot: Option<AgentSnapshot>,
    },
    Count { path: Seq<char>, nickname: Option<Seq<char>> },
    Finish { path: Seq<char>, nickname: Option<Seq<char>> },
}

/// A call of the spawn tool that is under way.
pub struct SpawnCall<E> {
    args: SpawnAgentArgs,
    kind: SpawnToolKind,
    call_id: String,
    context: SpawnContext<E>,
    fork_mode: Option<SpawnAgentForkMode>,
    stage: SpawnStage,
}

/// The state of a call of the spawn tool.
pub struct CallView<E> {
    pub args: SpawnAgentArgs,
    pub kind: SpawnToolKind,
    pub call_id: Seq<char>,
    pub context: SpawnContext<E>,
    pub fork_mode: Option<SpawnAgentForkMode>,
    pub stage: StageView,
}

impl<E> View for SpawnCall<E> {
    type V = CallView<E>;

    closed spec fn view(&self) -> CallView<E> {
        CallView {
            args: self.args,
            kind: self.kind,
            call_id: self.call_id@,
            context: self.context,
            fork_mode: self.fork_mode,
            stage: match self.stage {
                SpawnStage::Steps { done, message } => StageView::Steps {
                    done: done as nat,
                    message: message@,
                },
                SpawnStage::Spawn { message, path } => StageView::Spawn {
                    message: message@,
                    path: path@,
                },
                SpawnStage::Snapshot { message, path, spawned } => StageView::Snapshot {
                    message: message@,
                    path: path@,
                    spawned,
                },
                SpawnStage::Report { message, path, spawned, snapshot } => StageView::Report {
                    message: message@,
                    path: path@,
                    spawned,
                    snapshot,
                },
                SpawnStage::Count { path, nickname } => StageView::Count {
                    path: path@,
                    nickname: nickname.deep_view(),
                },
                SpawnStage::Finish { path, nickname } => StageView::Finish {
                    path: path@,
                    nickname: nickname.deep_view(),
                },
            },
        }
    }
}

/// What the host does for a call.
pub enum SpawnAction<'a, E> {
    /// Does a step.
    Perform(SpawnStep),
    /// Spawns the agent.
    Spawn(SpawnOrder<'a, E>),
    /// Says what it knows of the agent.
    TakeSnapshot(ThreadId),
    /// Reports the agent in the caller's turn.
    Report(SpawnReport),
    /// Counts a spawned agent under its role.
    Count { role: String },
    /// Answers the call.
    Finish(SpawnAgentResult),
}

/// What came of what the host did.
pub enum SpawnEvent {
    /// It is done.
    Done,
    /// The message for the agent was read.
    Message(String),
    /// The runtime of the role was found, or why not.
    Runtime(Result<AgentRuntimeId, String>),
    /// The place of the agent was made, with its path where it has one.
    Source(Option<String>),
    /// The agent was spawned.
    Spawned(SpawnedAgent),
    /// What the host knows of the agent.
    Snapshot(Option<AgentSnapshot>),
    /// It failed.
    Failed(FunctionCallError),
}

/// The steps of a call.
pub open spec fn steps_of<E>(call: CallView<E>) -> Seq<StepView> {
    spawn_steps(call.args, call.kind, call.fork_mode)
}

/// A call whose fork mode is the one that was asked for, that has steps left as long as it does
/// steps, and whose role is known when it is looked at.
pub open spec fn is_call<E>(call: CallView<E>) -> bool {
    &&& requested_fork_mode(call.args, call.kind) == Ok::<Option<SpawnAgentForkMode>, Seq<char>>(
        call.fork_mode,
    )
    &&& call.stage matches StageView::Steps { done, .. } ==> done < steps_of(call).len() && (
    steps_of(call)[done as int] is RequireExternalRuntime ==> stated(call.args.agent_type) is Some)
}

/// A call after a number of steps. One that needs an external role and names none fails when
/// the role is due.
pub open spec fn after_steps<E>(call: CallView<E>, done: nat, message: Seq<char>) -> Result<
    CallView<E>,
    Seq<char>,
> {
    if steps_of(call)[done as int] is RequireExternalRuntime && stated(call.args.agent_type)
        is None {
        Err(role_required())
    } else {
        Ok(CallView { stage: StageView::Steps { done, message }, ..call })
    }
}

/// A call after an event, or the failure that ends it. An event that does not answer what the
/// host was asked changes nothing.
pub open spec fn after_spawn_event<E>(call: CallView<E>, event: SpawnEvent) -> Result<
    CallView<E>,
    Seq<char>,
> {
    match (call.stage, event) {
        (StageView::Steps { .. }, SpawnEvent::Failed(error)) => Err(error.deep_view()),
        (StageView::Spawn { .. }, SpawnEvent::Failed(error)) => Err(error.deep_view()),
        (StageView::Steps { done, message }, _) => match (steps_of(call)[done as int], event) {
            (StepView::ReadMessage { .. }, SpawnEvent::Message(text)) => after_steps(
                call,
                done + 1,
                text@,
            ),
            (StepView::RequireExternalRuntime, SpawnEvent::Runtime(Ok(id))) => if id@ == "codex"@ {
                Err(native_role(stated(call.args.agent_type)->0))
            } else {
                after_steps(call, done + 1, message)
            },
            (StepView::RequireExternalRuntime, SpawnEvent::Runtime(Err(text))) => Err(text@),
            (StepView::BuildSource { .. }, SpawnEvent::Source(Some(path))) => Ok(
                CallView { stage: StageView::Spawn { message, path: path@ }, ..call },
            ),
            (StepView::BuildSource { .. }, SpawnEvent::Source(None)) => Err(
                "spawned agent is missing a canonical task name"@,
            ),
            (step, SpawnEvent::Done) => if step is ReadMessage || step is RequireExternalRuntime
                || step is BuildSource {
                Ok(call)
            } else {
                after_steps(call, done + 1, message)
            },
            _ => Ok(call),
        },
        (StageView::Spawn { message, path }, SpawnEvent::Spawned(spawned)) => Ok(
            CallView { stage: StageView::Snapshot { message, path, spawned }, ..call },
        ),
        (
            StageView::Snapshot { message, path, spawned },
            SpawnEvent::Snapshot(snapshot),
        ) => Ok(CallView { stage: StageView::Report { message, path, spawned, snapshot }, ..call }),
        (StageView::Report { path, spawned, snapshot, .. }, SpawnEvent::Done) => Ok(
            CallView {
                stage: StageView::Count { path, nickname: agent_nickname(spawned, snapshot) },
                ..call
            },
        ),
        (StageView::Count { path, nickname }, SpawnEvent::Done) => Ok(
            CallView { stage: StageView::Finish { path, nickname }, ..call },
        ),
        _ => Ok(call),
    }
}

/// Whether an order says what a call is to spawn: native agents get the message as that of a
/// tool, agents of external runtimes as one that starts a turn; the agent belongs to the thread
/// of the caller and works in its environments; the call is named exactly where the agent starts
/// from history.
pub open spec fn is_order_of<'a, E>(
    order: SpawnOrder<'a, E>,
    call: CallView<E>,
    message: Seq<char>,
    path: Seq<char>,
) -> bool {
    let from = match call.context.author {
        Some(author) => author@,
        None => call.context.root@,
    };
    &&& order.parent_thread_id == call.context.sender
    &&& *order.environments == call.context.environments
    &&& order.fork_mode == call.fork_mode
    &&& order.fork_parent_spawn_call_id.deep_view() == match call.fork_mode {
        Some(_) => Some(call.call_id),
        None => None,
    }
    &&& match (call.kind, order.message) {
        (
            SpawnToolKind::Reserved,
            SpawnMessage::ToolMessage { author, recipient, message: text },
        ) => author@ == from && recipient@ == path && text@ == message,
        (
            SpawnToolKind::ExternalRuntime,
            SpawnMessage::Communication(communication),
        ) => communication.author@ == from && communication.recipient@ == path
            && communication.other_recipients@.len() == 0 && communication.content@ == message
            && communication.trigger_turn,
        _ => false,
    }
}

/// Whether a report tells of the agent that a call spawned: native agents as an activity,
/// agents of external runtimes as a call of the tool. What the host does not know of the agent
/// comes from the request.
pub open spec fn is_report_of<E>(
    report: SpawnReport,
    call: CallView<E>,
    message: Seq<char>,
    path: Seq<char>,
    spawned: SpawnedAgent,
    snapshot: Option<AgentSnapshot>,
) -> bool {
    match (call.kind, report) {
        (
            SpawnToolKind::Reserved,
            SpawnReport::Started { id, agent_thread_id, agent_path },
        ) => id@ == call.call_id && agent_thread_id == spawned.thread_id && agent_path@ == path,
        (SpawnToolKind::ExternalRuntime, SpawnReport::ToolCall(reported)) => {
            &&& reported.id@ == call.call_id
            &&& reported.status == spawned.status
            &&& reported.sender_thread_id == call.context.sender
            &&& reported.receiver_thread_id == spawned.thread_id
            &&& reported.receiver_nickname.deep_view() == agent_nickname(spawned, snapshot)
            &&& reported.receiver_role.deep_view() == agent_role(call.args.agent_type, snapshot)
            &&& reported.prompt@ == message
            &&& reported.model@ == match snapshot {
                Some(known) => known.model@,
                None => Seq::empty(),
            }
            &&& reported.reasoning_effort@ == match snapshot {
                Some(AgentSnapshot { reasoning_effort: Some(effort), .. }) => effort@,
                _ => call.context.default_effort@,
            }
        },
        _ => false,
    }
}

/// The name under which the agent of a call is counted: the role that was asked for, if any.
pub open spec fn counted_role<E>(call: CallView<E>) -> Seq<char> {
    match stated(call.args.agent_type) {
        Some(role) => role,
        None => call.context.default_role@,
    }
}

/// Whether an answer is the one of a call: the name of the task and, unless it is hidden, the
/// nickname of the agent.
pub open spec fn is_result_of<E>(
    result: SpawnAgentResult,
    call: CallView<E>,
    path: Seq<char>,
    nickname: Option<Seq<char>>,
) -> bool {
    match result {
        SpawnAgentResult::HiddenMetadata { task_name } => call.context.hide_agent_metadata
            && task_name@ == path,
        SpawnAgentResult::WithNickname { task_name, nickname: name } => {
            !call.context.hide_agent_metadata && task_name@ == path && name.deep_view()
                == nickname
        },
    }
}

/// Whether an action is what a call needs next.
pub open spec fn is_action_of<'a, E>(action: SpawnAction<'a, E>, call: CallView<E>) -> bool {
    match (call.stage, action) {
        (StageView::Steps { done, .. }, SpawnAction::Perform(step)) => step.deep_view()
            == steps_of(call)[done as int],
        (StageView::Spawn { message, path }, SpawnAction::Spawn(order)) => is_order_of(
            order,
            call,
            message,
            path,
        ),
        (StageView::Snapshot { spawned, .. }, SpawnAction::TakeSnapshot(id)) => id
            == spawned.thread_id,
        (
            StageView::Report { message, path, spawned, snapshot },
            SpawnAction::Report(report),
        ) => is_report_of(report, call, message, path, spawned, snapshot),
        (StageView::Count { .. }, SpawnAction::Count { role }) => role@ == counted_role(call),
        (StageView::Finish { path, nickname }, SpawnAction::Finish(result)) => is_result_of(
            result,
            call,
            path,
            nickname,
        ),
        _ => false,
    }
}

impl<E> SpawnCall<E> {
    /// Takes in a call. One whose fork mode is refused is not begun.
    pub fn begin(
        args: SpawnAgentArgs,
        kind: SpawnToolKind,
        call_id: String,
        context: SpawnContext<E>,
    ) -> (call: Result<Self, FunctionCallError>)
        ensures
            match call {
                Ok(begun) => is_call(begun@) && begun@ == (CallView {
                    args,
                    kind,
                    call_id: call_id@,
                    context,
                    fork_mode: begun@.fork_mode,
                    stage: StageView::Steps { done: 0, message: Seq::empty() },
                }),
                Err(error) => requested_fork_mode(args, kind) == Err::<
                    Option<SpawnAgentForkMode>,
                    Seq<char>,
                >(error.deep_view()),
            },
    {
        match args.fork_mode(kind) {
            Ok(fork_mode) => Ok(
                SpawnCall {
                    args,
                    kind,
                    call_id,
                    context,
                    fork_mode,
                    stage: SpawnStage::Steps { done: 0, message: String::new() },
                },
            ),
            Err(error) => Err(error),
        }
    }

    /// The role that was asked for.
    pub fn role(&self) -> (role: Option<String>)
        ensures
            role.deep_view() == stated(self@.args.agent_type),
    {
        match stated_text(&self.args.agent_type) {
            Some(role) => Some(role.to_owned()),
            None => None,
        }
    }

    /// The steps on the way to the spawned agent, in order.
    fn steps(&self) -> (steps: Vec<SpawnStep>)
        ensures
            steps.deep_view() == steps_of(self@),
    {
        let mut steps: Vec<SpawnStep> = Vec::new();
        steps.push(SpawnStep::ReadMessage { message: self.args.message.clone() });
        steps.push(SpawnStep::BuildConfig);
        assert(steps.deep_view() =~= seq![
            StepView::ReadMessage { message: self.args.message@ },
            StepView::BuildConfig,
        ]);
        let ghost mut done = steps.deep_view();
        match self.kind {
            SpawnToolKind::ExternalRuntime => {
                steps.push(SpawnStep::RequireExternalRuntime);
                assert(steps.deep_view() =~= done + seq![StepView::RequireExternalRuntime]);
            },
            SpawnToolKind::Reserved => {
                assert(done =~= done + Seq::empty());
            },
        }
        proof {
            done = steps.deep_view();
        }
        match &self.args.service_tier {
            Some(tier) => {
                steps.push(SpawnStep::SetServiceTier { tier: tier.clone() });
                assert(steps.deep_view() =~= done + seq![
                    StepView::SetServiceTier { tier: tier@ },
                ]);
            },
            None => {
                assert(done =~= done + Seq::empty());
            },
        }
        proof {
            done = steps.deep_view();
        }
        let full_history = match self.fork_mode {
            Some(SpawnAgentForkMode::FullHistory) => true,
            _ => false,
        };
        let model = clone_text(&self.args.model);
        let reasoning_effort = clone_text(&self.args.reasoning_effort);
        if full_history {
            let step = SpawnStep::RejectFullForkOverrides {
                role: self.role(),
                model,
                reasoning_effort,
            };
            steps.push(step);
            assert(steps.deep_view() =~= done + seq![step.deep_view()]);
        } else {
            let first = SpawnStep::ApplyModelOverrides { model, reasoning_effort };
            let second = SpawnStep::ApplyRole { role: self.role() };
            steps.push(first);
            steps.push(second);
            assert(steps.deep_view() =~= done + seq![first.deep_view(), second.deep_view()]);
        }
        proof {
            done = steps.deep_view();
        }
        let first = SpawnStep::ApplyServiceTier { requested: clone_text(&self.args.service_tier) };
        let third = SpawnStep::BuildSource {
            role: self.role(),
            task_name: self.args.task_name.clone(),
        };
        steps.push(first);
        steps.push(SpawnStep::ApplyRuntimeOverrides);
        steps.push(third);
        assert(steps.deep_view() =~= done + seq![
            first.deep_view(),
            StepView::ApplyRuntimeOverrides,
            third.deep_view(),
        ]);
        steps
    }

    /// The step after a number of steps.
    fn step_at(&self, done: usize) -> (step: SpawnStep)
        requires
            done < steps_of(self@).len(),
        ensures
            step.deep_view() == steps_of(self@)[done as int],
    {
        let mut steps = self.steps();
        let ghost all = steps.deep_view();
        assert(all[done as int] == steps@[done as int].deep_view());
        steps.remove(done)
    }

    /// What the host is to spawn.
    fn order<'a>(&'a self, message: &String, path: &String) -> (order: SpawnOrder<'a, E>)
        ensures
            is_order_of(order, self@, message@, path@),
    {
        let author = match &self.context.author {
            Some(author) => author.clone(),
            None => self.context.root.clone(),
        };
        let sent = match self.kind {
            SpawnToolKind::Reserved => SpawnMessage::ToolMessage {
                author,
                recipient: path.clone(),
                message: message.clone(),
            },
            SpawnToolKind::ExternalRuntime => SpawnMessage::Communication(
                InterAgentCommunication::new(
                    author,
                    path.clone(),
                    Vec::new(),
                    message.clone(),
                    true,
                ),
            ),
        };
        let fork_parent_spawn_call_id = match self.fork_mode {
            Some(_) => Some(self.call_id.clone()),
            None => None,
        };
        SpawnOrder {
            message: sent,
            parent_thread_id: self.context.sender.clone(),
            environments: &self.context.environments,
            fork_mode: self.fork_mode,
            fork_parent_spawn_call_id,
        }
    }

    /// The report of the agent that was spawned.
    fn report(
        &self,
        message: &String,
        path: &String,
        spawned: &SpawnedAgent,
        snapshot: &Option<AgentSnapshot>,
    ) -> (report: SpawnReport)
        ensures
            is_report_of(report, self@, message@, path@, *spawned, *snapshot),
    {
        match self.kind {
            SpawnToolKind::Reserved => SpawnReport::Started {
                id: self.call_id.clone(),
                agent_thread_id: spawned.thread_id.clone(),
                agent_path: path.clone(),
            },
            SpawnToolKind::ExternalRuntime => {
                let mut model = String::new();
                let mut reasoning_effort = self.context.default_effort.clone();
                let mut role: Option<String> = None;
                if let Some(known) = snapshot {
                    model = known.model.clone();
                    if let Some(effort) = &known.reasoning_effort {
                        reasoning_effort = effort.clone();
                    }
                    role = clone_text(&known.role);
                }
                if role.is_none() {
                    role = self.role();
                }
                SpawnReport::ToolCall(
                    SpawnToolCall {
                        id: self.call_id.clone(),
                        status: spawned.status.clone(),
                        sender_thread_id: self.context.sender.clone(),
                        receiver_thread_id: spawned.thread_id.clone(),
                        receiver_nickname: nickname(spawned, snapshot),
                        receiver_role: role,
                        prompt: message.clone(),
                        model,
                        reasoning_effort,
                    },
                )
            },
        }
    }

    /// What the host does next for the call.
    pub fn action<'a>(&'a self) -> (action: SpawnAction<'a, E>)
        requires
            is_call(self@),
        ensures
            is_action_of(action, self@),
    {
        match &self.stage {
            SpawnStage::Steps { done, .. } => SpawnAction::Perform(self.step_at(*done)),
            SpawnStage::Spawn { message, path } => SpawnAction::Spawn(self.order(message, path)),
            SpawnStage::Snapshot { spawned, .. } => SpawnAction::TakeSnapshot(
                spawned.thread_id.clone(),
            ),
            SpawnStage::Report { message, path, spawned, snapshot } => SpawnAction::Report(
                self.report(message, path, spawned, snapshot),
            ),
            SpawnStage::Count { .. } => SpawnAction::Count {
                role: match self.role() {
                    Some(role) => role,
                    None => self.context.default_role.clone(),
                },
            },
            SpawnStage::Finish { path, nickname } => {
                let task_name = path.clone();
                if self.context.hide_agent_metadata {
                    SpawnAction::Finish(SpawnAgentResult::HiddenMetadata { task_name })
                } else {
                    SpawnAction::Finish(
                        SpawnAgentResult::WithNickname { task_name, nickname: clone_text(nickname) },
                    )
                }
            },
        }
    }

    /// The call with another stage.
    fn at(self, stage: SpawnStage) -> (call: Self)
        ensures
            call == (SpawnCall { stage, ..self }),
    {
        SpawnCall {
            args: self.args,
            kind: self.kind,
            call_id: self.call_id,
            context: self.context,
            fork_mode: self.fork_mode,
            stage,
        }
    }

    /// The call after a number of steps.
    fn after(self, done: usize, message: String) -> (call: Result<Self, FunctionCallError>)
        requires
            done < steps_of(self@).len(),
        ensures
            match call {
                Ok(next) => after_steps(self@, done as nat, message@) == Ok::<
                    CallView<E>,
                    Seq<char>,
                >(next@),
                Err(error) => after_steps(self@, done as nat, message@) == Err::<
                    CallView<E>,
                    Seq<char>,
                >(error.deep_view()),
            },
    {
        let step = self.step_at(done);
        if let SpawnStep::RequireExternalRuntime = step {
            if self.role().is_none() {
                return Err(
                    FunctionCallError::RespondToModel(
                        "runtime_agents.spawn_agent requires `agent_type`".to_owned(),
                    ),
                );
            }
        }
        Ok(self.at(SpawnStage::Steps { done, message }))
    }

    /// Takes in an event while steps are done.
    fn take_step_event(self, done: usize, message: String, event: SpawnEvent) -> (call: Result<
        Self,
        FunctionCallError,
    >)
        requires
            is_call(self@),
            self@.stage == (StageView::Steps { done: done as nat, message: message@ }),
        ensures
            match call {
                Ok(next) => after_spawn_event(self@, event) == Ok::<CallView<E>, Seq<char>>(next@),
                Err(error) => after_spawn_event(self@, event) == Err::<CallView<E>, Seq<char>>(
                    error.deep_view(),
                ),
            },
    {
        let step = self.step_at(done);
        proof {
            lemma_source_is_last(self@.args, self@.kind, self@.fork_mode);
        }
        match (step, event) {
            (_, SpawnEvent::Failed(error)) => Err(error),
            (SpawnStep::ReadMessage { .. }, SpawnEvent::Message(text)) => self.after(done + 1, text),
            (SpawnStep::RequireExternalRuntime, SpawnEvent::Runtime(runtime)) => match runtime {
                Err(text) => Err(FunctionCallError::RespondToModel(text)),
                Ok(id) => {
                    if id.is_codex() {
                        let mut text = "runtime_agents.spawn_agent requires an external runtime role; agent_type `".to_owned();
                        match self.role() {
                            Some(role) => text.append(role.as_str()),
                            None => {},
                        }
                        text.append("` resolves to native Codex");
                        return Err(FunctionCallError::RespondToModel(text));
                    }
                    self.after(done + 1, message)
                },
            },
            (SpawnStep::BuildSource { .. }, SpawnEvent::Source(path)) => match path {
                Some(path) => Ok(self.at(SpawnStage::Spawn { message, path })),
                None => Err(
                    FunctionCallError::RespondToModel(
                        "spawned agent is missing a canonical task name".to_owned(),
                    ),
                ),
            },
            (SpawnStep::ReadMessage { .. }, _)
            | (SpawnStep::RequireExternalRuntime, _)
            | (SpawnStep::BuildSource { .. }, _) => Ok(self),
            (_, SpawnEvent::Done) => self.after(done + 1, message),
            _ => Ok(self),
        }
    }

    /// Takes in what came of what the host did. A failure ends the call.
    pub fn take(self, event: SpawnEvent) -> (call: Result<Self, FunctionCallError>)
        requires
            is_call(self@),
        ensures
            match call {
                Ok(next) => is_call(next@) && after_spawn_event(self@, event) == Ok::<
                    CallView<E>,
                    Seq<char>,
                >(next@),
                Err(error) => after_spawn_event(self@, event) == Err::<CallView<E>, Seq<char>>(
                    error.deep_view(),
                ),
            },
    {
        proof {
            lemma_source_is_last(self@.args, self@.kind, self@.fork_mode);
        }
        let ghost before = self@;
        let SpawnCall { args, kind, call_id, context, fork_mode, stage } = self;
        let stage = match (stage, event) {
            (SpawnStage::Steps { done, message }, event) => {
                let call = SpawnCall {
                    args,
                    kind,
                    call_id,
                    context,
                    fork_mode,
                    stage: SpawnStage::Steps { done, message: message.clone() },
                };
                assert(call@ == before);
                return call.take_step_event(done, message, event);
            },
            (SpawnStage::Spawn { .. }, SpawnEvent::Failed(error)) => {
                return Err(error);
            },
            (SpawnStage::Spawn { message, path }, SpawnEvent::Spawned(spawned)) => {
                SpawnStage::Snapshot { message, path, spawned }
            },
            (
                SpawnStage::Snapshot { message, path, spawned },
                SpawnEvent::Snapshot(snapshot),
            ) => SpawnStage::Report { message, path, spawned, snapshot },
            (SpawnStage::Report { path, spawned, snapshot, .. }, SpawnEvent::Done) => {
                SpawnStage::Count { path, nickname: nickname(&spawned, &snapshot) }
            },
            (SpawnStage::Count { path, nickname }, SpawnEvent::Done) => {
                SpawnStage::Finish { path, nickname }
            },
            (stage, _) => stage,
        };
        Ok(SpawnCall { args, kind, call_id, context, fork_mode, stage })
    }
}

/// The place of the agent is made in the last step and in no other.
proof fn lemma_source_is_last(
    args: SpawnAgentArgs,
    kind: SpawnToolKind,
    fork_mode: Option<SpawnAgentForkMode>,
)
    ensures
        ({
            let steps = spawn_steps(args, kind, fork_mode);
            &&& 6 <= steps.len() <= 9
            &&& forall|i: int|
                0 <= i < steps.len() ==> ((#[trigger] steps[i] is BuildSource) == (i == steps.len()
                    - 1))
        }),
{
}

/// An agent of an external runtime never starts from native history: whatever a request says,
/// it is refused or asks for no history.
pub proof fn external_agents_do_not_fork(args: SpawnAgentArgs)
    ensures
        requested_fork_mode(args, SpawnToolKind::ExternalRuntime) is Ok
            ==> requested_fork_mode(args, SpawnToolKind::ExternalRuntime)->Ok_0 is None,
{
}

/// A request that does not speak of history starts a native agent from all of it.
pub proof fn native_agents_fork_by_default(args: SpawnAgentArgs)
    requires
        args.fork_context is None,
        stated(args.fork_turns) is None,
    ensures
        requested_fork_mode(args, SpawnToolKind::Reserved) == Ok::<
            Option<SpawnAgentForkMode>,
            Seq<char>,
        >(Some(SpawnAgentForkMode::FullHistory)),
{
}

/// No request asks for the last zero turns.
pub proof fn fork_turns_are_positive(args: SpawnAgentArgs, kind: SpawnToolKind, turns: usize)
    requires
        requested_fork_mode(args, kind) == Ok::<Option<SpawnAgentForkMode>, Seq<char>>(
            Some(SpawnAgentForkMode::LastNTurns(turns)),
        ),
    ensures
        turns > 0,
{
}

/// The role of an external agent is looked at before anything of the request is applied, and
/// its model, effort and role are always applied.
pub proof fn external_spawn_checks_the_role_first(args: SpawnAgentArgs)
    requires
        requested_fork_mode(args, SpawnToolKind::ExternalRuntime) is Ok,
    ensures
        ({
            let fork_mode = requested_fork_mode(args, SpawnToolKind::ExternalRuntime)->Ok_0;
            let steps = spawn_steps(args, SpawnToolKind::ExternalRuntime, fork_mode);
            &&& steps[2] is RequireExternalRuntime
            &&& forall|i: int|
                0 <= i < steps.len() ==> !(#[trigger] steps[i] is RejectFullForkOverrides)
            &&& steps.contains(StepView::ApplyRole { role: stated(args.agent_type) })
        }),
{
    let fork_mode = requested_fork_mode(args, SpawnToolKind::ExternalRuntime)->Ok_0;
    let steps = spawn_steps(args, SpawnToolKind::ExternalRuntime, fork_mode);
    assert(steps[steps.len() - 4] == (StepView::ApplyRole { role: stated(args.agent_type) }));
}

/// An agent that starts from the whole history of its caller gets neither a model, nor an
/// effort, nor a role of its own.
pub proof fn full_fork_applies_no_overrides(args: SpawnAgentArgs, kind: SpawnToolKind)
    ensures
        ({
            let steps = spawn_steps(args, kind, Some(SpawnAgentForkMode::FullHistory));
            forall|i: int|
                0 <= i < steps.len() ==> !(#[trigger] steps[i] is ApplyModelOverrides)
                    && !(steps[i] is ApplyRole)
        }),
{
}

/// A call after events that came one by one, or the failure that ended it.
pub open spec fn after_spawn_events<E>(call: CallView<E>, events: Seq<SpawnEvent>) -> Result<
    CallView<E>,
    Seq<char>,
>
    decreases events.len(),
{
    if events.len() == 0 {
        Ok(call)
    } else {
        match after_spawn_events(call, events.drop_last()) {
            Ok(next) => after_spawn_event(next, events.last()),
            Err(error) => Err(error),
        }
    }
}

/// A call of which nothing was done yet.
pub open spec fn is_begun<E>(call: CallView<E>) -> bool {
    is_call(call) && call.stage == (StageView::Steps { done: 0, message: Seq::empty() })
}

/// How many steps a call has done; one that is past its steps has done them all.
pub open spec fn steps_done<E>(call: CallView<E>) -> nat {
    match call.stage {
        StageView::Steps { done, .. } => done,
        _ => steps_of(call).len(),
    }
}

/// What was asked for stays as it is while a call is under way.
pub proof fn calls_keep_their_request<E>(call: CallView<E>, events: Seq<SpawnEvent>)
    requires
        is_call(call),
        after_spawn_events(call, events) is Ok,
    ensures
        ({
            let now = after_spawn_events(call, events)->Ok_0;
            &&& is_call(now)
            &&& now.args == call.args
            &&& now.kind == call.kind
            &&& now.call_id == call.call_id
            &&& now.context == call.context
            &&& now.fork_mode == call.fork_mode
        }),
    decreases events.len(),
{
    lemma_source_is_last(call.args, call.kind, call.fork_mode);
    if events.len() > 0 {
        calls_keep_their_request(call, events.drop_last());
    }
}

/// Whether an event names an external runtime.
pub open spec fn names_external_runtime(event: SpawnEvent) -> bool {
    event matches SpawnEvent::Runtime(Ok(id)) && id@ != "codex"@
}

/// An agent that is spawned for the external tool has a role whose runtime was found and is an
/// external one.
pub proof fn external_agents_run_externally<E>(call: CallView<E>, events: Seq<SpawnEvent>)
    requires
        is_begun(call),
        call.kind == SpawnToolKind::ExternalRuntime,
        after_spawn_events(call, events) is Ok,
        steps_done(after_spawn_events(call, events)->Ok_0) > 2,
    ensures
        exists|i: int| 0 <= i < events.len() && names_external_runtime(#[trigger] events[i]),
        stated(call.args.agent_type) is Some,
    decreases events.len(),
{
    lemma_source_is_last(call.args, call.kind, call.fork_mode);
    let steps = steps_of(call);
    assert(steps[0] is ReadMessage && steps[1] is BuildConfig && steps[2]
        is RequireExternalRuntime);
    if events.len() > 0 {
        let earlier = events.drop_last();
        calls_keep_their_request(call, earlier);
        let middle = after_spawn_events(call, earlier)->Ok_0;
        if steps_done(middle) > 2 {
            external_agents_run_externally(call, earlier);
            let i = choose|i: int|
                0 <= i < earlier.len() && names_external_runtime(#[trigger] earlier[i]);
            assert(names_external_runtime(events[i]));
        } else {
            assert(names_external_runtime(events[events.len() - 1]));
        }
    }
}

/// The message that an agent is spawned with is one that was read for the call.
pub proof fn agents_get_the_message<E>(call: CallView<E>, events: Seq<SpawnEvent>)
    requires
        is_begun(call),
        after_spawn_events(call, events) is Ok,
        steps_done(after_spawn_events(call, events)->Ok_0) > 0,
        is_message_known(after_spawn_events(call, events)->Ok_0.stage),
    ensures
        exists|i: int|
            0 <= i < events.len() && (#[trigger] events[i] matches SpawnEvent::Message(text)
                && text@ == stage_message(after_spawn_events(call, events)->Ok_0.stage)),
    decreases events.len(),
{
    lemma_source_is_last(call.args, call.kind, call.fork_mode);
    let steps = steps_of(call);
    assert(steps[0] is ReadMessage);
    if events.len() > 0 {
        let earlier = events.drop_last();
        calls_keep_their_request(call, earlier);
        let middle = after_spawn_events(call, earlier)->Ok_0;
        if steps_done(middle) > 0 {
            lemma_message_is_read_first(call, events);
            agents_get_the_message(call, earlier);
            let i = choose|i: int|
                0 <= i < earlier.len() && (#[trigger] earlier[i] matches SpawnEvent::Message(text)
                    && text@ == stage_message(middle.stage));
            assert(events[i] == earlier[i]);
        } else {
            assert(events[events.len() - 1] is Message);
        }
    }
}

/// Whether a call at a stage still needs its message.
pub open spec fn is_message_known(stage: StageView) -> bool {
    !(stage is Count) && !(stage is Finish)
}

/// The message that is known at a stage.
pub open spec fn stage_message(stage: StageView) -> Seq<char> {
    match stage {
        StageView::Steps { message, .. } => message,
        StageView::Spawn { message, .. } => message,
        StageView::Snapshot { message, .. } => message,
        StageView::Report { message, .. } => message,
        StageView::Count { .. } => Seq::empty(),
        StageView::Finish { .. } => Seq::empty(),
    }
}

proof fn lemma_message_is_read_first<E>(call: CallView<E>, events: Seq<SpawnEvent>)
    requires
        is_begun(call),
        events.len() > 0,
        after_spawn_events(call, events) is Ok,
        steps_done(after_spawn_events(call, events.drop_last())->Ok_0) > 0,
        is_message_known(after_spawn_events(call, events)->Ok_0.stage),
    ensures
        stage_message(after_spawn_events(call, events)->Ok_0.stage) == stage_message(
            after_spawn_events(call, events.drop_last())->Ok_0.stage,
        ),
        is_message_known(after_spawn_events(call, events.drop_last())->Ok_0.stage),
{
    calls_keep_their_request(call, events.drop_last());
    let steps = steps_of(call);
    assert(steps[0] is ReadMessage);
    assert forall|i: int| 0 < i < steps.len() implies !(#[trigger] steps[i] is ReadMessage) by {}
}

/// How often events answered the order to spawn with a spawned agent.
pub open spec fn times_spawned<E>(call: CallView<E>, events: Seq<SpawnEvent>) -> nat
    decreases events.len(),
{
    if events.len() == 0 {
        0
    } else {
        let earlier = events.drop_last();
        times_spawned(call, earlier) + match after_spawn_events(call, earlier) {
            Ok(now) if now.stage is Spawn && events.last() is Spawned => 1nat,
            _ => 0nat,
        }
    }
}

/// How often events said that a report was made.
pub open spec fn times_reported<E>(call: CallView<E>, events: Seq<SpawnEvent>) -> nat
    decreases events.len(),
{
    if events.len() == 0 {
        0
    } else {
        let earlier = events.drop_last();
        times_reported(call, earlier) + match after_spawn_events(call, earlier) {
            Ok(now) if now.stage is Report && events.last() is Done => 1nat,
            _ => 0nat,
        }
    }
}

/// How often events said that the agent was counted.
pub open spec fn times_counted<E>(call: CallView<E>, events: Seq<SpawnEvent>) -> nat
    decreases events.len(),
{
    if events.len() == 0 {
        0
    } else {
        let earlier = events.drop_last();
        times_counted(call, earlier) + match after_spawn_events(call, earlier) {
            Ok(now) if now.stage is Count && events.last() is Done => 1nat,
            _ => 0nat,
        }
    }
}

/// Whether a call is still on its way to an agent.
pub open spec fn is_before_agent(stage: StageView) -> bool {
    stage is Steps || stage is Spawn
}

/// A call that is answered spawned one agent, reported it once and counted it once, whatever
/// happened. One that failed spawned none, reported nothing and counted nothing. One that is
/// under way did each of these once, in this order, when it is past it, and not before.
pub proof fn calls_spawn_report_and_count_once<E>(call: CallView<E>, events: Seq<SpawnEvent>)
    requires
        is_begun(call),
    ensures
        match after_spawn_events(call, events) {
            Ok(now) => {
                &&& times_spawned(call, events) == if is_before_agent(now.stage) {
                    0nat
                } else {
                    1nat
                }
                &&& times_reported(call, events) == if now.stage is Count || now.stage is Finish {
                    1nat
                } else {
                    0nat
                }
                &&& times_counted(call, events) == if now.stage is Finish {
                    1nat
                } else {
                    0nat
                }
            },
            Err(_) => {
                &&& times_spawned(call, events) == 0
                &&& times_reported(call, events) == 0
                &&& times_counted(call, events) == 0
            },
        },
    decreases events.len(),
{
    if events.len() > 0 {
        calls_spawn_report_and_count_once(call, events.drop_last());
    }
}

/// A call that fails was never asked to report an agent or to count one: at no time before was
/// it past the order to spawn.
pub proof fn failed_call_reports_nothing<'a, E>(
    call: CallView<E>,
    events: Seq<SpawnEvent>,
    count: int,
    action: SpawnAction<'a, E>,
)
    requires
        is_begun(call),
        after_spawn_events(call, events) is Err,
        0 <= count <= events.len(),
        after_spawn_events(call, events.take(count)) is Ok,
        is_action_of(action, after_spawn_events(call, events.take(count))->Ok_0),
    ensures
        is_before_agent(after_spawn_events(call, events.take(count))->Ok_0.stage),
        action is Perform || action is Spawn,
{
    let now = after_spawn_events(call, events.take(count))->Ok_0;
    if !is_before_agent(now.stage) {
        lemma_agents_stay(call, events, count);
    }
}

/// A call that has its agent does not fail any more.
proof fn lemma_agents_stay<E>(call: CallView<E>, events: Seq<SpawnEvent>, count: int)
    requires
        0 <= count <= events.len(),
        after_spawn_events(call, events.take(count)) is Ok,
        !is_before_agent(after_spawn_events(call, events.take(count))->Ok_0.stage),
    ensures
        after_spawn_events(call, events) is Ok,
    decreases events.len() - count,
{
    if count == events.len() {
        assert(events.take(count) =~= events);
    } else {
        assert(events.take(count + 1).drop_last() =~= events.take(count));
        lemma_agents_stay(call, events, count + 1);
    }
}

/// The report that a call asks for bears the id of the call: of a native agent it is the
/// activity of an agent that started, of an agent of an external runtime the call of the tool.
pub proof fn reports_bear_the_call_id<'a, E>(
    call: CallView<E>,
    events: Seq<SpawnEvent>,
    action: SpawnAction<'a, E>,
)
    requires
        is_begun(call),
        after_spawn_events(call, events) is Ok,
        after_spawn_events(call, events)->Ok_0.stage is Report,
        is_action_of(action, after_spawn_events(call, events)->Ok_0),
    ensures
        match (call.kind, action) {
            (
                SpawnToolKind::Reserved,
                SpawnAction::Report(SpawnReport::Started { id, .. }),
            ) => id@ == call.call_id,
            (
                SpawnToolKind::ExternalRuntime,
                SpawnAction::Report(SpawnReport::ToolCall(reported)),
            ) => reported.id@ == call.call_id,
            _ => false,
        },
{
    calls_keep_their_request(call, events);
}

/// Whatever happened on the way, the order to spawn makes the caller's thread the parent, hands
/// on the caller's environments and has the fork mode that was asked for; the call is named
/// exactly where there is one. An agent of an external runtime gets neither.
pub proof fn orders_keep_to_the_request<'a, E>(
    call: CallView<E>,
    events: Seq<SpawnEvent>,
    order: SpawnOrder<'a, E>,
)
    requires
        is_begun(call),
        after_spawn_events(call, events) is Ok,
        is_action_of(SpawnAction::Spawn(order), after_spawn_events(call, events)->Ok_0),
    ensures
        order.parent_thread_id == call.context.sender,
        *order.environments == call.context.environments,
        requested_fork_mode(call.args, call.kind) == Ok::<
            Option<SpawnAgentForkMode>,
            Seq<char>,
        >(order.fork_mode),
        order.fork_parent_spawn_call_id.deep_view() == match order.fork_mode {
            Some(_) => Some(call.call_id),
            None => None,
        },
        call.kind == SpawnToolKind::ExternalRuntime ==> order.fork_mode is None
            && order.fork_parent_spawn_call_id is None,
{
    calls_keep_their_request(call, events);
}

} // verus!
