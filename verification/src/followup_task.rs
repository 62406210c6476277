//! The tools that hand a further task to an agent.
use vstd::prelude::*;

use crate::external_host_tools::ToolPayload;

verus! {

/// Which of the two follow-up tools is called.
#[derive(Clone, Copy, Debug, PartialEq, Eq, Structural)]
pub enum FollowupToolKind {
    /// The tool that reaches every agent.
    Reserved,
    /// The tool that reaches agents of external runtimes.
    ExternalRuntime,
}

/// The agents that a message may be sent to.
#[derive(Clone, Copy, Debug, PartialEq, Eq, Structural)]
pub enum MessageTargetKind {
    Any,
    ExternalRuntime,
}

/// What a message does to the agent that gets it.
#[derive(Clone, Copy, Debug, PartialEq, Eq, Structural)]
pub enum MessageDeliveryMode {
    /// The agent starts a turn.
    TriggerTurn,
}

/// The message that a follow-up tool sends.
#[derive(Debug, PartialEq, Eq)]
pub struct FollowupMessage {
    pub mode: MessageDeliveryMode,
    pub target_kind: MessageTargetKind,
    pub target: String,
    pub message: String,
}

/// The agents that a follow-up tool reaches.
pub open spec fn reached_by(kind: FollowupToolKind) -> MessageTargetKind {
    match kind {
        FollowupToolKind::Reserved => MessageTargetKind::Any,
        FollowupToolKind::ExternalRuntime => MessageTargetKind::ExternalRuntime,
    }
}

/// A follow-up tool.
pub struct Handler {
    kind: FollowupToolKind,
}

impl Default for Handler {
    fn default() -> (handler: Self)
        ensures
            handler.tool_kind() == FollowupToolKind::Reserved,
    {
        Handler { kind: FollowupToolKind::Reserved }
    }
}

impl Handler {
    /// Which of the two tools it is.
    pub closed spec fn tool_kind(&self) -> FollowupToolKind {
        self.kind
    }

    /// The tool that reaches agents of external runtimes.
    pub fn new_external_runtime() -> (handler: Self)
        ensures
            handler.tool_kind() == FollowupToolKind::ExternalRuntime,
    {
        Handler { kind: FollowupToolKind::ExternalRuntime }
    }

    /// Which of the two tools it is.
    pub fn kind(&self) -> (kind: FollowupToolKind)
        ensures
            kind == self.tool_kind(),
    {
        self.kind
    }

    /// The name of the tool; both have the same.
    pub fn tool_name(&self) -> (name: &'static str)
        ensures
            name@ == "followup_task"@,
    {
        "followup_task"
    }

    /// The message that a call sends: it starts a turn of its target.
    pub fn handle_call(&self, target: String, message: String) -> (sent: FollowupMessage)
        ensures
            sent == (FollowupMessage {
                mode: MessageDeliveryMode::TriggerTurn,
                target_kind: reached_by(self.tool_kind()),
                target,
                message,
            }),
    {
        let target_kind = match self.kind {
            FollowupToolKind::Reserved => MessageTargetKind::Any,
            FollowupToolKind::ExternalRuntime => MessageTargetKind::ExternalRuntime,
        };
        FollowupMessage { mode: MessageDeliveryMode::TriggerTurn, target_kind, target, message }
    }

    /// Whether the tool takes a payload: it takes structured arguments.
    pub fn matches_kind(&self, payload: &ToolPayload) -> (taken: bool)
        ensures
            taken == (payload is Function),
    {
        match payload {
            ToolPayload::Function { .. } => true,
            ToolPayload::Custom { .. } => false,
        }
    }
}

} // verus!
