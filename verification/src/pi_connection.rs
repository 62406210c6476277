//! How the connection to the sidecar comes about, and how messages are framed on it.
//!
//! A frame is the length of a message, as four bytes with the highest first, followed by the
//! message.
use vstd::prelude::*;
use vstd::string::*;

use crate::agent_runtime::{AgentRuntimeError, ErrorView};
use crate::pi_client::{unavailability, unavailable};
use crate::pi_operations::protocol_failure;
use crate::pi_session::protocol_error;
use crate::text::{decimal, decimal_text};

verus! {

/// The longest message that travels over the connection.
pub const MAX_FRAME_BYTES: usize = 16 * 1024 * 1024;

/// How long to wait before the next attempt to connect.
pub const CONNECT_RETRY_MS: u64 = 25;

/// The number that four bytes stand for, the highest first.
pub open spec fn frame_number(header: Seq<u8>) -> nat {
    (header[0] as nat) * 0x1000000 + (header[1] as nat) * 0x10000 + (header[2] as nat) * 0x100 + (
    header[3] as nat)
}

/// The four bytes of a number, the highest first.
pub open spec fn frame_header_bytes(length: nat) -> Seq<u8> {
    seq![
        (length / 0x1000000 % 0x100) as u8,
        (length / 0x10000 % 0x100) as u8,
        (length / 0x100 % 0x100) as u8,
        (length % 0x100) as u8,
    ]
}

/// The failure that answers a message that is too long to be sent.
pub open spec fn frame_too_long() -> ErrorView {
    protocol_failure("Pi runtime frame exceeds "@ + decimal(MAX_FRAME_BYTES as nat) + " bytes"@)
}

/// The header of the frame around a message. A message above the limit gets none.
pub fn frame_header(message: &Vec<u8>) -> (header: Result<[u8; 4], AgentRuntimeError>)
    ensures
        header is Ok == (message@.len() <= MAX_FRAME_BYTES),
        header matches Ok(bytes) ==> bytes@ == frame_header_bytes(message@.len()),
        header matches Err(error) ==> error.deep_view() == frame_too_long(),
{
    if message.len() > MAX_FRAME_BYTES {
        let mut text = "Pi runtime frame exceeds ".to_owned();
        text.append(decimal_text(MAX_FRAME_BYTES as u64).as_str());
        text.append(" bytes");
        return Err(protocol_error(text));
    }
    let length: usize = message.len();
    let header: [u8; 4] = [
        (length / 0x1000000 % 0x100) as u8,
        (length / 0x10000 % 0x100) as u8,
        (length / 0x100 % 0x100) as u8,
        (length % 0x100) as u8,
    ];
    assert(header@ =~= frame_header_bytes(message@.len()));
    Ok(header)
}

/// What came of reading the header of a frame.
pub enum HeaderRead {
    Header([u8; 4]),
    /// The connection ended before a whole header came.
    EndOfStream,
    /// Reading failed, with a message.
    Failed(String),
}

/// The length that a header announces, `None` at the end of the connection, or what is wrong.
pub open spec fn announced_length(read: HeaderRead) -> Result<Option<nat>, ErrorView> {
    match read {
        HeaderRead::EndOfStream => Ok(None),
        HeaderRead::Failed(error) => Err(
            unavailability("failed to read Pi runtime frame length: "@ + error@),
        ),
        HeaderRead::Header(header) => {
            let length = frame_number(header@);
            if length > MAX_FRAME_BYTES {
                Err(
                    protocol_failure(
                        "Pi runtime frame length "@ + decimal(length) + " exceeds "@ + decimal(
                            MAX_FRAME_BYTES as nat,
                        ),
                    ),
                )
            } else {
                Ok(Some(length))
            }
        },
    }
}

/// Takes in the header of a frame: the length of the message that follows, or `None` where the
/// connection ended.
pub fn frame_length(read: HeaderRead) -> (length: Result<Option<usize>, AgentRuntimeError>)
    ensures
        match length {
            Ok(Some(bytes)) => announced_length(read) == Ok::<Option<nat>, ErrorView>(
                Some(bytes as nat),
            ),
            Ok(None) => announced_length(read) == Ok::<Option<nat>, ErrorView>(None),
            Err(error) => announced_length(read) == Err::<Option<nat>, ErrorView>(
                error.deep_view(),
            ),
        },
{
    match read {
        HeaderRead::EndOfStream => Ok(None),
        HeaderRead::Failed(error) => {
            let mut message = "failed to read Pi runtime frame length: ".to_owned();
            message.append(error.as_str());
            Err(unavailable(message))
        },
        HeaderRead::Header(header) => {
            let length: u64 = (header[0] as u64) * 0x1000000 + (header[1] as u64) * 0x10000 + (
            header[2] as u64) * 0x100 + (header[3] as u64);
            if length > MAX_FRAME_BYTES as u64 {
                let mut message = "Pi runtime frame length ".to_owned();
                message.append(decimal_text(length).as_str());
                message.append(" exceeds ");
                message.append(decimal_text(MAX_FRAME_BYTES as u64).as_str());
                return Err(protocol_error(message));
            }
            Ok(Some(length as usize))
        },
    }
}

/// A step of the connection that can fail.
pub enum ConnectionStep {
    CreateSocketDirectory,
    /// Starting the executable, given by its path as it is shown.
    Start { executable: String },
    WriteLength,
    WriteFrame,
    Flush,
    ReadFrame,
    /// Reading the message out of the bytes of a frame.
    Decode,
}

/// The failure of a step.
pub open spec fn step_failure(step: ConnectionStep, error: Seq<char>) -> ErrorView {
    match step {
        ConnectionStep::CreateSocketDirectory => unavailability(
            "failed to create Pi runtime socket directory: "@ + error,
        ),
        ConnectionStep::Start { executable } => unavailability(
            "failed to start Pi runtime executable "@ + executable@ + ": "@ + error,
        ),
        ConnectionStep::WriteLength => unavailability(
            "failed to write Pi runtime frame length: "@ + error,
        ),
        ConnectionStep::WriteFrame => unavailability(
            "failed to write Pi runtime frame: "@ + error,
        ),
        ConnectionStep::Flush => unavailability("failed to flush Pi runtime frame: "@ + error),
        ConnectionStep::ReadFrame => unavailability("failed to read Pi runtime frame: "@ + error),
        ConnectionStep::Decode => protocol_failure(
            "failed to decode Pi runtime frame: "@ + error,
        ),
    }
}

/// The failure of a step, for what the system says of it.
pub fn connection_error(step: ConnectionStep, error: &str) -> (failure: AgentRuntimeError)
    ensures
        failure.deep_view() == step_failure(step, error@),
{
    match step {
        ConnectionStep::CreateSocketDirectory => {
            let mut message = "failed to create Pi runtime socket directory: ".to_owned();
            message.append(error);
            unavailable(message)
        },
        ConnectionStep::Start { executable } => {
            let mut message = "failed to start Pi runtime executable ".to_owned();
            message.append(executable.as_str());
            message.append(": ");
            message.append(error);
            unavailable(message)
        },
        ConnectionStep::WriteLength => {
            let mut message = "failed to write Pi runtime frame length: ".to_owned();
            message.append(error);
            unavailable(message)
        },
        ConnectionStep::WriteFrame => {
            let mut message = "failed to write Pi runtime frame: ".to_owned();
            message.append(error);
            unavailable(message)
        },
        ConnectionStep::Flush => {
            let mut message = "failed to flush Pi runtime frame: ".to_owned();
            message.append(error);
            unavailable(message)
        },
        ConnectionStep::ReadFrame => {
            let mut message = "failed to read Pi runtime frame: ".to_owned();
            message.append(error);
            unavailable(message)
        },
        ConnectionStep::Decode => {
            let mut message = "failed to decode Pi runtime frame: ".to_owned();
            message.append(error);
            protocol_error(message)
        },
    }
}

/// What is known of the process of the sidecar.
pub enum ProcessState {
    Running,
    /// The process ended, with its status as it is shown.
    Exited(String),
    /// The state could not be found out, with a message.
    Unknown(String),
}

/// The failure that an attempt to connect ends in, where no further one is made.
pub open spec fn connect_failure(
    process: ProcessState,
    deadline_passed: bool,
    connect_error: Seq<char>,
) -> Option<ErrorView> {
    match process {
        ProcessState::Unknown(error) => Some(
            unavailability("failed to inspect Pi runtime process: "@ + error@),
        ),
        ProcessState::Exited(status) => Some(
            unavailability("Pi runtime exited before opening its socket ("@ + status@ + ")"@),
        ),
        ProcessState::Running => if deadline_passed {
            Some(unavailability("timed out connecting to Pi runtime socket: "@ + connect_error))
        } else {
            None
        },
    }
}

/// Takes in a failed attempt to connect: how many milliseconds to wait before the next one, as
/// long as the process runs and the deadline has not passed.
pub fn connect_when_ready(
    process: ProcessState,
    deadline_passed: bool,
    connect_error: &str,
) -> (retry: Result<u64, AgentRuntimeError>)
    ensures
        match retry {
            Ok(delay) => delay == CONNECT_RETRY_MS && connect_failure(
                process,
                deadline_passed,
                connect_error@,
            ) is None,
            Err(error) => connect_failure(process, deadline_passed, connect_error@) == Some(
                error.deep_view(),
            ),
        },
{
    match process {
        ProcessState::Unknown(error) => {
            let mut message = "failed to inspect Pi runtime process: ".to_owned();
            message.append(error.as_str());
            Err(unavailable(message))
        },
        ProcessState::Exited(status) => {
            let mut message = "Pi runtime exited before opening its socket (".to_owned();
            message.append(status.as_str());
            message.append(")");
            Err(unavailable(message))
        },
        ProcessState::Running => {
            if deadline_passed {
                let mut message = "timed out connecting to Pi runtime socket: ".to_owned();
                message.append(connect_error);
                return Err(unavailable(message));
            }
            Ok(CONNECT_RETRY_MS)
        },
    }
}

/// A header announces exactly the length that it was made for.
pub proof fn frame_header_announces_its_length(length: nat, header: [u8; 4])
    requires
        length <= MAX_FRAME_BYTES,
        header@ == frame_header_bytes(length),
    ensures
        announced_length(HeaderRead::Header(header)) == Ok::<Option<nat>, ErrorView>(Some(length)),
{
}

/// Every message that may be sent may be received and the other way round: a header with a
/// length above the limit is refused.
pub proof fn frame_limit_holds_both_ways(header: [u8; 4])
    ensures
        announced_length(HeaderRead::Header(header)) is Ok == (frame_number(header@)
            <= MAX_FRAME_BYTES),
{
}

} // verus!
