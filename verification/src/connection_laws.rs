//! What holds of the connection to the sidecar: frames, handshake, requests and sessions, and
//! how the sidecar is found and started.
use vstd::prelude::*;
use vstd::utf8::*;

use crate::agent_runtime::{
    invalid_runtime_id, is_runtime_id, is_runtime_id_char, AgentRuntimeErrorKind, ErrorView,
};
use crate::json::json_string_list;
use crate::numbering::{next_number, number_after};
use crate::pi_client::{
    after_message, already_registered, handshake_failure, is_delivery_of, is_request_of,
    request_failure, request_id_text, request_ids_are_distinct, with_request, with_session,
    without_request, without_session, ClientView, Delivery, RequestOutcome,
};
use crate::pi_config::{environment_config, process_arguments, ConfigView, VariableRead};
use crate::pi_connection::{
    announced_length, connect_failure, frame_header_bytes, frame_number, frame_too_long,
    step_failure, ConnectionStep, HeaderRead, ProcessState, MAX_FRAME_BYTES,
};
use crate::pi_proto::{Command, Envelope, Payload, ResponseResult, RuntimeResponse};
use crate::registry::{registered, registration_error, resolution, unknown_runtime};
use crate::text::decimal;

verus! {

/// A header is read from the highest byte to the lowest, and each of its bytes counts.
pub proof fn headers_are_read_from_the_highest_byte(header: Seq<u8>, other: Seq<u8>)
    requires
        header.len() == 4,
        other.len() == 4,
    ensures
        frame_number(header) == ((header[0] * 256 + header[1]) * 256 + header[2]) * 256
            + header[3],
        frame_number(header) == frame_number(other) ==> header == other,
{
    if frame_number(header) == frame_number(other) {
        let high = header[0] * 256 + header[1];
        let other_high = other[0] * 256 + other[1];
        lemma_last_byte(high * 256 + header[2], header[3], other_high * 256 + other[2], other[3]);
        lemma_last_byte(high, header[2], other_high, other[2]);
        lemma_last_byte(header[0] as int, header[1], other[0] as int, other[1]);
        assert(header =~= other);
    }
}

proof fn lemma_last_byte(high: int, low: u8, other_high: int, other_low: u8)
    requires
        high * 256 + low == other_high * 256 + other_low,
    ensures
        high == other_high,
        low == other_low,
{
}

/// The header of a message is the one header of four bytes that stands for its length.
pub proof fn headers_stand_for_the_length(length: nat)
    requires
        length <= MAX_FRAME_BYTES,
    ensures
        frame_header_bytes(length).len() == 4,
        frame_number(frame_header_bytes(length)) == length,
        MAX_FRAME_BYTES == 16 * 1024 * 1024,
        frame_too_long() == (ErrorView {
            kind: AgentRuntimeErrorKind::Protocol,
            message: "Pi runtime frame exceeds "@ + decimal(16777216) + " bytes"@,
        }),
{
}

/// What a header announces is its number, unless that is above the limit; the end of the
/// connection announces nothing; and a header that could not be read is a failure of the
/// connection.
pub proof fn headers_announce_their_number(read: HeaderRead)
    ensures
        match read {
            HeaderRead::EndOfStream => announced_length(read) == Ok::<Option<nat>, ErrorView>(None),
            HeaderRead::Failed(error) => announced_length(read) == Err::<Option<nat>, ErrorView>(
                ErrorView {
                    kind: AgentRuntimeErrorKind::Unavailable,
                    message: "failed to read Pi runtime frame length: "@ + error@,
                },
            ),
            HeaderRead::Header(header) => {
                let length = frame_number(header@);
                &&& length <= 16777216 ==> announced_length(read) == Ok::<Option<nat>, ErrorView>(
                    Some(length),
                )
                &&& length > 16777216 ==> announced_length(read) == Err::<Option<nat>, ErrorView>(
                    ErrorView {
                        kind: AgentRuntimeErrorKind::Protocol,
                        message: "Pi runtime frame length "@ + decimal(length) + " exceeds "@
                            + decimal(16777216),
                    },
                )
            },
        },
{
}

/// A step of the connection that fails says what failed and why. What cannot be read as a
/// message is a failure of the protocol; all else makes the sidecar unavailable.
pub proof fn failed_steps_say_what_failed(step: ConnectionStep, error: Seq<char>)
    ensures
        ({
            let failure = step_failure(step, error);
            &&& failure.kind == AgentRuntimeErrorKind::Protocol <==> step is Decode
            &&& failure.kind == AgentRuntimeErrorKind::Unavailable <==> !(step is Decode)
            &&& failure.message == match step {
                ConnectionStep::CreateSocketDirectory => {
                    "failed to create Pi runtime socket directory: "@ + error
                },
                ConnectionStep::Start { executable } => "failed to start Pi runtime executable "@
                    + executable@ + ": "@ + error,
                ConnectionStep::WriteLength => "failed to write Pi runtime frame length: "@ + error,
                ConnectionStep::WriteFrame => "failed to write Pi runtime frame: "@ + error,
                ConnectionStep::Flush => "failed to flush Pi runtime frame: "@ + error,
                ConnectionStep::ReadFrame => "failed to read Pi runtime frame: "@ + error,
                ConnectionStep::Decode => "failed to decode Pi runtime frame: "@ + error,
            }
        }),
{
}

/// A failed attempt to connect is made again exactly as long as the sidecar runs and there is
/// time. A sidecar that ended or cannot be looked at is given up at once, whatever time is left.
pub proof fn connecting_goes_on_while_there_is_hope(
    process: ProcessState,
    deadline_passed: bool,
    error: Seq<char>,
)
    ensures
        ({
            let failure = connect_failure(process, deadline_passed, error);
            &&& failure is None <==> process is Running && !deadline_passed
            &&& failure matches Some(given_up) ==> given_up.kind
                == AgentRuntimeErrorKind::Unavailable && given_up.message == match process {
                ProcessState::Running => "timed out connecting to Pi runtime socket: "@ + error,
                ProcessState::Exited(status) => "Pi runtime exited before opening its socket ("@
                    + status@ + ")"@,
                ProcessState::Unknown(reason) => "failed to inspect Pi runtime process: "@
                    + reason@,
            }
        }),
{
}

/// The handshake succeeds exactly where the sidecar answers it without a failure and picks the
/// version that the host speaks. A failure of the sidecar comes before a wrong version.
pub proof fn handshake_needs_the_version_of_the_host(envelope: Envelope)
    ensures
        handshake_failure(envelope) is None <==> (envelope.payload matches Some(
            Payload::HandshakeResponse(response),
        ) && response.error is None && response.selected_version == 2),
        handshake_failure(envelope) matches Some(failure) ==> failure.kind
            == AgentRuntimeErrorKind::Protocol && failure.message == match envelope.payload {
            Some(Payload::HandshakeResponse(response)) => match response.error {
                Some(error) => "Pi runtime handshake failed ("@ + error.code@ + "): "@
                    + error.message@,
                None => "Pi runtime selected protocol "@ + decimal(
                    response.selected_version as nat,
                ) + ", expected "@ + decimal(2),
            },
            _ => "expected Pi runtime handshake response"@,
        },
{
}

/// A request fails exactly where no response came, or one that reports a failure. Without a
/// response the sidecar is unavailable; a failure that it reports is one of the protocol, with
/// code and message.
pub proof fn requests_fail_without_a_good_response(request_id: Seq<char>, outcome: RequestOutcome)
    ensures
        match outcome {
            RequestOutcome::TimedOut => request_failure(request_id, outcome) == Some(
                ErrorView {
                    kind: AgentRuntimeErrorKind::Unavailable,
                    message: "timed out waiting for Pi runtime request "@ + request_id,
                },
            ),
            RequestOutcome::Closed => request_failure(request_id, outcome) == Some(
                ErrorView {
                    kind: AgentRuntimeErrorKind::Unavailable,
                    message: "Pi runtime connection closed before responding"@,
                },
            ),
            RequestOutcome::Response(response) => match response.result {
                Some(ResponseResult::Error(error)) => request_failure(request_id, outcome) == Some(
                    ErrorView {
                        kind: AgentRuntimeErrorKind::Protocol,
                        message: "Pi runtime request failed ("@ + error.code@ + "): "@
                            + error.message@,
                    },
                ),
                _ => request_failure(request_id, outcome) is None,
            },
        },
{
}

/// One thing that happens at the host's end of the connection.
pub enum ClientChange<R, E, H> {
    Began { waiter: R },
    /// A request was answered or given up.
    Ended { request_id: Seq<char> },
    Registered { session_id: Seq<char>, events: E, host_tools: H },
    Unregistered { session_id: Seq<char> },
}

/// The client after a number of changes.
pub open spec fn after_changes<R, E, H>(
    client: ClientView<R, E, H>,
    changes: Seq<ClientChange<R, E, H>>,
) -> ClientView<R, E, H>
    decreases changes.len(),
{
    if changes.len() == 0 {
        client
    } else {
        let earlier = after_changes(client, changes.drop_last());
        match changes.last() {
            ClientChange::Began { waiter } => with_request(earlier, waiter),
            ClientChange::Ended { request_id } => without_request(earlier, request_id),
            ClientChange::Registered { session_id, events, host_tools } => with_session(
                earlier,
                session_id,
                events,
                host_tools,
            ),
            ClientChange::Unregistered { session_id } => without_session(earlier, session_id),
        }
    }
}

/// How many requests began.
pub open spec fn requests_begun<R, E, H>(changes: Seq<ClientChange<R, E, H>>) -> nat
    decreases changes.len(),
{
    if changes.len() == 0 {
        0
    } else {
        requests_begun(changes.drop_last()) + match changes.last() {
            ClientChange::Began { .. } => 1nat,
            _ => 0nat,
        }
    }
}

/// Requests are numbered in the order in which they begin; nothing else takes a number.
pub proof fn requests_are_numbered_in_order<R, E, H>(
    client: ClientView<R, E, H>,
    changes: Seq<ClientChange<R, E, H>>,
)
    ensures
        after_changes(client, changes).next_request == number_after(
            client.next_request,
            requests_begun(changes),
        ),
    decreases changes.len(),
{
    if changes.len() > 0 {
        requests_are_numbered_in_order(client, changes.drop_last());
    }
}

/// The one who waits for a response waits, under the id of its request, until that request is
/// answered or given up, whatever else happens meanwhile, as long as not every number was handed
/// out again.
pub proof fn waiters_wait_for_their_own_response<R, E, H>(
    client: ClientView<R, E, H>,
    waiter: R,
    changes: Seq<ClientChange<R, E, H>>,
)
    requires
        requests_begun(changes) < 0x1_0000_0000_0000_0000 - 1,
        forall|i: int|
            0 <= i < changes.len() ==> !(#[trigger] changes[i] matches ClientChange::Ended {
                request_id,
            } && request_id == "pi-runtime-"@ + decimal(client.next_request as nat)),
    ensures
        ({
            let id = "pi-runtime-"@ + decimal(client.next_request as nat);
            let now = after_changes(with_request(client, waiter), changes);
            &&& now.pending.contains_key(id)
            &&& now.pending[id] == waiter
            &&& !without_request(now, id).pending.contains_key(id)
        }),
    decreases changes.len(),
{
    let begun = with_request(client, waiter);
    if changes.len() > 0 {
        let earlier = changes.drop_last();
        assert forall|i: int| 0 <= i < earlier.len() implies !(
        #[trigger] earlier[i] matches ClientChange::Ended { request_id } && request_id
            == "pi-runtime-"@ + decimal(client.next_request as nat)) by {
            assert(earlier[i] == changes[i]);
        }
        waiters_wait_for_their_own_response(client, waiter, earlier);
        let last = changes[changes.len() - 1];
        assert(!(last matches ClientChange::Ended { request_id } && request_id == "pi-runtime-"@
            + decimal(client.next_request as nat)));
        if let ClientChange::Began { .. } = last {
            requests_are_numbered_in_order(begun, earlier);
            let count = requests_begun(earlier);
            lemma_numbers_add(client.next_request, count);
            request_ids_are_distinct(client.next_request, 0, count + 1);
        }
    }
}

proof fn lemma_numbers_add(number: u64, count: nat)
    ensures
        number_after(next_number(number), count) == number_after(number, count + 1),
    decreases count,
{
    if count > 0 {
        lemma_numbers_add(number, (count - 1) as nat);
    } else {
        reveal_with_fuel(number_after, 3);
    }
}

/// A session that is registered takes its own events and tool requests. One that was registered
/// before gets the new taker of its events and keeps the old taker of its tool requests; the
/// registration is then refused by name.
pub proof fn sessions_take_what_is_theirs<R, E, H>(
    client: ClientView<R, E, H>,
    session_id: Seq<char>,
    events: E,
    host_tools: H,
)
    ensures
        ({
            let now = with_session(client, session_id, events, host_tools);
            let gone = without_session(now, session_id);
            &&& now.sessions.contains_key(session_id) && now.sessions[session_id] == events
            &&& !client.sessions.contains_key(session_id) ==> now.host_tools.contains_key(
                session_id,
            ) && now.host_tools[session_id] == host_tools
            &&& client.sessions.contains_key(session_id) ==> now.host_tools == client.host_tools
            &&& now.pending == client.pending
            &&& now.next_request == client.next_request
            &&& !gone.sessions.contains_key(session_id)
            &&& !gone.host_tools.contains_key(session_id)
            &&& gone.pending == client.pending
            &&& gone.next_request == client.next_request
        }),
        already_registered(session_id) == (ErrorView {
            kind: AgentRuntimeErrorKind::Protocol,
            message: "Pi runtime session already registered: "@ + session_id,
        }),
{
}

/// The environment describes a sidecar exactly where it names an executable. The executable may
/// not be empty, and its arguments have to be readable and a list of texts.
pub proof fn the_environment_names_the_executable(
    executable: Option<Seq<u8>>,
    arguments: VariableRead,
)
    ensures
        ({
            let found = environment_config(executable, arguments);
            let named = executable is Some && executable->0.len() > 0;
            &&& found == Ok::<Option<ConfigView>, ErrorView>(None) <==> executable is None
            &&& found is Err <==> executable is Some && (!named || (match arguments {
                VariableRead::Text(text) => json_string_list(text@) is Err,
                VariableRead::NotPresent => false,
                VariableRead::Failed(_) => true,
            }))
            &&& found matches Err(error) ==> error.kind == AgentRuntimeErrorKind::InvalidRuntimeId
                && error.message == if !named {
                "CODEX_PI_RUNTIME_EXECUTABLE"@ + " must not be empty"@
            } else {
                match arguments {
                    VariableRead::Text(text) => "failed to parse "@
                        + "CODEX_PI_RUNTIME_ARGUMENTS_JSON"@ + " as a JSON string array: "@
                        + json_string_list(text@)->Err_0,
                    VariableRead::Failed(reason) => "failed to read "@
                        + "CODEX_PI_RUNTIME_ARGUMENTS_JSON"@ + ": "@ + reason@,
                    VariableRead::NotPresent => Seq::empty(),
                }
            }
        }),
{
}

/// A sidecar that the environment describes is started as it says: the executable it names, with
/// the texts it lists as arguments, each in its place, with no variable of its own, and with the
/// timeouts of production.
pub proof fn the_sidecar_is_started_as_described(
    executable: Seq<u8>,
    arguments: VariableRead,
)
    requires
        environment_config(Some(executable), arguments) is Ok,
    ensures
        ({
            let found = environment_config(Some(executable), arguments)->Ok_0;
            let config = found->0;
            &&& found is Some
            &&& config.executable == executable
            &&& config.environment.dom().is_empty()
            &&& config.startup_timeout.secs == 10 && config.startup_timeout.subsec_nanos == 0
            &&& config.request_timeout.secs == 30 && config.request_timeout.subsec_nanos == 0
            &&& match arguments {
                VariableRead::Text(text) => {
                    let listed = json_string_list(text@)->Ok_0;
                    &&& config.arguments.len() == listed.len()
                    &&& forall|i: int|
                        0 <= i < listed.len() ==> #[trigger] config.arguments[i] == encode_utf8(
                            listed[i],
                        )
                },
                _ => config.arguments.len() == 0,
            }
        }),
{
    assert(environment_config(Some(executable), arguments)->Ok_0->0.environment.dom()
        =~= Set::empty());
}

/// A registration fails exactly for the built-in id and for one that is taken. Both are
/// duplicates, and the failure names the id; so does the failure to find one.
pub proof fn failed_registrations_name_the_id<P>(providers: Map<Seq<char>, P>, id: Seq<char>)
    ensures
        registration_error(providers, id) is Some <==> id == "codex"@ || providers.contains_key(id),
        registration_error(providers, id) matches Some(error) ==> error.kind
            == AgentRuntimeErrorKind::DuplicateRuntime && error.message == if id == "codex"@ {
            "agent runtime `codex` is reserved for the built-in provider"@
        } else {
            "agent runtime `"@ + id + "` is already registered"@
        },
        resolution(providers, id) is Err <==> id != "codex"@ && !providers.contains_key(id),
        unknown_runtime(id) == (ErrorView {
            kind: AgentRuntimeErrorKind::UnknownRuntime,
            message: "unknown agent runtime `"@ + id + "`"@,
        }),
{
}

/// The providers after registrations one after the other.
pub open spec fn after_registrations<P>(registrations: Seq<(Seq<char>, P)>) -> Map<Seq<char>, P>
    decreases registrations.len(),
{
    if registrations.len() == 0 {
        Map::empty()
    } else {
        registered(
            after_registrations(registrations.drop_last()),
            registrations.last().0,
            registrations.last().1,
        )
    }
}

/// An id resolves to the provider that was first registered under it, whatever was registered
/// before and after.
pub proof fn first_registration_wins<P>(registrations: Seq<(Seq<char>, P)>, first: int)
    requires
        0 <= first < registrations.len(),
        registrations[first].0 != "codex"@,
        forall|i: int|
            0 <= i < first ==> (#[trigger] registrations[i]).0 != registrations[first].0,
    ensures
        resolution(after_registrations(registrations), registrations[first].0) == Ok::<
            Option<P>,
            ErrorView,
        >(Some(registrations[first].1)),
    decreases registrations.len(),
{
    let earlier = registrations.drop_last();
    if first == registrations.len() - 1 {
        assert forall|i: int| 0 <= i < earlier.len() implies (#[trigger] earlier[i]).0
            != registrations[first].0 by {
            assert(earlier[i] == registrations[i]);
        }
        lemma_nothing_under(earlier, registrations[first].0);
    } else {
        assert(earlier[first] == registrations[first]);
        assert forall|i: int| 0 <= i < first implies (#[trigger] earlier[i]).0
            != earlier[first].0 by {
            assert(earlier[i] == registrations[i]);
        }
        first_registration_wins(earlier, first);
    }
}

proof fn lemma_nothing_under<P>(registrations: Seq<(Seq<char>, P)>, id: Seq<char>)
    requires
        forall|i: int| 0 <= i < registrations.len() ==> (#[trigger] registrations[i]).0 != id,
    ensures
        !after_registrations(registrations).contains_key(id),
    decreases registrations.len(),
{
    if registrations.len() > 0 {
        let earlier = registrations.drop_last();
        assert forall|i: int| 0 <= i < earlier.len() implies (#[trigger] earlier[i]).0 != id by {
            assert(earlier[i] == registrations[i]);
        }
        lemma_nothing_under(earlier, id);
        assert(registrations[registrations.len() - 1].0 != id);
    }
}

/// An id is made of small ASCII letters, digits, hyphens, underscores and dots, at least one of
/// them. A text that is none is refused in full.
pub proof fn ids_are_made_of_id_characters(text: Seq<char>)
    ensures
        is_runtime_id(text) <==> text.len() > 0 && forall|i: int|
            0 <= i < text.len() ==> is_id_code(#[trigger] text[i] as int),
        invalid_runtime_id(text) == (ErrorView {
            kind: AgentRuntimeErrorKind::InvalidRuntimeId,
            message: "invalid agent runtime id `"@ + text
                + "`; expected lowercase ASCII letters, digits, dots, hyphens, or underscores"@,
        }),
{
    if is_runtime_id(text) {
        assert forall|i: int| 0 <= i < text.len() implies is_id_code(
            #[trigger] text[i] as int,
        ) by {
            assert(is_runtime_id_char(text[i]));
        }
    }
    if text.len() > 0 && forall|i: int|
        0 <= i < text.len() ==> is_id_code(#[trigger] text[i] as int) {
        assert forall|i: int| 0 <= i < text.len() implies is_runtime_id_char(
            #[trigger] text[i],
        ) by {
            assert(is_id_code(text[i] as int));
        }
    }
}

/// The ASCII codes of the characters that an id is made of.
pub open spec fn is_id_code(code: int) -> bool {
    0x61 <= code <= 0x7a || 0x30 <= code <= 0x39 || code == 0x2d || code == 0x5f || code == 0x2e
}

/// The id of a request is named after its number.
pub proof fn requests_are_named_after_their_number<R, E, H>(
    client: ClientView<R, E, H>,
    waiter: R,
)
    ensures
        request_id_text(client.next_request) == "pi-runtime-"@ + decimal(
            client.next_request as nat,
        ),
        with_request(client, waiter).next_request == next_number(client.next_request),
        with_request(client, waiter).sessions == client.sessions,
        with_request(client, waiter).host_tools == client.host_tools,
{
}

/// A command goes to its session, in the version that the host speaks, and the response that
/// bears the id of the request goes to the one who waits for it, whole and once.
pub proof fn responses_reach_their_waiter<R, E: Clone, H: Clone>(
    client: ClientView<R, E, H>,
    waiter: R,
    request: (String, Envelope),
    session_id: Seq<char>,
    command: Command,
    answer: Envelope,
    response: RuntimeResponse,
    delivery: Delivery<R, E, H>,
)
    requires
        request.0@ == request_id_text(client.next_request),
        is_request_of(request.1, request.0, session_id, command),
        answer.payload == Some(Payload::Response(response)),
        response.request_id@ == request.1.payload->0->Request_0.request_id@,
        is_delivery_of(delivery, with_request(client, waiter), answer),
    ensures
        request.1.protocol_version == 2,
        request.1.payload->0->Request_0.session_id@ == session_id,
        request.1.payload->0->Request_0.command == Some(command),
        delivery == Delivery::<R, E, H>::Response(waiter, response),
        ({
            let after = after_message(with_request(client, waiter), answer);
            &&& !after.pending.contains_key(response.request_id@)
            &&& after.sessions == client.sessions
            &&& after.host_tools == client.host_tools
        }),
        forall|again: Delivery<R, E, H>|
            #[trigger] is_delivery_of(
                again,
                after_message(with_request(client, waiter), answer),
                answer,
            ) ==> again is Dropped,
{
}

/// An event of a session goes whole to the one who takes the events of that session, and a tool
/// request of it to the one who takes its tool requests; once the session is unregistered, to
/// nobody. Neither changes who waits for what.
pub proof fn messages_reach_their_session<R, E: Clone, H: Clone>(
    client: ClientView<R, E, H>,
    session_id: Seq<char>,
    events: E,
    host_tools: H,
    message: Envelope,
    delivery: Delivery<R, E, H>,
    late: Delivery<R, E, H>,
)
    requires
        !client.sessions.contains_key(session_id),
        message.payload matches Some(Payload::Event(event)) ==> event.session_id@ == session_id,
        message.payload matches Some(Payload::HostToolRequest(request)) ==> request.session_id@
            == session_id,
        is_delivery_of(
            delivery,
            with_session(client, session_id, events, host_tools),
            message,
        ),
        is_delivery_of(
            late,
            without_session(
                with_session(client, session_id, events, host_tools),
                session_id,
            ),
            message,
        ),
    ensures
        message.payload matches Some(Payload::Event(event)) ==> {
            &&& delivery matches Delivery::Event(taker, delivered) && delivered == event && cloned(
                events,
                taker,
            )
            &&& late is Dropped
        },
        message.payload matches Some(Payload::HostToolRequest(request)) ==> {
            &&& delivery matches Delivery::HostToolRequest(taker, delivered) && delivered
                == request && cloned(host_tools, taker)
            &&& late is Dropped
        },
        !(message.payload matches Some(Payload::Response(_))) ==> after_message(client, message)
            == client,
{
}

/// A message is delivered exactly where somebody waits for it: for the response, for the events
/// of the session, or for its tool requests. What only the host sends is unexpected from the
/// sidecar.
pub proof fn messages_are_delivered_to_those_who_wait<R, E: Clone, H: Clone>(
    client: ClientView<R, E, H>,
    message: Envelope,
    delivery: Delivery<R, E, H>,
)
    requires
        is_delivery_of(delivery, client, message),
    ensures
        delivery is Unexpected <==> !(message.payload matches Some(Payload::Response(_))) && !(
        message.payload matches Some(Payload::Event(_))) && !(message.payload matches Some(
            Payload::HostToolRequest(_),
        )),
        delivery is Response <==> (message.payload matches Some(Payload::Response(response))
            && client.pending.contains_key(response.request_id@)),
        delivery is Event <==> (message.payload matches Some(Payload::Event(event))
            && client.sessions.contains_key(event.session_id@)),
        delivery is HostToolRequest <==> (message.payload matches Some(
            Payload::HostToolRequest(request),
        ) && client.host_tools.contains_key(request.session_id@)),
{
}

/// The process gets the arguments of the configuration in their order, and then, as the last
/// two, the option and the path of the socket.
pub proof fn the_socket_comes_last(config: ConfigView, socket_path: Seq<u8>)
    ensures
        ({
            let arguments = process_arguments(config, socket_path);
            &&& arguments.len() == config.arguments.len() + 2
            &&& arguments.take(config.arguments.len() as int) == config.arguments
            &&& arguments[arguments.len() - 2] == encode_utf8("--socket"@)
            &&& arguments.last() == socket_path
        }),
{
    let arguments = process_arguments(config, socket_path);
    assert(arguments.take(config.arguments.len() as int) =~= config.arguments);
}

} // verus!
