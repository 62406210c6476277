//! The host's end of the connection to the sidecar.
//!
//! A client keeps who waits for what: responses by request id, events and tool requests by
//! session id. The connection itself, and what the waiting ends are, is left to the caller.
use vstd::prelude::*;
use vstd::string::*;

use crate::agent_runtime::{AgentRuntimeError, AgentRuntimeErrorKind, ErrorView};
use crate::numbering::{next_number, number_after, numbers_do_not_repeat};
use crate::pi_operations::protocol_failure;
use crate::pi_proto::{
    Command, Envelope, HandshakeRequest, HostToolRequest, HostToolResult, Payload, ResponseResult,
    RuntimeRequest, RuntimeResponse, SessionEvent,
};
use crate::pi_session::protocol_error;
use crate::text::{decimal, decimal_is_injective, decimal_text};
use crate::text_map::TextMap;

verus! {

/// The version of the protocol that the host speaks.
pub const PROTOCOL_VERSION: u32 = 2;

/// The client that a provider has launched, if any.
pub struct ClientSlot<C> {
    client: Option<C>,
}

impl<C> View for ClientSlot<C> {
    type V = Option<C>;

    closed spec fn view(&self) -> Option<C> {
        self.client
    }
}

/// How a provider comes by its client.
pub enum ClientStep<'a, C> {
    /// The client that was launched before is used again.
    Reuse(&'a C),
    /// A client is launched.
    Launch,
}

/// How a provider comes by its client: it launches one where it has none.
pub open spec fn client_step<'a, C>(slot: Option<C>) -> ClientStep<'a, C> {
    match slot {
        Some(client) => ClientStep::Reuse(&client),
        None => ClientStep::Launch,
    }
}

/// What a provider has after an attempt to launch a client: the client, or after a failure what
/// it had.
pub open spec fn after_launch<C>(
    slot: Option<C>,
    outcome: Result<C, AgentRuntimeError>,
) -> Option<C> {
    match outcome {
        Ok(client) => Some(client),
        Err(_) => slot,
    }
}

impl<C> ClientSlot<C> {
    /// No client was launched yet.
    pub fn new() -> (slot: Self)
        ensures
            slot@ is None,
    {
        ClientSlot { client: None }
    }

    /// How the provider comes by its client.
    pub fn step<'a>(&'a self) -> (step: ClientStep<'a, C>)
        ensures
            step == client_step(self@),
    {
        match &self.client {
            Some(client) => ClientStep::Reuse(client),
            None => ClientStep::Launch,
        }
    }

    /// Takes in what came of an attempt to launch a client, and hands the client out.
    pub fn finish_launch(&mut self, outcome: Result<C, AgentRuntimeError>) -> (client: Result<
        &C,
        AgentRuntimeError,
    >)
        ensures
            final(self)@ == after_launch(old(self)@, outcome),
            match (outcome, client) {
                (Ok(launched), Ok(found)) => *found == launched,
                (Err(failure), Err(error)) => error == failure,
                _ => false,
            },
    {
        match outcome {
            Ok(launched) => Ok(self.client.insert(launched)),
            Err(error) => Err(error),
        }
    }
}

/// A failure to reach the sidecar.
pub open spec fn unavailability(message: Seq<char>) -> ErrorView {
    ErrorView { kind: AgentRuntimeErrorKind::Unavailable, message }
}

/// A failure to reach the sidecar.
pub fn unavailable(message: String) -> (error: AgentRuntimeError)
    ensures
        error.deep_view() == unavailability(message@),
{
    AgentRuntimeError::new(AgentRuntimeErrorKind::Unavailable, message)
}

/// Who waits for what.
#[verifier::ext_equal]
pub struct ClientView<R, E, H> {
    /// Those who wait for a response, by request id.
    pub pending: Map<Seq<char>, R>,
    /// Those who take the events of a session.
    pub sessions: Map<Seq<char>, E>,
    /// Those who take the tool requests of a session.
    pub host_tools: Map<Seq<char>, H>,
    /// The number of the next request.
    pub next_request: u64,
}

/// The host's end of the connection.
pub struct PiRuntimeClient<R, E, H> {
    pending: TextMap<R>,
    sessions: TextMap<E>,
    host_tools: TextMap<H>,
    next_request_id: u64,
}

impl<R, E, H> View for PiRuntimeClient<R, E, H> {
    type V = ClientView<R, E, H>;

    closed spec fn view(&self) -> ClientView<R, E, H> {
        ClientView {
            pending: self.pending@,
            sessions: self.sessions@,
            host_tools: self.host_tools@,
            next_request: self.next_request_id,
        }
    }
}

/// The id of a request.
pub open spec fn request_id_text(number: u64) -> Seq<char> {
    "pi-runtime-"@ + decimal(number as nat)
}

/// The failure that answers the registration of a session that is registered.
pub open spec fn already_registered(session_id: Seq<char>) -> ErrorView {
    protocol_failure("Pi runtime session already registered: "@ + session_id)
}

/// The client after a session was registered. A session that was registered before keeps who
/// takes its tool requests; its events go to the new one.
pub open spec fn with_session<R, E, H>(
    client: ClientView<R, E, H>,
    session_id: Seq<char>,
    events: E,
    host_tools: H,
) -> ClientView<R, E, H> {
    ClientView {
        sessions: client.sessions.insert(session_id, events),
        host_tools: if client.sessions.contains_key(session_id) {
            client.host_tools
        } else {
            client.host_tools.insert(session_id, host_tools)
        },
        ..client
    }
}

/// The client after a session was unregistered.
pub open spec fn without_session<R, E, H>(
    client: ClientView<R, E, H>,
    session_id: Seq<char>,
) -> ClientView<R, E, H> {
    ClientView {
        sessions: client.sessions.remove(session_id),
        host_tools: client.host_tools.remove(session_id),
        ..client
    }
}

/// The client after a request began.
pub open spec fn with_request<R, E, H>(client: ClientView<R, E, H>, waiter: R) -> ClientView<
    R,
    E,
    H,
> {
    ClientView {
        pending: client.pending.insert(request_id_text(client.next_request), waiter),
        next_request: next_number(client.next_request),
        ..client
    }
}

/// The client after nobody waits for the response to a request any more.
pub open spec fn without_request<R, E, H>(
    client: ClientView<R, E, H>,
    request_id: Seq<char>,
) -> ClientView<R, E, H> {
    ClientView { pending: client.pending.remove(request_id), ..client }
}

/// What came of a request that was sent.
pub enum RequestOutcome {
    Response(RuntimeResponse),
    /// No response came in time.
    TimedOut,
    /// The connection was closed before a response came.
    Closed,
}

/// The failure that a request ends in, where it fails.
pub open spec fn request_failure(request_id: Seq<char>, outcome: RequestOutcome) -> Option<
    ErrorView,
> {
    match outcome {
        RequestOutcome::TimedOut => Some(
            unavailability("timed out waiting for Pi runtime request "@ + request_id),
        ),
        RequestOutcome::Closed => Some(
            unavailability("Pi runtime connection closed before responding"@),
        ),
        RequestOutcome::Response(response) => match response.result {
            Some(ResponseResult::Error(error)) => Some(
                protocol_failure(
                    "Pi runtime request failed ("@ + error.code@ + "): "@ + error.message@,
                ),
            ),
            _ => None,
        },
    }
}

/// What is to be done with a message from the sidecar.
pub enum Delivery<R, E, H> {
    Response(R, RuntimeResponse),
    Event(E, SessionEvent),
    HostToolRequest(H, HostToolRequest),
    /// Nobody waits for the message.
    Dropped,
    /// The sidecar does not send such messages.
    Unexpected,
}

/// The client after a message from the sidecar: nobody waits for a response that came.
pub open spec fn after_message<R, E, H>(
    client: ClientView<R, E, H>,
    envelope: Envelope,
) -> ClientView<R, E, H> {
    match envelope.payload {
        Some(Payload::Response(response)) => without_request(client, response.request_id@),
        _ => client,
    }
}

/// Whether a delivery is what is to be done with a message from the sidecar: it goes, whole, to
/// whoever waits for it.
pub open spec fn is_delivery_of<R, E: Clone, H: Clone>(
    delivery: Delivery<R, E, H>,
    client: ClientView<R, E, H>,
    envelope: Envelope,
) -> bool {
    match envelope.payload {
        Some(Payload::Response(response)) => {
            let id = response.request_id@;
            if client.pending.contains_key(id) {
                delivery == Delivery::<R, E, H>::Response(client.pending[id], response)
            } else {
                delivery is Dropped
            }
        },
        Some(Payload::Event(event)) => {
            let id = event.session_id@;
            if client.sessions.contains_key(id) {
                delivery matches Delivery::Event(taker, delivered) && delivered == event && cloned(
                    client.sessions[id],
                    taker,
                )
            } else {
                delivery is Dropped
            }
        },
        Some(Payload::HostToolRequest(request)) => {
            let id = request.session_id@;
            if client.host_tools.contains_key(id) {
                delivery matches Delivery::HostToolRequest(taker, delivered) && delivered
                    == request && cloned(client.host_tools[id], taker)
            } else {
                delivery is Dropped
            }
        },
        _ => delivery is Unexpected,
    }
}

/// Whether a message carries a command to a session, under an id.
pub open spec fn is_request_of(
    envelope: Envelope,
    request_id: String,
    session_id: Seq<char>,
    command: Command,
) -> bool {
    &&& envelope.protocol_version == PROTOCOL_VERSION
    &&& envelope.payload matches Some(Payload::Request(sent)) && sent.request_id == request_id
        && sent.session_id@ == session_id && sent.command == Some(command)
}

impl<R, E: Clone, H: Clone> PiRuntimeClient<R, E, H> {
    /// Each waiting end stands under one id.
    pub closed spec fn wf(&self) -> bool {
        self.pending.wf() && self.sessions.wf() && self.host_tools.wf()
    }

    /// A client for which nobody waits.
    pub fn new() -> (client: Self)
        ensures
            client.wf(),
            client@ == (ClientView::<R, E, H> {
                pending: Map::empty(),
                sessions: Map::empty(),
                host_tools: Map::empty(),
                next_request: 0,
            }),
    {
        PiRuntimeClient {
            pending: TextMap::new(),
            sessions: TextMap::new(),
            host_tools: TextMap::new(),
            next_request_id: 0,
        }
    }

    /// Registers who takes the events and the tool requests of a session.
    pub fn register_session(&mut self, session_id: &str, events: E, host_tools: H) -> (outcome:
        Result<(), AgentRuntimeError>)
        requires
            old(self).wf(),
        ensures
            final(self).wf(),
            final(self)@ == with_session(old(self)@, session_id@, events, host_tools),
            outcome is Ok == !old(self)@.sessions.contains_key(session_id@),
            outcome matches Err(error) ==> error.deep_view() == already_registered(session_id@),
    {
        if self.sessions.insert(session_id.to_owned(), events).is_some() {
            let mut message = "Pi runtime session already registered: ".to_owned();
            message.append(session_id);
            return Err(protocol_error(message));
        }
        self.host_tools.insert(session_id.to_owned(), host_tools);
        Ok(())
    }

    /// Forgets who takes the events and the tool requests of a session.
    pub fn unregister_session(&mut self, session_id: &str)
        requires
            old(self).wf(),
        ensures
            final(self).wf(),
            final(self)@ == without_session(old(self)@, session_id@),
    {
        self.sessions.remove(session_id);
        self.host_tools.remove(session_id);
    }

    /// Begins a request: its id and the message that carries it.
    pub fn begin_request(&mut self, session_id: &str, command: Command, waiter: R) -> (request: (
        String,
        Envelope,
    ))
        requires
            old(self).wf(),
        ensures
            final(self).wf(),
            final(self)@ == with_request(old(self)@, waiter),
            request.0@ == request_id_text(old(self)@.next_request),
            is_request_of(request.1, request.0, session_id@, command),
    {
        let number: u64 = self.next_request_id;
        let mut request_id = "pi-runtime-".to_owned();
        request_id.append(decimal_text(number).as_str());
        self.next_request_id = number.wrapping_add(1);
        self.pending.insert(request_id.clone(), waiter);
        let request = RuntimeRequest {
            request_id: request_id.clone(),
            session_id: session_id.to_owned(),
            command: Some(command),
        };
        let envelope = Envelope {
            protocol_version: PROTOCOL_VERSION,
            payload: Some(Payload::Request(request)),
        };
        (request_id, envelope)
    }

    /// Gives up a request that could not be sent.
    pub fn abandon_request(&mut self, request_id: &str)
        requires
            old(self).wf(),
        ensures
            final(self).wf(),
            final(self)@ == without_request(old(self)@, request_id@),
    {
        self.pending.remove(request_id);
    }

    /// Takes in a message from the sidecar and finds who waits for it. A response goes to one
    /// who waits, once; events and tool requests go to whoever takes those of their session.
    pub fn dispatch(&mut self, envelope: Envelope) -> (delivery: Delivery<R, E, H>)
        requires
            old(self).wf(),
        ensures
            final(self).wf(),
            final(self)@ == after_message(old(self)@, envelope),
            is_delivery_of(delivery, old(self)@, envelope),
    {
        match envelope.payload {
            Some(Payload::Response(response)) => {
                match self.pending.remove(response.request_id.as_str()) {
                    Some(waiter) => Delivery::Response(waiter, response),
                    None => Delivery::Dropped,
                }
            },
            Some(Payload::Event(event)) => match self.sessions.get(event.session_id.as_str()) {
                Some(taker) => Delivery::Event(taker.clone(), event),
                None => Delivery::Dropped,
            },
            Some(Payload::HostToolRequest(request)) => {
                match self.host_tools.get(request.session_id.as_str()) {
                    Some(taker) => Delivery::HostToolRequest(taker.clone(), request),
                    None => Delivery::Dropped,
                }
            },
            _ => Delivery::Unexpected,
        }
    }

    /// Forgets everyone who waits; the connection is closed.
    pub fn close(&mut self)
        requires
            old(self).wf(),
        ensures
            final(self).wf(),
            final(self)@ == (ClientView::<R, E, H> {
                pending: Map::empty(),
                sessions: Map::empty(),
                host_tools: Map::empty(),
                next_request: old(self)@.next_request,
            }),
    {
        self.pending.clear();
        self.sessions.clear();
        self.host_tools.clear();
    }
}

/// Takes in what came of a request: the response, unless it reports a failure.
pub fn finish_request(request_id: &str, outcome: RequestOutcome) -> (response: Result<
    RuntimeResponse,
    AgentRuntimeError,
>)
    ensures
        match response {
            Ok(received) => outcome == RequestOutcome::Response(received) && request_failure(
                request_id@,
                outcome,
            ) is None,
            Err(error) => request_failure(request_id@, outcome) == Some(error.deep_view()),
        },
{
    match outcome {
        RequestOutcome::TimedOut => {
            let mut message = "timed out waiting for Pi runtime request ".to_owned();
            message.append(request_id);
            Err(unavailable(message))
        },
        RequestOutcome::Closed => Err(
            unavailable("Pi runtime connection closed before responding".to_owned()),
        ),
        RequestOutcome::Response(response) => {
            if let Some(ResponseResult::Error(error)) = &response.result {
                let mut message = "Pi runtime request failed (".to_owned();
                message.append(error.code.as_str());
                message.append("): ");
                message.append(error.message.as_str());
                return Err(protocol_error(message));
            }
            Ok(response)
        },
    }
}

/// The message that carries the result of a tool call.
pub fn host_tool_result_envelope(result: HostToolResult) -> (envelope: Envelope)
    ensures
        envelope == (Envelope {
            protocol_version: PROTOCOL_VERSION,
            payload: Some(Payload::HostToolResult(result)),
        }),
{
    Envelope {
        protocol_version: PROTOCOL_VERSION,
        payload: Some(Payload::HostToolResult(result)),
    }
}

/// The message that opens the connection: the host offers the one version it speaks.
pub fn handshake_request(client_version: &str) -> (envelope: Envelope)
    ensures
        envelope.protocol_version == PROTOCOL_VERSION,
        envelope.payload matches Some(Payload::HandshakeRequest(offer)) && offer.minimum_version
            == PROTOCOL_VERSION && offer.maximum_version == PROTOCOL_VERSION && offer.client_name@
            == "codex-pi-runtime-provider"@ && offer.client_version@ == client_version@,
{
    Envelope {
        protocol_version: PROTOCOL_VERSION,
        payload: Some(
            Payload::HandshakeRequest(
                HandshakeRequest {
                    minimum_version: PROTOCOL_VERSION,
                    maximum_version: PROTOCOL_VERSION,
                    client_name: "codex-pi-runtime-provider".to_owned(),
                    client_version: client_version.to_owned(),
                },
            ),
        ),
    }
}

/// The failure that the first message of the sidecar stands for, where it is none that accepts
/// the offer.
pub open spec fn handshake_failure(envelope: Envelope) -> Option<ErrorView> {
    match envelope.payload {
        Some(Payload::HandshakeResponse(response)) => match response.error {
            Some(error) => Some(
                protocol_failure(
                    "Pi runtime handshake failed ("@ + error.code@ + "): "@ + error.message@,
                ),
            ),
            None => if response.selected_version != PROTOCOL_VERSION {
                Some(
                    protocol_failure(
                        "Pi runtime selected protocol "@ + decimal(response.selected_version as nat)
                            + ", expected "@ + decimal(PROTOCOL_VERSION as nat),
                    ),
                )
            } else {
                None
            },
        },
        _ => Some(protocol_failure("expected Pi runtime handshake response"@)),
    }
}

/// Takes in the answer to the offer of the host.
pub fn validate_handshake(envelope: Envelope) -> (outcome: Result<(), AgentRuntimeError>)
    ensures
        outcome is Ok == (handshake_failure(envelope) is None),
        outcome matches Err(error) ==> handshake_failure(envelope) == Some(error.deep_view()),
{
    let response = match envelope.payload {
        Some(Payload::HandshakeResponse(response)) => response,
        _ => {
            return Err(protocol_error("expected Pi runtime handshake response".to_owned()));
        },
    };
    if let Some(error) = response.error {
        let mut message = "Pi runtime handshake failed (".to_owned();
        message.append(error.code.as_str());
        message.append("): ");
        message.append(error.message.as_str());
        return Err(protocol_error(message));
    }
    if response.selected_version != PROTOCOL_VERSION {
        let mut message = "Pi runtime selected protocol ".to_owned();
        message.append(decimal_text(response.selected_version as u64).as_str());
        message.append(", expected ");
        message.append(decimal_text(PROTOCOL_VERSION as u64).as_str());
        return Err(protocol_error(message));
    }
    Ok(())
}

/// Takes in the first message of the sidecar; none comes where the connection was closed.
pub fn finish_handshake(answer: Option<Envelope>) -> (outcome: Result<(), AgentRuntimeError>)
    ensures
        match answer {
            Some(envelope) => outcome is Ok == (handshake_failure(envelope) is None) && (
            outcome matches Err(error) ==> handshake_failure(envelope) == Some(error.deep_view())),
            None => outcome matches Err(error) && error.deep_view() == protocol_failure(
                "Pi runtime closed during handshake"@,
            ),
        },
{
    match answer {
        Some(envelope) => validate_handshake(envelope),
        None => Err(protocol_error("Pi runtime closed during handshake".to_owned())),
    }
}

/// Requests have different ids as long as fewer than all numbers lie between them.
pub proof fn request_ids_are_distinct(number: u64, earlier: nat, later: nat)
    requires
        earlier < later < earlier + 0x1_0000_0000_0000_0000,
    ensures
        request_id_text(number_after(number, earlier)) != request_id_text(
            number_after(number, later),
        ),
{
    numbers_do_not_repeat(number, earlier, later);
    let first = number_after(number, earlier);
    let second = number_after(number, later);
    let prefix = "pi-runtime-"@;
    if request_id_text(first) == request_id_text(second) {
        assert(request_id_text(first).skip(prefix.len() as int) =~= decimal(first as nat));
        assert(request_id_text(second).skip(prefix.len() as int) =~= decimal(second as nat));
        decimal_is_injective(first as nat, second as nat);
    }
}

/// Whoever begins a request waits under its id, and once the response was delivered nobody
/// waits under it.
pub proof fn response_finds_its_waiter<R, E, H>(client: ClientView<R, E, H>, waiter: R)
    ensures
        ({
            let id = request_id_text(client.next_request);
            let begun = with_request(client, waiter);
            &&& begun.pending.contains_key(id)
            &&& begun.pending[id] == waiter
            &&& !without_request(begun, id).pending.contains_key(id)
        }),
{
}

/// A request and its end leave those who wait for another response as they are.
pub proof fn requests_are_independent<R, E, H>(
    client: ClientView<R, E, H>,
    waiter: R,
    other: Seq<char>,
)
    requires
        other != request_id_text(client.next_request),
    ensures
        ({
            let begun = with_request(client, waiter);
            let ended = without_request(begun, request_id_text(client.next_request));
            &&& begun.pending.contains_key(other) == client.pending.contains_key(other)
            &&& begun.pending[other] == client.pending[other]
            &&& ended.pending.contains_key(other) == client.pending.contains_key(other)
            &&& ended.pending[other] == client.pending[other]
        }),
{
}

/// A session that was not registered is gone without a trace after it is unregistered.
pub proof fn unregistering_undoes_registering<R, E, H>(
    client: ClientView<R, E, H>,
    session_id: Seq<char>,
    events: E,
    host_tools: H,
)
    requires
        !client.sessions.contains_key(session_id),
        !client.host_tools.contains_key(session_id),
    ensures
        without_session(with_session(client, session_id, events, host_tools), session_id)
            == client,
{
    assert(without_session(with_session(client, session_id, events, host_tools), session_id)
        =~= client);
}

/// A session takes events exactly when it takes tool requests. Registering and unregistering
/// keep that.
pub proof fn sessions_take_events_and_tools<R, E, H>(
    client: ClientView<R, E, H>,
    session_id: Seq<char>,
    events: E,
    host_tools: H,
)
    requires
        client.sessions.dom() == client.host_tools.dom(),
    ensures
        with_session(client, session_id, events, host_tools).sessions.dom() == with_session(
            client,
            session_id,
            events,
            host_tools,
        ).host_tools.dom(),
        without_session(client, session_id).sessions.dom() == without_session(
            client,
            session_id,
        ).host_tools.dom(),
{
    let registered = with_session(client, session_id, events, host_tools);
    assert(registered.sessions.dom() =~= registered.host_tools.dom());
    let unregistered = without_session(client, session_id);
    assert(unregistered.sessions.dom() =~= unregistered.host_tools.dom());
}

/// What is registered for one session does not change what is registered for another.
pub proof fn sessions_are_independent<R, E, H>(
    client: ClientView<R, E, H>,
    session_id: Seq<char>,
    events: E,
    host_tools: H,
    other: Seq<char>,
)
    requires
        other != session_id,
    ensures
        ({
            let registered = with_session(client, session_id, events, host_tools);
            let unregistered = without_session(client, session_id);
            &&& registered.sessions.contains_key(other) == client.sessions.contains_key(other)
            &&& registered.sessions[other] == client.sessions[other]
            &&& registered.host_tools.contains_key(other) == client.host_tools.contains_key(other)
            &&& registered.host_tools[other] == client.host_tools[other]
            &&& unregistered.sessions.contains_key(other) == client.sessions.contains_key(other)
            &&& unregistered.sessions[other] == client.sessions[other]
            &&& unregistered.host_tools.contains_key(other) == client.host_tools.contains_key(
                other,
            )
            &&& unregistered.host_tools[other] == client.host_tools[other]
        }),
{
}

/// What a provider has after it was asked for its client, where a launch would end in
/// `outcome`.
pub open spec fn after_client_request<C>(
    slot: Option<C>,
    outcome: Result<C, AgentRuntimeError>,
) -> Option<C> {
    match client_step(slot) {
        ClientStep::Reuse(_) => slot,
        ClientStep::Launch => after_launch(slot, outcome),
    }
}

/// What a new provider has after it was asked for its client time and again.
pub open spec fn after_client_requests<C>(
    outcomes: Seq<Result<C, AgentRuntimeError>>,
) -> Option<C>
    decreases outcomes.len(),
{
    if outcomes.len() == 0 {
        None
    } else {
        after_client_request(after_client_requests(outcomes.drop_last()), outcomes.last())
    }
}

/// As long as every launch failed, the next request launches again.
pub proof fn failed_launch_is_tried_again<C>(outcomes: Seq<Result<C, AgentRuntimeError>>)
    requires
        forall|i: int| 0 <= i < outcomes.len() ==> #[trigger] outcomes[i] is Err,
    ensures
        client_step(after_client_requests(outcomes)) is Launch,
    decreases outcomes.len(),
{
    if outcomes.len() > 0 {
        let earlier = outcomes.drop_last();
        assert forall|i: int| 0 <= i < earlier.len() implies #[trigger] earlier[i] is Err by {
            assert(earlier[i] == outcomes[i]);
        }
        failed_launch_is_tried_again(earlier);
        assert(outcomes[outcomes.len() - 1] is Err);
    }
}

/// A provider has one client: the first that was launched is used by every request after it.
pub proof fn launched_client_is_kept<C>(
    outcomes: Seq<Result<C, AgentRuntimeError>>,
    launched: int,
)
    requires
        0 <= launched < outcomes.len(),
        forall|i: int| 0 <= i < launched ==> #[trigger] outcomes[i] is Err,
        outcomes[launched] is Ok,
    ensures
        client_step(after_client_requests(outcomes)) == ClientStep::Reuse(
            &outcomes[launched]->Ok_0,
        ),
    decreases outcomes.len(),
{
    let earlier = outcomes.drop_last();
    if launched == outcomes.len() - 1 {
        assert forall|i: int| 0 <= i < earlier.len() implies #[trigger] earlier[i] is Err by {
            assert(earlier[i] == outcomes[i]);
        }
        failed_launch_is_tried_again(earlier);
    } else {
        assert forall|i: int| 0 <= i < launched implies #[trigger] earlier[i] is Err by {
            assert(earlier[i] == outcomes[i]);
        }
        assert(earlier[launched] == outcomes[launched]);
        launched_client_is_kept(earlier, launched);
    }
}

} // verus!
