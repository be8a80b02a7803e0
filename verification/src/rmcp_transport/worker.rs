//! Workers that run a transport for an `rmcp` service.
//!
//! A worker takes what comes in from the relays to the service's handler, and
//! what the handler says back to the relays. The waiting is left to the caller:
//! each step takes what has happened and says what is to be done.

use crate::protocol::error::{is_outcome, is_refusal, Error};
use crate::protocol::json::{json_text, text_of, to_text, Json, JsonView};
use crate::protocol::types::{JsonRpcMessage, MessageView};
use crate::protocol::wire::{message_of, message_value};
use crate::rmcp_transport::convert::{
    internal_to_rmcp_client_rx, internal_to_rmcp_server_rx, rmcp_client_rx,
    rmcp_client_tx_to_internal, rmcp_server_rx, rmcp_server_tx_to_internal,
};
use crate::transport::base::{
    connected_after, is_start_step, Outgoing, OutgoingView, StartAction, StartEvent,
};
use crate::transport::client::{sending, NostrClientTransport, NostrClientTransportConfig, Sending};
use crate::transport::inbound::{IncomingRequest, IncomingView};
use crate::transport::server::config::NostrServerTransportConfig;
use crate::transport::server::{
    notification_outcome, response_outcome, NostrServerTransport, PlannedResponse, PlannedView,
};
use crate::util::string_map::StringMap;
use crate::util::text::{optional_text, same_text};
use vstd::prelude::*;

verus! {

/// Whether an action is the next step of starting a worker: that of starting its
/// transport, but that the worker does not run where the receiver of incoming
/// messages was taken before.
pub open spec fn is_worker_start_step(
    connected: bool,
    has_receiver: bool,
    taken_before: Seq<char>,
    event: StartEvent,
    action: StartAction,
) -> bool {
    if !has_receiver && (event matches StartEvent::Subscribed(attempt) && attempt is Ok) {
        action matches StartAction::Fail(Error::Other(reason)) && reason@ == taken_before
    } else {
        is_start_step(connected, event, action)
    }
}

/// Why a worker quits.
#[derive(Debug, Clone, Copy, PartialEq, Eq, Structural)]
pub enum QuitReason {
    /// It was cancelled.
    Cancelled,
    /// The transport hands out no more messages.
    TransportClosed,
}

/// Worker that runs a server transport for an `rmcp` service.
pub struct NostrServerWorker {
    /// The transport.
    pub transport: NostrServerTransport,
    /// The one client that the service talks to.
    pub active_client_pubkey: Option<String>,
    /// Maps request id (as JSON text) to incoming event id.
    pub request_id_to_event_id: StringMap<String>,
}

/// Which client a worker is bound to, and which requests it has handed on.
pub struct BindingView {
    pub active_client: Option<Seq<char>>,
    pub requests: Map<Seq<char>, Seq<char>>,
}

/// Whether a worker listens to a client: to the first that comes, and to no
/// other.
pub open spec fn listens_to(binding: BindingView, client: Seq<char>) -> bool {
    binding.active_client is None || binding.active_client == Some(client)
}

/// What a worker keeps of a message from the client that it listens to.
pub open spec fn bound(binding: BindingView, incoming: IncomingView) -> BindingView {
    BindingView {
        active_client: Some(incoming.client_pubkey),
        requests: match incoming.message {
            MessageView::Request(request) => binding.requests.insert(
                json_text(request.id),
                incoming.event_id,
            ),
            _ => binding.requests,
        },
    }
}

/// Where a message of the handler goes.
pub enum Target {
    /// To the client whose request it answers.
    Answer(Seq<char>),
    /// To this client.
    Client(Seq<char>),
    /// Nowhere, for this reason.
    Nowhere(Seq<char>),
}

/// The event that an answer belongs to: that of the request with its id, or the
/// one that the id itself names.
pub open spec fn answered_event(binding: BindingView, id: JsonView) -> Option<Seq<char>> {
    if binding.requests.contains_key(json_text(id)) {
        Some(binding.requests[json_text(id)])
    } else {
        text_of(id)
    }
}

/// Where an answer goes.
pub open spec fn answer_target(binding: BindingView, id: JsonView, reason: Seq<char>) -> Target {
    match answered_event(binding, id) {
        Some(event_id) => Target::Answer(event_id),
        None => Target::Nowhere(reason),
    }
}

/// Where a notification or a request of the handler goes.
pub open spec fn client_target(binding: BindingView, reason: Seq<char>) -> Target {
    match binding.active_client {
        Some(client) => Target::Client(client),
        None => Target::Nowhere(reason),
    }
}

/// Where a message of the handler goes.
pub open spec fn target_of(binding: BindingView, message: MessageView) -> Target {
    match message {
        MessageView::Response(response) => answer_target(
            binding,
            response.id,
            "rmcp server response id has no known correlation mapping and is not a string event id"@,
        ),
        MessageView::ErrorResponse(response) => answer_target(
            binding,
            response.id,
            "rmcp server error response id has no known correlation mapping and is not a string event id"@,
        ),
        MessageView::Notification(_) => client_target(
            binding,
            "cannot forward rmcp server notification: no active client bound"@,
        ),
        MessageView::Request(_) => client_target(
            binding,
            "cannot forward rmcp server request: no active client bound"@,
        ),
    }
}

/// What is left to answer once a message of the handler is on its way.
pub open spec fn after_forward(binding: BindingView, message: MessageView) -> BindingView {
    match message {
        MessageView::Response(response) => BindingView {
            requests: binding.requests.remove(json_text(response.id)),
            ..binding
        },
        MessageView::ErrorResponse(response) => BindingView {
            requests: binding.requests.remove(json_text(response.id)),
            ..binding
        },
        _ => binding,
    }
}

/// A message of the handler that is ready to be sent.
#[derive(Debug)]
pub enum Forwarded {
    /// The answer to the request of that event.
    Response(String, PlannedResponse),
    /// A message on its own.
    Notification(Outgoing),
}

/// What a [`Forwarded`] says.
pub enum ForwardedView {
    Response(Seq<char>, PlannedView),
    Notification(OutgoingView),
}

impl View for Forwarded {
    type V = ForwardedView;

    open spec fn view(&self) -> ForwardedView {
        match *self {
            Forwarded::Response(event_id, planned) => ForwardedView::Response(event_id@, planned@),
            Forwarded::Notification(outgoing) => ForwardedView::Notification(outgoing@),
        }
    }
}

/// Whether a result is what comes of a message of the handler.
pub open spec fn is_forwarded(
    worker: NostrServerWorker,
    message: MessageView,
    result: Result<Forwarded, Error>,
) -> bool {
    let settings = worker.transport.settings();
    let state = worker.transport.state();
    match target_of(worker.binding(), message) {
        Target::Nowhere(reason) => is_refusal(result, reason),
        Target::Answer(event_id) => is_outcome(
            result,
            match response_outcome(settings, state, event_id, message) {
                Ok(planned) => Ok(ForwardedView::Response(event_id, planned)),
                Err(reason) => Err(reason),
            },
        ),
        Target::Client(client) => is_outcome(
            result,
            match notification_outcome(settings, state, client, message, None) {
                Ok(outgoing) => Ok(ForwardedView::Notification(outgoing)),
                Err(reason) => Err(reason),
            },
        ),
    }
}

/// What has happened to a server worker.
pub enum ServerWorkerEvent {
    /// It was cancelled.
    Cancelled,
    /// The transport hands out a message, or no more.
    Incoming(Option<IncomingRequest>),
    /// The handler sends a message, as `rmcp` writes it.
    Outbound(Json),
}

/// What a server worker is to do.
pub enum ServerWorkerAction {
    /// Quit.
    Quit(QuitReason),
    /// Nothing: the message is from another client than the one it listens to.
    IgnoredClient,
    /// Nothing: the message is none that `rmcp` knows.
    Unconvertible,
    /// Hand this message to the handler.
    ToHandler(Json),
    /// Send this, and tell the handler how it went; or tell it that it failed.
    Reply(Result<Forwarded, Error>),
}

/// The reason given for a message of the handler that is no message here.
pub open spec fn server_conversion_failure() -> Seq<char> {
    "failed converting rmcp server message to internal JSON-RPC"@
}

impl NostrServerWorker {
    /// Which client the worker is bound to, and which requests it has handed on.
    pub open spec fn binding(&self) -> BindingView {
        BindingView {
            active_client: optional_text(self.active_client_pubkey),
            requests: self.request_id_to_event_id@,
        }
    }

    /// Create a new server worker from existing server transport config.
    pub fn new(config: NostrServerTransportConfig) -> (worker: Self)
        ensures
            worker.transport.is_fresh(config),
            worker.binding() == (BindingView { active_client: None, requests: Map::empty() }),
    {
        NostrServerWorker {
            transport: NostrServerTransport::new(config),
            active_client_pubkey: None,
            request_id_to_event_id: StringMap::new(),
        }
    }

    /// Access the wrapped transport.
    pub fn transport(&self) -> (transport: &NostrServerTransport)
        ensures
            *transport == self.transport,
    {
        &self.transport
    }

    /// Decides the next step of starting the worker: that of starting its
    /// transport, and at the end the receiver of incoming requests is taken.
    pub fn start(&mut self, event: StartEvent) -> (action: StartAction)
        ensures
            final(self).binding() == old(self).binding(),
            final(self).transport.state() == old(self).transport.state(),
            final(self).transport.settings() == old(self).transport.settings(),
            final(self).transport.config == old(self).transport.config,
            final(self).transport.base.is_connected == connected_after(
                old(self).transport.base.is_connected,
                event,
            ),
            is_worker_start_step(
                old(self).transport.base.is_connected,
                old(self).transport.has_message_receiver,
                "server message receiver already taken"@,
                event,
                action,
            ),
            final(self).transport.has_message_receiver == (old(
                self,
            ).transport.has_message_receiver && !(event matches StartEvent::Subscribed(
                attempt,
            ) && attempt is Ok)),
    {
        match self.transport.start(event) {
            StartAction::Run => if self.transport.take_message_receiver() {
                StartAction::Run
            } else {
                StartAction::Fail(Error::Other("server message receiver already taken".to_owned()))
            },
            action => action,
        }
    }

    /// Binds the worker to a client, where it is bound to none, and keeps which
    /// event a request came in. Returns whether it listens to the client.
    pub fn bind(&mut self, incoming: &IncomingRequest) -> (listens: bool)
        ensures
            final(self).transport == old(self).transport,
            listens == listens_to(old(self).binding(), incoming@.client_pubkey),
            final(self).binding() == if listens {
                bound(old(self).binding(), incoming@)
            } else {
                old(self).binding()
            },
    {
        match &self.active_client_pubkey {
            Some(active) => {
                if !same_text(active.as_str(), incoming.client_pubkey.as_str()) {
                    return false;
                }
            },
            None => {
                self.active_client_pubkey = Some(incoming.client_pubkey.clone());
            },
        }
        if let JsonRpcMessage::Request(request) = &incoming.message {
            let request_key = to_text(&request.id);
            self.request_id_to_event_id.insert(request_key, incoming.event_id.clone());
        }
        true
    }

    /// The event that an answer belongs to; its request is no longer awaited.
    fn take_event(&mut self, id: &Json) -> (event_id: Option<String>)
        ensures
            final(self).transport == old(self).transport,
            final(self).active_client_pubkey == old(self).active_client_pubkey,
            final(self).request_id_to_event_id@ == old(self).request_id_to_event_id@.remove(
                json_text(id@),
            ),
            optional_text(event_id) == answered_event(old(self).binding(), id@),
    {
        let request_key = to_text(id);
        match self.request_id_to_event_id.remove(request_key.as_str()) {
            Some(event_id) => Some(event_id),
            None => match id.as_str() {
                Some(text) => Some(text.to_owned()),
                None => None,
            },
        }
    }

    /// Prepares an answer of the handler for the client that it belongs to.
    fn answer(&self, event_id: String, response: JsonRpcMessage) -> (result: Result<Forwarded, Error>)
        ensures
            is_outcome(
                result,
                match response_outcome(
                    self.transport.settings(),
                    self.transport.state(),
                    event_id@,
                    response@,
                ) {
                    Ok(planned) => Ok(ForwardedView::Response(event_id@, planned)),
                    Err(reason) => Err(reason),
                },
            ),
    {
        match self.transport.send_response(event_id.as_str(), response) {
            Ok(planned) => Ok(Forwarded::Response(event_id, planned)),
            Err(error) => Err(error),
        }
    }

    /// Prepares a message of the handler for the client that the worker is bound
    /// to.
    fn notify(&self, target: &str, message: &JsonRpcMessage) -> (result: Result<Forwarded, Error>)
        ensures
            is_outcome(
                result,
                match notification_outcome(
                    self.transport.settings(),
                    self.transport.state(),
                    target@,
                    message@,
                    None,
                ) {
                    Ok(outgoing) => Ok(ForwardedView::Notification(outgoing)),
                    Err(reason) => Err(reason),
                },
            ),
    {
        match self.transport.send_notification(target, message, None) {
            Ok(outgoing) => Ok(Forwarded::Notification(outgoing)),
            Err(error) => Err(error),
        }
    }

    /// Prepares a message of the handler: an answer for the client whose request
    /// it answers, anything else for the client that the worker is bound to.
    pub fn forward_server_internal(&mut self, message: JsonRpcMessage) -> (result: Result<
        Forwarded,
        Error,
    >)
        ensures
            final(self).transport == old(self).transport,
            final(self).binding() == after_forward(old(self).binding(), message@),
            is_forwarded(*old(self), message@, result),
    {
        match message {
            JsonRpcMessage::Response(response) => {
                match self.take_event(&response.id) {
                    Some(event_id) => self.answer(event_id, JsonRpcMessage::Response(response)),
                    None => Err(
                        Error::Validation(
                            "rmcp server response id has no known correlation mapping and is not a string event id".to_owned(),
                        ),
                    ),
                }
            },
            JsonRpcMessage::ErrorResponse(response) => {
                match self.take_event(&response.id) {
                    Some(event_id) => self.answer(event_id, JsonRpcMessage::ErrorResponse(response)),
                    None => Err(
                        Error::Validation(
                            "rmcp server error response id has no known correlation mapping and is not a string event id".to_owned(),
                        ),
                    ),
                }
            },
            JsonRpcMessage::Notification(notification) => {
                let message = JsonRpcMessage::Notification(notification);
                match &self.active_client_pubkey {
                    Some(target) => self.notify(target.as_str(), &message),
                    None => Err(
                        Error::Validation(
                            "cannot forward rmcp server notification: no active client bound".to_owned(),
                        ),
                    ),
                }
            },
            JsonRpcMessage::Request(request) => {
                let message = JsonRpcMessage::Request(request);
                match &self.active_client_pubkey {
                    Some(target) => self.notify(target.as_str(), &message),
                    None => Err(
                        Error::Validation(
                            "cannot forward rmcp server request: no active client bound".to_owned(),
                        ),
                    ),
                }
            },
        }
    }

    /// Decides what the worker does next.
    pub fn run(&mut self, event: ServerWorkerEvent) -> (action: ServerWorkerAction)
        ensures
            final(self).transport == old(self).transport,
            match event {
                ServerWorkerEvent::Cancelled => {
                    &&& action == ServerWorkerAction::Quit(QuitReason::Cancelled)
                    &&& final(self).binding() == old(self).binding()
                },
                ServerWorkerEvent::Incoming(None) => {
                    &&& action == ServerWorkerAction::Quit(QuitReason::TransportClosed)
                    &&& final(self).binding() == old(self).binding()
                },
                ServerWorkerEvent::Incoming(Some(incoming)) => if listens_to(
                    old(self).binding(),
                    incoming@.client_pubkey,
                ) {
                    &&& final(self).binding() == bound(old(self).binding(), incoming@)
                    &&& match rmcp_server_rx(message_value(incoming@.message)) {
                        Some(converted) => action matches ServerWorkerAction::ToHandler(message)
                            && message@ == converted,
                        None => action is Unconvertible,
                    }
                } else {
                    &&& action is IgnoredClient
                    &&& final(self).binding() == old(self).binding()
                },
                ServerWorkerEvent::Outbound(outbound) => match message_of(outbound@) {
                    Some(message) => {
                        &&& final(self).binding() == after_forward(old(self).binding(), message)
                        &&& action matches ServerWorkerAction::Reply(result) && is_forwarded(
                            *old(self),
                            message,
                            result,
                        )
                    },
                    None => {
                        &&& final(self).binding() == old(self).binding()
                        &&& action matches ServerWorkerAction::Reply(result) && is_refusal(
                            result,
                            server_conversion_failure(),
                        )
                    },
                },
            },
    {
        match event {
            ServerWorkerEvent::Cancelled => ServerWorkerAction::Quit(QuitReason::Cancelled),
            ServerWorkerEvent::Incoming(None) => ServerWorkerAction::Quit(
                QuitReason::TransportClosed,
            ),
            ServerWorkerEvent::Incoming(Some(incoming)) => {
                if !self.bind(&incoming) {
                    return ServerWorkerAction::IgnoredClient;
                }
                match internal_to_rmcp_server_rx(&incoming.message) {
                    Some(message) => ServerWorkerAction::ToHandler(message),
                    None => ServerWorkerAction::Unconvertible,
                }
            },
            ServerWorkerEvent::Outbound(outbound) => {
                match rmcp_server_tx_to_internal(&outbound) {
                    Some(message) => ServerWorkerAction::Reply(
                        self.forward_server_internal(message),
                    ),
                    None => ServerWorkerAction::Reply(
                        Err(
                            Error::Validation(
                                "failed converting rmcp server message to internal JSON-RPC".to_owned(),
                            ),
                        ),
                    ),
                }
            },
        }
    }
}

/// A worker listens to the first client that comes, and once it listens to one
/// it listens to no other.
pub proof fn law_one_client(binding: BindingView, incoming: IncomingView, other: Seq<char>)
    ensures
        binding.active_client is None ==> listens_to(binding, incoming.client_pubkey),
        listens_to(bound(binding, incoming), other) <==> other == incoming.client_pubkey,
{
}

/// What changes the binding of a worker.
pub enum BindingStep {
    /// A message comes, and is handed on where the worker listens to its client.
    Bind(IncomingView),
    /// It forwards a message of the handler.
    Forward(MessageView),
}

/// The binding after these steps, one after the other.
pub open spec fn after_steps(binding: BindingView, steps: Seq<BindingStep>) -> BindingView
    decreases steps.len(),
{
    if steps.len() == 0 {
        binding
    } else {
        let before = after_steps(binding, steps.drop_last());
        match steps.last() {
            BindingStep::Bind(incoming) => if listens_to(before, incoming.client_pubkey) {
                bound(before, incoming)
            } else {
                before
            },
            BindingStep::Forward(message) => after_forward(before, message),
        }
    }
}

/// Whether a step concerns the request with an id: another request with that id
/// comes, or an answer with that id is forwarded.
pub open spec fn concerns(step: BindingStep, id: JsonView) -> bool {
    match step {
        BindingStep::Bind(incoming) => incoming.message matches MessageView::Request(request)
            && json_text(request.id) == json_text(id),
        BindingStep::Forward(MessageView::Response(response)) => json_text(response.id)
            == json_text(id),
        BindingStep::Forward(MessageView::ErrorResponse(response)) => json_text(response.id)
            == json_text(id),
        BindingStep::Forward(_) => false,
    }
}

/// The answer of the handler to a request goes to the event that the request
/// came in, whatever else was handed on and forwarded in between, as long as no
/// later request bears the same id and it was not answered already; and once.
pub proof fn law_answer_finds_event(
    binding: BindingView,
    incoming: IncomingView,
    steps: Seq<BindingStep>,
    answer: MessageView,
)
    requires
        incoming.message is Request,
        answer is Response || answer is ErrorResponse,
        answer.id() == incoming.message.id(),
        forall|i: int|
            0 <= i < steps.len() ==> !concerns(#[trigger] steps[i], answer.id()->0),
    ensures
        ({
            let later = after_steps(bound(binding, incoming), steps);
            &&& target_of(later, answer) == Target::Answer(incoming.event_id)
            &&& !after_forward(later, answer).requests.contains_key(json_text(answer.id()->0))
        }),
    decreases steps.len(),
{
    if steps.len() > 0 {
        assert forall|i: int| 0 <= i < steps.drop_last().len() implies !concerns(
            #[trigger] steps.drop_last()[i],
            answer.id()->0,
        ) by {
            assert(steps.drop_last()[i] == steps[i]);
        }
        law_answer_finds_event(binding, incoming, steps.drop_last(), answer);
        assert(steps.last() == steps[steps.len() - 1]);
    }
}

/// Once a worker has handed on a message of a client, every request and every
/// notification of the handler goes to that client, whatever came and was
/// forwarded in between.
pub proof fn law_handler_speaks_to_bound_client(
    binding: BindingView,
    incoming: IncomingView,
    steps: Seq<BindingStep>,
    message: MessageView,
)
    requires
        message is Request || message is Notification,
    ensures
        ({
            let later = after_steps(bound(binding, incoming), steps);
            &&& later.active_client == Some(incoming.client_pubkey)
            &&& target_of(later, message) == Target::Client(incoming.client_pubkey)
        }),
    decreases steps.len(),
{
    if steps.len() > 0 {
        law_handler_speaks_to_bound_client(binding, incoming, steps.drop_last(), message);
    }
}

/// Worker that runs a client transport for an `rmcp` service.
pub struct NostrClientWorker {
    /// The transport.
    pub transport: NostrClientTransport,
}

/// What has happened to a client worker.
pub enum ClientWorkerEvent {
    /// It was cancelled.
    Cancelled,
    /// The transport hands out a message, or no more.
    Incoming(Option<JsonRpcMessage>),
    /// The handler sends a message, as `rmcp` writes it.
    Outbound(Json),
}

/// What a client worker is to do.
pub enum ClientWorkerAction {
    /// Quit.
    Quit(QuitReason),
    /// Nothing: the message is none that `rmcp` knows.
    Unconvertible,
    /// Hand this message to the handler.
    ToHandler(Json),
    /// Send this message, in this way, and tell the handler how it went.
    Send(JsonRpcMessage, Sending),
    /// Tell the handler that its message cannot be sent.
    Fail(Error),
}

impl NostrClientWorker {
    /// Create a new client worker from existing client transport config.
    pub fn new(config: NostrClientTransportConfig) -> (result: Result<Self, Error>)
        ensures
            match crate::protocol::nostr::hex_id(config.server_pubkey@) {
                Some(key) => result matches Ok(worker) && worker.transport.is_fresh(config, key),
                None => crate::protocol::error::is_other(
                    result,
                    "Invalid server pubkey: "@ + crate::protocol::nostr::public_key_error(
                        config.server_pubkey@,
                    ),
                ),
            },
    {
        match NostrClientTransport::new(config) {
            Ok(transport) => Ok(NostrClientWorker { transport }),
            Err(error) => Err(error),
        }
    }

    /// Access the wrapped transport.
    pub fn transport(&self) -> (transport: &NostrClientTransport)
        ensures
            *transport == self.transport,
    {
        &self.transport
    }

    /// Decides the next step of starting the worker: that of starting its
    /// transport, and at the end the receiver of incoming messages is taken.
    pub fn start(&mut self, event: StartEvent) -> (action: StartAction)
        ensures
            final(self).transport.state() == old(self).transport.state(),
            final(self).transport.config == old(self).transport.config,
            final(self).transport.server_pubkey == old(self).transport.server_pubkey,
            final(self).transport.base.encryption_mode == old(self).transport.base.encryption_mode,
            final(self).transport.base.is_connected == connected_after(
                old(self).transport.base.is_connected,
                event,
            ),
            is_worker_start_step(
                old(self).transport.base.is_connected,
                old(self).transport.has_message_receiver,
                "client message receiver already taken"@,
                event,
                action,
            ),
            final(self).transport.has_message_receiver == (old(
                self,
            ).transport.has_message_receiver && !(event matches StartEvent::Subscribed(
                attempt,
            ) && attempt is Ok)),
    {
        match self.transport.start(event) {
            StartAction::Run => if self.transport.take_message_receiver() {
                StartAction::Run
            } else {
                StartAction::Fail(Error::Other("client message receiver already taken".to_owned()))
            },
            action => action,
        }
    }

    /// Decides what the worker does next.
    pub fn run(&self, event: ClientWorkerEvent) -> (action: ClientWorkerAction)
        ensures
            match event {
                ClientWorkerEvent::Cancelled => action == ClientWorkerAction::Quit(
                    QuitReason::Cancelled,
                ),
                ClientWorkerEvent::Incoming(None) => action == ClientWorkerAction::Quit(
                    QuitReason::TransportClosed,
                ),
                ClientWorkerEvent::Incoming(Some(incoming)) => match rmcp_client_rx(
                    message_value(incoming@),
                ) {
                    Some(converted) => action matches ClientWorkerAction::ToHandler(message)
                        && message@ == converted,
                    None => action is Unconvertible,
                },
                ClientWorkerEvent::Outbound(outbound) => match message_of(outbound@) {
                    Some(message) => action matches ClientWorkerAction::Send(given, decision) && {
                        &&& given@ == message
                        &&& decision@ == sending(
                            self.transport.config.is_stateless,
                            self.transport.base.encryption_mode,
                            self.transport.config.gift_wrap_mode,
                            self.transport.server_pubkey@,
                            message,
                        )
                    },
                    None => action matches ClientWorkerAction::Fail(Error::Validation(reason))
                        && reason@ == "failed converting rmcp client message to internal JSON-RPC"@,
                },
            },
    {
        match event {
            ClientWorkerEvent::Cancelled => ClientWorkerAction::Quit(QuitReason::Cancelled),
            ClientWorkerEvent::Incoming(None) => ClientWorkerAction::Quit(
                QuitReason::TransportClosed,
            ),
            ClientWorkerEvent::Incoming(Some(incoming)) => {
                match internal_to_rmcp_client_rx(&incoming) {
                    Some(message) => ClientWorkerAction::ToHandler(message),
                    None => ClientWorkerAction::Unconvertible,
                }
            },
            ClientWorkerEvent::Outbound(outbound) => {
                match rmcp_client_tx_to_internal(&outbound) {
                    Some(message) => {
                        let decision = self.transport.send(&message);
                        ClientWorkerAction::Send(message, decision)
                    },
                    None => ClientWorkerAction::Fail(
                        Error::Validation(
                            "failed converting rmcp client message to internal JSON-RPC".to_owned(),
                        ),
                    ),
                }
            },
        }
    }
}

} // verus!
