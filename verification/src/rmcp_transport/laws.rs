//! What a worker hands to its handler, and where it takes what the handler says.

use crate::protocol::error::Error;
use crate::protocol::json::{json_text, Json, JsonView};
use crate::protocol::laws::{
    holds_message, is_hex, lemma_message_value, lemma_reads_as, lemma_text_on_wire, reads_as,
};
use crate::protocol::nostr::tags_view;
use crate::protocol::types::{JsonRpcMessage, MessageView};
use crate::protocol::wire::{message_value, read_message};
use crate::rmcp_transport::convert::{
    internal_to_rmcp_client_rx, internal_to_rmcp_server_rx, rmcp_client_rx,
    rmcp_client_tx_to_internal, rmcp_server_rx, rmcp_server_tx_to_internal,
};
use crate::rmcp_transport::worker::{
    ClientWorkerAction, ClientWorkerEvent, Forwarded, NostrClientWorker, NostrServerWorker,
    QuitReason, ServerWorkerAction, ServerWorkerEvent,
};
use crate::transport::base::{StartAction, StartEvent};
use crate::transport::base_laws::{is_next_step, lemma_next_step};
use crate::transport::client::{NostrClientTransport, NostrClientTransportConfig, Sending};
use crate::transport::inbound::IncomingRequest;
use crate::transport::server::answer_laws::is_notification_to;
use crate::transport::server::config::NostrServerTransportConfig;
use crate::transport::server::{NostrServerTransport, PlannedResponse};
use vstd::prelude::*;

verus! {

/// A new worker is bound to no client and has handed on nothing.
pub proof fn law_server_worker_created(
    config: NostrServerTransportConfig,
    worker: NostrServerWorker,
)
    requires
        call_ensures(NostrServerWorker::new, (config,), worker),
    ensures
        worker.active_client_pubkey is None,
        worker.request_id_to_event_id@ == Map::<Seq<char>, Seq<char>>::empty(),
        worker.transport.config == config,
        worker.transport.base.encryption_mode == config.encryption_mode,
        worker.transport.has_message_receiver,
        worker.transport.sessions@.dom() =~= Set::empty(),
{
    assert(worker.binding().active_client is None);
    assert(worker.binding().requests == Map::<Seq<char>, Seq<char>>::empty());
}

/// Whether a worker hears a client: it is bound to none yet, or to that one.
pub open spec fn hears(worker: NostrServerWorker, client: String) -> bool {
    match worker.active_client_pubkey {
        Some(active) => active@ == client@,
        None => true,
    }
}

/// Whether a worker has taken a message in: it is bound to the client, and knows
/// which event brought the request, where it is one; all else is as before.
pub open spec fn has_taken_in(
    after: NostrServerWorker,
    before: NostrServerWorker,
    incoming: IncomingRequest,
) -> bool {
    &&& after.active_client_pubkey matches Some(active) && active@ == incoming.client_pubkey@
    &&& match incoming.message {
        JsonRpcMessage::Request(request) => after.request_id_to_event_id@
            == before.request_id_to_event_id@.insert(json_text(request.id@), incoming.event_id@),
        _ => after.request_id_to_event_id@ == before.request_id_to_event_id@,
    }
    &&& after.transport == before.transport
}

/// Whether a worker is as it was.
pub open spec fn is_unmoved(after: NostrServerWorker, before: NostrServerWorker) -> bool {
    &&& after.transport == before.transport
    &&& after.request_id_to_event_id@ == before.request_id_to_event_id@
    &&& match before.active_client_pubkey {
        Some(client) => after.active_client_pubkey matches Some(same) && same@ == client@,
        None => after.active_client_pubkey is None,
    }
}

/// What is stated of a binding that stays is that the worker does.
proof fn lemma_unmoved(after: NostrServerWorker, before: NostrServerWorker)
    requires
        after.transport == before.transport,
        after.binding() == before.binding(),
    ensures
        is_unmoved(after, before),
{
    assert(after.binding().requests == before.binding().requests);
    assert(after.binding().active_client == before.binding().active_client);
}

/// What is stated of a message that is handed on is that it was taken in.
proof fn lemma_taken_in(
    after: NostrServerWorker,
    before: NostrServerWorker,
    incoming: IncomingRequest,
)
    requires
        after.transport == before.transport,
        after.binding() == crate::rmcp_transport::worker::bound(before.binding(), incoming@),
    ensures
        has_taken_in(after, before, incoming),
{
    let bound = crate::rmcp_transport::worker::bound(before.binding(), incoming@);
    assert(after.binding().active_client == Some(incoming.client_pubkey@));
    assert(after.binding().requests == bound.requests);
    match incoming.message {
        JsonRpcMessage::Request(request) => {
            assert(incoming.message@ == MessageView::Request(request@));
        },
        JsonRpcMessage::Notification(n) => {
            assert(incoming.message@ == MessageView::Notification(n@));
        },
        JsonRpcMessage::Response(r) => {
            assert(incoming.message@ == MessageView::Response(r@));
        },
        JsonRpcMessage::ErrorResponse(r) => {
            assert(incoming.message@ == MessageView::ErrorResponse(r@));
        },
    }
}

/// A worker binds itself to the first client that it is asked to listen to, and
/// to no other afterwards.
pub proof fn law_client_bound(
    worker: &mut NostrServerWorker,
    incoming: &IncomingRequest,
    listens: bool,
)
    requires
        call_ensures(NostrServerWorker::bind, (worker, incoming), listens),
    ensures
        listens <==> hears(*old(worker), incoming.client_pubkey),
        listens ==> has_taken_in(*final(worker), *old(worker), *incoming),
        !listens ==> is_unmoved(*final(worker), *old(worker)),
{
    if listens {
        lemma_taken_in(*final(worker), *old(worker), *incoming);
    } else {
        lemma_unmoved(*final(worker), *old(worker));
    }
}

/// Whether a value is what `rmcp` makes of a message that it reads as one for a
/// server, out of an object with the fields of the message.
pub open spec fn is_for_server(message: JsonRpcMessage, converted: Option<JsonView>) -> bool {
    exists|value: JsonView| #[trigger]
        rmcp_server_rx(value) == converted && holds_message(value, message)
}

/// Whether a value is what `rmcp` makes of a message that it reads as one for a
/// client, out of an object with the fields of the message.
pub open spec fn is_for_client(message: JsonRpcMessage, converted: Option<JsonView>) -> bool {
    exists|value: JsonView| #[trigger]
        rmcp_client_rx(value) == converted && holds_message(value, message)
}

/// What a worker makes of a value, where there is one.
pub open spec fn given_value(value: Option<Json>) -> Option<JsonView> {
    match value {
        Some(given) => Some(given@),
        None => None,
    }
}

/// A message for a server and one for a client are what `rmcp` reads as such.
pub proof fn law_messages_converted(
    message: &JsonRpcMessage,
    for_server: Option<Json>,
    for_client: Option<Json>,
)
    requires
        call_ensures(internal_to_rmcp_server_rx, (message,), for_server),
        call_ensures(internal_to_rmcp_client_rx, (message,), for_client),
    ensures
        is_for_server(*message, given_value(for_server)),
        is_for_client(*message, given_value(for_client)),
{
    lemma_message_value(*message);
    assert(rmcp_server_rx(message_value(message@)) == given_value(for_server));
    assert(rmcp_client_rx(message_value(message@)) == given_value(for_client));
}

/// What a handler sends, on either side, is read as any message is.
pub proof fn law_handler_messages_read(
    value: &Json,
    read: Option<JsonRpcMessage>,
    of_server: Option<JsonRpcMessage>,
    of_client: Option<JsonRpcMessage>,
)
    requires
        call_ensures(read_message, (value,), read),
        call_ensures(rmcp_server_tx_to_internal, (value,), of_server),
        call_ensures(rmcp_client_tx_to_internal, (value,), of_client),
    ensures
        of_server is Some <==> read is Some,
        of_client is Some <==> read is Some,
        read matches Some(message) ==> of_server->0@ == message@ && of_client->0@ == message@,
{
}

/// A message that comes from the client that a worker hears is handed to the
/// handler as the message that `rmcp` reads, or dropped where it reads none; one
/// from another client is ignored.
pub proof fn law_incoming_handed_on(
    worker: &mut NostrServerWorker,
    incoming: IncomingRequest,
    action: ServerWorkerAction,
)
    requires
        call_ensures(
            NostrServerWorker::run,
            (worker, ServerWorkerEvent::Incoming(Some(incoming))),
            action,
        ),
    ensures
        if hears(*old(worker), incoming.client_pubkey) {
            &&& has_taken_in(*final(worker), *old(worker), incoming)
            &&& match action {
                ServerWorkerAction::ToHandler(handed) => is_for_server(
                    incoming.message,
                    Some(handed@),
                ),
                ServerWorkerAction::Unconvertible => is_for_server(incoming.message, None),
                _ => false,
            }
        } else {
            &&& action is IgnoredClient
            &&& is_unmoved(*final(worker), *old(worker))
        },
{
    lemma_message_value(incoming.message);
    assert(incoming@.message == incoming.message@);
    if hears(*old(worker), incoming.client_pubkey) {
        lemma_taken_in(*final(worker), *old(worker), incoming);
        let converted = rmcp_server_rx(message_value(incoming.message@));
        assert(is_for_server(incoming.message, converted));
    } else {
        lemma_unmoved(*final(worker), *old(worker));
    }
}

/// A worker quits where it is cancelled or nothing more comes.
pub proof fn law_worker_quits(
    worker: &mut NostrServerWorker,
    event: ServerWorkerEvent,
    action: ServerWorkerAction,
)
    requires
        call_ensures(NostrServerWorker::run, (worker, event), action),
        event is Cancelled || event == ServerWorkerEvent::Incoming(None),
    ensures
        event is Cancelled ==> action == ServerWorkerAction::Quit(QuitReason::Cancelled),
        event is Incoming ==> action == ServerWorkerAction::Quit(QuitReason::TransportClosed),
        is_unmoved(*final(worker), *old(worker)),
{
    lemma_unmoved(*final(worker), *old(worker));
}

/// Whether a message is no answer: a request of the handler, or a notification.
pub open spec fn speaks_up(message: JsonRpcMessage) -> bool {
    message is Request || message is Notification
}

/// Whether what comes of a request or a notification of the handler is right: it
/// goes to the client that the worker is bound to, as a notification of its own,
/// and nowhere where the worker is bound to none or the client has no session.
pub open spec fn reaches_bound_client(
    worker: NostrServerWorker,
    message: JsonRpcMessage,
    result: Result<Forwarded, Error>,
) -> bool {
    match worker.active_client_pubkey {
        Some(client) => if worker.transport.sessions@.contains_key(client@) {
            &&& !is_hex(client@) ==> result is Err
            &&& forall|key: Seq<char>| #[trigger]
                reads_as(client@, key) ==> (result matches Ok(Forwarded::Notification(outgoing))
                    && is_notification_to(
                    worker.transport,
                    client@,
                    key,
                    message,
                    None,
                    Seq::empty(),
                    outgoing,
                ))
        } else {
            result matches Err(Error::Other(reason)) && reason@ == "No session for "@ + client@
        },
        None => result matches Err(Error::Validation(reason)) && reason@ == if message is Request {
            "cannot forward rmcp server request: no active client bound"@
        } else {
            "cannot forward rmcp server notification: no active client bound"@
        },
    }
}

/// What is stated of a request or a notification of the handler is right.
proof fn lemma_reaches_bound_client(
    worker: NostrServerWorker,
    message: JsonRpcMessage,
    result: Result<Forwarded, Error>,
)
    requires
        speaks_up(message),
        crate::rmcp_transport::worker::is_forwarded(worker, message@, result),
    ensures
        reaches_bound_client(worker, message, result),
{
    match message {
        JsonRpcMessage::Request(request) => {
            assert(message@ == MessageView::Request(request@));
        },
        JsonRpcMessage::Notification(n) => {
            assert(message@ == MessageView::Notification(n@));
        },
        _ => {},
    }
    if let Some(client) = worker.active_client_pubkey {
        assert(worker.binding().active_client == Some(client@));
        if worker.transport.sessions@.contains_key(client@) {
            lemma_reads_as(client@, Seq::empty());
            lemma_text_on_wire(message);
            if let Ok(Forwarded::Notification(outgoing)) = result {
                assert(outgoing@.template.tags == tags_view(outgoing.template.tags@));
            }
            assert forall|key: Seq<char>| #[trigger] reads_as(client@, key) implies (
            result matches Ok(Forwarded::Notification(outgoing)) && is_notification_to(
                worker.transport,
                client@,
                key,
                message,
                None,
                Seq::empty(),
                outgoing,
            )) by {
                lemma_reads_as(client@, key);
                assert(result is Ok);
            }
        }
    }
}

/// A request or a notification of the handler goes to the client that the worker
/// is bound to, and leaves the worker as it is.
pub proof fn law_handler_reaches_bound_client(
    worker: &mut NostrServerWorker,
    message: JsonRpcMessage,
    result: Result<Forwarded, Error>,
)
    requires
        call_ensures(NostrServerWorker::forward_server_internal, (worker, message), result),
        speaks_up(message),
    ensures
        reaches_bound_client(*old(worker), message, result),
        is_unmoved(*final(worker), *old(worker)),
{
    lemma_reaches_bound_client(*old(worker), message, result);
    match message {
        JsonRpcMessage::Request(request) => {
            assert(message@ == MessageView::Request(request@));
        },
        JsonRpcMessage::Notification(n) => {
            assert(message@ == MessageView::Notification(n@));
        },
        _ => {},
    }
    lemma_unmoved(*final(worker), *old(worker));
}

/// The id that an answer bears.
pub open spec fn answer_id(message: JsonRpcMessage) -> Option<JsonView> {
    match message {
        JsonRpcMessage::Response(response) => Some(response.id@),
        JsonRpcMessage::ErrorResponse(response) => Some(response.id@),
        _ => None,
    }
}

/// Whether an answer of the handler belongs to an event: the one that brought the
/// request with its id, or where there is no such request the one that the id
/// itself names.
pub open spec fn belongs_to(worker: NostrServerWorker, id: JsonView, event_id: Seq<char>) -> bool {
    if worker.request_id_to_event_id@.contains_key(json_text(id)) {
        worker.request_id_to_event_id@[json_text(id)] == event_id
    } else {
        id == JsonView::Str(event_id)
    }
}

/// Whether what comes of an answer of the handler is what sending it to the client
/// of that event comes to.
pub open spec fn answers_event(
    event_id: &str,
    sent: Result<PlannedResponse, Error>,
    result: Result<Forwarded, Error>,
) -> bool {
    match sent {
        Ok(planned) => result matches Ok(Forwarded::Response(event, response)) && event@
            == event_id@ && response@ == planned@,
        Err(Error::Other(reason)) => result matches Err(Error::Other(given)) && given@ == reason@,
        Err(_) => false,
    }
}

/// Whether nothing is left of a request once it is answered: it is forgotten, and
/// all else is as before.
pub open spec fn has_answered(
    after: NostrServerWorker,
    before: NostrServerWorker,
    id: JsonView,
) -> bool {
    &&& after.transport == before.transport
    &&& after.request_id_to_event_id@ == before.request_id_to_event_id@.remove(json_text(id))
    &&& match before.active_client_pubkey {
        Some(client) => after.active_client_pubkey matches Some(same) && same@ == client@,
        None => after.active_client_pubkey is None,
    }
}

/// What is stated of the worker after an answer is that the request is answered.
proof fn lemma_has_answered(
    after: NostrServerWorker,
    before: NostrServerWorker,
    message: JsonRpcMessage,
)
    requires
        answer_id(message) is Some,
        after.transport == before.transport,
        after.binding() == crate::rmcp_transport::worker::after_forward(before.binding(), message@),
    ensures
        has_answered(after, before, answer_id(message)->0),
{
    match message {
        JsonRpcMessage::Response(response) => {
            assert(message@ == MessageView::Response(response@));
        },
        JsonRpcMessage::ErrorResponse(response) => {
            assert(message@ == MessageView::ErrorResponse(response@));
        },
        _ => {},
    }
    let id = answer_id(message)->0;
    assert(after.binding().requests == before.binding().requests.remove(json_text(id)));
    assert(after.binding().active_client == before.binding().active_client);
}

/// What is stated of an answer of the handler is that it answers the event that it
/// belongs to.
proof fn lemma_answers_event(
    worker: NostrServerWorker,
    message: JsonRpcMessage,
    event_id: &str,
    sent: Result<PlannedResponse, Error>,
    result: Result<Forwarded, Error>,
)
    requires
        answer_id(message) is Some,
        belongs_to(worker, answer_id(message)->0, event_id@),
        call_ensures(
            NostrServerTransport::send_response,
            (&worker.transport, event_id, message),
            sent,
        ),
        crate::rmcp_transport::worker::is_forwarded(worker, message@, result),
    ensures
        answers_event(event_id, sent, result),
{
    match message {
        JsonRpcMessage::Response(response) => {
            assert(message@ == MessageView::Response(response@));
        },
        JsonRpcMessage::ErrorResponse(response) => {
            assert(message@ == MessageView::ErrorResponse(response@));
        },
        _ => {},
    }
    assert(crate::rmcp_transport::worker::answered_event(
        worker.binding(),
        answer_id(message)->0,
    ) == Some(event_id@));
    if let Ok(forwarded) = result {
        match forwarded {
            Forwarded::Response(event, response) => {},
            Forwarded::Notification(outgoing) => {},
        }
    }
}

/// An answer of the handler goes where sending it to the client of its event
/// takes it; its request is then no longer awaited.
pub proof fn law_answer_reaches_client(
    worker: &mut NostrServerWorker,
    message: JsonRpcMessage,
    event_id: &str,
    sent: Result<PlannedResponse, Error>,
    result: Result<Forwarded, Error>,
)
    requires
        call_ensures(NostrServerWorker::forward_server_internal, (worker, message), result),
        answer_id(message) is Some,
        belongs_to(*worker, answer_id(message)->0, event_id@),
        call_ensures(
            NostrServerTransport::send_response,
            (&worker.transport, event_id, message),
            sent,
        ),
    ensures
        answers_event(event_id, sent, result),
        has_answered(*final(worker), *old(worker), answer_id(message)->0),
{
    lemma_answers_event(*old(worker), message, event_id, sent, result);
    lemma_has_answered(*final(worker), *old(worker), message);
}

/// An answer of the handler to nothing that is known, with an id that names no
/// event, goes nowhere, and the reason says so.
pub proof fn law_answer_to_nothing(
    worker: &mut NostrServerWorker,
    message: JsonRpcMessage,
    result: Result<Forwarded, Error>,
)
    requires
        call_ensures(NostrServerWorker::forward_server_internal, (worker, message), result),
        answer_id(message) is Some,
        !worker.request_id_to_event_id@.contains_key(json_text(answer_id(message)->0)),
        answer_id(message)->0 !is Str,
    ensures
        result matches Err(Error::Validation(reason)) && reason@ == if message is Response {
            "rmcp server response id has no known correlation mapping and is not a string event id"@
        } else {
            "rmcp server error response id has no known correlation mapping and is not a string event id"@
        },
        is_unmoved(*final(worker), *old(worker)),
{
    lemma_has_answered(*final(worker), *old(worker), message);
    let id = answer_id(message)->0;
    assert(old(worker).request_id_to_event_id@.remove(json_text(id))
        =~= old(worker).request_id_to_event_id@);
    match message {
        JsonRpcMessage::Response(response) => {
            assert(message@ == MessageView::Response(response@));
        },
        JsonRpcMessage::ErrorResponse(response) => {
            assert(message@ == MessageView::ErrorResponse(response@));
        },
        _ => {},
    }
}

/// What the handler sends is read as a message and forwarded as such; a value that
/// is no message goes nowhere, and the handler is told so.
pub proof fn law_outbound_forwarded(
    worker: &mut NostrServerWorker,
    outbound: Json,
    read: Option<JsonRpcMessage>,
    action: ServerWorkerAction,
)
    requires
        call_ensures(
            NostrServerWorker::run,
            (worker, ServerWorkerEvent::Outbound(outbound)),
            action,
        ),
        call_ensures(rmcp_server_tx_to_internal, (&outbound,), read),
    ensures
        match read {
            None => {
                &&& action matches ServerWorkerAction::Reply(Err(Error::Validation(reason)))
                &&& reason@ == "failed converting rmcp server message to internal JSON-RPC"@
                &&& is_unmoved(*final(worker), *old(worker))
            },
            Some(message) => {
                &&& action matches ServerWorkerAction::Reply(result)
                &&& speaks_up(message) ==> {
                    &&& reaches_bound_client(*old(worker), message, result)
                    &&& is_unmoved(*final(worker), *old(worker))
                }
                &&& answer_id(message) matches Some(id) ==> has_answered(
                    *final(worker),
                    *old(worker),
                    id,
                )
            },
        },
{
    match read {
        None => {
            lemma_unmoved(*final(worker), *old(worker));
        },
        Some(message) => {
            let result = action->Reply_0;
            match message {
                JsonRpcMessage::Request(request) => {
                    assert(message@ == MessageView::Request(request@));
                },
                JsonRpcMessage::Notification(n) => {
                    assert(message@ == MessageView::Notification(n@));
                },
                _ => {},
            }
            if speaks_up(message) {
                lemma_reaches_bound_client(*old(worker), message, result);
                lemma_unmoved(*final(worker), *old(worker));
            } else {
                lemma_has_answered(*final(worker), *old(worker), message);
            }
        },
    }
}

/// An answer that the handler sends goes where sending it to the client of its
/// event takes it.
pub proof fn law_outbound_answer_reaches_client(
    worker: &mut NostrServerWorker,
    outbound: Json,
    message: JsonRpcMessage,
    event_id: &str,
    sent: Result<PlannedResponse, Error>,
    action: ServerWorkerAction,
)
    requires
        call_ensures(
            NostrServerWorker::run,
            (worker, ServerWorkerEvent::Outbound(outbound)),
            action,
        ),
        call_ensures(rmcp_server_tx_to_internal, (&outbound,), Some(message)),
        answer_id(message) is Some,
        belongs_to(*worker, answer_id(message)->0, event_id@),
        call_ensures(
            NostrServerTransport::send_response,
            (&worker.transport, event_id, message),
            sent,
        ),
    ensures
        action matches ServerWorkerAction::Reply(result) && answers_event(event_id, sent, result),
{
    lemma_answers_event(*old(worker), message, event_id, sent, action->Reply_0);
}

/// A worker starts as its transport does, and then takes what comes in, once: it
/// does not run where that was taken before.
pub proof fn law_server_worker_started(
    worker: &mut NostrServerWorker,
    event: StartEvent,
    action: StartAction,
)
    requires
        call_ensures(NostrServerWorker::start, (worker, event), action),
    ensures
        ({
            let subscribed = event matches StartEvent::Subscribed(attempt) && attempt is Ok;
            let taken = !old(worker).transport.has_message_receiver;
            &&& if subscribed && taken {
                action matches StartAction::Fail(Error::Other(reason)) && reason@
                    == "server message receiver already taken"@
            } else {
                is_next_step(old(worker).transport.base.is_connected, event, action)
            }
            &&& final(worker).transport.has_message_receiver <==> !taken && !subscribed
            &&& final(worker).request_id_to_event_id@ == old(worker).request_id_to_event_id@
            &&& final(worker).transport.config == old(worker).transport.config
            &&& final(worker).transport.sessions@ == old(worker).transport.sessions@
        }),
{
    if !(!old(worker).transport.has_message_receiver && (event matches StartEvent::Subscribed(
        attempt,
    ) && attempt is Ok)) {
        lemma_next_step(old(worker).transport.base.is_connected, event, action);
    }
    assert(final(worker).binding().requests == old(worker).binding().requests);
    assert(final(worker).transport.state().sessions == old(worker).transport.state().sessions);
}

/// A client's worker is created exactly where its transport is, on the same
/// configuration.
pub proof fn law_client_worker_created(
    config: NostrClientTransportConfig,
    created: Result<NostrClientWorker, Error>,
)
    requires
        call_ensures(NostrClientWorker::new, (config,), created),
    ensures
        created is Ok <==> is_hex(config.server_pubkey@),
        created matches Ok(worker) ==> {
            &&& worker.transport.config == config
            &&& worker.transport.base.encryption_mode == config.encryption_mode
            &&& worker.transport.has_message_receiver
            &&& worker.transport.pending_requests@ == Set::<Seq<char>>::empty()
        },
{
    assert(forall|i: int|
        0 <= i < config.server_pubkey@.len() ==> crate::protocol::nostr::is_hex_digit(
            #[trigger] config.server_pubkey@[i],
        ) == ('0' <= config.server_pubkey@[i] <= '9' || 'a' <= config.server_pubkey@[i] <= 'f'
            || 'A' <= config.server_pubkey@[i] <= 'F'));
}

/// A client's worker starts as its transport does, and then takes what comes in,
/// once.
pub proof fn law_client_worker_started(
    worker: &mut NostrClientWorker,
    event: StartEvent,
    action: StartAction,
)
    requires
        call_ensures(NostrClientWorker::start, (worker, event), action),
    ensures
        ({
            let subscribed = event matches StartEvent::Subscribed(attempt) && attempt is Ok;
            let taken = !old(worker).transport.has_message_receiver;
            &&& if subscribed && taken {
                action matches StartAction::Fail(Error::Other(reason)) && reason@
                    == "client message receiver already taken"@
            } else {
                is_next_step(old(worker).transport.base.is_connected, event, action)
            }
            &&& final(worker).transport.has_message_receiver <==> !taken && !subscribed
            &&& final(worker).transport.config == old(worker).transport.config
            &&& final(worker).transport.server_pubkey == old(worker).transport.server_pubkey
        }),
{
    if !(!old(worker).transport.has_message_receiver && (event matches StartEvent::Subscribed(
        attempt,
    ) && attempt is Ok)) {
        lemma_next_step(old(worker).transport.base.is_connected, event, action);
    }
}

/// A client's worker hands on what the server says as the message that `rmcp`
/// reads, or drops it where it reads none; it quits where it is cancelled or
/// nothing more comes.
pub proof fn law_client_worker_hears_server(
    worker: &NostrClientWorker,
    event: ClientWorkerEvent,
    action: ClientWorkerAction,
)
    requires
        call_ensures(NostrClientWorker::run, (worker, event), action),
    ensures
        match event {
            ClientWorkerEvent::Cancelled => action == ClientWorkerAction::Quit(
                QuitReason::Cancelled,
            ),
            ClientWorkerEvent::Incoming(None) => action == ClientWorkerAction::Quit(
                QuitReason::TransportClosed,
            ),
            ClientWorkerEvent::Incoming(Some(incoming)) => match action {
                ClientWorkerAction::ToHandler(handed) => is_for_client(incoming, Some(handed@)),
                ClientWorkerAction::Unconvertible => is_for_client(incoming, None),
                _ => false,
            },
            ClientWorkerEvent::Outbound(_) => action is Send || action is Fail,
        },
{
    if let ClientWorkerEvent::Incoming(Some(incoming)) = event {
        lemma_message_value(incoming);
        let converted = rmcp_client_rx(message_value(incoming@));
        assert(is_for_client(incoming, converted));
    }
}

/// What the handler of a client's worker sends is read as a message and goes where
/// sending it takes it; a value that is no message goes nowhere, and the handler
/// is told so.
pub proof fn law_client_worker_sends(
    worker: &NostrClientWorker,
    outbound: Json,
    read: Option<JsonRpcMessage>,
    sent: Sending,
    action: ClientWorkerAction,
)
    requires
        call_ensures(NostrClientWorker::run, (worker, ClientWorkerEvent::Outbound(outbound)), action),
        call_ensures(rmcp_client_tx_to_internal, (&outbound,), read),
        read matches Some(message) ==> call_ensures(
            NostrClientTransport::send,
            (&worker.transport, &message),
            sent,
        ),
    ensures
        match read {
            Some(message) => action matches ClientWorkerAction::Send(given, decision) && given@
                == message@ && decision@ == sent@,
            None => action matches ClientWorkerAction::Fail(Error::Validation(reason)) && reason@
                == "failed converting rmcp client message to internal JSON-RPC"@,
        },
{
}

} // verus!
