//! Server-side Nostr transport that keeps the routes of pending requests in the
//! clients' sessions.
//!
//! Notifications of progress find their request by its progress token, the
//! answer to `initialize` always describes the server, and lists of capabilities
//! carry the pricing tags. Signing, encryption and the relays are left to the
//! caller: each step takes what has happened and says what is to be done.

use crate::protocol::constants::{
    CTXVM_MESSAGES_KIND, DEFAULT_LRU_SIZE, EPHEMERAL_GIFT_WRAP_KIND, GIFT_WRAP_KIND,
    NOTIFICATIONS_INITIALIZED_METHOD, NOTIFICATIONS_PROGRESS_METHOD,
};
use crate::protocol::error::{is_other, is_outcome, Error};
use crate::protocol::json::{items_view, member, text_of, Json};
use crate::protocol::nostr::{
    event_id_error, extend_tags, hex_id, public_key_error, push_tag, read_verified_event, tags_view,
    verified_event, Event, EventId, EventTemplate, PublicKey, Tag, TemplateView,
};
use crate::protocol::types::{
    CapabilityExclusion, EncryptionMode, GiftWrapMode, InfoView, JsonRpcMessage, MessageView,
    RequestView, ServerInfo,
};
use crate::protocol::validation::{valid_content, validate_and_parse};
use crate::transport::base::{
    connected_after, is_start_step, recipient_tags, response_tags, sent_message, BaseTransport,
    Outgoing, OutgoingView, StartAction, StartEvent,
};
use crate::transport::broadcast::{is_broadcast, optional_outgoing, send_to_each};
use crate::transport::dedup::{SeenGiftWraps, SeenView};
use crate::transport::inbound::{
    classified, classify, progress_token, progress_token_of, unwrap_delivery, wrapped_delivery,
    Delivery, DeliveryView, Inbound, IncomingRequest, IncomingView,
};
use crate::transport::policy;
use crate::transport::policy::{
    announcement, borrowed_info, capability_tags, common_tags, event_tags, info_tags, is_authorized,
    is_capability_list, is_excluded, list_template, optional_info, response_wrap,
    unauthorized_view,
};
use crate::transport::server::config::NostrServerTransportConfig;
use crate::transport::session_server::session::{
    ClientSession, PendingRequestRoute, RouteView, SessionView,
};
use crate::util::string_map::{holds_text, StringMap};
use crate::util::text::{join, optional_str, optional_text, same_text};
use crate::util::time::is_reading;
use vstd::prelude::*;

pub mod answer_laws;
pub mod cleanup;
pub mod frame_laws;
pub mod laws;
pub mod rule_laws;
pub mod run;
pub mod session;
pub mod session_laws;

verus! {

/// Server-side Nostr transport: receives MCP requests and sends responses.
pub struct NostrServerTransport {
    /// What client and server share.
    pub base: BaseTransport,
    /// Configuration for this server transport.
    pub config: NostrServerTransportConfig,
    /// Extra common discovery tags to include in server announcements and first responses.
    pub extra_common_tags: Vec<Tag>,
    /// Pricing tags to include in announcements and capability list responses.
    pub pricing_tags: Vec<Tag>,
    /// Client sessions: client public key to session.
    pub sessions: StringMap<ClientSession>,
    /// Reverse lookup: event id to client public key.
    pub event_to_client: StringMap<String>,
    /// Gift wraps that were opened, with an event inside that verified.
    /// An id is put in only then, so that what failed can be tried again.
    pub seen_gift_wrap_ids: SeenGiftWraps,
    /// Whether the receiver of incoming requests is still to be taken.
    pub has_message_receiver: bool,
}

/// What changes while a server runs.
pub struct ServerView {
    /// The sessions by client.
    pub sessions: Map<Seq<char>, SessionView>,
    /// The client that each pending request came from.
    pub event_to_client: Map<Seq<char>, Seq<char>>,
    /// The gift wraps that were opened.
    pub seen: SeenView,
}

/// What stays as it is while a server runs.
pub struct ServerSettings {
    pub sending_mode: EncryptionMode,
    pub encryption_mode: EncryptionMode,
    pub gift_wrap_mode: GiftWrapMode,
    pub info: Option<InfoView>,
    pub extra: Seq<Seq<Seq<char>>>,
    pub pricing: Seq<Seq<Seq<char>>>,
}

impl ServerSettings {
    /// The tags that go with the first answer to a client.
    pub open spec fn common(self) -> Seq<Seq<Seq<char>>> {
        common_tags(self.info, self.extra, self.encryption_mode, self.gift_wrap_mode)
    }
}

impl NostrServerTransport {
    /// What changes while the server runs.
    pub open spec fn state(&self) -> ServerView {
        ServerView {
            sessions: self.sessions@,
            event_to_client: self.event_to_client@,
            seen: self.seen_gift_wrap_ids@,
        }
    }

    /// What stays as it is while the server runs.
    pub open spec fn settings(&self) -> ServerSettings {
        ServerSettings {
            sending_mode: self.base.encryption_mode,
            encryption_mode: self.config.encryption_mode,
            gift_wrap_mode: self.config.gift_wrap_mode,
            info: optional_info(self.config.server_info),
            extra: tags_view(self.extra_common_tags@),
            pricing: tags_view(self.pricing_tags@),
        }
    }

    /// Whether nothing but the state differs.
    pub open spec fn same_setup(&self, other: &Self) -> bool {
        &&& self.base == other.base
        &&& self.config == other.config
        &&& self.has_message_receiver == other.has_message_receiver
        &&& self.extra_common_tags == other.extra_common_tags
        &&& self.pricing_tags == other.pricing_tags
    }
}

/// What comes of a message.
#[derive(Debug)]
pub enum Handled {
    /// It is no valid message.
    Invalid,
    /// The client may not send it. A request is answered, the rest is dropped.
    Refused(Option<Outgoing>),
    /// It is handed to the MCP server.
    Forward(IncomingRequest),
}

/// What a [`Handled`] says.
pub enum HandledView {
    Invalid,
    Refused(Option<OutgoingView>),
    Forward(IncomingView),
}

impl View for Handled {
    type V = HandledView;

    open spec fn view(&self) -> HandledView {
        match *self {
            Handled::Invalid => HandledView::Invalid,
            Handled::Refused(Some(outgoing)) => HandledView::Refused(Some(outgoing@)),
            Handled::Refused(None) => HandledView::Refused(None),
            Handled::Forward(request) => HandledView::Forward(request@),
        }
    }
}

/// The answer to a message that a client may not send.
pub open spec fn refusal(
    settings: ServerSettings,
    delivery: DeliveryView,
    message: MessageView,
) -> Option<OutgoingView> {
    match message {
        MessageView::Request(request) => Some(
            sent_message(
                settings.encryption_mode,
                unauthorized_view(request.id),
                delivery.sender,
                CTXVM_MESSAGES_KIND,
                response_tags(delivery.sender, delivery.event_id),
                Some(delivery.is_encrypted),
                response_wrap(
                    settings.gift_wrap_mode,
                    delivery.is_encrypted,
                    delivery.wrap_kind,
                ),
            ),
        ),
        _ => None,
    }
}

/// The session that a message finds: the client's, or a new one.
pub open spec fn touched_session(
    state: ServerView,
    delivery: DeliveryView,
    moment: std::time::Instant,
) -> SessionView {
    let before = if state.sessions.contains_key(delivery.sender) {
        state.sessions[delivery.sender]
    } else {
        SessionView::fresh(delivery.is_encrypted, moment)
    };
    SessionView { is_encrypted: delivery.is_encrypted, last_activity: moment, ..before }
}

/// The route of a request.
pub open spec fn route_of(delivery: DeliveryView, request: RequestView) -> RouteView {
    RouteView {
        original_request_id: request.id,
        progress_token: progress_token(request.params),
        wrap_kind: delivery.wrap_kind,
    }
}

/// A session that awaits the answer to one more request.
pub open spec fn with_route(
    session: SessionView,
    event_id: Seq<char>,
    route: RouteView,
) -> SessionView {
    SessionView {
        pending_requests: session.pending_requests.insert(event_id, route),
        progress_token_to_event: match route.progress_token {
            Some(token) => session.progress_token_to_event.insert(token, event_id),
            None => session.progress_token_to_event,
        },
        ..session
    }
}

/// The state once a message was accepted, at that moment.
pub open spec fn accepted(
    state: ServerView,
    delivery: DeliveryView,
    message: MessageView,
    moment: std::time::Instant,
) -> ServerView {
    let touched = touched_session(state, delivery, moment);
    match message {
        MessageView::Request(request) => ServerView {
            sessions: state.sessions.insert(
                delivery.sender,
                with_route(touched, delivery.event_id, route_of(delivery, request)),
            ),
            event_to_client: state.event_to_client.insert(delivery.event_id, delivery.sender),
            ..state
        },
        MessageView::Notification(notification) => ServerView {
            sessions: state.sessions.insert(
                delivery.sender,
                SessionView {
                    is_initialized: touched.is_initialized || notification.method
                        == NOTIFICATIONS_INITIALIZED_METHOD@,
                    ..touched
                },
            ),
            ..state
        },
        _ => ServerView { sessions: state.sessions.insert(delivery.sender, touched), ..state },
    }
}

/// Whether a state is the one once a message was accepted, at a moment that the
/// clock gave: the last activity of the sender's session.
pub open spec fn is_accepted(
    before: ServerView,
    delivery: DeliveryView,
    message: MessageView,
    after: ServerView,
) -> bool {
    let moment = after.sessions[delivery.sender].last_activity;
    is_reading(moment) && after == accepted(before, delivery, message, moment)
}

/// A message as it is handed to the MCP server.
pub open spec fn forwarded(delivery: DeliveryView, message: MessageView) -> IncomingView {
    IncomingView {
        message,
        client_pubkey: delivery.sender,
        event_id: delivery.event_id,
        is_encrypted: delivery.is_encrypted,
    }
}

/// Whether a message is the answer to `initialize`.
pub open spec fn is_initialize_result(message: MessageView) -> bool {
    message matches MessageView::Response(response) && member(
        response.result,
        "protocolVersion"@,
    ) is Some && member(response.result, "serverInfo"@) is Some
}

/// A response that is ready to be sent.
#[derive(Debug)]
pub struct PlannedResponse {
    /// The response.
    pub outgoing: Outgoing,
    /// The client that it goes to.
    pub client_pubkey: String,
    /// Whether the common tags go with it.
    pub sends_common_tags: bool,
}

/// What a [`PlannedResponse`] says.
pub struct PlannedView {
    pub outgoing: OutgoingView,
    pub client_pubkey: Seq<char>,
    pub sends_common_tags: bool,
}

impl View for PlannedResponse {
    type V = PlannedView;

    open spec fn view(&self) -> PlannedView {
        PlannedView {
            outgoing: self.outgoing@,
            client_pubkey: self.client_pubkey@,
            sends_common_tags: self.sends_common_tags,
        }
    }
}

/// The tags that go with a response beside those that address it: all the common
/// tags with the first, the description of the server with the answer to
/// `initialize`, and the pricing tags with a list of capabilities.
pub open spec fn extra_response_tags(
    settings: ServerSettings,
    session: SessionView,
    response: MessageView,
) -> Seq<Seq<Seq<char>>> {
    (if !session.has_sent_common_tags {
        settings.common()
    } else if is_initialize_result(response) {
        info_tags(settings.info)
    } else {
        Seq::empty()
    }) + (if is_capability_list(response) {
        settings.pricing
    } else {
        Seq::empty()
    })
}

/// The response to a request, on its way to the client that sent it.
pub open spec fn planned(
    settings: ServerSettings,
    state: ServerView,
    event_id: Seq<char>,
    response: MessageView,
) -> PlannedView {
    let client = state.event_to_client[event_id];
    let session = state.sessions[client];
    let route = session.pending_requests[event_id];
    let key = hex_id(client)->0;
    let answer = response.answering(route.original_request_id);
    PlannedView {
        outgoing: sent_message(
            settings.sending_mode,
            answer,
            key,
            CTXVM_MESSAGES_KIND,
            response_tags(key, hex_id(event_id)->0) + extra_response_tags(settings, session, answer),
            Some(session.is_encrypted),
            response_wrap(settings.gift_wrap_mode, session.is_encrypted, route.wrap_kind),
        ),
        client_pubkey: client,
        sends_common_tags: !session.has_sent_common_tags,
    }
}

/// What comes of the response to a request: it is on its way, or it has nowhere
/// to go.
pub open spec fn response_outcome(
    settings: ServerSettings,
    state: ServerView,
    event_id: Seq<char>,
    response: MessageView,
) -> Result<PlannedView, Seq<char>> {
    let client = state.event_to_client[event_id];
    if !state.event_to_client.contains_key(event_id) {
        Err("No client found for event "@ + event_id)
    } else if !state.sessions.contains_key(client) {
        Err("No session for client "@ + client)
    } else if !state.sessions[client].pending_requests.contains_key(event_id) {
        Err("No pending route for event "@ + event_id)
    } else if hex_id(client) is None {
        Err(public_key_error(client))
    } else if hex_id(event_id) is None {
        Err(event_id_error(event_id))
    } else {
        Ok(planned(settings, state, event_id, response))
    }
}

/// A session that no longer awaits the answer to a request.
pub open spec fn without_route(session: SessionView, event_id: Seq<char>) -> SessionView {
    let known = session.pending_requests.contains_key(event_id);
    let token = session.pending_requests[event_id].progress_token;
    SessionView {
        pending_requests: session.pending_requests.remove(event_id),
        progress_token_to_event: if known && token is Some {
            session.progress_token_to_event.remove(token->0)
        } else {
            session.progress_token_to_event
        },
        ..session
    }
}

/// The state once the response to a request is out.
pub open spec fn responded(
    state: ServerView,
    event_id: Seq<char>,
    client: Seq<char>,
    sent_common_tags: bool,
) -> ServerView {
    ServerView {
        sessions: if state.sessions.contains_key(client) {
            let rest = without_route(state.sessions[client], event_id);
            state.sessions.insert(
                client,
                SessionView {
                    has_sent_common_tags: rest.has_sent_common_tags || sent_common_tags,
                    ..rest
                },
            )
        } else {
            state.sessions
        },
        event_to_client: state.event_to_client.remove(event_id),
        ..state
    }
}

/// The gift wrap that a notification is sent in; `None` leaves the choice open.
pub open spec fn notification_wrap(
    mode: GiftWrapMode,
    encrypted: bool,
    mirrored: Option<u16>,
) -> Option<u16> {
    if !encrypted {
        None
    } else {
        match mode {
            GiftWrapMode::Ephemeral => Some(EPHEMERAL_GIFT_WRAP_KIND),
            GiftWrapMode::Persistent => Some(GIFT_WRAP_KIND),
            GiftWrapMode::Optional => match mirrored {
                Some(kind) => if kind == EPHEMERAL_GIFT_WRAP_KIND {
                    Some(EPHEMERAL_GIFT_WRAP_KIND)
                } else {
                    Some(GIFT_WRAP_KIND)
                },
                None => None,
            },
        }
    }
}

/// The progress token that a notification of progress gives.
pub open spec fn notified_token(notification: MessageView) -> Option<Seq<char>> {
    match notification {
        MessageView::Notification(n) => if n.method == NOTIFICATIONS_PROGRESS_METHOD@ {
            match n.params {
                Some(params) => match member(params, "progressToken"@) {
                    Some(token) => text_of(token),
                    None => None,
                },
                None => None,
            }
        } else {
            None
        },
        _ => None,
    }
}

/// The request that a notification belongs to: the given one, or the one whose
/// progress it reports.
pub open spec fn correlation(
    session: SessionView,
    notification: MessageView,
    given: Option<Seq<char>>,
) -> Option<Seq<char>> {
    match given {
        Some(event_id) => Some(event_id),
        None => match notified_token(notification) {
            Some(token) => if session.progress_token_to_event.contains_key(token) {
                Some(session.progress_token_to_event[token])
            } else {
                None
            },
            None => None,
        },
    }
}

/// The gift wrap that a client's request came in.
pub open spec fn request_wrap(session: SessionView, event_id: Option<Seq<char>>) -> Option<u16> {
    match event_id {
        Some(id) => if session.pending_requests.contains_key(id) {
            session.pending_requests[id].wrap_kind
        } else {
            None
        },
        None => None,
    }
}

/// A notification on its way to a client, as part of the work on a request where
/// it belongs to one.
pub open spec fn notified(
    settings: ServerSettings,
    session: SessionView,
    client: Seq<char>,
    notification: MessageView,
    correlated: Option<Seq<char>>,
) -> OutgoingView {
    let key = hex_id(client)->0;
    sent_message(
        settings.sending_mode,
        notification,
        key,
        CTXVM_MESSAGES_KIND,
        match correlated {
            Some(event_id) => response_tags(key, hex_id(event_id)->0),
            None => recipient_tags(key),
        },
        Some(session.is_encrypted),
        notification_wrap(
            settings.gift_wrap_mode,
            session.is_encrypted,
            request_wrap(session, correlated),
        ),
    )
}

/// Whether a client is known and has completed its initialization.
pub open spec fn is_initialized(state: ServerView, client: Seq<char>) -> bool {
    state.sessions.contains_key(client) && state.sessions[client].is_initialized
}

/// What comes of a notification: it is on its way, or it has nowhere to go.
pub open spec fn notification_outcome(
    settings: ServerSettings,
    state: ServerView,
    client: Seq<char>,
    notification: MessageView,
    given: Option<Seq<char>>,
) -> Result<OutgoingView, Seq<char>> {
    let session = state.sessions[client];
    let correlated = correlation(session, notification, given);
    if !state.sessions.contains_key(client) {
        Err("No session for "@ + client)
    } else if notified_token(notification) is Some && correlated is None {
        Err("No request route found for progress token in client session "@ + client)
    } else if hex_id(client) is None {
        Err(public_key_error(client))
    } else if correlated is Some && hex_id(correlated->0) is None {
        Err(event_id_error(correlated->0))
    } else {
        Ok(notified(settings, session, client, notification, correlated))
    }
}

/// The notification to a client that it is broadcast to: where the client is
/// initialized and it can be sent to.
pub open spec fn broadcast_to(
    settings: ServerSettings,
    state: ServerView,
    client: Seq<char>,
    notification: MessageView,
) -> Option<OutgoingView> {
    match notification_outcome(settings, state, client, notification, None) {
        Ok(outgoing) => if is_initialized(state, client) {
            Some(outgoing)
        } else {
            None
        },
        Err(_) => None,
    }
}

impl NostrServerTransport {
    /// Whether this is a server as it is created.
    pub open spec fn is_fresh(&self, config: NostrServerTransportConfig) -> bool {
        &&& self.config == config
        &&& self.base == (BaseTransport {
            encryption_mode: config.encryption_mode,
            is_connected: false,
        })
        &&& self.extra_common_tags@.len() == 0
        &&& self.pricing_tags@.len() == 0
        &&& self.has_message_receiver
        &&& self.state() == (ServerView {
            sessions: Map::empty(),
            event_to_client: Map::empty(),
            seen: SeenView { ids: Seq::empty(), capacity: DEFAULT_LRU_SIZE as nat },
        })
    }

    /// Create a new server transport.
    pub fn new(config: NostrServerTransportConfig) -> (transport: Self)
        ensures
            transport.is_fresh(config),
    {
        NostrServerTransport {
            base: BaseTransport { encryption_mode: config.encryption_mode, is_connected: false },
            config,
            extra_common_tags: Vec::new(),
            pricing_tags: Vec::new(),
            sessions: StringMap::new(),
            event_to_client: StringMap::new(),
            seen_gift_wrap_ids: SeenGiftWraps::new(DEFAULT_LRU_SIZE),
            has_message_receiver: true,
        }
    }

    /// Decides the next step of starting to listen for incoming requests.
    pub fn start(&mut self, event: StartEvent) -> (action: StartAction)
        ensures
            final(self).state() == old(self).state(),
            final(self).config == old(self).config,
            final(self).extra_common_tags == old(self).extra_common_tags,
            final(self).pricing_tags == old(self).pricing_tags,
            final(self).base.encryption_mode == old(self).base.encryption_mode,
            final(self).base.is_connected == connected_after(
                old(self).base.is_connected,
                event,
            ),
            is_start_step(old(self).base.is_connected, event, action),
            final(self).has_message_receiver == old(self).has_message_receiver,
    {
        self.base.start(event)
    }

    /// Close the transport, given how disconnecting the relays went.
    pub fn close(&mut self, attempt: Result<(), Error>) -> (result: Result<(), Error>)
        ensures
            result == if old(self).base.is_connected {
                attempt
            } else {
                Ok::<(), Error>(())
            },
            result is Err ==> *final(self) == *old(self),
            result is Ok ==> {
                &&& final(self).base == (BaseTransport { is_connected: false, ..old(self).base })
                &&& final(self).config == old(self).config
                &&& final(self).has_message_receiver == old(self).has_message_receiver
                &&& final(self).extra_common_tags == old(self).extra_common_tags
                &&& final(self).pricing_tags == old(self).pricing_tags
                &&& final(self).state() == (ServerView {
                    sessions: Map::empty(),
                    event_to_client: Map::empty(),
                    ..old(self).state()
                })
            },
    {
        let result = self.base.disconnect(attempt);
        if result.is_ok() {
            self.sessions.clear();
            self.event_to_client.clear();
        }
        result
    }

    /// Decides what is to be done with an event.
    pub fn on_event(&self, event: &Event) -> (inbound: Inbound)
        ensures
            inbound@ == classified(
                self.config.encryption_mode,
                self.config.gift_wrap_mode,
                self.state().seen.ids.contains(event.id@),
                event@,
            ),
    {
        let is_seen = self.seen_gift_wrap_ids.contains(event.id.to_hex().as_str());
        classify(self.config.encryption_mode, self.config.gift_wrap_mode, is_seen, event)
    }

    /// Takes the event out of a gift wrap; `None` where there is none that
    /// verifies. Only an event that verifies makes the gift wrap count as opened.
    pub fn on_unwrapped(&mut self, wrap: &Event, inner: Option<Event>) -> (delivery: Option<Delivery>)
        ensures
            final(self).same_setup(old(self)),
            match inner {
                Some(event) => {
                    &&& delivery is Some && delivery->0@ == wrapped_delivery(event@, wrap.kind)
                    &&& final(self).state() == (ServerView {
                        seen: old(self).state().seen.remember(wrap.id@),
                        ..old(self).state()
                    })
                },
                None => delivery is None && *final(self) == *old(self),
            },
    {
        match inner {
            Some(event) => {
                self.seen_gift_wrap_ids.put(wrap.id.to_hex());
                Some(unwrap_delivery(event, wrap.kind))
            },
            None => None,
        }
    }

    /// Takes what a gift wrap was decrypted to, or the failure to decrypt it.
    pub fn on_decrypted(&mut self, wrap: &Event, decrypted: Result<String, Error>) -> (delivery:
        Option<Delivery>)
        ensures
            final(self).same_setup(old(self)),
            match decrypted {
                Ok(text) => match verified_event(text@) {
                    Some(inner) => {
                        &&& delivery is Some && delivery->0@ == wrapped_delivery(inner, wrap.kind)
                        &&& final(self).state() == (ServerView {
                            seen: old(self).state().seen.remember(wrap.id@),
                            ..old(self).state()
                        })
                    },
                    None => delivery is None && *final(self) == *old(self),
                },
                Err(_) => delivery is None && *final(self) == *old(self),
            },
    {
        match decrypted {
            Ok(text) => {
                let inner = read_verified_event(text.as_str());
                self.on_unwrapped(wrap, inner)
            },
            Err(_) => None,
        }
    }

    /// The answer to a message that a client may not send.
    fn refuse(&self, message: &JsonRpcMessage, delivery: &Delivery) -> (reply: Option<Outgoing>)
        ensures
            match reply {
                Some(r) => refusal(self.settings(), delivery@, message@) == Some(r@),
                None => refusal(self.settings(), delivery@, message@) is None,
            },
    {
        match message {
            JsonRpcMessage::Request(request) => {
                let tags = BaseTransport::create_response_tags(
                    &delivery.sender,
                    &delivery.event_id,
                );
                let replying = BaseTransport {
                    encryption_mode: self.config.encryption_mode,
                    is_connected: true,
                };
                Some(
                    replying.send_mcp_message(
                        &Self::unauthorized_error_response(&request.id),
                        &delivery.sender,
                        CTXVM_MESSAGES_KIND,
                        tags,
                        Some(delivery.is_encrypted),
                        Self::select_outbound_gift_wrap_kind(
                            self.config.gift_wrap_mode,
                            delivery.is_encrypted,
                            delivery.wrap_kind,
                        ),
                    ),
                )
            },
            _ => None,
        }
    }

    /// Keeps what a message says in the client's session.
    fn accept(&mut self, message: &JsonRpcMessage, delivery: &Delivery)
        ensures
            final(self).same_setup(old(self)),
            is_accepted(old(self).state(), delivery@, message@, final(self).state()),
    {
        let sender = delivery.sender.to_hex();
        let event_id = delivery.event_id.to_hex();
        let mut session = match self.sessions.remove(sender.as_str()) {
            Some(found) => found,
            None => ClientSession::new(delivery.is_encrypted),
        };
        session.update_activity();
        let ghost moment = session@.last_activity;
        session.is_encrypted = delivery.is_encrypted;
        assert(session@ == touched_session(old(self).state(), delivery@, moment));
        match message {
            JsonRpcMessage::Request(request) => {
                let token = progress_token_of(&request.params);
                let route = PendingRequestRoute {
                    original_request_id: request.id.clone(),
                    progress_token: crate::util::text::clone_text(&token),
                    wrap_kind: delivery.wrap_kind,
                };
                session.pending_requests.insert(event_id.clone(), route);
                self.event_to_client.insert(event_id.clone(), sender.clone());
                if let Some(token) = token {
                    session.progress_token_to_event.insert(token, event_id);
                }
            },
            JsonRpcMessage::Notification(notification) => {
                if same_text(notification.method.as_str(), NOTIFICATIONS_INITIALIZED_METHOD) {
                    session.is_initialized = true;
                }
            },
            _ => {},
        }
        self.sessions.insert(sender, session);
        proof {
            assert(self.sessions@ =~= accepted(
                old(self).state(),
                delivery@,
                message@,
                moment,
            ).sessions);
        }
    }

    /// Takes a message, once read, to its client's session.
    pub fn on_message(&mut self, message: JsonRpcMessage, delivery: &Delivery) -> (handled: Handled)
        ensures
            final(self).same_setup(old(self)),
            if is_authorized(
                old(self).config.allowed_public_keys@,
                old(self).config.excluded_capabilities@,
                delivery@.sender,
                message@,
            ) {
                &&& handled@ == HandledView::Forward(forwarded(delivery@, message@))
                &&& is_accepted(old(self).state(), delivery@, message@, final(self).state())
            } else {
                &&& handled@ == HandledView::Refused(
                    refusal(old(self).settings(), delivery@, message@),
                )
                &&& *final(self) == *old(self)
            },
    {
        if !policy::authorizes(
            &self.config.allowed_public_keys,
            self.config.excluded_capabilities.as_slice(),
            delivery.sender.to_hex().as_str(),
            &message,
        ) {
            return Handled::Refused(self.refuse(&message, delivery));
        }
        self.accept(&message, delivery);
        Handled::Forward(
            IncomingRequest {
                message,
                client_pubkey: delivery.sender.to_hex(),
                event_id: delivery.event_id.to_hex(),
                is_encrypted: delivery.is_encrypted,
            },
        )
    }

    /// Reads the message of a delivery and takes it to its client's session.
    pub fn on_delivery(&mut self, delivery: &Delivery) -> (handled: Handled)
        ensures
            final(self).same_setup(old(self)),
            match valid_content(delivery@.content) {
                None => handled@ is Invalid && *final(self) == *old(self),
                Some(message) => if is_authorized(
                    old(self).config.allowed_public_keys@,
                    old(self).config.excluded_capabilities@,
                    delivery@.sender,
                    message,
                ) {
                    &&& handled@ == HandledView::Forward(forwarded(delivery@, message))
                    &&& is_accepted(old(self).state(), delivery@, message, final(self).state())
                } else {
                    &&& handled@ == HandledView::Refused(
                        refusal(old(self).settings(), delivery@, message),
                    )
                    &&& *final(self) == *old(self)
                },
            },
    {
        match validate_and_parse(delivery.content.as_str()) {
            Some(message) => self.on_message(message, delivery),
            None => Handled::Invalid,
        }
    }

    /// Prepares a response for the client that sent the original request.
    pub fn send_response(&self, event_id: &str, response: JsonRpcMessage) -> (result: Result<
        PlannedResponse,
        Error,
    >)
        ensures
            is_outcome(
                result,
                response_outcome(self.settings(), self.state(), event_id@, response@),
            ),
    {
        let client_pubkey_hex = match self.event_to_client.get(event_id) {
            Some(client) => client.clone(),
            None => {
                return Err(Error::Other(join("No client found for event ", event_id)));
            },
        };
        let session = match self.sessions.get(client_pubkey_hex.as_str()) {
            Some(session) => session,
            None => {
                return Err(
                    Error::Other(join("No session for client ", client_pubkey_hex.as_str())),
                );
            },
        };
        let route = match session.pending_requests.get(event_id) {
            Some(route) => route,
            None => {
                return Err(Error::Other(join("No pending route for event ", event_id)));
            },
        };
        // Restore original request ID
        let response = response.with_id(&route.original_request_id);
        let client_pubkey = match PublicKey::from_hex(client_pubkey_hex.as_str()) {
            Ok(key) => key,
            Err(error) => {
                return Err(error);
            },
        };
        let event_id_parsed = match EventId::from_hex(event_id) {
            Ok(id) => id,
            Err(error) => {
                return Err(error);
            },
        };
        let mut tags = BaseTransport::create_response_tags(&client_pubkey, &event_id_parsed);
        let ghost plain = tags_view(tags@);
        let should_attach_common_tags = !session.has_sent_common_tags;
        if should_attach_common_tags {
            Self::append_common_response_tags(
                &mut tags,
                self.config.server_info.as_ref(),
                self.extra_common_tags.as_slice(),
                self.config.encryption_mode,
                self.config.gift_wrap_mode,
            );
        } else if Self::is_initialize_result_response(&response) {
            let described = Self::server_info_tags(self.config.server_info.as_ref());
            extend_tags(&mut tags, described.as_slice());
        }
        if Self::is_capability_list_response(&response) {
            extend_tags(&mut tags, self.pricing_tags.as_slice());
        }
        proof {
            assert(tags_view(tags@) =~= plain + extra_response_tags(
                self.settings(),
                session@,
                response@,
            ));
        }
        let outgoing = self.base.send_mcp_message(
            &response,
            &client_pubkey,
            CTXVM_MESSAGES_KIND,
            tags,
            Some(session.is_encrypted),
            Self::select_outbound_gift_wrap_kind(
                self.config.gift_wrap_mode,
                session.is_encrypted,
                route.wrap_kind,
            ),
        );
        Ok(
            PlannedResponse {
                outgoing,
                client_pubkey: client_pubkey_hex,
                sends_common_tags: should_attach_common_tags,
            },
        )
    }

    /// Takes note that a response is out: its request is no longer pending.
    pub fn response_sent(&mut self, event_id: &str, sent: &PlannedResponse)
        ensures
            final(self).same_setup(old(self)),
            final(self).state() == responded(
                old(self).state(),
                event_id@,
                sent@.client_pubkey,
                sent@.sends_common_tags,
            ),
    {
        match self.sessions.remove(sent.client_pubkey.as_str()) {
            Some(found) => {
                let mut session = found;
                if let Some(removed_route) = session.pending_requests.remove(event_id) {
                    if let Some(token) = removed_route.progress_token {
                        let _ = session.progress_token_to_event.remove(token.as_str());
                    }
                }
                if sent.sends_common_tags {
                    session.has_sent_common_tags = true;
                }
                self.sessions.insert(sent.client_pubkey.clone(), session);
                proof {
                    assert(self.sessions@ =~= responded(
                        old(self).state(),
                        event_id@,
                        sent@.client_pubkey,
                        sent@.sends_common_tags,
                    ).sessions);
                }
            },
            None => {
                proof {
                    assert(self.sessions@ =~= old(self).sessions@);
                }
            },
        }
        let _ = self.event_to_client.remove(event_id);
    }

    /// Prepares a notification for a specific client.
    pub fn send_notification(
        &self,
        client_pubkey_hex: &str,
        notification: &JsonRpcMessage,
        correlated_event_id: Option<&str>,
    ) -> (result: Result<Outgoing, Error>)
        ensures
            is_outcome(
                result,
                notification_outcome(
                    self.settings(),
                    self.state(),
                    client_pubkey_hex@,
                    notification@,
                    optional_str(correlated_event_id),
                ),
            ),
    {
        let session = match self.sessions.get(client_pubkey_hex) {
            Some(session) => session,
            None => {
                return Err(Error::Other(join("No session for ", client_pubkey_hex)));
            },
        };
        let progress_token = Self::progress_token_from_notification(notification);
        let correlated_event_id = Self::resolve_notification_correlation(
            session,
            notification,
            correlated_event_id,
        );
        if progress_token.is_some() && correlated_event_id.is_none() {
            return Err(
                Error::Other(
                    join(
                        "No request route found for progress token in client session ",
                        client_pubkey_hex,
                    ),
                ),
            );
        }
        let client_pubkey = match PublicKey::from_hex(client_pubkey_hex) {
            Ok(key) => key,
            Err(error) => {
                return Err(error);
            },
        };
        let mut tags = BaseTransport::create_recipient_tags(&client_pubkey);
        let mut correlated_wrap_kind: Option<u16> = None;
        if let Some(eid) = &correlated_event_id {
            let event_id = match EventId::from_hex(eid.as_str()) {
                Ok(id) => id,
                Err(error) => {
                    return Err(error);
                },
            };
            push_tag(&mut tags, Tag::event(&event_id));
            proof {
                assert(tags_view(tags@) =~= response_tags(client_pubkey@, event_id@));
            }
            if let Some(route) = session.pending_requests.get(eid.as_str()) {
                correlated_wrap_kind = route.wrap_kind;
            }
        }
        Ok(
            self.base.send_mcp_message(
                notification,
                &client_pubkey,
                CTXVM_MESSAGES_KIND,
                tags,
                Some(session.is_encrypted),
                Self::select_outbound_notification_gift_wrap_kind(
                    self.config.gift_wrap_mode,
                    session.is_encrypted,
                    correlated_wrap_kind,
                ),
            ),
        )
    }

    /// The notification to a client that it is broadcast to: where the client is
    /// initialized and it can be sent to.
    fn notify_initialized(&self, client: &str, notification: &JsonRpcMessage) -> (outgoing: Option<
        Outgoing,
    >)
        ensures
            optional_outgoing(outgoing) == broadcast_to(
                self.settings(),
                self.state(),
                client@,
                notification@,
            ),
    {
        let initialized = match self.sessions.get(client) {
            Some(session) => session.is_initialized,
            None => false,
        };
        if initialized {
            match self.send_notification(client, notification, None) {
                Ok(outgoing) => Some(outgoing),
                Err(_) => None,
            }
        } else {
            None
        }
    }

    /// Prepares a notification for all initialized clients: one for each that it
    /// can be sent to.
    pub fn broadcast_notification(&self, notification: &JsonRpcMessage) -> (sent: Vec<
        (String, Outgoing),
    >)
        ensures
            is_broadcast(
                sent@,
                |client: Seq<char>|
                    broadcast_to(self.settings(), self.state(), client, notification@),
            ),
    {
        let clients = self.sessions.keys();
        let prepare = |client: &str| -> (outgoing: Option<Outgoing>)
            ensures
                optional_outgoing(outgoing) == broadcast_to(
                    self.settings(),
                    self.state(),
                    client@,
                    notification@,
                ),
            { self.notify_initialized(client, notification) };
        let ghost reached = |client: Seq<char>|
            broadcast_to(self.settings(), self.state(), client, notification@);
        proof {
            assert forall|client: Seq<char>| #[trigger] reached(client) is Some implies holds_text(
                clients@,
                client,
            ) by {
                assert(self.state().sessions.contains_key(client));
            }
        }
        send_to_each(&clients, prepare, Ghost(reached))
    }

    /// Take the message receiver for consuming incoming requests. Returns
    /// whether it was still to be taken.
    pub fn take_message_receiver(&mut self) -> (taken: bool)
        ensures
            taken == old(self).has_message_receiver,
            *final(self) == (NostrServerTransport { has_message_receiver: false, ..*old(self) }),
    {
        let taken = self.has_message_receiver;
        self.has_message_receiver = false;
        taken
    }

    /// Sets extra discovery tags to include in announcements and first-response discovery replay.
    pub fn set_announcement_extra_tags(&mut self, tags: Vec<Tag>)
        ensures
            *final(self) == (NostrServerTransport { extra_common_tags: tags, ..*old(self) }),
    {
        self.extra_common_tags = tags;
    }

    /// Sets pricing tags to include in announcement/list events and capability list responses.
    pub fn set_announcement_pricing_tags(&mut self, tags: Vec<Tag>)
        ensures
            *final(self) == (NostrServerTransport { pricing_tags: tags, ..*old(self) }),
    {
        self.pricing_tags = tags;
    }

    /// Prepares the server announcement.
    pub fn announce(&self) -> (template: Result<EventTemplate, Error>)
        ensures
            match self.config.server_info {
                Some(info) => template is Ok && template->Ok_0@ == announcement(
                    info@,
                    self.config.encryption_mode,
                    self.config.gift_wrap_mode,
                    tags_view(self.extra_common_tags@),
                    tags_view(self.pricing_tags@),
                ),
                None => is_other(template, "No server info configured"@),
            },
    {
        policy::announce(
            self.config.server_info.as_ref(),
            self.config.encryption_mode,
            self.config.gift_wrap_mode,
            self.extra_common_tags.as_slice(),
            self.pricing_tags.as_slice(),
        )
    }

    /// Prepares the tools list.
    pub fn publish_tools(&self, tools: Vec<Json>) -> (template: EventTemplate)
        ensures
            template@ == list_template(
                crate::protocol::constants::TOOLS_LIST_KIND,
                "tools"@,
                items_view(tools@),
                tags_view(self.pricing_tags@),
            ),
    {
        policy::publish_tools(tools, self.pricing_tags.as_slice())
    }

    /// Prepares the resources list.
    pub fn publish_resources(&self, resources: Vec<Json>) -> (template: EventTemplate)
        ensures
            template@ == list_template(
                crate::protocol::constants::RESOURCES_LIST_KIND,
                "resources"@,
                items_view(resources@),
                tags_view(self.pricing_tags@),
            ),
    {
        policy::publish_resources(resources, self.pricing_tags.as_slice())
    }

    /// Prepares the prompts list.
    pub fn publish_prompts(&self, prompts: Vec<Json>) -> (template: EventTemplate)
        ensures
            template@ == list_template(
                crate::protocol::constants::PROMPTS_LIST_KIND,
                "prompts"@,
                items_view(prompts@),
                tags_view(self.pricing_tags@),
            ),
    {
        policy::publish_prompts(prompts, self.pricing_tags.as_slice())
    }

    /// Prepares the resource templates list.
    pub fn publish_resource_templates(&self, templates: Vec<Json>) -> (template: EventTemplate)
        ensures
            template@ == list_template(
                crate::protocol::constants::RESOURCETEMPLATES_LIST_KIND,
                "resourceTemplates"@,
                items_view(templates@),
                tags_view(self.pricing_tags@),
            ),
    {
        policy::publish_resource_templates(templates, self.pricing_tags.as_slice())
    }

    /// Prepares the deletion of the server's announcements of one kind, given
    /// which there are; `None` where there are none.
    pub fn delete_announcements(&self, reason: &str, found: &[EventId]) -> (template: Option<
        EventTemplate,
    >)
        ensures
            match template {
                Some(t) => found@.len() > 0 && t@ == (TemplateView {
                    kind: crate::protocol::constants::DELETION_KIND,
                    content: reason@,
                    tags: event_tags(found@),
                }),
                None => found@.len() == 0,
            },
    {
        policy::delete_events(reason, found)
    }

    /// Whether anybody may call that method, on that capability.
    pub fn is_capability_excluded(
        excluded: &[CapabilityExclusion],
        method: &str,
        name: Option<&str>,
    ) -> (answer: bool)
        ensures
            answer == is_excluded(excluded@, method@, optional_str(name)),
    {
        policy::is_capability_excluded(excluded, method, name)
    }

    /// The tags that describe a server.
    pub fn server_info_tags(server_info: Option<&ServerInfo>) -> (created: Vec<Tag>)
        ensures
            tags_view(created@) == info_tags(borrowed_info(server_info)),
    {
        policy::server_info_tags(server_info)
    }

    /// Adds the tags that say what a server supports.
    pub fn append_transport_capability_tags(
        tags: &mut Vec<Tag>,
        encryption_mode: EncryptionMode,
        gift_wrap_mode: GiftWrapMode,
    )
        ensures
            tags_view(final(tags)@) == tags_view(old(tags)@) + capability_tags(
                encryption_mode,
                gift_wrap_mode,
            ),
    {
        policy::append_transport_capability_tags(tags, encryption_mode, gift_wrap_mode)
    }

    /// Adds the tags that go with the first answer to a client.
    pub fn append_common_response_tags(
        tags: &mut Vec<Tag>,
        server_info: Option<&ServerInfo>,
        extra_common_tags: &[Tag],
        encryption_mode: EncryptionMode,
        gift_wrap_mode: GiftWrapMode,
    )
        ensures
            tags_view(final(tags)@) == tags_view(old(tags)@) + common_tags(
                borrowed_info(server_info),
                tags_view(extra_common_tags@),
                encryption_mode,
                gift_wrap_mode,
            ),
    {
        policy::append_common_response_tags(
            tags,
            server_info,
            extra_common_tags,
            encryption_mode,
            gift_wrap_mode,
        )
    }

    /// The answer to a request that a client may not make.
    pub fn unauthorized_error_response(request_id: &Json) -> (message: JsonRpcMessage)
        ensures
            message@ == unauthorized_view(request_id@),
    {
        policy::unauthorized_error_response(request_id)
    }

    /// Select the outbound gift-wrap kind for a correlated response.
    pub fn select_outbound_gift_wrap_kind(
        gift_wrap_mode: GiftWrapMode,
        is_encrypted: bool,
        mirrored_kind: Option<u16>,
    ) -> (kind: Option<u16>)
        ensures
            kind == response_wrap(gift_wrap_mode, is_encrypted, mirrored_kind),
    {
        policy::select_outbound_gift_wrap_kind(gift_wrap_mode, is_encrypted, mirrored_kind)
    }

    /// Select the outbound gift-wrap kind for a notification.
    pub fn select_outbound_notification_gift_wrap_kind(
        gift_wrap_mode: GiftWrapMode,
        is_encrypted: bool,
        mirrored_kind: Option<u16>,
    ) -> (kind: Option<u16>)
        ensures
            kind == notification_wrap(gift_wrap_mode, is_encrypted, mirrored_kind),
    {
        if !is_encrypted {
            return None;
        }
        match gift_wrap_mode {
            GiftWrapMode::Ephemeral => Some(EPHEMERAL_GIFT_WRAP_KIND),
            GiftWrapMode::Persistent => Some(GIFT_WRAP_KIND),
            GiftWrapMode::Optional => match mirrored_kind {
                Some(kind) => if kind == EPHEMERAL_GIFT_WRAP_KIND {
                    Some(EPHEMERAL_GIFT_WRAP_KIND)
                } else {
                    Some(GIFT_WRAP_KIND)
                },
                None => None,
            },
        }
    }

    /// Whether a message is the answer to `initialize`.
    pub fn is_initialize_result_response(message: &JsonRpcMessage) -> (answer: bool)
        ensures
            answer == is_initialize_result(message@),
    {
        match message {
            JsonRpcMessage::Response(response) => {
                response.result.get("protocolVersion").is_some() && response.result.get(
                    "serverInfo",
                ).is_some()
            },
            _ => false,
        }
    }

    /// Whether a message is a list of capabilities.
    pub fn is_capability_list_response(message: &JsonRpcMessage) -> (answer: bool)
        ensures
            answer == is_capability_list(message@),
    {
        policy::is_capability_list_response(message)
    }

    /// The progress token that a notification of progress gives.
    pub fn progress_token_from_notification(notification: &JsonRpcMessage) -> (token: Option<String>)
        ensures
            optional_text(token) == notified_token(notification@),
    {
        match notification {
            JsonRpcMessage::Notification(n) => {
                if !same_text(n.method.as_str(), NOTIFICATIONS_PROGRESS_METHOD) {
                    return None;
                }
                match &n.params {
                    Some(params) => match params.get("progressToken") {
                        Some(token) => match token.as_str() {
                            Some(text) => Some(text.to_owned()),
                            None => None,
                        },
                        None => None,
                    },
                    None => None,
                }
            },
            _ => None,
        }
    }

    /// The request that a notification belongs to.
    pub fn resolve_notification_correlation(
        session: &ClientSession,
        notification: &JsonRpcMessage,
        correlated_event_id: Option<&str>,
    ) -> (event_id: Option<String>)
        ensures
            optional_text(event_id) == correlation(
                session@,
                notification@,
                optional_str(correlated_event_id),
            ),
    {
        if let Some(event_id) = correlated_event_id {
            return Some(event_id.to_owned());
        }
        match Self::progress_token_from_notification(notification) {
            Some(token) => match session.progress_token_to_event.get(token.as_str()) {
                Some(event_id) => Some(event_id.clone()),
                None => None,
            },
            None => None,
        }
    }
}

} // verus!
