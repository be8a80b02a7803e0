//! Server-side Nostr transport.
//!
//! Reads the MCP messages that clients send over Nostr, keeps one session per
//! client, and routes each answer back to the request that it answers. Which
//! client a request came from is kept in a store of its own, beside the
//! sessions. Signing, encryption and the relays are left to the caller: each
//! step takes what has happened and says what is to be done.

use crate::protocol::constants::{
    CTXVM_MESSAGES_KIND, DEFAULT_LRU_SIZE, EPHEMERAL_GIFT_WRAP_KIND, GIFT_WRAP_KIND,
    NOTIFICATIONS_INITIALIZED_METHOD, UNENCRYPTED_KINDS,
};
use crate::protocol::error::{is_other, is_outcome, Error};
use crate::protocol::json::{items_view, Json, JsonView};
use crate::protocol::nostr::{
    event_id_error, extend_tags, hex_id, public_key_error, push_tag, read_verified_event, tags_view,
    verified_event, Event, EventId, EventTemplate, PublicKey, Tag,
};
use crate::protocol::session::{ClientSession, SessionView};
use crate::protocol::types::{
    CapabilityExclusion, EncryptionMode, GiftWrapMode, InfoView, JsonRpcMessage, MessageView,
    ServerInfo,
};
use crate::protocol::validation::{valid_content, validate_and_parse};
use crate::transport::base::{
    connected_after, is_start_step, recipient_tags, response_tags, sent_message, BaseTransport,
    Outgoing, OutgoingView, StartAction, StartEvent,
};
use crate::transport::broadcast::{is_broadcast, optional_outgoing, send_to_each};
use crate::transport::dedup::{SeenGiftWraps, SeenView};
pub use crate::transport::inbound::IncomingRequest;
use crate::transport::inbound::{
    classified, classify, progress_token, progress_token_of, unwrap_delivery, wrapped_delivery,
    Delivery, DeliveryView, Inbound, IncomingView,
};
use crate::transport::policy;
use crate::transport::policy::{
    announcement, borrowed_info, capability_tags, common_tags, info_tags, is_authorized,
    is_capability_list, is_excluded, kind_deletion, list_template, optional_info, response_wrap,
    unauthorized_view,
};
pub use crate::transport::server::config::NostrServerTransportConfig;
pub use crate::transport::server::correlation_store::ServerEventRouteStore;
use crate::transport::server::session_store::with_common_tags_sent;
pub use crate::transport::server::session_store::{SessionSnapshot, SessionStore};
use crate::util::string_map::{holds_text, StringMap};
use crate::util::text::{join, optional_str, same_text};
use crate::util::time::is_reading;
use vstd::prelude::*;

pub mod answer_laws;
pub mod cleanup;
pub mod config;
pub mod correlation_store;
pub mod frame_laws;
pub mod laws;
pub mod rule_laws;
pub mod run;
pub mod session_laws;
pub mod session_store;
pub mod store_laws;

verus! {

/// Server-side Nostr transport: receives MCP requests and sends responses.
pub struct NostrServerTransport {
    /// What client and server share.
    pub base: BaseTransport,
    /// Configuration for this server transport.
    pub config: NostrServerTransportConfig,
    /// Extra common discovery tags to include in server announcements and first responses.
    pub extra_common_tags: Vec<Tag>,
    /// Pricing tags to include in announcements and capability list responses.
    pub pricing_tags: Vec<Tag>,
    /// Client sessions.
    pub sessions: SessionStore,
    /// Reverse lookup: event id to client.
    pub event_routes: ServerEventRouteStore,
    /// The gift-wrap kind that each request came in, for mirroring.
    pub request_wrap_kinds: StringMap<Option<u16>>,
    /// Gift wraps that were opened, with an event inside that verified.
    /// An id is put in only then, so that what failed can be tried again.
    pub seen_gift_wrap_ids: SeenGiftWraps,
    /// Whether the receiver of incoming requests is still to be taken.
    pub has_message_receiver: bool,
}

/// What changes while a server runs.
pub struct ServerView {
    /// The sessions by client.
    pub sessions: Map<Seq<char>, SessionView>,
    /// The client that each pending request came from.
    pub routes: Map<Seq<char>, Seq<char>>,
    /// The gift wrap that each pending request came in.
    pub wrap_kinds: Map<Seq<char>, Option<u16>>,
    /// The gift wraps that were opened.
    pub seen: SeenView,
}

/// What stays as it is while a server runs.
pub struct ServerSettings {
    pub sending_mode: EncryptionMode,
    pub encryption_mode: EncryptionMode,
    pub gift_wrap_mode: GiftWrapMode,
    pub info: Option<InfoView>,
    pub allowed: Seq<String>,
    pub excluded: Seq<CapabilityExclusion>,
    pub extra: Seq<Seq<Seq<char>>>,
    pub pricing: Seq<Seq<Seq<char>>>,
}

impl ServerSettings {
    /// The tags that go with the first answer to a client.
    pub open spec fn common(self) -> Seq<Seq<Seq<char>>> {
        common_tags(self.info, self.extra, self.encryption_mode, self.gift_wrap_mode)
    }
}

impl NostrServerTransport {
    /// What changes while the server runs.
    pub open spec fn state(&self) -> ServerView {
        ServerView {
            sessions: self.sessions@,
            routes: self.event_routes@,
            wrap_kinds: self.request_wrap_kinds@,
            seen: self.seen_gift_wrap_ids@,
        }
    }

    /// What stays as it is while the server runs.
    pub open spec fn settings(&self) -> ServerSettings {
        ServerSettings {
            sending_mode: self.base.encryption_mode,
            encryption_mode: self.config.encryption_mode,
            gift_wrap_mode: self.config.gift_wrap_mode,
            info: optional_info(self.config.server_info),
            allowed: self.config.allowed_public_keys@,
            excluded: self.config.excluded_capabilities@,
            extra: tags_view(self.extra_common_tags@),
            pricing: tags_view(self.pricing_tags@),
        }
    }

    /// Whether nothing but the state differs.
    pub open spec fn same_setup(&self, other: &Self) -> bool {
        &&& self.base == other.base
        &&& self.config == other.config
        &&& self.has_message_receiver == other.has_message_receiver
        &&& self.extra_common_tags == other.extra_common_tags
        &&& self.pricing_tags == other.pricing_tags
    }
}

/// The answer to a request that a client may not make.
#[derive(Debug)]
pub struct Refusal {
    /// The answer.
    pub outgoing: Outgoing,
    /// Whether the common tags count as sent once the answer is out.
    pub marks_common_tags: bool,
}

/// What a [`Refusal`] says.
pub struct RefusalView {
    pub outgoing: OutgoingView,
    pub marks_common_tags: bool,
}

impl View for Refusal {
    type V = RefusalView;

    open spec fn view(&self) -> RefusalView {
        RefusalView { outgoing: self.outgoing@, marks_common_tags: self.marks_common_tags }
    }
}

/// What comes of a message.
#[derive(Debug)]
pub enum Handled {
    /// It is no valid message.
    Invalid,
    /// The client may not send it. A request is answered, the rest is dropped.
    Refused(Option<Refusal>),
    /// It is handed to the MCP server.
    Forward(IncomingRequest),
}

/// What a [`Handled`] says.
pub enum HandledView {
    Invalid,
    Refused(Option<RefusalView>),
    Forward(IncomingView),
}

impl View for Handled {
    type V = HandledView;

    open spec fn view(&self) -> HandledView {
        match *self {
            Handled::Invalid => HandledView::Invalid,
            Handled::Refused(Some(refusal)) => HandledView::Refused(Some(refusal@)),
            Handled::Refused(None) => HandledView::Refused(None),
            Handled::Forward(request) => HandledView::Forward(request@),
        }
    }
}

/// Whether a client is known and got the common tags already.
pub open spec fn got_common_tags(state: ServerView, client: Seq<char>) -> bool {
    state.sessions.contains_key(client) && state.sessions[client].has_sent_common_tags
}

/// The answer to a message that a client may not send.
pub open spec fn refusal(
    settings: ServerSettings,
    state: ServerView,
    delivery: DeliveryView,
    message: MessageView,
) -> Option<RefusalView> {
    match message {
        MessageView::Request(request) => Some(
            RefusalView {
                outgoing: sent_message(
                    settings.encryption_mode,
                    unauthorized_view(request.id),
                    delivery.sender,
                    CTXVM_MESSAGES_KIND,
                    response_tags(delivery.sender, delivery.event_id) + if got_common_tags(
                        state,
                        delivery.sender,
                    ) {
                        Seq::empty()
                    } else {
                        settings.common()
                    },
                    Some(delivery.is_encrypted),
                    response_wrap(
                        settings.gift_wrap_mode,
                        delivery.is_encrypted,
                        delivery.wrap_kind,
                    ),
                ),
                marks_common_tags: state.sessions.contains_key(delivery.sender)
                    && !state.sessions[delivery.sender].has_sent_common_tags,
            },
        ),
        _ => None,
    }
}

/// The session that a message finds: the client's, or a new one, with what the
/// message's own delivery says of the client.
pub open spec fn touched_session(
    state: ServerView,
    delivery: DeliveryView,
    moment: std::time::Instant,
) -> SessionView {
    let before = if state.sessions.contains_key(delivery.sender) {
        state.sessions[delivery.sender]
    } else {
        SessionView::fresh(delivery.is_encrypted, moment)
    };
    SessionView {
        is_encrypted: delivery.is_encrypted,
        last_activity: moment,
        supports_ephemeral_gift_wrap: before.supports_ephemeral_gift_wrap || delivery.wrap_kind
            == Some(EPHEMERAL_GIFT_WRAP_KIND),
        ..before
    }
}

/// A session that awaits the answer to one more request.
pub open spec fn with_request(
    session: SessionView,
    event_id: Seq<char>,
    request_id: JsonView,
    token: Option<Seq<char>>,
) -> SessionView {
    match token {
        Some(t) => SessionView {
            pending_requests: session.pending_requests.insert(event_id, request_id).insert(
                t,
                JsonView::Str(event_id),
            ),
            event_to_progress_token: session.event_to_progress_token.insert(event_id, t),
            ..session
        },
        None => SessionView {
            pending_requests: session.pending_requests.insert(event_id, request_id),
            ..session
        },
    }
}

/// The state once a message was accepted, at that moment.
pub open spec fn accepted(
    state: ServerView,
    delivery: DeliveryView,
    message: MessageView,
    moment: std::time::Instant,
) -> ServerView {
    let touched = touched_session(state, delivery, moment);
    match message {
        MessageView::Request(request) => ServerView {
            sessions: state.sessions.insert(
                delivery.sender,
                with_request(
                    touched,
                    delivery.event_id,
                    request.id,
                    progress_token(request.params),
                ),
            ),
            routes: state.routes.insert(delivery.event_id, delivery.sender),
            wrap_kinds: state.wrap_kinds.insert(delivery.event_id, delivery.wrap_kind),
            ..state
        },
        MessageView::Notification(notification) => ServerView {
            sessions: state.sessions.insert(
                delivery.sender,
                SessionView {
                    is_initialized: touched.is_initialized || notification.method
                        == NOTIFICATIONS_INITIALIZED_METHOD@,
                    ..touched
                },
            ),
            ..state
        },
        _ => ServerView { sessions: state.sessions.insert(delivery.sender, touched), ..state },
    }
}

/// Whether a state is the one once a message was accepted, at a moment that the
/// clock gave: the last activity of the sender's session.
pub open spec fn is_accepted(
    before: ServerView,
    delivery: DeliveryView,
    message: MessageView,
    after: ServerView,
) -> bool {
    let moment = after.sessions[delivery.sender].last_activity;
    is_reading(moment) && after == accepted(before, delivery, message, moment)
}

/// A message as it is handed to the MCP server.
pub open spec fn forwarded(delivery: DeliveryView, message: MessageView) -> IncomingView {
    IncomingView {
        message,
        client_pubkey: delivery.sender,
        event_id: delivery.event_id,
        is_encrypted: delivery.is_encrypted,
    }
}

/// A response that is ready to be sent.
#[derive(Debug)]
pub struct PlannedResponse {
    /// The response.
    pub outgoing: Outgoing,
    /// The client that it goes to.
    pub client_pubkey: String,
    /// Whether the common tags go with it.
    pub sends_common_tags: bool,
}

/// What a [`PlannedResponse`] says.
pub struct PlannedView {
    pub outgoing: OutgoingView,
    pub client_pubkey: Seq<char>,
    pub sends_common_tags: bool,
}

impl View for PlannedResponse {
    type V = PlannedView;

    open spec fn view(&self) -> PlannedView {
        PlannedView {
            outgoing: self.outgoing@,
            client_pubkey: self.client_pubkey@,
            sends_common_tags: self.sends_common_tags,
        }
    }
}

/// A response with the id of the request that it answers.
pub open spec fn restored(
    session: SessionView,
    event_id: Seq<char>,
    response: MessageView,
) -> MessageView {
    if session.pending_requests.contains_key(event_id) {
        response.answering(session.pending_requests[event_id])
    } else {
        response
    }
}

/// The gift wrap that a request came in.
pub open spec fn request_wrap(state: ServerView, event_id: Seq<char>) -> Option<u16> {
    if state.wrap_kinds.contains_key(event_id) {
        state.wrap_kinds[event_id]
    } else {
        None
    }
}

/// The tags that go with a response beside those that address it: all the common
/// tags with the first, and the pricing tags with a list of capabilities.
pub open spec fn extra_response_tags(
    settings: ServerSettings,
    session: SessionView,
    response: MessageView,
) -> Seq<Seq<Seq<char>>> {
    (if session.has_sent_common_tags {
        Seq::empty()
    } else {
        settings.common()
    }) + (if is_capability_list(response) {
        settings.pricing
    } else {
        Seq::empty()
    })
}

/// The response to a request, on its way to the client that sent it.
pub open spec fn planned(
    settings: ServerSettings,
    state: ServerView,
    event_id: Seq<char>,
    response: MessageView,
) -> PlannedView {
    let client = state.routes[event_id];
    let session = state.sessions[client];
    let key = hex_id(client)->0;
    let answer = restored(session, event_id, response);
    PlannedView {
        outgoing: sent_message(
            settings.sending_mode,
            answer,
            key,
            CTXVM_MESSAGES_KIND,
            response_tags(key, hex_id(event_id)->0) + extra_response_tags(settings, session, answer),
            Some(session.is_encrypted),
            response_wrap(
                settings.gift_wrap_mode,
                session.is_encrypted,
                request_wrap(state, event_id),
            ),
        ),
        client_pubkey: client,
        sends_common_tags: !session.has_sent_common_tags,
    }
}

/// What comes of the response to a request: it is on its way, or it has nowhere
/// to go.
pub open spec fn response_outcome(
    settings: ServerSettings,
    state: ServerView,
    event_id: Seq<char>,
    response: MessageView,
) -> Result<PlannedView, Seq<char>> {
    let client = state.routes[event_id];
    if !state.routes.contains_key(event_id) {
        Err("No client found for event "@ + event_id)
    } else if !state.sessions.contains_key(client) {
        Err("No session for client "@ + client)
    } else if hex_id(client) is None {
        Err(public_key_error(client))
    } else if hex_id(event_id) is None {
        Err(event_id_error(event_id))
    } else {
        Ok(planned(settings, state, event_id, response))
    }
}

/// A session that no longer awaits the answer to a request.
pub open spec fn without_request(session: SessionView, event_id: Seq<char>) -> SessionView {
    SessionView {
        pending_requests: if session.event_to_progress_token.contains_key(event_id) {
            session.pending_requests.remove(session.event_to_progress_token[event_id]).remove(
                event_id,
            )
        } else {
            session.pending_requests.remove(event_id)
        },
        event_to_progress_token: session.event_to_progress_token.remove(event_id),
        ..session
    }
}

/// The state once the response to a request is out.
pub open spec fn responded(
    state: ServerView,
    event_id: Seq<char>,
    client: Seq<char>,
    sent_common_tags: bool,
) -> ServerView {
    let marked = if sent_common_tags {
        with_common_tags_sent(state.sessions, client)
    } else {
        state.sessions
    };
    ServerView {
        sessions: if marked.contains_key(client) {
            marked.insert(client, without_request(marked[client], event_id))
        } else {
            marked
        },
        routes: state.routes.remove(event_id),
        wrap_kinds: state.wrap_kinds.remove(event_id),
        ..state
    }
}

/// The gift wrap that a notification is sent in.
pub open spec fn notification_wrap(
    mode: GiftWrapMode,
    encrypted: bool,
    mirrored: Option<u16>,
    supports_ephemeral: bool,
) -> Option<u16> {
    if !encrypted {
        None
    } else {
        match mode {
            GiftWrapMode::Ephemeral => Some(EPHEMERAL_GIFT_WRAP_KIND),
            GiftWrapMode::Persistent => Some(GIFT_WRAP_KIND),
            GiftWrapMode::Optional => match mirrored {
                Some(kind) => if kind == EPHEMERAL_GIFT_WRAP_KIND {
                    Some(EPHEMERAL_GIFT_WRAP_KIND)
                } else {
                    Some(GIFT_WRAP_KIND)
                },
                None => if supports_ephemeral {
                    Some(EPHEMERAL_GIFT_WRAP_KIND)
                } else {
                    Some(GIFT_WRAP_KIND)
                },
            },
        }
    }
}

/// A notification on its way to a client, as part of the work on a request where
/// one is given.
pub open spec fn notified(
    settings: ServerSettings,
    state: ServerView,
    client: Seq<char>,
    notification: MessageView,
    correlated: Option<Seq<char>>,
) -> OutgoingView {
    let session = state.sessions[client];
    let key = hex_id(client)->0;
    sent_message(
        settings.sending_mode,
        notification,
        key,
        CTXVM_MESSAGES_KIND,
        match correlated {
            Some(event_id) => response_tags(key, hex_id(event_id)->0),
            None => recipient_tags(key),
        },
        Some(session.is_encrypted),
        notification_wrap(
            settings.gift_wrap_mode,
            session.is_encrypted,
            match correlated {
                Some(event_id) => request_wrap(state, event_id),
                None => None,
            },
            session.supports_ephemeral_gift_wrap,
        ),
    )
}

/// What comes of a notification: it is on its way, or it has nowhere to go.
pub open spec fn notification_outcome(
    settings: ServerSettings,
    state: ServerView,
    client: Seq<char>,
    notification: MessageView,
    correlated: Option<Seq<char>>,
) -> Result<OutgoingView, Seq<char>> {
    if !state.sessions.contains_key(client) {
        Err("No session for "@ + client)
    } else if hex_id(client) is None {
        Err(public_key_error(client))
    } else if correlated is Some && hex_id(correlated->0) is None {
        Err(event_id_error(correlated->0))
    } else {
        Ok(notified(settings, state, client, notification, correlated))
    }
}

/// Whether a client is known and has completed its initialization.
pub open spec fn is_initialized(state: ServerView, client: Seq<char>) -> bool {
    state.sessions.contains_key(client) && state.sessions[client].is_initialized
}

/// The notification to a client that it is broadcast to: where the client is
/// initialized and it can be sent to.
pub open spec fn broadcast_to(
    settings: ServerSettings,
    state: ServerView,
    client: Seq<char>,
    notification: MessageView,
) -> Option<OutgoingView> {
    match notification_outcome(settings, state, client, notification, None) {
        Ok(outgoing) => if is_initialized(state, client) {
            Some(outgoing)
        } else {
            None
        },
        Err(_) => None,
    }
}

impl NostrServerTransport {
    /// Whether this is a server as it is created.
    pub open spec fn is_fresh(&self, config: NostrServerTransportConfig) -> bool {
        &&& self.config == config
        &&& self.base == (BaseTransport {
            encryption_mode: config.encryption_mode,
            is_connected: false,
        })
        &&& self.extra_common_tags@.len() == 0
        &&& self.pricing_tags@.len() == 0
        &&& self.has_message_receiver
        &&& self.state() == (ServerView {
            sessions: Map::empty(),
            routes: Map::empty(),
            wrap_kinds: Map::empty(),
            seen: SeenView { ids: Seq::empty(), capacity: DEFAULT_LRU_SIZE as nat },
        })
    }

    /// Create a new server transport.
    pub fn new(config: NostrServerTransportConfig) -> (transport: Self)
        ensures
            transport.is_fresh(config),
    {
        NostrServerTransport {
            base: BaseTransport { encryption_mode: config.encryption_mode, is_connected: false },
            config,
            extra_common_tags: Vec::new(),
            pricing_tags: Vec::new(),
            sessions: SessionStore::new(),
            event_routes: ServerEventRouteStore::new(),
            request_wrap_kinds: StringMap::new(),
            seen_gift_wrap_ids: SeenGiftWraps::new(DEFAULT_LRU_SIZE),
            has_message_receiver: true,
        }
    }

    /// Decides the next step of starting to listen for incoming requests.
    pub fn start(&mut self, event: StartEvent) -> (action: StartAction)
        ensures
            final(self).state() == old(self).state(),
            final(self).config == old(self).config,
            final(self).extra_common_tags == old(self).extra_common_tags,
            final(self).pricing_tags == old(self).pricing_tags,
            final(self).base.encryption_mode == old(self).base.encryption_mode,
            final(self).base.is_connected == connected_after(
                old(self).base.is_connected,
                event,
            ),
            is_start_step(old(self).base.is_connected, event, action),
            final(self).has_message_receiver == old(self).has_message_receiver,
    {
        self.base.start(event)
    }

    /// Close the transport, given how disconnecting the relays went.
    pub fn close(&mut self, attempt: Result<(), Error>) -> (result: Result<(), Error>)
        ensures
            result == if old(self).base.is_connected {
                attempt
            } else {
                Ok::<(), Error>(())
            },
            result is Err ==> *final(self) == *old(self),
            result is Ok ==> {
                &&& final(self).base == (BaseTransport { is_connected: false, ..old(self).base })
                &&& final(self).config == old(self).config
                &&& final(self).has_message_receiver == old(self).has_message_receiver
                &&& final(self).extra_common_tags == old(self).extra_common_tags
                &&& final(self).pricing_tags == old(self).pricing_tags
                &&& final(self).state() == (ServerView {
                    sessions: Map::empty(),
                    routes: Map::empty(),
                    ..old(self).state()
                })
            },
    {
        let result = self.base.disconnect(attempt);
        if result.is_ok() {
            self.sessions.clear();
            self.event_routes.clear();
        }
        result
    }

    /// Decides what is to be done with an event.
    pub fn on_event(&self, event: &Event) -> (inbound: Inbound)
        ensures
            inbound@ == classified(
                self.config.encryption_mode,
                self.config.gift_wrap_mode,
                self.state().seen.ids.contains(event.id@),
                event@,
            ),
    {
        let is_seen = self.seen_gift_wrap_ids.contains(event.id.to_hex().as_str());
        classify(self.config.encryption_mode, self.config.gift_wrap_mode, is_seen, event)
    }

    /// Takes the event out of a gift wrap; `None` where there is none that
    /// verifies. Only an event that verifies makes the gift wrap count as opened.
    pub fn on_unwrapped(&mut self, wrap: &Event, inner: Option<Event>) -> (delivery: Option<Delivery>)
        ensures
            final(self).same_setup(old(self)),
            match inner {
                Some(event) => {
                    &&& delivery is Some && delivery->0@ == wrapped_delivery(event@, wrap.kind)
                    &&& final(self).state() == (ServerView {
                        seen: old(self).state().seen.remember(wrap.id@),
                        ..old(self).state()
                    })
                },
                None => delivery is None && *final(self) == *old(self),
            },
    {
        match inner {
            Some(event) => {
                self.seen_gift_wrap_ids.put(wrap.id.to_hex());
                Some(unwrap_delivery(event, wrap.kind))
            },
            None => None,
        }
    }

    /// Takes what a gift wrap was decrypted to, or the failure to decrypt it.
    pub fn on_decrypted(&mut self, wrap: &Event, decrypted: Result<String, Error>) -> (delivery:
        Option<Delivery>)
        ensures
            final(self).same_setup(old(self)),
            match decrypted {
                Ok(text) => match verified_event(text@) {
                    Some(inner) => {
                        &&& delivery is Some && delivery->0@ == wrapped_delivery(inner, wrap.kind)
                        &&& final(self).state() == (ServerView {
                            seen: old(self).state().seen.remember(wrap.id@),
                            ..old(self).state()
                        })
                    },
                    None => delivery is None && *final(self) == *old(self),
                },
                Err(_) => delivery is None && *final(self) == *old(self),
            },
    {
        match decrypted {
            Ok(text) => {
                let inner = read_verified_event(text.as_str());
                self.on_unwrapped(wrap, inner)
            },
            Err(_) => None,
        }
    }

    /// The answer to a message that a client may not send.
    fn refuse(&self, message: &JsonRpcMessage, delivery: &Delivery) -> (reply: Option<Refusal>)
        ensures
            match reply {
                Some(r) => refusal(self.settings(), self.state(), delivery@, message@) == Some(r@),
                None => refusal(self.settings(), self.state(), delivery@, message@) is None,
            },
    {
        match message {
            JsonRpcMessage::Request(request) => {
                let sender = delivery.sender.to_hex();
                let mut tags = BaseTransport::create_response_tags(
                    &delivery.sender,
                    &delivery.event_id,
                );
                let ghost plain = tags_view(tags@);
                let snapshot = self.sessions.get_session(sender.as_str());
                let known = snapshot.is_some();
                let sent = match snapshot {
                    Some(taken) => taken.has_sent_common_tags,
                    None => false,
                };
                if !sent {
                    Self::append_common_response_tags(
                        &mut tags,
                        self.config.server_info.as_ref(),
                        self.extra_common_tags.as_slice(),
                        self.config.encryption_mode,
                        self.config.gift_wrap_mode,
                    );
                } else {
                    proof {
                        assert(plain =~= plain + Seq::<Seq<Seq<char>>>::empty());
                    }
                }
                let replying = BaseTransport {
                    encryption_mode: self.config.encryption_mode,
                    is_connected: true,
                };
                let outgoing = replying.send_mcp_message(
                    &Self::unauthorized_error_response(&request.id),
                    &delivery.sender,
                    CTXVM_MESSAGES_KIND,
                    tags,
                    Some(delivery.is_encrypted),
                    Self::select_outbound_gift_wrap_kind(
                        self.config.gift_wrap_mode,
                        delivery.is_encrypted,
                        delivery.wrap_kind,
                    ),
                );
                Some(Refusal { outgoing, marks_common_tags: known && !sent })
            },
            _ => None,
        }
    }

    /// Takes note that the answer to a request that a client may not make is out.
    pub fn refusal_sent(&mut self, client: &PublicKey, refusal: &Refusal)
        ensures
            final(self).same_setup(old(self)),
            final(self).state() == (ServerView {
                sessions: if refusal.marks_common_tags {
                    with_common_tags_sent(old(self).state().sessions, client@)
                } else {
                    old(self).state().sessions
                },
                ..old(self).state()
            }),
    {
        if refusal.marks_common_tags {
            let _ = self.sessions.mark_common_tags_sent(client.to_hex().as_str());
        }
    }

    /// Keeps what a message says in the client's session.
    fn accept(&mut self, message: &JsonRpcMessage, delivery: &Delivery)
        ensures
            final(self).same_setup(old(self)),
            is_accepted(old(self).state(), delivery@, message@, final(self).state()),
    {
        let sender = delivery.sender.to_hex();
        let event_id = delivery.event_id.to_hex();
        let mut session = match self.sessions.sessions.remove(sender.as_str()) {
            Some(found) => found,
            None => ClientSession::new(delivery.is_encrypted),
        };
        session.update_activity();
        let ghost moment = session@.last_activity;
        session.is_encrypted = delivery.is_encrypted;
        if let Some(kind) = delivery.wrap_kind {
            if kind == EPHEMERAL_GIFT_WRAP_KIND {
                session.supports_ephemeral_gift_wrap = true;
            }
        }
        assert(session@ == touched_session(old(self).state(), delivery@, moment));
        match message {
            JsonRpcMessage::Request(request) => {
                let token = progress_token_of(&request.params);
                self.request_wrap_kinds.insert(event_id.clone(), delivery.wrap_kind);
                session.pending_requests.insert(event_id.clone(), request.id.clone());
                if let Some(token) = token {
                    session.pending_requests.insert(token.clone(), Json::String(event_id.clone()));
                    session.event_to_progress_token.insert(event_id.clone(), token);
                }
                self.event_routes.register(event_id, sender.clone());
            },
            JsonRpcMessage::Notification(notification) => {
                if same_text(notification.method.as_str(), NOTIFICATIONS_INITIALIZED_METHOD) {
                    session.is_initialized = true;
                }
            },
            _ => {},
        }
        self.sessions.sessions.insert(sender, session);
        proof {
            assert(self.sessions@ =~= accepted(
                old(self).state(),
                delivery@,
                message@,
                moment,
            ).sessions);
        }
    }

    /// Takes a message, once read, to its client's session.
    pub fn on_message(&mut self, message: JsonRpcMessage, delivery: &Delivery) -> (handled: Handled)
        ensures
            final(self).same_setup(old(self)),
            if is_authorized(
                old(self).config.allowed_public_keys@,
                old(self).config.excluded_capabilities@,
                delivery@.sender,
                message@,
            ) {
                &&& handled@ == HandledView::Forward(forwarded(delivery@, message@))
                &&& is_accepted(old(self).state(), delivery@, message@, final(self).state())
            } else {
                &&& handled@ == HandledView::Refused(
                    refusal(old(self).settings(), old(self).state(), delivery@, message@),
                )
                &&& *final(self) == *old(self)
            },
    {
        if !policy::authorizes(
            &self.config.allowed_public_keys,
            self.config.excluded_capabilities.as_slice(),
            delivery.sender.to_hex().as_str(),
            &message,
        ) {
            return Handled::Refused(self.refuse(&message, delivery));
        }
        self.accept(&message, delivery);
        Handled::Forward(
            IncomingRequest {
                message,
                client_pubkey: delivery.sender.to_hex(),
                event_id: delivery.event_id.to_hex(),
                is_encrypted: delivery.is_encrypted,
            },
        )
    }

    /// Reads the message of a delivery and takes it to its client's session.
    pub fn on_delivery(&mut self, delivery: &Delivery) -> (handled: Handled)
        ensures
            final(self).same_setup(old(self)),
            match valid_content(delivery@.content) {
                None => handled@ is Invalid && *final(self) == *old(self),
                Some(message) => if is_authorized(
                    old(self).config.allowed_public_keys@,
                    old(self).config.excluded_capabilities@,
                    delivery@.sender,
                    message,
                ) {
                    &&& handled@ == HandledView::Forward(forwarded(delivery@, message))
                    &&& is_accepted(old(self).state(), delivery@, message, final(self).state())
                } else {
                    &&& handled@ == HandledView::Refused(
                        refusal(old(self).settings(), old(self).state(), delivery@, message),
                    )
                    &&& *final(self) == *old(self)
                },
            },
    {
        match validate_and_parse(delivery.content.as_str()) {
            Some(message) => self.on_message(message, delivery),
            None => Handled::Invalid,
        }
    }

    /// Prepares a response for the client that sent the original request.
    pub fn send_response(&self, event_id: &str, response: JsonRpcMessage) -> (result: Result<
        PlannedResponse,
        Error,
    >)
        ensures
            is_outcome(
                result,
                response_outcome(self.settings(), self.state(), event_id@, response@),
            ),
    {
        let client_pubkey_hex = match self.event_routes.get(event_id) {
            Some(client) => client,
            None => {
                return Err(Error::Other(join("No client found for event ", event_id)));
            },
        };
        let session = match self.sessions.sessions.get(client_pubkey_hex.as_str()) {
            Some(session) => session,
            None => {
                return Err(
                    Error::Other(join("No session for client ", client_pubkey_hex.as_str())),
                );
            },
        };

        // Restore original request ID
        let response = match session.pending_requests.get(event_id) {
            Some(original_id) => response.with_id(original_id),
            None => response,
        };

        // Look up the incoming wrap kind for mirroring
        let mirrored_wrap_kind = match self.request_wrap_kinds.get(event_id) {
            Some(kind) => *kind,
            None => None,
        };
        let client_pubkey = match PublicKey::from_hex(client_pubkey_hex.as_str()) {
            Ok(key) => key,
            Err(error) => {
                return Err(error);
            },
        };
        let event_id_parsed = match EventId::from_hex(event_id) {
            Ok(id) => id,
            Err(error) => {
                return Err(error);
            },
        };
        let mut tags = BaseTransport::create_response_tags(&client_pubkey, &event_id_parsed);
        let ghost plain = tags_view(tags@);

        // Send server info and capabilities on the first response.
        let sends_common_tags = !session.has_sent_common_tags;
        if sends_common_tags {
            Self::append_common_response_tags(
                &mut tags,
                self.config.server_info.as_ref(),
                self.extra_common_tags.as_slice(),
                self.config.encryption_mode,
                self.config.gift_wrap_mode,
            );
        }
        if policy::is_capability_list_response(&response) {
            extend_tags(&mut tags, self.pricing_tags.as_slice());
        }
        proof {
            assert(tags_view(tags@) =~= plain + extra_response_tags(
                self.settings(),
                session@,
                response@,
            ));
        }
        let outgoing = self.base.send_mcp_message(
            &response,
            &client_pubkey,
            CTXVM_MESSAGES_KIND,
            tags,
            Some(session.is_encrypted),
            Self::select_outbound_gift_wrap_kind(
                self.config.gift_wrap_mode,
                session.is_encrypted,
                mirrored_wrap_kind,
            ),
        );
        Ok(PlannedResponse { outgoing, client_pubkey: client_pubkey_hex, sends_common_tags })
    }

    /// Takes note that a response is out: its request is no longer pending.
    pub fn response_sent(&mut self, event_id: &str, sent: &PlannedResponse)
        ensures
            final(self).same_setup(old(self)),
            final(self).state() == responded(
                old(self).state(),
                event_id@,
                sent@.client_pubkey,
                sent@.sends_common_tags,
            ),
    {
        if sent.sends_common_tags {
            let _ = self.sessions.mark_common_tags_sent(sent.client_pubkey.as_str());
        }
        let ghost marked = self.sessions@;
        let _ = self.event_routes.pop(event_id);
        match self.sessions.sessions.remove(sent.client_pubkey.as_str()) {
            Some(found) => {
                let mut session = found;
                // Clean up progress token
                if let Some(token) = session.event_to_progress_token.remove(event_id) {
                    let _ = session.pending_requests.remove(token.as_str());
                }
                let _ = session.pending_requests.remove(event_id);
                proof {
                    let before = marked[sent@.client_pubkey];
                    if !before.event_to_progress_token.contains_key(event_id@) {
                        assert(before.event_to_progress_token.remove(event_id@)
                            =~= before.event_to_progress_token);
                    }
                    assert(session@ == without_request(before, event_id@));
                }
                self.sessions.sessions.insert(sent.client_pubkey.clone(), session);
                proof {
                    assert(self.sessions@ =~= marked.insert(
                        sent@.client_pubkey,
                        without_request(marked[sent@.client_pubkey], event_id@),
                    ));
                }
            },
            None => {
                proof {
                    assert(self.sessions@ =~= marked);
                }
            },
        }
        let _ = self.request_wrap_kinds.remove(event_id);
    }

    /// Prepares a notification for a specific client.
    pub fn send_notification(
        &self,
        client_pubkey_hex: &str,
        notification: &JsonRpcMessage,
        correlated_event_id: Option<&str>,
    ) -> (result: Result<Outgoing, Error>)
        ensures
            is_outcome(
                result,
                notification_outcome(
                    self.settings(),
                    self.state(),
                    client_pubkey_hex@,
                    notification@,
                    optional_str(correlated_event_id),
                ),
            ),
    {
        let session = match self.sessions.sessions.get(client_pubkey_hex) {
            Some(session) => session,
            None => {
                return Err(Error::Other(join("No session for ", client_pubkey_hex)));
            },
        };
        let client_pubkey = match PublicKey::from_hex(client_pubkey_hex) {
            Ok(key) => key,
            Err(error) => {
                return Err(error);
            },
        };
        let mut tags = BaseTransport::create_recipient_tags(&client_pubkey);
        let mut correlated_wrap_kind: Option<u16> = None;
        if let Some(eid) = correlated_event_id {
            let event_id = match EventId::from_hex(eid) {
                Ok(id) => id,
                Err(error) => {
                    return Err(error);
                },
            };
            push_tag(&mut tags, Tag::event(&event_id));
            proof {
                assert(tags_view(tags@) =~= response_tags(client_pubkey@, event_id@));
            }
            // Look up mirrored wrap kind from correlated request
            correlated_wrap_kind = match self.request_wrap_kinds.get(eid) {
                Some(kind) => *kind,
                None => None,
            };
        }
        Ok(
            self.base.send_mcp_message(
                notification,
                &client_pubkey,
                CTXVM_MESSAGES_KIND,
                tags,
                Some(session.is_encrypted),
                Self::select_outbound_notification_gift_wrap_kind(
                    self.config.gift_wrap_mode,
                    session.is_encrypted,
                    correlated_wrap_kind,
                    session.supports_ephemeral_gift_wrap,
                ),
            ),
        )
    }

    /// The notification to a client that it is broadcast to: where the client is
    /// initialized and it can be sent to.
    fn notify_initialized(&self, client: &str, notification: &JsonRpcMessage) -> (outgoing: Option<
        Outgoing,
    >)
        ensures
            optional_outgoing(outgoing) == broadcast_to(
                self.settings(),
                self.state(),
                client@,
                notification@,
            ),
    {
        let initialized = match self.sessions.sessions.get(client) {
            Some(session) => session.is_initialized,
            None => false,
        };
        if initialized {
            match self.send_notification(client, notification, None) {
                Ok(outgoing) => Some(outgoing),
                Err(_) => None,
            }
        } else {
            None
        }
    }

    /// Prepares a notification for all initialized clients: one for each that it
    /// can be sent to.
    pub fn broadcast_notification(&self, notification: &JsonRpcMessage) -> (sent: Vec<
        (String, Outgoing),
    >)
        ensures
            is_broadcast(
                sent@,
                |client: Seq<char>|
                    broadcast_to(self.settings(), self.state(), client, notification@),
            ),
    {
        let clients = self.sessions.sessions.keys();
        let prepare = |client: &str| -> (outgoing: Option<Outgoing>)
            ensures
                optional_outgoing(outgoing) == broadcast_to(
                    self.settings(),
                    self.state(),
                    client@,
                    notification@,
                ),
            { self.notify_initialized(client, notification) };
        let ghost reached = |client: Seq<char>|
            broadcast_to(self.settings(), self.state(), client, notification@);
        proof {
            assert forall|client: Seq<char>| #[trigger] reached(client) is Some implies holds_text(
                clients@,
                client,
            ) by {
                assert(self.state().sessions.contains_key(client));
            }
        }
        send_to_each(&clients, prepare, Ghost(reached))
    }

    /// Take the message receiver for consuming incoming requests. Returns
    /// whether it was still to be taken.
    pub fn take_message_receiver(&mut self) -> (taken: bool)
        ensures
            taken == old(self).has_message_receiver,
            *final(self) == (NostrServerTransport { has_message_receiver: false, ..*old(self) }),
    {
        let taken = self.has_message_receiver;
        self.has_message_receiver = false;
        taken
    }

    /// Sets extra discovery tags to include in announcements and first-response discovery replay.
    pub fn set_announcement_extra_tags(&mut self, tags: Vec<Tag>)
        ensures
            *final(self) == (NostrServerTransport { extra_common_tags: tags, ..*old(self) }),
    {
        self.extra_common_tags = tags;
    }

    /// Sets pricing tags to include in announcement/list events and capability list responses.
    pub fn set_announcement_pricing_tags(&mut self, tags: Vec<Tag>)
        ensures
            *final(self) == (NostrServerTransport { pricing_tags: tags, ..*old(self) }),
    {
        self.pricing_tags = tags;
    }

    /// Prepares the server announcement.
    pub fn announce(&self) -> (template: Result<EventTemplate, Error>)
        ensures
            match self.config.server_info {
                Some(info) => template is Ok && template->Ok_0@ == announcement(
                    info@,
                    self.config.encryption_mode,
                    self.config.gift_wrap_mode,
                    tags_view(self.extra_common_tags@),
                    tags_view(self.pricing_tags@),
                ),
                None => is_other(template, "No server info configured"@),
            },
    {
        policy::announce(
            self.config.server_info.as_ref(),
            self.config.encryption_mode,
            self.config.gift_wrap_mode,
            self.extra_common_tags.as_slice(),
            self.pricing_tags.as_slice(),
        )
    }

    /// Prepares the tools list.
    pub fn publish_tools(&self, tools: Vec<Json>) -> (template: EventTemplate)
        ensures
            template@ == list_template(
                crate::protocol::constants::TOOLS_LIST_KIND,
                "tools"@,
                items_view(tools@),
                tags_view(self.pricing_tags@),
            ),
    {
        policy::publish_tools(tools, self.pricing_tags.as_slice())
    }

    /// Prepares the resources list.
    pub fn publish_resources(&self, resources: Vec<Json>) -> (template: EventTemplate)
        ensures
            template@ == list_template(
                crate::protocol::constants::RESOURCES_LIST_KIND,
                "resources"@,
                items_view(resources@),
                tags_view(self.pricing_tags@),
            ),
    {
        policy::publish_resources(resources, self.pricing_tags.as_slice())
    }

    /// Prepares the prompts list.
    pub fn publish_prompts(&self, prompts: Vec<Json>) -> (template: EventTemplate)
        ensures
            template@ == list_template(
                crate::protocol::constants::PROMPTS_LIST_KIND,
                "prompts"@,
                items_view(prompts@),
                tags_view(self.pricing_tags@),
            ),
    {
        policy::publish_prompts(prompts, self.pricing_tags.as_slice())
    }

    /// Prepares the resource templates list.
    pub fn publish_resource_templates(&self, templates: Vec<Json>) -> (template: EventTemplate)
        ensures
            template@ == list_template(
                crate::protocol::constants::RESOURCETEMPLATES_LIST_KIND,
                "resourceTemplates"@,
                items_view(templates@),
                tags_view(self.pricing_tags@),
            ),
    {
        policy::publish_resource_templates(templates, self.pricing_tags.as_slice())
    }

    /// Prepares the deletion of the server announcements: one request for each
    /// announcement kind.
    pub fn delete_announcements(&self, reason: &str) -> (templates: Vec<EventTemplate>)
        ensures
            templates@.len() == UNENCRYPTED_KINDS@.len(),
            forall|i: int|
                0 <= i < templates@.len() ==> (#[trigger] templates@[i])@ == kind_deletion(
                    reason@,
                    UNENCRYPTED_KINDS@[i],
                ),
    {
        policy::delete_announced_kinds(reason)
    }

    /// Whether anybody may call that method, on that capability.
    pub fn is_capability_excluded(
        excluded: &[CapabilityExclusion],
        method: &str,
        name: Option<&str>,
    ) -> (answer: bool)
        ensures
            answer == is_excluded(excluded@, method@, optional_str(name)),
    {
        policy::is_capability_excluded(excluded, method, name)
    }

    /// The tags that describe a server.
    pub fn server_info_tags(server_info: Option<&ServerInfo>) -> (created: Vec<Tag>)
        ensures
            tags_view(created@) == info_tags(borrowed_info(server_info)),
    {
        policy::server_info_tags(server_info)
    }

    /// Adds the tags that say what a server supports.
    pub fn append_transport_capability_tags(
        tags: &mut Vec<Tag>,
        encryption_mode: EncryptionMode,
        gift_wrap_mode: GiftWrapMode,
    )
        ensures
            tags_view(final(tags)@) == tags_view(old(tags)@) + capability_tags(
                encryption_mode,
                gift_wrap_mode,
            ),
    {
        policy::append_transport_capability_tags(tags, encryption_mode, gift_wrap_mode)
    }

    /// Adds the tags that go with the first answer to a client.
    pub fn append_common_response_tags(
        tags: &mut Vec<Tag>,
        server_info: Option<&ServerInfo>,
        extra_common_tags: &[Tag],
        encryption_mode: EncryptionMode,
        gift_wrap_mode: GiftWrapMode,
    )
        ensures
            tags_view(final(tags)@) == tags_view(old(tags)@) + common_tags(
                borrowed_info(server_info),
                tags_view(extra_common_tags@),
                encryption_mode,
                gift_wrap_mode,
            ),
    {
        policy::append_common_response_tags(
            tags,
            server_info,
            extra_common_tags,
            encryption_mode,
            gift_wrap_mode,
        )
    }

    /// The answer to a request that a client may not make.
    pub fn unauthorized_error_response(request_id: &Json) -> (message: JsonRpcMessage)
        ensures
            message@ == unauthorized_view(request_id@),
    {
        policy::unauthorized_error_response(request_id)
    }

    /// Select the outbound gift-wrap kind for a correlated response.
    pub fn select_outbound_gift_wrap_kind(
        gift_wrap_mode: GiftWrapMode,
        is_encrypted: bool,
        mirrored_kind: Option<u16>,
    ) -> (kind: Option<u16>)
        ensures
            kind == response_wrap(gift_wrap_mode, is_encrypted, mirrored_kind),
    {
        policy::select_outbound_gift_wrap_kind(gift_wrap_mode, is_encrypted, mirrored_kind)
    }

    /// Select the outbound gift-wrap kind for a notification.
    pub fn select_outbound_notification_gift_wrap_kind(
        gift_wrap_mode: GiftWrapMode,
        is_encrypted: bool,
        mirrored_kind: Option<u16>,
        supports_ephemeral: bool,
    ) -> (kind: Option<u16>)
        ensures
            kind == notification_wrap(
                gift_wrap_mode,
                is_encrypted,
                mirrored_kind,
                supports_ephemeral,
            ),
    {
        if !is_encrypted {
            return None;
        }
        match gift_wrap_mode {
            GiftWrapMode::Ephemeral => Some(EPHEMERAL_GIFT_WRAP_KIND),
            GiftWrapMode::Persistent => Some(GIFT_WRAP_KIND),
            GiftWrapMode::Optional => match mirrored_kind {
                Some(kind) => if kind == EPHEMERAL_GIFT_WRAP_KIND {
                    Some(EPHEMERAL_GIFT_WRAP_KIND)
                } else {
                    Some(GIFT_WRAP_KIND)
                },
                None => if supports_ephemeral {
                    Some(EPHEMERAL_GIFT_WRAP_KIND)
                } else {
                    Some(GIFT_WRAP_KIND)
                },
            },
        }
    }
}

} // verus!
