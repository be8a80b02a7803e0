//! Client-side Nostr transport.
//!
//! Sends MCP messages to a server over Nostr and matches each answer to its
//! request by the `e` tag. Signing, encryption and the relays are left to the
//! caller: each step takes what has happened and says what is to be done.

use crate::protocol::constants::{
    mcp_protocol_version, tags, CTXVM_MESSAGES_KIND, DEFAULT_LRU_SIZE, EPHEMERAL_GIFT_WRAP_KIND,
    GIFT_WRAP_KIND, INITIALIZE_METHOD, JSONRPC_VERSION, MCP_PROTOCOL_VERSION,
    NOTIFICATIONS_INITIALIZED_METHOD,
};
use crate::protocol::error::{is_other, Error};
use crate::protocol::json::{Json, JsonView};
use crate::protocol::nostr::{
    hex_id, public_key_error, read_verified_event, verified_event, Event, EventId, EventView,
    PublicKey,
};
use crate::protocol::serializers::{get_tag_value, tag_value};
use crate::protocol::types::{
    is_wrap_kind, EncryptionMode, GiftWrapMode, JsonRpcMessage, JsonRpcResponse, MessageView,
    ResponseView,
};
use crate::protocol::validation::{valid_content, validate_and_parse};
use crate::protocol::wire::push_member;
use crate::transport::base::{
    connected_after, is_start_step, recipient_tags, sent_message, BaseTransport, Outgoing,
    OutgoingView, StartAction, StartEvent,
};
use crate::transport::client::correlation_store::ClientCorrelationStore;
use crate::transport::dedup::{law_remembered_while_there_is_room, SeenGiftWraps, SeenView};
use crate::util::text::{join, optional_text, same_text};
use crate::util::time::Duration;
use vstd::prelude::*;

pub mod correlation_store;
pub mod laws;

verus! {

/// Configuration for the client transport.
#[derive(Debug)]
pub struct NostrClientTransportConfig {
    /// Relay URLs to connect to.
    pub relay_urls: Vec<String>,
    /// The server's public key (hex).
    pub server_pubkey: String,
    /// Encryption mode.
    pub encryption_mode: EncryptionMode,
    /// Gift-wrap policy for encrypted messages.
    pub gift_wrap_mode: GiftWrapMode,
    /// Stateless mode: emulate initialize response locally.
    pub is_stateless: bool,
    /// Response timeout (default: 30s).
    pub timeout: Duration,
    /// Optional log file path. Logs always go to stdout and are also appended here when set.
    pub log_file_path: Option<String>,
}

impl Default for NostrClientTransportConfig {
    fn default() -> (config: Self)
        ensures
            config.relay_urls@.len() == 1,
            config.relay_urls@[0]@ == "wss://relay.damus.io"@,
            config.server_pubkey@ == ""@,
            config.encryption_mode == EncryptionMode::Optional,
            config.gift_wrap_mode == GiftWrapMode::Optional,
            !config.is_stateless,
            config.timeout == (Duration { secs: 30, nanos: 0 }),
            config.log_file_path is None,
    {
        let mut relay_urls: Vec<String> = Vec::new();
        relay_urls.push("wss://relay.damus.io".to_owned());
        NostrClientTransportConfig {
            relay_urls,
            server_pubkey: "".to_owned(),
            encryption_mode: EncryptionMode::Optional,
            gift_wrap_mode: GiftWrapMode::Optional,
            is_stateless: false,
            timeout: Duration::from_secs(30),
            log_file_path: None,
        }
    }
}

/// Client-side Nostr transport for sending MCP requests and receiving responses.
pub struct NostrClientTransport {
    /// What client and server share.
    pub base: BaseTransport,
    /// Configuration for this client transport.
    pub config: NostrClientTransportConfig,
    /// The server's public key.
    pub server_pubkey: PublicKey,
    /// Pending request event ids awaiting responses.
    pub pending_requests: ClientCorrelationStore,
    /// Gift wraps that were opened, with an event inside that verified.
    /// An id is put in only then, so that what failed can be tried again.
    pub seen_gift_wrap_ids: SeenGiftWraps,
    /// Whether the receiver of incoming messages is still to be taken.
    pub has_message_receiver: bool,
}

/// What changes while a client runs.
pub struct ClientView {
    /// The events of the requests that await their answer.
    pub pending: Set<Seq<char>>,
    /// The gift wraps that were opened.
    pub seen: SeenView,
}

/// Whether an event of that kind must be dropped.
pub open spec fn violates_policy(kind: u16, mode: EncryptionMode) -> bool {
    if is_wrap_kind(kind) {
        mode == EncryptionMode::Disabled
    } else {
        mode == EncryptionMode::Required
    }
}

/// Whether events of that kind are gift wraps.
pub fn is_gift_wrap_kind(kind: u16) -> (answer: bool)
    ensures
        answer == is_wrap_kind(kind),
{
    kind == GIFT_WRAP_KIND || kind == EPHEMERAL_GIFT_WRAP_KIND
}

/// Returns `true` when the inbound event kind violates the configured encryption
/// policy and must be dropped before any further processing.
pub fn violates_encryption_policy(kind: u16, mode: EncryptionMode) -> (answer: bool)
    ensures
        answer == violates_policy(kind, mode),
{
    let is_gift_wrap = is_gift_wrap_kind(kind);
    (is_gift_wrap && mode == EncryptionMode::Disabled) || (!is_gift_wrap && mode
        == EncryptionMode::Required)
}

/// The content of an event, in the open or out of its gift wrap.
#[derive(Debug)]
pub struct Reply {
    /// The text that should hold a message.
    pub content: String,
    /// Who signed it.
    pub sender: PublicKey,
    /// The event that it refers to.
    pub correlated: Option<String>,
}

/// What a [`Reply`] says.
pub struct ReplyView {
    pub content: Seq<char>,
    pub sender: Seq<char>,
    pub correlated: Option<Seq<char>>,
}

impl View for Reply {
    type V = ReplyView;

    open spec fn view(&self) -> ReplyView {
        ReplyView {
            content: self.content@,
            sender: self.sender@,
            correlated: optional_text(self.correlated),
        }
    }
}

/// What is to be done with an event.
#[derive(Debug)]
pub enum Received {
    /// Nothing: its kind violates the encryption policy.
    Violation,
    /// Nothing: the gift wrap was opened already.
    AlreadySeen,
    /// Decrypt the gift wrap.
    Decrypt,
    /// Read the message that it carries.
    Read(Reply),
}

/// What a [`Received`] says.
pub enum ReceivedView {
    Violation,
    AlreadySeen,
    Decrypt,
    Read(ReplyView),
}

impl View for Received {
    type V = ReceivedView;

    open spec fn view(&self) -> ReceivedView {
        match *self {
            Received::Violation => ReceivedView::Violation,
            Received::AlreadySeen => ReceivedView::AlreadySeen,
            Received::Decrypt => ReceivedView::Decrypt,
            Received::Read(reply) => ReceivedView::Read(reply@),
        }
    }
}

/// What an event says to the client.
pub open spec fn reply_of(event: EventView) -> ReplyView {
    ReplyView {
        content: event.content,
        sender: event.pubkey,
        correlated: tag_value(event.tags, tags::EVENT_ID@),
    }
}

/// What is to be done with an event, given which gift wraps were opened.
pub open spec fn received(mode: EncryptionMode, seen: SeenView, event: EventView) -> ReceivedView {
    if violates_policy(event.kind, mode) {
        ReceivedView::Violation
    } else if !is_wrap_kind(event.kind) {
        ReceivedView::Read(reply_of(event))
    } else if seen.ids.contains(event.id) {
        ReceivedView::AlreadySeen
    } else {
        ReceivedView::Decrypt
    }
}

/// The message that a reply brings: the reply has to come from the server, and
/// where it refers to an event that has to be a pending request.
pub open spec fn accepted(state: ClientView, server: Seq<char>, reply: ReplyView) -> Option<
    MessageView,
> {
    if reply.sender != server {
        None
    } else if reply.correlated is Some && !state.pending.contains(reply.correlated->0) {
        None
    } else {
        valid_content(reply.content)
    }
}

/// The state once a reply was read.
pub open spec fn settled(state: ClientView, server: Seq<char>, reply: ReplyView) -> ClientView {
    if accepted(state, server, reply) is Some && reply.correlated is Some {
        ClientView { pending: state.pending.remove(reply.correlated->0), ..state }
    } else {
        state
    }
}

/// What an emulated server answers to `initialize`.
pub open spec fn emulated_result() -> JsonView {
    let list_changed = JsonView::Object(Map::empty().insert("listChanged"@, JsonView::Bool(true)));
    let resources = JsonView::Object(
        Map::empty().insert("subscribe"@, JsonView::Bool(true)).insert(
            "listChanged"@,
            JsonView::Bool(true),
        ),
    );
    let server_info = JsonView::Object(
        Map::empty().insert("name"@, JsonView::Str("Emulated-Stateless-Server"@)).insert(
            "version"@,
            JsonView::Str("1.0.0"@),
        ),
    );
    let capabilities = JsonView::Object(
        Map::empty().insert("tools"@, list_changed).insert("prompts"@, list_changed).insert(
            "resources"@,
            resources,
        ),
    );
    JsonView::Object(
        Map::empty().insert("protocolVersion"@, JsonView::Str(MCP_PROTOCOL_VERSION@)).insert(
            "serverInfo"@,
            server_info,
        ).insert("capabilities"@, capabilities),
    )
}

/// The answer of an emulated server to `initialize`.
pub open spec fn emulated_response(request_id: JsonView) -> MessageView {
    MessageView::Response(
        ResponseView { jsonrpc: JSONRPC_VERSION@, id: request_id, result: emulated_result() },
    )
}

/// What is to be done to send a message.
#[derive(Debug)]
pub enum Sending {
    /// Hand this answer to the caller: no server is asked.
    Emulated(JsonRpcMessage),
    /// Nothing.
    Dropped,
    /// Send this.
    Send(Outgoing),
}

/// What a [`Sending`] says.
pub enum SendingView {
    Emulated(MessageView),
    Dropped,
    Send(OutgoingView),
}

impl View for Sending {
    type V = SendingView;

    open spec fn view(&self) -> SendingView {
        match *self {
            Sending::Emulated(message) => SendingView::Emulated(message@),
            Sending::Dropped => SendingView::Dropped,
            Sending::Send(outgoing) => SendingView::Send(outgoing@),
        }
    }
}

/// The gift wrap that a client asks for.
pub open spec fn request_wrap(mode: GiftWrapMode) -> Option<u16> {
    match mode {
        GiftWrapMode::Optional => None,
        GiftWrapMode::Ephemeral => Some(EPHEMERAL_GIFT_WRAP_KIND),
        GiftWrapMode::Persistent => Some(GIFT_WRAP_KIND),
    }
}

/// A message on its way to the server.
pub open spec fn sent_to_server(
    mode: EncryptionMode,
    wraps: GiftWrapMode,
    server: Seq<char>,
    message: MessageView,
) -> OutgoingView {
    sent_message(
        mode,
        message,
        server,
        CTXVM_MESSAGES_KIND,
        recipient_tags(server),
        None,
        request_wrap(wraps),
    )
}

/// What is to be done to send a message: where no state is kept, `initialize` is
/// answered at once and the notice that it is done goes nowhere.
pub open spec fn sending(
    is_stateless: bool,
    mode: EncryptionMode,
    wraps: GiftWrapMode,
    server: Seq<char>,
    message: MessageView,
) -> SendingView {
    match message {
        MessageView::Request(request) => if is_stateless && request.method == INITIALIZE_METHOD@ {
            SendingView::Emulated(emulated_response(request.id))
        } else {
            SendingView::Send(sent_to_server(mode, wraps, server, message))
        },
        MessageView::Notification(notification) => if is_stateless && notification.method
            == NOTIFICATIONS_INITIALIZED_METHOD@ {
            SendingView::Dropped
        } else {
            SendingView::Send(sent_to_server(mode, wraps, server, message))
        },
        _ => SendingView::Send(sent_to_server(mode, wraps, server, message)),
    }
}

/// An object with one member that is true.
fn flag_object(name: &str) -> (value: Json)
    ensures
        value@ == JsonView::Object(Map::empty().insert(name@, JsonView::Bool(true))),
{
    let mut members: Vec<(String, Json)> = Vec::new();
    push_member(&mut members, name, Json::Bool(true));
    Json::Object(members)
}

/// What an emulated server answers to `initialize`.
fn emulate_result() -> (value: Json)
    ensures
        value@ == emulated_result(),
{
    let mut resources: Vec<(String, Json)> = Vec::new();
    push_member(&mut resources, "subscribe", Json::Bool(true));
    push_member(&mut resources, "listChanged", Json::Bool(true));
    let mut server_info: Vec<(String, Json)> = Vec::new();
    push_member(&mut server_info, "name", Json::String("Emulated-Stateless-Server".to_owned()));
    push_member(&mut server_info, "version", Json::String("1.0.0".to_owned()));
    let mut capabilities: Vec<(String, Json)> = Vec::new();
    push_member(&mut capabilities, "tools", flag_object("listChanged"));
    push_member(&mut capabilities, "prompts", flag_object("listChanged"));
    push_member(&mut capabilities, "resources", Json::Object(resources));
    let mut members: Vec<(String, Json)> = Vec::new();
    push_member(&mut members, "protocolVersion", Json::String(mcp_protocol_version().to_owned()));
    push_member(&mut members, "serverInfo", Json::Object(server_info));
    push_member(&mut members, "capabilities", Json::Object(capabilities));
    Json::Object(members)
}

impl NostrClientTransport {
    /// What changes while the client runs.
    pub open spec fn state(&self) -> ClientView {
        ClientView { pending: self.pending_requests@, seen: self.seen_gift_wrap_ids@ }
    }

    /// Whether nothing but the state differs.
    pub open spec fn same_setup(&self, other: &Self) -> bool {
        &&& self.base == other.base
        &&& self.config == other.config
        &&& self.has_message_receiver == other.has_message_receiver
        &&& self.server_pubkey == other.server_pubkey
    }

    /// Whether this is a client as it is created.
    pub open spec fn is_fresh(&self, config: NostrClientTransportConfig, key: Seq<char>) -> bool {
        &&& self.config == config
        &&& self.base == (BaseTransport {
            encryption_mode: config.encryption_mode,
            is_connected: false,
        })
        &&& self.server_pubkey@ == key
        &&& self.has_message_receiver
        &&& self.state() == (ClientView {
            pending: Set::empty(),
            seen: SeenView { ids: Seq::empty(), capacity: DEFAULT_LRU_SIZE as nat },
        })
    }

    /// Create a new client transport.
    pub fn new(config: NostrClientTransportConfig) -> (result: Result<Self, Error>)
        ensures
            match hex_id(config.server_pubkey@) {
                Some(key) => result matches Ok(transport) && transport.is_fresh(config, key),
                None => is_other(
                    result,
                    "Invalid server pubkey: "@ + public_key_error(config.server_pubkey@),
                ),
            },
    {
        match PublicKey::from_hex(config.server_pubkey.as_str()) {
            Ok(server_pubkey) => Ok(
                NostrClientTransport {
                    base: BaseTransport {
                        encryption_mode: config.encryption_mode,
                        is_connected: false,
                    },
                    config,
                    server_pubkey,
                    pending_requests: ClientCorrelationStore::new(),
                    seen_gift_wrap_ids: SeenGiftWraps::new(DEFAULT_LRU_SIZE),
                    has_message_receiver: true,
                },
            ),
            Err(error) => Err(Error::Other(join("Invalid server pubkey: ", error.reason()))),
        }
    }

    /// Decides the next step of connecting and starting to listen for responses.
    pub fn start(&mut self, event: StartEvent) -> (action: StartAction)
        ensures
            final(self).state() == old(self).state(),
            final(self).config == old(self).config,
            final(self).server_pubkey == old(self).server_pubkey,
            final(self).base.encryption_mode == old(self).base.encryption_mode,
            final(self).base.is_connected == connected_after(
                old(self).base.is_connected,
                event,
            ),
            is_start_step(old(self).base.is_connected, event, action),
            final(self).has_message_receiver == old(self).has_message_receiver,
    {
        self.base.start(event)
    }

    /// Close the transport, given how disconnecting the relays went.
    pub fn close(&mut self, attempt: Result<(), Error>) -> (result: Result<(), Error>)
        ensures
            result == if old(self).base.is_connected {
                attempt
            } else {
                Ok::<(), Error>(())
            },
            final(self).base == (BaseTransport {
                is_connected: old(self).base.is_connected && attempt is Err,
                ..old(self).base
            }),
            final(self).config == old(self).config,
            final(self).has_message_receiver == old(self).has_message_receiver,
            final(self).server_pubkey == old(self).server_pubkey,
            final(self).state() == old(self).state(),
    {
        self.base.disconnect(attempt)
    }

    /// Decides what is to be done to send a JSON-RPC message to the server.
    pub fn send(&self, message: &JsonRpcMessage) -> (decision: Sending)
        ensures
            decision@ == sending(
                self.config.is_stateless,
                self.base.encryption_mode,
                self.config.gift_wrap_mode,
                self.server_pubkey@,
                message@,
            ),
    {
        // Stateless mode: emulate initialize response
        if self.config.is_stateless {
            if let JsonRpcMessage::Request(request) = message {
                if same_text(request.method.as_str(), INITIALIZE_METHOD) {
                    return Sending::Emulated(Self::emulate_initialize_response(&request.id));
                }
            }
            if let JsonRpcMessage::Notification(notification) = message {
                if same_text(notification.method.as_str(), NOTIFICATIONS_INITIALIZED_METHOD) {
                    return Sending::Dropped;
                }
            }
        }
        let wrap_kind = match self.config.gift_wrap_mode {
            GiftWrapMode::Optional => None,
            GiftWrapMode::Ephemeral => Some(EPHEMERAL_GIFT_WRAP_KIND),
            GiftWrapMode::Persistent => Some(GIFT_WRAP_KIND),
        };
        let tags = BaseTransport::create_recipient_tags(&self.server_pubkey);
        Sending::Send(
            self.base.send_mcp_message(
                message,
                &self.server_pubkey,
                CTXVM_MESSAGES_KIND,
                tags,
                None,
                wrap_kind,
            ),
        )
    }

    /// Takes note that a message is out, as that event: a request awaits its
    /// answer. The event is the signed one itself, not the gift wrap around it,
    /// for that is what the answer refers to.
    pub fn message_sent(&mut self, message: &JsonRpcMessage, event_id: &EventId)
        ensures
            final(self).same_setup(old(self)),
            final(self).state() == (ClientView {
                pending: if message@ is Request {
                    old(self).state().pending.insert(event_id@)
                } else {
                    old(self).state().pending
                },
                ..old(self).state()
            }),
    {
        if message.is_request() {
            self.pending_requests.register(event_id.to_hex());
        }
    }

    /// Take the message receiver for consuming incoming messages. Returns
    /// whether it was still to be taken.
    pub fn take_message_receiver(&mut self) -> (taken: bool)
        ensures
            taken == old(self).has_message_receiver,
            *final(self) == (NostrClientTransport { has_message_receiver: false, ..*old(self) }),
    {
        let taken = self.has_message_receiver;
        self.has_message_receiver = false;
        taken
    }

    /// The answer of an emulated server to `initialize`.
    pub fn emulate_initialize_response(request_id: &Json) -> (response: JsonRpcMessage)
        ensures
            response@ == emulated_response(request_id@),
    {
        JsonRpcMessage::Response(
            JsonRpcResponse {
                jsonrpc: JSONRPC_VERSION.to_owned(),
                id: request_id.clone(),
                result: emulate_result(),
            },
        )
    }

    /// Decides what is to be done with an event.
    pub fn on_event(&self, event: &Event) -> (decision: Received)
        ensures
            decision@ == received(self.config.encryption_mode, self.state().seen, event@),
    {
        // Enforce mode before decrypt/parse.
        if violates_encryption_policy(event.kind, self.config.encryption_mode) {
            return Received::Violation;
        }
        if is_gift_wrap_kind(event.kind) {
            if self.seen_gift_wrap_ids.contains(event.id.to_hex().as_str()) {
                return Received::AlreadySeen;
            }
            return Received::Decrypt;
        }
        Received::Read(Self::reply(event))
    }

    /// What an event says to the client.
    fn reply(event: &Event) -> (reply: Reply)
        ensures
            reply@ == reply_of(event@),
    {
        Reply {
            content: event.content.clone(),
            sender: event.pubkey.clone(),
            correlated: get_tag_value(&event.tags, tags::EVENT_ID),
        }
    }

    /// Takes the event out of a gift wrap; `None` where there is none that
    /// verifies. Only an event that verifies makes the gift wrap count as opened.
    pub fn on_unwrapped(&mut self, wrap: &Event, inner: Option<Event>) -> (reply: Option<Reply>)
        ensures
            final(self).same_setup(old(self)),
            match inner {
                Some(event) => {
                    &&& reply is Some && reply->0@ == reply_of(event@)
                    &&& final(self).state() == (ClientView {
                        seen: old(self).state().seen.remember(wrap.id@),
                        ..old(self).state()
                    })
                },
                None => reply is None && *final(self) == *old(self),
            },
    {
        match inner {
            Some(event) => {
                self.seen_gift_wrap_ids.put(wrap.id.to_hex());
                Some(Self::reply(&event))
            },
            None => None,
        }
    }

    /// Takes what a gift wrap was decrypted to, or the failure to decrypt it.
    pub fn on_decrypted(&mut self, wrap: &Event, decrypted: Result<String, Error>) -> (reply: Option<
        Reply,
    >)
        ensures
            final(self).same_setup(old(self)),
            match decrypted {
                Ok(text) => match verified_event(text@) {
                    Some(inner) => {
                        &&& reply is Some && reply->0@ == reply_of(inner)
                        &&& final(self).state() == (ClientView {
                            seen: old(self).state().seen.remember(wrap.id@),
                            ..old(self).state()
                        })
                    },
                    None => reply is None && *final(self) == *old(self),
                },
                Err(_) => reply is None && *final(self) == *old(self),
            },
    {
        match decrypted {
            Ok(text) => {
                let inner = read_verified_event(text.as_str());
                self.on_unwrapped(wrap, inner)
            },
            Err(_) => None,
        }
    }

    /// Reads the message of a reply; `None` where it is not from the server, does
    /// not belong to a pending request that it refers to, or is no message. A
    /// message settles the request that it refers to.
    pub fn on_reply(&mut self, reply: &Reply) -> (message: Option<JsonRpcMessage>)
        ensures
            final(self).same_setup(old(self)),
            final(self).state() == settled(old(self).state(), old(self).server_pubkey@, reply@),
            match message {
                Some(m) => accepted(old(self).state(), old(self).server_pubkey@, reply@) == Some(
                    m@,
                ),
                None => accepted(old(self).state(), old(self).server_pubkey@, reply@) is None,
            },
    {
        // Verify it's from our server
        if !reply.sender.same(&self.server_pubkey) {
            return None;
        }
        // Correlate response
        if let Some(correlated_id) = &reply.correlated {
            if !self.pending_requests.contains(correlated_id.as_str()) {
                return None;
            }
        }
        // Parse MCP message
        match validate_and_parse(reply.content.as_str()) {
            Some(message) => {
                // Clean up pending request
                if let Some(correlated_id) = &reply.correlated {
                    self.pending_requests.remove(correlated_id.as_str());
                }
                Some(message)
            },
            None => None,
        }
    }
}

/// Where encryption is required nothing in the open is read, where it is
/// disabled no gift wrap is opened, and where it is optional both are let in.
pub proof fn law_inbound_policy(kind: u16, mode: EncryptionMode)
    ensures
        mode == EncryptionMode::Optional ==> !violates_policy(kind, mode),
        mode == EncryptionMode::Required ==> (violates_policy(kind, mode) <==> !is_wrap_kind(kind)),
        mode == EncryptionMode::Disabled ==> (violates_policy(kind, mode) <==> is_wrap_kind(kind)),
{
}

/// A gift wrap that was opened is not opened again, as long as fewer were opened
/// since than are remembered.
pub proof fn law_opened_wrap_skipped(
    mode: EncryptionMode,
    state: ClientView,
    wrap: EventView,
    later: Seq<Seq<char>>,
)
    requires
        state.seen.is_valid(),
        later.len() < state.seen.capacity,
    ensures
        ({
            let seen = state.seen.remember(wrap.id).remember_all(later);
            &&& seen.is_valid()
            &&& received(mode, seen, wrap) !is Decrypt
        }),
{
    law_remembered_while_there_is_room(state.seen, wrap.id, later);
}

/// Nothing but the server's own words reaches the caller, and no answer to a
/// request that is not pending. A request gets one answer: once it has one,
/// later ones are not read.
pub proof fn law_replies_matched(state: ClientView, server: Seq<char>, reply: ReplyView, later: ReplyView)
    ensures
        reply.sender != server ==> accepted(state, server, reply) is None,
        reply.correlated is Some && !state.pending.contains(reply.correlated->0) ==> accepted(
            state,
            server,
            reply,
        ) is None,
        accepted(state, server, reply) is Some && reply.correlated is Some && later.correlated
            == reply.correlated ==> accepted(settled(state, server, reply), server, later) is None,
{
}

/// Where no state is kept, `initialize` is answered at once with its own id, and
/// nothing of the initialization goes to the server; every other message does.
pub proof fn law_stateless_initialization(
    mode: EncryptionMode,
    wraps: GiftWrapMode,
    server: Seq<char>,
    message: MessageView,
)
    ensures
        message is Request && message.method() == Some(INITIALIZE_METHOD@) ==> (sending(
            true,
            mode,
            wraps,
            server,
            message,
        ) matches SendingView::Emulated(answer) && answer.id() == message.id()),
        message is Notification && message.method() == Some(NOTIFICATIONS_INITIALIZED_METHOD@)
            ==> sending(true, mode, wraps, server, message) is Dropped,
        message.method() != Some(INITIALIZE_METHOD@) && message.method() != Some(
            NOTIFICATIONS_INITIALIZED_METHOD@,
        ) ==> sending(true, mode, wraps, server, message) is Send,
        sending(false, mode, wraps, server, message) is Send,
{
}

} // verus!
