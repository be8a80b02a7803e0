//! What a client sends, and what it takes from its server.

use crate::protocol::error::Error;
use crate::protocol::json::{Json, JsonView};
use crate::protocol::laws::{
    has, has_value, is_hex, is_lowered, lemma_first_value, lemma_text_on_wire, text_on_wire,
};
use crate::protocol::nostr::{
    event_of_text, tags_view, text_verifies, Event, EventId, EventView,
};
use crate::protocol::types::{EncryptionMode, GiftWrapMode, JsonRpcMessage, MessageView};
use crate::protocol::validation::validate_and_parse;
use crate::transport::base::{Outgoing, StartAction, StartEvent};
use crate::transport::base_laws::{is_next_step, lemma_next_step};
use crate::transport::client::correlation_store::ClientCorrelationStore;
use crate::transport::client::{
    is_gift_wrap_kind, violates_encryption_policy, NostrClientTransport,
    NostrClientTransportConfig, Received, Reply, Sending,
};
use crate::transport::server::frame_laws::{lemma_remembers_others, remembers_others};
use vstd::prelude::*;

verus! {

/// A client is created exactly where the server's key is one; it then asks that
/// server, with the encryption that is configured, is not connected, and awaits
/// nothing.
pub proof fn law_client_created(
    config: NostrClientTransportConfig,
    created: Result<NostrClientTransport, Error>,
)
    requires
        call_ensures(NostrClientTransport::new, (config,), created),
    ensures
        created is Ok <==> is_hex(config.server_pubkey@),
        created matches Ok(client) ==> {
            &&& client.config == config
            &&& client.base.encryption_mode == config.encryption_mode
            &&& !client.base.is_connected
            &&& client.server_pubkey@.len() == 64
            &&& forall|i: int|
                0 <= i < 64 ==> is_lowered(
                    #[trigger] config.server_pubkey@[i],
                    client.server_pubkey@[i],
                )
            &&& client.has_message_receiver
            &&& client.pending_requests@ == Set::<Seq<char>>::empty()
            &&& client.seen_gift_wrap_ids@.ids.len() == 0
            &&& client.seen_gift_wrap_ids@.capacity == 5000
        },
        created matches Err(error) ==> (error matches Error::Other(reason)
            && "Invalid server pubkey: "@.is_prefix_of(reason@)),
{
    assert(forall|i: int|
        0 <= i < config.server_pubkey@.len() ==> crate::protocol::nostr::is_hex_digit(
            #[trigger] config.server_pubkey@[i],
        ) == ('0' <= config.server_pubkey@[i] <= '9' || 'a' <= config.server_pubkey@[i] <= 'f'
            || 'A' <= config.server_pubkey@[i] <= 'F'));
    if let Err(Error::Other(reason)) = created {
        let start = "Invalid server pubkey: "@;
        assert(reason@.take(start.len() as int) =~= start);
    }
}

/// Whether a message opens a session: the request to initialize.
pub open spec fn is_initialization(message: JsonRpcMessage) -> bool {
    message matches JsonRpcMessage::Request(request) && request.method@ == "initialize"@
}

/// Whether a message says that a session was opened.
pub open spec fn is_initialized_notice(message: JsonRpcMessage) -> bool {
    message matches JsonRpcMessage::Notification(notification) && notification.method@
        == "notifications/initialized"@
}

/// Whether a message goes to the server as it should: to its key, by a tag `p` and
/// no other, with its own text; in the open exactly where encryption is disabled,
/// and otherwise in a gift wrap of the kind that is used, the persistent one where
/// both are.
pub open spec fn goes_to_server(
    client: NostrClientTransport,
    message: JsonRpcMessage,
    outgoing: Outgoing,
) -> bool {
    &&& outgoing.recipient@ == client.server_pubkey@
    &&& outgoing.template.kind == 25910
    &&& outgoing.template.content@ == text_on_wire(message)
    &&& tags_view(outgoing.template.tags@) == seq![seq!["p"@, client.server_pubkey@]]
    &&& outgoing.wrap_kind == if client.base.encryption_mode == EncryptionMode::Disabled {
        None
    } else if client.config.gift_wrap_mode == GiftWrapMode::Ephemeral {
        Some(21059u16)
    } else {
        Some(1059u16)
    }
}

/// A message goes to the server, but where no state is kept the request to
/// initialize is answered at once, and the notice that it is done goes nowhere.
pub proof fn law_message_sent_to_server(
    client: &NostrClientTransport,
    message: &JsonRpcMessage,
    decision: Sending,
)
    requires
        call_ensures(NostrClientTransport::send, (client, message), decision),
    ensures
        match decision {
            Sending::Emulated(answer) => {
                &&& client.config.is_stateless && is_initialization(*message)
                &&& message matches JsonRpcMessage::Request(request) && is_emulated_answer(
                    answer,
                    request.id@,
                )
            },
            Sending::Dropped => client.config.is_stateless && is_initialized_notice(*message),
            Sending::Send(outgoing) => {
                &&& !(client.config.is_stateless && (is_initialization(*message)
                    || is_initialized_notice(*message)))
                &&& goes_to_server(*client, *message, outgoing)
            },
        },
{
    lemma_text_on_wire(*message);
    match *message {
        JsonRpcMessage::Request(request) => {
            assert(message@ == MessageView::Request(request@));
        },
        JsonRpcMessage::Notification(n) => {
            assert(message@ == MessageView::Notification(n@));
        },
        JsonRpcMessage::Response(r) => {
            assert(message@ == MessageView::Response(r@));
        },
        JsonRpcMessage::ErrorResponse(r) => {
            assert(message@ == MessageView::ErrorResponse(r@));
        },
    }
    match decision {
        Sending::Emulated(answer) => {
            assert(decision@ is Emulated);
            if let JsonRpcMessage::Request(request) = *message {
                lemma_emulated(answer, request.id@);
            }
        },
        Sending::Dropped => {
            assert(decision@ is Dropped);
        },
        Sending::Send(outgoing) => {
            assert(decision@ is Send);
            assert(outgoing@.template.tags == tags_view(outgoing.template.tags@));
        },
    }
}

/// Whether a value is an object whose member of that name is true.
pub open spec fn flags(value: JsonView, name: Seq<char>) -> bool {
    value matches JsonView::Object(members) && has(members, name, JsonView::Bool(true))
}

/// Whether a message is what an emulated server answers to `initialize`: with the
/// id of the request, the protocol version, the name and version of the server,
/// and its capabilities.
pub open spec fn is_emulated_answer(answer: JsonRpcMessage, request_id: JsonView) -> bool {
    &&& answer matches JsonRpcMessage::Response(response)
    &&& response.jsonrpc@ == "2.0"@
    &&& response.id@ == request_id
    &&& response.result@ matches JsonView::Object(members)
    &&& has(members, "protocolVersion"@, JsonView::Str("2025-03-26"@))
    &&& members.contains_key("serverInfo"@)
    &&& members["serverInfo"@] matches JsonView::Object(info)
    &&& has(info, "name"@, JsonView::Str("Emulated-Stateless-Server"@))
    &&& has(info, "version"@, JsonView::Str("1.0.0"@))
    &&& members.contains_key("capabilities"@)
    &&& members["capabilities"@] matches JsonView::Object(capabilities)
    &&& capabilities.contains_key("tools"@) && flags(capabilities["tools"@], "listChanged"@)
    &&& capabilities.contains_key("prompts"@) && flags(capabilities["prompts"@], "listChanged"@)
    &&& capabilities.contains_key("resources"@)
    &&& flags(capabilities["resources"@], "listChanged"@)
    &&& flags(capabilities["resources"@], "subscribe"@)
}

/// What is stated of an emulated answer is one.
proof fn lemma_emulated(answer: JsonRpcMessage, request_id: JsonView)
    requires
        answer@ == crate::transport::client::emulated_response(request_id),
    ensures
        is_emulated_answer(answer, request_id),
{
    reveal_strlit("protocolVersion");
    reveal_strlit("serverInfo");
    reveal_strlit("capabilities");
    reveal_strlit("name");
    reveal_strlit("version");
    reveal_strlit("tools");
    reveal_strlit("prompts");
    reveal_strlit("resources");
    reveal_strlit("subscribe");
    reveal_strlit("listChanged");
    assert("protocolVersion"@.len() == 15 && "serverInfo"@.len() == 10 && "capabilities"@.len()
        == 12);
    assert("name"@.len() == 4 && "version"@.len() == 7);
    assert("tools"@.len() == 5 && "prompts"@.len() == 7 && "resources"@.len() == 9);
    assert("subscribe"@.len() == 9 && "listChanged"@.len() == 11);
    if let JsonRpcMessage::Response(response) = answer {
        assert(answer@ == MessageView::Response(response@));
    }
    assert(answer@ is Response);
}

/// An emulated server answers `initialize` with the id of the request.
pub proof fn law_initialize_emulated(request_id: &Json, answer: JsonRpcMessage)
    requires
        call_ensures(NostrClientTransport::emulate_initialize_response, (request_id,), answer),
    ensures
        is_emulated_answer(answer, request_id@),
{
    lemma_emulated(answer, request_id@);
}

/// Once a request is out its event awaits an answer; no other message makes one
/// awaited, and nothing else changes.
pub proof fn law_request_awaited(
    client: &mut NostrClientTransport,
    message: &JsonRpcMessage,
    event_id: &EventId,
    other: Seq<char>,
)
    requires
        call_ensures(NostrClientTransport::message_sent, (client, message, event_id), ()),
        other != event_id@,
    ensures
        final(client).pending_requests@.contains(event_id@) <==> message is Request || old(
            client).pending_requests@.contains(event_id@),
        final(client).pending_requests@.contains(other) == old(client).pending_requests@.contains(
            other,
        ),
        final(client).config == old(client).config,
        final(client).base == old(client).base,
        final(client).server_pubkey == old(client).server_pubkey,
        final(client).seen_gift_wrap_ids@ == old(client).seen_gift_wrap_ids@,
{
    match *message {
        JsonRpcMessage::Request(request) => {
            assert(message@ is Request);
        },
        JsonRpcMessage::Notification(n) => {
            assert(message@ is Notification);
        },
        JsonRpcMessage::Response(r) => {
            assert(message@ is Response);
        },
        JsonRpcMessage::ErrorResponse(r) => {
            assert(message@ is ErrorResponse);
        },
    }
}

/// Gift wraps are the events of kinds 1059 and 21059; they must be dropped exactly
/// where encryption is disabled, and all other events exactly where it is required.
pub proof fn law_policy_violation(kind: u16, mode: EncryptionMode, wrap: bool, violates: bool)
    requires
        call_ensures(is_gift_wrap_kind, (kind,), wrap),
        call_ensures(violates_encryption_policy, (kind, mode), violates),
    ensures
        wrap <==> kind == 1059 || kind == 21059,
        violates <==> (wrap && mode == EncryptionMode::Disabled) || (!wrap && mode
            == EncryptionMode::Required),
{
}

/// Whether a reply hands on what an event says: its content, who signed it, and
/// the event that it refers to by its first tag `e` with a value, where it has
/// one.
pub open spec fn replies_with(
    reply: Reply,
    content: Seq<char>,
    sender: Seq<char>,
    tags: Seq<Seq<Seq<char>>>,
) -> bool {
    &&& reply.content@ == content
    &&& reply.sender@ == sender
    &&& match reply.correlated {
        Some(id) => exists|i: int|
            {
                &&& 0 <= i < tags.len()
                &&& has_value(#[trigger] tags[i], "e"@)
                &&& tags[i][1] == id@
                &&& forall|j: int| 0 <= j < i ==> !has_value(#[trigger] tags[j], "e"@)
            },
        None => forall|i: int| 0 <= i < tags.len() ==> !has_value(#[trigger] tags[i], "e"@),
    }
}

/// Whether a reply hands on what an event says.
pub open spec fn replies_with_event(reply: Reply, event: Event) -> bool {
    replies_with(reply, event.content@, event.pubkey@, tags_view(event.tags@))
}

/// What is stated of a reply hands on what the event says.
proof fn lemma_replies_with(reply: Reply, event: EventView)
    requires
        reply@ == crate::transport::client::reply_of(event),
    ensures
        replies_with(reply, event.content, event.pubkey, event.tags),
{
    lemma_first_value(event.tags, "e"@);
}

/// What a client does with an event: a gift wrap is opened exactly where encryption
/// is not disabled and it was not opened before; any other event is read exactly
/// where encryption is not required, as what it says.
pub proof fn law_event_received(client: &NostrClientTransport, event: &Event, decision: Received)
    requires
        call_ensures(NostrClientTransport::on_event, (client, event), decision),
    ensures
        ({
            let is_wrap = event.kind == 1059 || event.kind == 21059;
            let mode = client.config.encryption_mode;
            let seen = client.seen_gift_wrap_ids@.ids.contains(event.id@);
            &&& decision is Decrypt <==> is_wrap && mode != EncryptionMode::Disabled && !seen
            &&& decision is AlreadySeen <==> is_wrap && mode != EncryptionMode::Disabled && seen
            &&& decision is Read <==> !is_wrap && mode != EncryptionMode::Required
            &&& decision matches Received::Read(reply) ==> replies_with_event(reply, *event)
        }),
{
    match decision {
        Received::Violation => {
            assert(decision@ is Violation);
        },
        Received::AlreadySeen => {
            assert(decision@ is AlreadySeen);
        },
        Received::Decrypt => {
            assert(decision@ is Decrypt);
        },
        Received::Read(reply) => {
            assert(decision@ is Read);
            lemma_replies_with(reply, event@);
        },
    }
}

/// Out of a gift wrap comes what the event inside says, and the gift wrap counts
/// as opened; where there is no event inside, nothing comes and nothing changes.
pub proof fn law_wrap_taken(
    client: &mut NostrClientTransport,
    wrap: &Event,
    inner: Option<Event>,
    reply: Option<Reply>,
)
    requires
        call_ensures(NostrClientTransport::on_unwrapped, (client, wrap, inner), reply),
    ensures
        match inner {
            Some(event) => {
                &&& reply matches Some(given) && replies_with_event(given, event)
                &&& final(client).seen_gift_wrap_ids@.ids.contains(wrap.id@)
                &&& final(client).pending_requests@ == old(client).pending_requests@
            },
            None => reply is None && *final(client) == *old(client),
        },
{
    let seen = old(client).seen_gift_wrap_ids@;
    crate::transport::server::session_laws::lemma_remembered(seen.ids, seen.capacity, wrap.id@);
    if let Some(event) = inner {
        lemma_replies_with(reply->0, event@);
    }
}

/// A gift wrap that could not be decrypted, or holds no event whose id and
/// signature are right, brings nothing and changes nothing. Out of any other comes
/// what the event inside says, and the gift wrap counts as opened.
pub proof fn law_wrap_decrypted(
    client: &mut NostrClientTransport,
    wrap: &Event,
    decrypted: Result<String, Error>,
    reply: Option<Reply>,
)
    requires
        call_ensures(NostrClientTransport::on_decrypted, (client, wrap, decrypted), reply),
    ensures
        ({
            let holds = decrypted matches Ok(text) && text_verifies(text@) && event_of_text(
                text@,
            ) is Some;
            &&& !holds ==> reply is None && *final(client) == *old(client)
            &&& holds ==> {
                let inner = event_of_text(decrypted->Ok_0@)->0;
                &&& reply matches Some(given) && replies_with(
                    given,
                    inner.content,
                    inner.pubkey,
                    inner.tags,
                )
                &&& final(client).seen_gift_wrap_ids@.ids.contains(wrap.id@)
            }
        }),
{
    let seen = old(client).seen_gift_wrap_ids@;
    crate::transport::server::session_laws::lemma_remembered(seen.ids, seen.capacity, wrap.id@);
    if let Ok(text) = decrypted {
        if text_verifies(text@) && event_of_text(text@) is Some {
            lemma_replies_with(reply->0, event_of_text(text@)->0);
        }
    }
}

/// That a gift wrap was opened is remembered beside those that were opened before,
/// however it was opened; what the client awaits stays as it is.
pub proof fn law_opened_wraps_stay_known(
    client: &mut NostrClientTransport,
    decrypting: &mut NostrClientTransport,
    wrap: &Event,
    inner: Event,
    text: String,
    reply: Option<Reply>,
    decrypted: Option<Reply>,
)
    requires
        call_ensures(NostrClientTransport::on_unwrapped, (client, wrap, Some(inner)), reply),
        call_ensures(
            NostrClientTransport::on_decrypted,
            (decrypting, wrap, Ok::<String, Error>(text)),
            decrypted,
        ),
        text_verifies(text@),
        event_of_text(text@) is Some,
    ensures
        remembers_others(
            final(client).seen_gift_wrap_ids@,
            old(client).seen_gift_wrap_ids@,
            wrap.id@,
        ),
        remembers_others(
            final(decrypting).seen_gift_wrap_ids@,
            old(decrypting).seen_gift_wrap_ids@,
            wrap.id@,
        ),
        final(decrypting).pending_requests@ == old(decrypting).pending_requests@,
        final(client).config == old(client).config,
        final(decrypting).config == old(decrypting).config,
{
    lemma_remembers_others(old(client).seen_gift_wrap_ids@, wrap.id@);
    lemma_remembers_others(old(decrypting).seen_gift_wrap_ids@, wrap.id@);
}

/// A reply brings its message exactly where it comes from the server, refers to no
/// event or to a request that awaits its answer, and is a valid message. It then
/// settles that request, and nothing else changes.
pub proof fn law_reply_read(
    client: &mut NostrClientTransport,
    reply: &Reply,
    content: &str,
    valid: Option<JsonRpcMessage>,
    message: Option<JsonRpcMessage>,
    other: Seq<char>,
)
    requires
        content@ == reply.content@,
        call_ensures(validate_and_parse, (content,), valid),
        call_ensures(NostrClientTransport::on_reply, (client, reply), message),
        reply.correlated matches Some(id) ==> other != id@,
    ensures
        message is Some <==> reply.sender@ == old(client).server_pubkey@ && (
        reply.correlated matches Some(id) ==> old(client).pending_requests@.contains(id@))
            && valid is Some,
        message matches Some(m) ==> m@ == valid->0@,
        message is Some ==> (reply.correlated matches Some(id) ==> !final(
            client).pending_requests@.contains(id@)),
        message is None ==> final(client).pending_requests@ == old(client).pending_requests@,
        final(client).pending_requests@.contains(other) == old(client).pending_requests@.contains(
            other,
        ),
        final(client).config == old(client).config,
        final(client).server_pubkey == old(client).server_pubkey,
        final(client).seen_gift_wrap_ids@ == old(client).seen_gift_wrap_ids@,
{
}

/// A client starts step by step; nothing that it keeps changes.
pub proof fn law_client_started(
    client: &mut NostrClientTransport,
    event: StartEvent,
    action: StartAction,
)
    requires
        call_ensures(NostrClientTransport::start, (client, event), action),
    ensures
        is_next_step(old(client).base.is_connected, event, action),
        final(client).config == old(client).config,
        final(client).server_pubkey == old(client).server_pubkey,
        final(client).pending_requests@ == old(client).pending_requests@,
        final(client).base.is_connected <==> old(client).base.is_connected || (
        event matches StartEvent::Connected(attempt) && attempt is Ok),
{
    lemma_next_step(old(client).base.is_connected, event, action);
}

/// A client is closed where disconnecting succeeds or is not needed; what it
/// awaits stays as it is.
pub proof fn law_client_closed(
    client: &mut NostrClientTransport,
    attempt: Result<(), Error>,
    result: Result<(), Error>,
)
    requires
        call_ensures(NostrClientTransport::close, (client, attempt), result),
    ensures
        result is Ok <==> !old(client).base.is_connected || attempt is Ok,
        result is Err ==> result == attempt,
        final(client).base.is_connected <==> result is Err,
        final(client).config == old(client).config,
        final(client).pending_requests@ == old(client).pending_requests@,
{
}

/// A request awaits its answer once it is registered and until it is removed; no
/// other is touched.
pub proof fn law_pending_requests_kept(
    store: &mut ClientCorrelationStore,
    shortened: &mut ClientCorrelationStore,
    looked_at: &ClientCorrelationStore,
    event_id: String,
    removed: &str,
    pending: bool,
    other: Seq<char>,
)
    requires
        call_ensures(ClientCorrelationStore::register, (store, event_id), ()),
        call_ensures(ClientCorrelationStore::remove, (shortened, removed), ()),
        call_ensures(ClientCorrelationStore::contains, (looked_at, removed), pending),
        other != event_id@,
        other != removed@,
    ensures
        final(store)@.contains(event_id@),
        final(store)@.contains(other) == old(store)@.contains(other),
        !final(shortened)@.contains(removed@),
        final(shortened)@.contains(other) == old(shortened)@.contains(other),
        pending == looked_at@.contains(removed@),
{
}

/// A store that is new or cleared awaits nothing.
pub proof fn law_nothing_pending(
    cleared: &mut ClientCorrelationStore,
    created: ClientCorrelationStore,
    event_id: Seq<char>,
)
    requires
        call_ensures(ClientCorrelationStore::clear, (cleared,), ()),
        call_ensures(ClientCorrelationStore::new, (), created),
    ensures
        !final(cleared)@.contains(event_id),
        !created@.contains(event_id),
{
}

/// What comes in can be taken from a client once.
pub proof fn law_receiver_taken_once(client: &mut NostrClientTransport, taken: bool)
    requires
        call_ensures(NostrClientTransport::take_message_receiver, (client,), taken),
    ensures
        taken == old(client).has_message_receiver,
        !final(client).has_message_receiver,
        final(client).config == old(client).config,
        final(client).pending_requests@ == old(client).pending_requests@,
{
}

} // verus!
