//! What a server does with what comes in, and what it keeps of its clients.

use crate::protocol::error::Error;
use crate::protocol::json::{Json, JsonView};
use crate::protocol::laws::{
    is_answer_with_id, is_refusal_of, is_written_id, law_written_id_is_itself, lemma_text_on_wire,
    text_on_wire,
};
use crate::protocol::nostr::{
    event_of_text, tags_view, text_verifies, Event, EventTemplate, PublicKey,
};
use crate::protocol::types::{EncryptionMode, GiftWrapMode, JsonRpcMessage, MessageView, ServerInfo};
use crate::protocol::validation::validate_and_parse;
use crate::transport::base::{StartAction, StartEvent};
use crate::transport::base_laws::{
    delivers_open, delivers_wrapped, gives_token, is_next_step, lemma_classified, lemma_next_step,
};
use crate::transport::expiry::Session;
use crate::transport::inbound::{Delivery, Inbound};
use crate::transport::policy::{common_tags, optional_info};
use crate::transport::policy_laws::{
    asks_deletion, holds_description, lemma_common_tags, lemma_kinds_in_decimal, lemma_opened,
    may_send, publishes, tells_server,
};
use crate::transport::server::answer_laws::{
    addresses, is_right_wrap, law_response_reaches_client, lemma_right_wrap,
};
use crate::transport::server::config::NostrServerTransportConfig;
use crate::transport::server::{Handled, NostrServerTransport, PlannedResponse, Refusal};
use crate::util::string_map::StringMap;
use crate::util::time::{is_reading, is_time_since, Duration};
use vstd::prelude::*;

verus! {

/// Whether a message is handed on as it came: what it says, who sent it, in which
/// event, and whether it was encrypted.
pub open spec fn hands_on(handled: Handled, message: JsonRpcMessage, delivery: Delivery) -> bool {
    &&& handled matches Handled::Forward(incoming)
    &&& incoming.message@ == message@
    &&& incoming.client_pubkey@ == delivery.sender@
    &&& incoming.event_id@ == delivery.event_id@
    &&& incoming.is_encrypted == delivery.is_encrypted
}

/// A message is handed on exactly where its sender may send it; otherwise it is
/// refused, and nothing of it is kept.
pub proof fn law_message_let_in(
    server: &mut NostrServerTransport,
    message: JsonRpcMessage,
    delivery: &Delivery,
    handled: Handled,
)
    requires
        call_ensures(NostrServerTransport::on_message, (server, message, delivery), handled),
    ensures
        ({
            let may = may_send(
                old(server).config.allowed_public_keys@,
                old(server).config.excluded_capabilities@,
                delivery.sender@,
                message,
            );
            &&& may ==> hands_on(handled, message, *delivery)
            &&& !may ==> handled is Refused && *final(server) == *old(server)
            &&& final(server).config == old(server).config
            &&& final(server).base == old(server).base
            &&& final(server).extra_common_tags == old(server).extra_common_tags
            &&& final(server).pricing_tags == old(server).pricing_tags
            &&& final(server).seen_gift_wrap_ids@ == old(server).seen_gift_wrap_ids@
        }),
{
    lemma_opened(
        old(server).config.allowed_public_keys@,
        old(server).config.excluded_capabilities@,
        delivery.sender@,
        message,
    );
    match handled {
        Handled::Forward(incoming) => {
            assert(handled@ == crate::transport::server::HandledView::Forward(incoming@));
        },
        Handled::Refused(Some(refusal)) => {
            assert(handled@ == crate::transport::server::HandledView::Refused(Some(refusal@)));
        },
        Handled::Refused(None) => {
            assert(handled@ == crate::transport::server::HandledView::Refused(None));
        },
        Handled::Invalid => {},
    }
}

/// What is kept of a message that is handed on: the session of its sender is
/// there, active just now, encrypted as the message was, initialized once it said
/// so, and all other sessions stay as they are. A request is awaited: its event
/// leads to its sender, with its own id and the gift wrap that it came in.
pub proof fn law_message_kept(
    server: &mut NostrServerTransport,
    message: JsonRpcMessage,
    delivery: &Delivery,
    handled: Handled,
    other: Seq<char>,
)
    requires
        call_ensures(NostrServerTransport::on_message, (server, message, delivery), handled),
        handled is Forward,
        other != delivery.sender@,
    ensures
        ({
            let client = delivery.sender@;
            let event = delivery.event_id@;
            let known = old(server).sessions@.contains_key(client);
            let before = old(server).sessions@[client];
            let after = final(server).sessions@[client];
            &&& final(server).sessions@.contains_key(client)
            &&& is_reading(after.last_activity)
            &&& after.is_encrypted == delivery.is_encrypted
            &&& after.is_initialized <==> (known && before.is_initialized) || (
            message matches JsonRpcMessage::Notification(n) && n.method@
                == "notifications/initialized"@)
            &&& after.has_sent_common_tags <==> known && before.has_sent_common_tags
            &&& after.supports_ephemeral_gift_wrap <==> (known
                && before.supports_ephemeral_gift_wrap) || delivery.wrap_kind == Some(21059u16)
            &&& final(server).sessions@.contains_key(other) == old(server).sessions@.contains_key(
                other,
            )
            &&& old(server).sessions@.contains_key(other) ==> final(server).sessions@[other]
                == old(server).sessions@[other]
            &&& match message {
                JsonRpcMessage::Request(request) => {
                    &&& final(server).event_routes@.contains_key(event)
                    &&& final(server).event_routes@[event] == client
                    &&& final(server).request_wrap_kinds@.contains_key(event)
                    &&& final(server).request_wrap_kinds@[event] == delivery.wrap_kind
                    &&& !gives_token(request.params, event)
                        ==> after.pending_requests.contains_key(event)
                        && after.pending_requests[event] == request.id@
                },
                _ => {
                    &&& final(server).event_routes@ == old(server).event_routes@
                    &&& final(server).request_wrap_kinds@ == old(server).request_wrap_kinds@
                    &&& known ==> after.pending_requests == before.pending_requests
                    &&& !known ==> after.pending_requests == Map::<Seq<char>, JsonView>::empty()
                },
            }
        }),
{
    lemma_opened(
        old(server).config.allowed_public_keys@,
        old(server).config.excluded_capabilities@,
        delivery.sender@,
        message,
    );
    assert(handled@ is Forward);
    match message {
        JsonRpcMessage::Request(request) => {
            assert(message@ == MessageView::Request(request@));
        },
        JsonRpcMessage::Notification(n) => {
            assert(message@ == MessageView::Notification(n@));
        },
        JsonRpcMessage::Response(r) => {
            assert(message@ == MessageView::Response(r@));
        },
        JsonRpcMessage::ErrorResponse(r) => {
            assert(message@ == MessageView::ErrorResponse(r@));
        },
    }
}

/// The progress token of a request leads to its event, and its event to the
/// token.
pub proof fn law_token_kept(
    server: &mut NostrServerTransport,
    message: JsonRpcMessage,
    delivery: &Delivery,
    handled: Handled,
    token: Seq<char>,
)
    requires
        call_ensures(NostrServerTransport::on_message, (server, message, delivery), handled),
        handled is Forward,
        message matches JsonRpcMessage::Request(request) && gives_token(request.params, token),
    ensures
        ({
            let after = final(server).sessions@[delivery.sender@];
            &&& after.event_to_progress_token.contains_key(delivery.event_id@)
            &&& after.event_to_progress_token[delivery.event_id@] == token
            &&& after.pending_requests.contains_key(token)
            &&& after.pending_requests[token] == JsonView::Str(delivery.event_id@)
        }),
{
    lemma_opened(
        old(server).config.allowed_public_keys@,
        old(server).config.excluded_capabilities@,
        delivery.sender@,
        message,
    );
    assert(handled@ is Forward);
    if let JsonRpcMessage::Request(request) = message {
        assert(message@ == MessageView::Request(request@));
    }
}

/// A request that its sender may not make is answered with its id and the error
/// that says so, to its sender, with a reference to its event and in the gift wrap
/// that it came in; the answer tells the server's ways to a client that was not
/// told. Any other message that is refused is dropped.
pub proof fn law_refused_request_answered(
    server: &mut NostrServerTransport,
    message: JsonRpcMessage,
    delivery: &Delivery,
    handled: Handled,
    answer: JsonRpcMessage,
)
    requires
        call_ensures(NostrServerTransport::on_message, (server, message, delivery), handled),
        message matches JsonRpcMessage::Request(request) ==> is_refusal_of(answer, request.id@),
    ensures
        handled matches Handled::Refused(reply) ==> {
            let client = delivery.sender@;
            let known = old(server).sessions@.contains_key(client);
            let told = known && old(server).sessions@[client].has_sent_common_tags;
            &&& reply is Some <==> message is Request
            &&& reply matches Some(refusal) ==> {
                let outgoing = refusal.outgoing;
                let tags = tags_view(outgoing.template.tags@);
                &&& outgoing.recipient@ == client
                &&& outgoing.template.kind == 25910
                &&& outgoing.template.content@ == text_on_wire(answer)
                &&& addresses(tags, client, delivery.event_id@)
                &&& told ==> tags.len() == 2
                &&& !told ==> tells_server(
                    tags.skip(2),
                    old(server).config.server_info,
                    old(server).config.encryption_mode,
                    old(server).config.gift_wrap_mode,
                    tags_view(old(server).extra_common_tags@),
                )
                &&& refusal.marks_common_tags <==> known && !told
                &&& is_right_wrap(
                    outgoing.wrap_kind,
                    old(server).config.encryption_mode,
                    old(server).config.gift_wrap_mode,
                    delivery.is_encrypted,
                    delivery.wrap_kind,
                )
            }
        },
{
    if let Handled::Refused(reply) = handled {
        match reply {
            Some(refusal) => {
                assert(handled@ == crate::transport::server::HandledView::Refused(Some(refusal@)));
            },
            None => {
                assert(handled@ == crate::transport::server::HandledView::Refused(None));
            },
        }
        match message {
            JsonRpcMessage::Request(request) => {
                assert(message@ == MessageView::Request(request@));
                let refusal = reply->0;
                let tags = tags_view(refusal.outgoing.template.tags@);
                lemma_text_on_wire(answer);
                if let JsonRpcMessage::ErrorResponse(a) = answer {
                    assert(answer@ == MessageView::ErrorResponse(a@));
                }
                assert(answer@ == crate::transport::policy::unauthorized_view(request.id@));
                lemma_right_wrap(
                    old(server).config.encryption_mode,
                    old(server).config.gift_wrap_mode,
                    delivery.is_encrypted,
                    delivery.wrap_kind,
                );
                let info = old(server).config.server_info;
                let extra = tags_view(old(server).extra_common_tags@);
                lemma_common_tags(
                    info,
                    extra,
                    old(server).config.encryption_mode,
                    old(server).config.gift_wrap_mode,
                );
                assert(refusal@.outgoing.template.tags == tags);
                let common = common_tags(
                    optional_info(info),
                    extra,
                    old(server).config.encryption_mode,
                    old(server).config.gift_wrap_mode,
                );
                if !(old(server).sessions@.contains_key(delivery.sender@)
                    && old(server).sessions@[delivery.sender@].has_sent_common_tags) {
                    assert(tags.skip(2) =~= common);
                }
            },
            JsonRpcMessage::Notification(n) => {
                assert(message@ == MessageView::Notification(n@));
            },
            JsonRpcMessage::Response(r) => {
                assert(message@ == MessageView::Response(r@));
            },
            JsonRpcMessage::ErrorResponse(r) => {
                assert(message@ == MessageView::ErrorResponse(r@));
            },
        }
    }
}

/// A content that is no valid message is dropped and nothing is kept of it; any
/// other is taken as the message that it is.
pub proof fn law_delivery_read(
    server: &mut NostrServerTransport,
    same: &mut NostrServerTransport,
    delivery: &Delivery,
    content: &str,
    message: Option<JsonRpcMessage>,
    handled: Handled,
    as_message: Handled,
)
    requires
        content@ == delivery.content@,
        *old(same) == *old(server),
        call_ensures(validate_and_parse, (content,), message),
        call_ensures(NostrServerTransport::on_delivery, (server, delivery), handled),
        message matches Some(m) ==> call_ensures(
            NostrServerTransport::on_message,
            (same, m, delivery),
            as_message,
        ),
    ensures
        message is None ==> handled is Invalid && *final(server) == *old(server),
        message is Some ==> handled@ == as_message@,
{
    if message is None {
        assert(handled@ is Invalid);
        match handled {
            Handled::Forward(incoming) => {
                assert(handled@ is Forward);
            },
            Handled::Refused(Some(refusal)) => {
                assert(handled@ is Refused);
            },
            Handled::Refused(None) => {
                assert(handled@ is Refused);
            },
            Handled::Invalid => {},
        }
    }
}

/// Once a refusal is out that told the server's ways, its client counts as told;
/// no other session changes, and none where it did not.
pub proof fn law_refusal_noted(
    server: &mut NostrServerTransport,
    client: &PublicKey,
    refusal: &Refusal,
    other: Seq<char>,
)
    requires
        call_ensures(NostrServerTransport::refusal_sent, (server, client, refusal), ()),
        other != client@ || !refusal.marks_common_tags,
    ensures
        final(server).sessions@.contains_key(other) == old(server).sessions@.contains_key(other),
        old(server).sessions@.contains_key(other)
            ==> final(server).sessions@[other] == old(server).sessions@[other],
        refusal.marks_common_tags && old(server).sessions@.contains_key(client@) ==> {
            &&& final(server).sessions@.contains_key(client@)
            &&& final(server).sessions@[client@].has_sent_common_tags
            &&& final(server).sessions@[client@].pending_requests
                == old(server).sessions@[client@].pending_requests
        },
        final(server).event_routes@ == old(server).event_routes@,
        final(server).request_wrap_kinds@ == old(server).request_wrap_kinds@,
{
}

/// Once an answer is out, its request is awaited no more and its client counts as
/// told where the answer told it; the routes of other events, and other sessions,
/// stay as they are.
pub proof fn law_response_noted(
    server: &mut NostrServerTransport,
    event_id: &str,
    sent: &PlannedResponse,
    other_event: Seq<char>,
    other: Seq<char>,
)
    requires
        call_ensures(NostrServerTransport::response_sent, (server, event_id, sent), ()),
        other_event != event_id@,
        other != sent.client_pubkey@,
    ensures
        ({
            let client = sent.client_pubkey@;
            let before = old(server).sessions@[client];
            let after = final(server).sessions@[client];
            &&& !final(server).event_routes@.contains_key(event_id@)
            &&& !final(server).request_wrap_kinds@.contains_key(event_id@)
            &&& final(server).event_routes@.contains_key(other_event)
                == old(server).event_routes@.contains_key(other_event)
            &&& old(server).event_routes@.contains_key(other_event)
                ==> final(server).event_routes@[other_event]
                    == old(server).event_routes@[other_event]
            &&& final(server).sessions@.contains_key(other) == old(server).sessions@.contains_key(
                other,
            )
            &&& old(server).sessions@.contains_key(other) ==> final(server).sessions@[other]
                == old(server).sessions@[other]
            &&& final(server).sessions@.contains_key(client) == old(server).sessions@.contains_key(
                client,
            )
            &&& old(server).sessions@.contains_key(client) ==> {
                &&& !after.pending_requests.contains_key(event_id@)
                &&& !after.event_to_progress_token.contains_key(event_id@)
                &&& after.has_sent_common_tags <==> before.has_sent_common_tags
                    || sent.sends_common_tags
                &&& after.is_initialized == before.is_initialized
                &&& after.is_encrypted == before.is_encrypted
                &&& after.supports_ephemeral_gift_wrap == before.supports_ephemeral_gift_wrap
                &&& after.last_activity == before.last_activity
                &&& before.event_to_progress_token.contains_key(event_id@)
                    ==> !after.pending_requests.contains_key(
                    before.event_to_progress_token[event_id@],
                )
            }
        }),
{
}

/// What is done with an event: a gift wrap is opened exactly where its kind is
/// used, encryption is not disabled, and it is not among those that were opened;
/// any other event is read exactly where encryption is not required.
pub proof fn law_event_received(server: &NostrServerTransport, event: &Event, inbound: Inbound)
    requires
        call_ensures(NostrServerTransport::on_event, (server, event), inbound),
    ensures
        ({
            let mode = server.config.encryption_mode;
            let wraps = server.config.gift_wrap_mode;
            let is_used = (event.kind == 1059 && wraps != GiftWrapMode::Ephemeral) || (event.kind
                == 21059 && wraps != GiftWrapMode::Persistent);
            &&& inbound is Decrypt <==> is_used && mode != EncryptionMode::Disabled
                && !server.seen_gift_wrap_ids@.ids.contains(event.id@)
            &&& inbound is Deliver <==> event.kind != 1059 && event.kind != 21059 && mode
                != EncryptionMode::Required
            &&& inbound matches Inbound::Deliver(delivery) ==> delivers_open(delivery, *event)
        }),
{
    lemma_classified(
        server.config.encryption_mode,
        server.config.gift_wrap_mode,
        server.seen_gift_wrap_ids@.ids.contains(event.id@),
        *event,
        inbound,
    );
}

/// An id that is remembered is there.
pub(crate) proof fn lemma_remembered(ids: Seq<Seq<char>>, capacity: nat, id: Seq<char>)
    ensures
        crate::transport::dedup::remembered(ids, capacity, id).contains(id),
{
    let after = crate::transport::dedup::remembered(ids, capacity, id);
    assert(after[after.len() - 1] == id);
}

/// Out of a gift wrap comes what the event inside says, and the gift wrap counts
/// as opened; where there is no event inside, nothing comes and nothing changes.
pub proof fn law_wrap_taken(
    server: &mut NostrServerTransport,
    wrap: &Event,
    inner: Option<Event>,
    delivery: Option<Delivery>,
)
    requires
        call_ensures(NostrServerTransport::on_unwrapped, (server, wrap, inner), delivery),
    ensures
        match inner {
            Some(event) => {
                &&& delivery matches Some(given) && delivers_wrapped(given, event, wrap.kind)
                &&& final(server).seen_gift_wrap_ids@.ids.contains(wrap.id@)
                &&& final(server).sessions@ == old(server).sessions@
                &&& final(server).event_routes@ == old(server).event_routes@
            },
            None => delivery is None && *final(server) == *old(server),
        },
{
    let seen = old(server).seen_gift_wrap_ids@;
    lemma_remembered(seen.ids, seen.capacity, wrap.id@);
    if let Some(given) = delivery {
        assert(given@.is_encrypted);
    }
}

/// A gift wrap that could not be decrypted, or holds no event whose id and
/// signature are right, brings nothing and changes nothing. Out of any other comes
/// what the event inside says, and the gift wrap counts as opened.
pub proof fn law_wrap_decrypted(
    server: &mut NostrServerTransport,
    wrap: &Event,
    decrypted: Result<String, Error>,
    delivery: Option<Delivery>,
)
    requires
        call_ensures(NostrServerTransport::on_decrypted, (server, wrap, decrypted), delivery),
    ensures
        ({
            let holds = decrypted matches Ok(text) && text_verifies(text@) && event_of_text(
                text@,
            ) is Some;
            &&& !holds ==> delivery is None && *final(server) == *old(server)
            &&& holds ==> {
                let inner = event_of_text(decrypted->Ok_0@)->0;
                &&& delivery matches Some(given)
                &&& given.content@ == inner.content
                &&& given.sender@ == inner.pubkey
                &&& given.event_id@ == inner.id
                &&& given.is_encrypted
                &&& given.wrap_kind == Some(wrap.kind)
                &&& final(server).seen_gift_wrap_ids@.ids.contains(wrap.id@)
            }
        }),
{
    let seen = old(server).seen_gift_wrap_ids@;
    lemma_remembered(seen.ids, seen.capacity, wrap.id@);
    if let Some(given) = delivery {
        assert(given@.is_encrypted);
    }
}

/// Whether a span is longer than another.
pub open spec fn is_longer(span: Duration, limit: Duration) -> bool {
    span.secs * 1_000_000_000 + span.nanos > limit.secs * 1_000_000_000 + limit.nanos
}

/// A session ends exactly where it has been idle for longer than allowed, and the
/// others stay as they are. With it go the routes of the requests that it awaited,
/// and those alone.
pub proof fn law_idle_sessions_end(
    server: &mut NostrServerTransport,
    idle: &StringMap<Duration>,
    timeout: Duration,
    cleaned: usize,
    client: Seq<char>,
    event_id: Seq<char>,
)
    requires
        call_ensures(NostrServerTransport::expire_sessions, (server, idle, timeout), cleaned),
    ensures
        final(server).sessions@.contains_key(client) <==> old(server).sessions@.contains_key(client)
            && !(idle@.contains_key(client) && is_longer(idle@[client], timeout)),
        final(server).sessions@.contains_key(client)
            ==> final(server).sessions@[client] == old(server).sessions@[client],
        final(server).event_routes@.contains_key(event_id)
            <==> old(server).event_routes@.contains_key(event_id) && forall|ended: Seq<char>|
            old(server).sessions@.contains_key(ended)
                && !(#[trigger] final(server).sessions@.contains_key(ended))
                    ==> !old(server).sessions@[ended].pending_requests.contains_key(event_id)
                        && !old(server).sessions@[ended].event_to_progress_token.contains_key(event_id),
        final(server).event_routes@.contains_key(event_id)
            ==> final(server).event_routes@[event_id] == old(server).event_routes@[event_id],
        cleaned == old(server).sessions@.dom().len() - final(server).sessions@.dom().len(),
{
    let before = old(server).sessions@;
    assert forall|c: Seq<char>|
        before.contains_key(c) && !(#[trigger] final(server).sessions@.contains_key(c)) implies
        crate::transport::expiry::has_expired(before, idle@, timeout, c) by {}
    let stale = crate::transport::expiry::is_stale::<crate::protocol::session::ClientSession>(
        before,
        idle@,
        timeout,
        event_id,
    );
    if stale {
        let ended = choose|ended: Seq<char>| #[trigger]
            crate::transport::expiry::has_expired(before, idle@, timeout, ended)
                && crate::protocol::session::ClientSession::mentions(before[ended], event_id);
        assert(before.contains_key(ended) && !final(server).sessions@.contains_key(ended));
    }
}

/// By the clock, a session ends exactly where the time since its last activity is
/// longer than allowed.
pub proof fn law_idle_sessions_end_by_clock(
    server: &mut NostrServerTransport,
    timeout: Duration,
    cleaned: usize,
    client: Seq<char>,
)
    requires
        call_ensures(NostrServerTransport::cleanup_sessions, (server, timeout), cleaned),
        old(server).sessions@.contains_key(client),
    ensures
        exists|span: Duration| #[trigger]
            is_time_since(old(server).sessions@[client].last_activity, span)
                && (final(server).sessions@.contains_key(client) <==> !is_longer(span, timeout)),
        final(server).sessions@.contains_key(client)
            ==> final(server).sessions@[client] == old(server).sessions@[client],
        cleaned == old(server).sessions@.dom().len() - final(server).sessions@.dom().len(),
{
    let idle = choose|idle: Map<Seq<char>, Duration>|
        #![trigger crate::transport::server::cleanup::expired(old(server).state(), idle, timeout)]
        {
            &&& crate::transport::expiry::is_idle_by_clock::<
                crate::protocol::session::ClientSession,
            >(old(server).state().sessions, idle)
            &&& final(server).state() == crate::transport::server::cleanup::expired(
                old(server).state(),
                idle,
                timeout,
            )
        };
    assert(idle.contains_key(client));
    assert(is_time_since(old(server).sessions@[client].last_activity, idle[client]));
    assert(final(server).sessions@.contains_key(client) <==> !is_longer(idle[client], timeout));
}

/// A server announces itself as it is configured.
pub proof fn law_server_announced(
    server: &NostrServerTransport,
    info: &ServerInfo,
    announced: Result<EventTemplate, Error>,
    content: &str,
    read: Option<Json>,
)
    requires
        server.config.server_info == Some(*info),
        call_ensures(NostrServerTransport::announce, (server,), announced),
        announced matches Ok(template) ==> content@ == template.content@,
        call_ensures(Json::from_text, (content,), read),
    ensures
        announced matches Ok(template) && {
            let tags = tags_view(template.tags@);
            let front = tags.len() - server.pricing_tags@.len();
            &&& template.kind == 11316
            &&& read matches Some(value) && holds_description(value@, *info)
            &&& front >= 0
            &&& tells_server(
                tags.take(front),
                Some(*info),
                server.config.encryption_mode,
                server.config.gift_wrap_mode,
                tags_view(server.extra_common_tags@),
            )
            &&& tags.skip(front) == tags_view(server.pricing_tags@)
        },
{
    let template = announced->Ok_0;
    crate::transport::policy_laws::lemma_info_layout(*info);
    assert(content@ == crate::protocol::json::layout_text(
        crate::transport::policy::info_layout(info@),
    ));
    let extra = tags_view(server.extra_common_tags@);
    lemma_common_tags(
        Some(*info),
        extra,
        server.config.encryption_mode,
        server.config.gift_wrap_mode,
    );
    let tags = tags_view(template.tags@);
    let front = tags.len() - server.pricing_tags@.len();
    assert(tags == template@.tags);
    assert(tags.take(front) =~= common_tags(
        Some(info@),
        extra,
        server.config.encryption_mode,
        server.config.gift_wrap_mode,
    ));
    assert(tags.skip(front) =~= tags_view(server.pricing_tags@));
}

/// A server without a description announces nothing.
pub proof fn law_server_not_announced(
    server: &NostrServerTransport,
    announced: Result<EventTemplate, Error>,
)
    requires
        server.config.server_info is None,
        call_ensures(NostrServerTransport::announce, (server,), announced),
    ensures
        announced matches Err(Error::Other(reason)) && reason@ == "No server info configured"@,
{
}

/// A server publishes each list under its own kind and name, with its pricing
/// tags.
pub proof fn law_server_lists_published(
    server: &NostrServerTransport,
    items: Vec<Json>,
    tools: EventTemplate,
    resources: EventTemplate,
    templates: EventTemplate,
    prompts: EventTemplate,
)
    requires
        call_ensures(NostrServerTransport::publish_tools, (server, items), tools),
        call_ensures(NostrServerTransport::publish_resources, (server, items), resources),
        call_ensures(NostrServerTransport::publish_resource_templates, (server, items), templates),
        call_ensures(NostrServerTransport::publish_prompts, (server, items), prompts),
    ensures
        publishes(tools, 11317, "tools"@, items@, server.pricing_tags@),
        publishes(resources, 11318, "resources"@, items@, server.pricing_tags@),
        publishes(templates, 11319, "resourceTemplates"@, items@, server.pricing_tags@),
        publishes(prompts, 11320, "prompts"@, items@, server.pricing_tags@),
{
    let pricing = server.pricing_tags@;
    crate::transport::policy_laws::lemma_list_published(tools, 11317, "tools"@, items@, pricing);
    crate::transport::policy_laws::lemma_list_published(
        resources,
        11318,
        "resources"@,
        items@,
        pricing,
    );
    crate::transport::policy_laws::lemma_list_published(
        templates,
        11319,
        "resourceTemplates"@,
        items@,
        pricing,
    );
    crate::transport::policy_laws::lemma_list_published(
        prompts,
        11320,
        "prompts"@,
        items@,
        pricing,
    );
}

/// Every kind of announcement is deleted, by one request that names it.
pub proof fn law_server_announcements_deleted(
    server: &NostrServerTransport,
    reason: &str,
    templates: Vec<EventTemplate>,
)
    requires
        call_ensures(NostrServerTransport::delete_announcements, (server, reason), templates),
    ensures
        templates@.len() == 5,
        asks_deletion(templates@[0], reason@, seq!["k"@, "11316"@]),
        asks_deletion(templates@[1], reason@, seq!["k"@, "11317"@]),
        asks_deletion(templates@[2], reason@, seq!["k"@, "11318"@]),
        asks_deletion(templates@[3], reason@, seq!["k"@, "11319"@]),
        asks_deletion(templates@[4], reason@, seq!["k"@, "11320"@]),
{
    lemma_kinds_in_decimal();
    let kinds = crate::protocol::constants::UNENCRYPTED_KINDS@;
    assert(kinds[0] == 11316 && kinds[1] == 11317 && kinds[2] == 11318 && kinds[3] == 11319
        && kinds[4] == 11320);
    assert(templates@[0]@.kind == 5);
    assert(templates@[1]@.kind == 5);
    assert(templates@[2]@.kind == 5);
    assert(templates@[3]@.kind == 5);
    assert(templates@[4]@.kind == 5);
}

/// The gift wrap of a notification: none to a client that talks in the open; the
/// one kind that is used, where only one is; otherwise that of the request that it
/// belongs to, or else an ephemeral one exactly where the client knows them.
pub proof fn law_notification_wrap(
    mode: GiftWrapMode,
    is_encrypted: bool,
    mirrored: Option<u16>,
    knows_ephemeral: bool,
    kind: Option<u16>,
)
    requires
        call_ensures(
            NostrServerTransport::select_outbound_notification_gift_wrap_kind,
            (mode, is_encrypted, mirrored, knows_ephemeral),
            kind,
        ),
    ensures
        !is_encrypted ==> kind is None,
        is_encrypted && mode == GiftWrapMode::Persistent ==> kind == Some(1059u16),
        is_encrypted && mode == GiftWrapMode::Ephemeral ==> kind == Some(21059u16),
        is_encrypted && mode == GiftWrapMode::Optional ==> kind == if mirrored == Some(21059u16)
            || (mirrored is None && knows_ephemeral) {
            Some(21059u16)
        } else {
            Some(1059u16)
        },
{
}

/// A server starts without sessions, routes and opened gift wraps, with the
/// encryption that is configured, and is not connected.
pub proof fn law_server_created(config: NostrServerTransportConfig, server: NostrServerTransport)
    requires
        call_ensures(NostrServerTransport::new, (config,), server),
    ensures
        server.config == config,
        server.base.encryption_mode == config.encryption_mode,
        !server.base.is_connected,
        server.sessions@ == Map::<Seq<char>, crate::protocol::session::SessionView>::empty(),
        server.event_routes@ == Map::<Seq<char>, Seq<char>>::empty(),
        server.seen_gift_wrap_ids@.ids.len() == 0,
        server.seen_gift_wrap_ids@.capacity == 5000,
        server.extra_common_tags@.len() == 0,
        server.pricing_tags@.len() == 0,
        server.has_message_receiver,
{
}

/// A server starts step by step; nothing that it keeps changes.
pub proof fn law_server_started(
    server: &mut NostrServerTransport,
    event: StartEvent,
    action: StartAction,
)
    requires
        call_ensures(NostrServerTransport::start, (server, event), action),
    ensures
        is_next_step(old(server).base.is_connected, event, action),
        final(server).config == old(server).config,
        final(server).sessions@ == old(server).sessions@,
        final(server).event_routes@ == old(server).event_routes@,
        final(server).base.is_connected <==> old(server).base.is_connected || (
        event matches StartEvent::Connected(attempt) && attempt is Ok),
{
    lemma_next_step(old(server).base.is_connected, event, action);
}

/// A server that is closed keeps no session and no route; where disconnecting
/// fails it is not closed, and nothing changes.
pub proof fn law_server_closed(
    server: &mut NostrServerTransport,
    attempt: Result<(), Error>,
    result: Result<(), Error>,
)
    requires
        call_ensures(NostrServerTransport::close, (server, attempt), result),
    ensures
        result is Ok <==> !old(server).base.is_connected || attempt is Ok,
        result is Err ==> result == attempt && *final(server) == *old(server),
        result is Ok ==> {
            &&& !final(server).base.is_connected
            &&& forall|client: Seq<char>| !final(server).sessions@.contains_key(client)
            &&& forall|event_id: Seq<char>| !final(server).event_routes@.contains_key(event_id)
            &&& final(server).config == old(server).config
        },
{
}

/// The answer to a request that was handed on goes to the client that sent it,
/// refers to the event that brought it, and has the id that the client gave it. The
/// request is any whose progress token, if it gives one, is not the id of its own
/// event.
pub proof fn law_request_answered(
    server: &mut NostrServerTransport,
    answering: &NostrServerTransport,
    message: JsonRpcMessage,
    delivery: &Delivery,
    handled: Handled,
    event_id: &str,
    response: JsonRpcMessage,
    result: Result<PlannedResponse, Error>,
    answer: JsonRpcMessage,
)
    requires
        call_ensures(NostrServerTransport::on_message, (server, message, delivery), handled),
        handled is Forward,
        message matches JsonRpcMessage::Request(request) && is_answer_with_id(
            answer,
            response,
            request.id@,
        ) && !gives_token(request.params, delivery.event_id@),
        *final(server) == *answering,
        event_id@ == delivery.event_id@,
        is_written_id(delivery.sender@),
        is_written_id(delivery.event_id@),
        call_ensures(NostrServerTransport::send_response, (answering, event_id, response), result),
    ensures
        result matches Ok(sent) && {
            &&& sent.client_pubkey@ == delivery.sender@
            &&& sent.outgoing.recipient@ == delivery.sender@
            &&& sent.outgoing.template.kind == 25910
            &&& addresses(
                tags_view(sent.outgoing.template.tags@),
                delivery.sender@,
                delivery.event_id@,
            )
            &&& sent.outgoing.template.content@ == text_on_wire(answer)
            &&& is_right_wrap(
                sent.outgoing.wrap_kind,
                answering.base.encryption_mode,
                answering.config.gift_wrap_mode,
                delivery.is_encrypted,
                delivery.wrap_kind,
            )
        },
{
    law_message_kept(server, message, delivery, handled, delivery.sender@.push('x'));
    law_written_id_is_itself(delivery.sender@, delivery.sender@);
    law_written_id_is_itself(delivery.event_id@, delivery.event_id@);
    law_response_reaches_client(
        answering,
        event_id,
        response,
        result,
        answer,
        delivery.sender@,
        delivery.event_id@,
    );
}

} // verus!
