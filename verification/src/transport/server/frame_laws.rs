//! What stays as it is when a server takes a message, answers, or lets sessions
//! end.

use crate::protocol::error::Error;
use crate::protocol::nostr::{event_of_text, text_verifies, Event, PublicKey};
use crate::protocol::types::{JsonRpcMessage, MessageView};
use crate::protocol::validation::validate_and_parse;
use crate::transport::base_laws::gives_token;
use crate::transport::dedup::{remembered, SeenView};
use crate::transport::expiry::Session;
use crate::transport::inbound::Delivery;
use crate::transport::policy_laws::lemma_opened;
use crate::transport::server::{Handled, NostrServerTransport, PlannedResponse, Refusal};
use crate::util::string_map::StringMap;
use crate::util::time::Duration;
use vstd::prelude::*;

verus! {

/// Whether a map has under a key what another has, or nothing where that has
/// nothing.
pub open spec fn same_entry<V>(a: Map<Seq<char>, V>, b: Map<Seq<char>, V>, key: Seq<char>) -> bool {
    &&& a.contains_key(key) <==> b.contains_key(key)
    &&& b.contains_key(key) ==> a[key] == b[key]
}

/// A message that is handed on touches no request but its own: the routes, the
/// gift wraps, the ids and the tokens of all others stay as they are.
pub proof fn law_other_requests_stay(
    server: &mut NostrServerTransport,
    message: JsonRpcMessage,
    delivery: &Delivery,
    handled: Handled,
    other: Seq<char>,
)
    requires
        call_ensures(NostrServerTransport::on_message, (server, message, delivery), handled),
        handled is Forward,
        other != delivery.event_id@,
    ensures
        same_entry(final(server).event_routes@, old(server).event_routes@, other),
        same_entry(final(server).request_wrap_kinds@, old(server).request_wrap_kinds@, other),
        ({
            let after = final(server).sessions@[delivery.sender@];
            let names_other = message matches JsonRpcMessage::Request(request) && gives_token(
                request.params,
                other,
            );
            if old(server).sessions@.contains_key(delivery.sender@) {
                let before = old(server).sessions@[delivery.sender@];
                &&& !names_other ==> same_entry(
                    after.pending_requests,
                    before.pending_requests,
                    other,
                )
                &&& same_entry(
                    after.event_to_progress_token,
                    before.event_to_progress_token,
                    other,
                )
            } else {
                &&& !names_other ==> !after.pending_requests.contains_key(other)
                &&& !after.event_to_progress_token.contains_key(other)
            }
        }),
{
    lemma_opened(
        old(server).config.allowed_public_keys@,
        old(server).config.excluded_capabilities@,
        delivery.sender@,
        message,
    );
    assert(handled@ is Forward);
    match message {
        JsonRpcMessage::Request(request) => {
            assert(message@ == MessageView::Request(request@));
            if let Some(token) = crate::transport::inbound::progress_token(request@.params) {
                assert(gives_token(request.params, token));
            }
        },
        JsonRpcMessage::Notification(n) => {
            assert(message@ == MessageView::Notification(n@));
        },
        JsonRpcMessage::Response(r) => {
            assert(message@ == MessageView::Response(r@));
        },
        JsonRpcMessage::ErrorResponse(r) => {
            assert(message@ == MessageView::ErrorResponse(r@));
        },
    }
}

/// What a server keeps of a content is what it keeps of the message in it, but for
/// the moment that the clock gives.
pub proof fn law_delivery_kept(
    server: &mut NostrServerTransport,
    same: &mut NostrServerTransport,
    delivery: &Delivery,
    content: &str,
    message: JsonRpcMessage,
    handled: Handled,
    as_message: Handled,
    other: Seq<char>,
)
    requires
        content@ == delivery.content@,
        *old(same) == *old(server),
        call_ensures(validate_and_parse, (content,), Some(message)),
        call_ensures(NostrServerTransport::on_delivery, (server, delivery), handled),
        call_ensures(NostrServerTransport::on_message, (same, message, delivery), as_message),
        other != delivery.sender@,
    ensures
        final(server).config == final(same).config,
        final(server).event_routes@ == final(same).event_routes@,
        final(server).request_wrap_kinds@ == final(same).request_wrap_kinds@,
        final(server).seen_gift_wrap_ids@ == final(same).seen_gift_wrap_ids@,
        same_entry(final(server).sessions@, final(same).sessions@, other),
        final(server).sessions@.contains_key(delivery.sender@)
            <==> final(same).sessions@.contains_key(delivery.sender@),
        final(server).sessions@.contains_key(delivery.sender@) ==> {
            let a = final(server).sessions@[delivery.sender@];
            let b = final(same).sessions@[delivery.sender@];
            &&& a.is_initialized == b.is_initialized
            &&& a.is_encrypted == b.is_encrypted
            &&& a.has_sent_common_tags == b.has_sent_common_tags
            &&& a.supports_ephemeral_gift_wrap == b.supports_ephemeral_gift_wrap
            &&& a.pending_requests == b.pending_requests
            &&& a.event_to_progress_token == b.event_to_progress_token
        },
{
    assert(final(server).state().seen == final(server).seen_gift_wrap_ids@);
    assert(final(same).state().seen == final(same).seen_gift_wrap_ids@);
}

/// Once an answer is out, no other request of its client is touched: its id, its
/// token and its gift wrap stay as they are.
pub proof fn law_other_answers_awaited(
    server: &mut NostrServerTransport,
    event_id: &str,
    sent: &PlannedResponse,
    other: Seq<char>,
)
    requires
        call_ensures(NostrServerTransport::response_sent, (server, event_id, sent), ()),
        other != event_id@,
    ensures
        same_entry(final(server).request_wrap_kinds@, old(server).request_wrap_kinds@, other),
        final(server).seen_gift_wrap_ids@ == old(server).seen_gift_wrap_ids@,
        final(server).config == old(server).config,
        old(server).sessions@.contains_key(sent.client_pubkey@) ==> {
            let before = old(server).sessions@[sent.client_pubkey@];
            let after = final(server).sessions@[sent.client_pubkey@];
            &&& same_entry(after.event_to_progress_token, before.event_to_progress_token, other)
            &&& !(before.event_to_progress_token.contains_key(event_id@)
                && before.event_to_progress_token[event_id@] == other) ==> same_entry(
                after.pending_requests,
                before.pending_requests,
                other,
            )
        },
{
    assert(final(server).state().seen == final(server).seen_gift_wrap_ids@);
    assert(final(server).state().wrap_kinds == final(server).request_wrap_kinds@);
}

/// That a refusal is out changes nothing of a session but that its client was told
/// the server's ways.
pub proof fn law_refusal_changes_little(
    server: &mut NostrServerTransport,
    client: &PublicKey,
    refusal: &Refusal,
)
    requires
        call_ensures(NostrServerTransport::refusal_sent, (server, client, refusal), ()),
        old(server).sessions@.contains_key(client@),
    ensures
        ({
            let before = old(server).sessions@[client@];
            let after = final(server).sessions@[client@];
            &&& final(server).sessions@.contains_key(client@)
            &&& after.has_sent_common_tags <==> before.has_sent_common_tags
                || refusal.marks_common_tags
            &&& after.is_initialized == before.is_initialized
            &&& after.is_encrypted == before.is_encrypted
            &&& after.supports_ephemeral_gift_wrap == before.supports_ephemeral_gift_wrap
            &&& after.last_activity == before.last_activity
            &&& after.pending_requests == before.pending_requests
            &&& after.event_to_progress_token == before.event_to_progress_token
        }),
        final(server).seen_gift_wrap_ids@ == old(server).seen_gift_wrap_ids@,
        final(server).config == old(server).config,
{
    assert(final(server).state().seen == final(server).seen_gift_wrap_ids@);
}

/// With a session that ends go the gift wraps of the requests that it awaited, and
/// those alone; the opened gift wraps stay known.
pub proof fn law_wraps_of_idle_sessions_go(
    server: &mut NostrServerTransport,
    idle: &StringMap<Duration>,
    timeout: Duration,
    cleaned: usize,
    event_id: Seq<char>,
)
    requires
        call_ensures(NostrServerTransport::expire_sessions, (server, idle, timeout), cleaned),
    ensures
        ({
            let stays = forall|ended: Seq<char>|
                old(server).sessions@.contains_key(ended)
                    && !(#[trigger] final(server).sessions@.contains_key(ended))
                        ==> !old(server).sessions@[ended].pending_requests.contains_key(event_id)
                            && !old(server).sessions@[ended].event_to_progress_token.contains_key(event_id);
            &&& final(server).request_wrap_kinds@.contains_key(event_id)
                <==> old(server).request_wrap_kinds@.contains_key(event_id) && stays
        }),
        final(server).request_wrap_kinds@.contains_key(event_id)
            ==> final(server).request_wrap_kinds@[event_id]
                == old(server).request_wrap_kinds@[event_id],
        final(server).seen_gift_wrap_ids@ == old(server).seen_gift_wrap_ids@,
        final(server).config == old(server).config,
{
    let before = old(server).sessions@;
    assert(final(server).state().seen == final(server).seen_gift_wrap_ids@);
    assert(final(server).state().wrap_kinds == final(server).request_wrap_kinds@);
    assert forall|c: Seq<char>|
        before.contains_key(c) && !(#[trigger] final(server).sessions@.contains_key(c)) implies
        crate::transport::expiry::has_expired(before, idle@, timeout, c) by {}
    if crate::transport::expiry::is_stale::<crate::protocol::session::ClientSession>(
        before,
        idle@,
        timeout,
        event_id,
    ) {
        let ended = choose|ended: Seq<char>| #[trigger]
            crate::transport::expiry::has_expired(before, idle@, timeout, ended)
                && crate::protocol::session::ClientSession::mentions(before[ended], event_id);
        assert(before.contains_key(ended) && !final(server).sessions@.contains_key(ended));
    }
}

/// A server that is closed still knows the gift wraps that it opened, and keeps
/// its tags.
pub proof fn law_closed_server_remembers(
    server: &mut NostrServerTransport,
    attempt: Result<(), Error>,
    result: Result<(), Error>,
)
    requires
        call_ensures(NostrServerTransport::close, (server, attempt), result),
    ensures
        final(server).seen_gift_wrap_ids@ == old(server).seen_gift_wrap_ids@,
        final(server).extra_common_tags@ == old(server).extra_common_tags@,
        final(server).pricing_tags@ == old(server).pricing_tags@,
        final(server).has_message_receiver == old(server).has_message_receiver,
        final(server).base.encryption_mode == old(server).base.encryption_mode,
{
    assert(final(server).state().seen == final(server).seen_gift_wrap_ids@);
}

/// Whether ids are remembered beside one more, where there is room for any: an id
/// that was there still is, but for the first where there is no room for more, and
/// no id is there that was not.
pub open spec fn remembers_others(after: SeenView, before: SeenView, id: Seq<char>) -> bool {
    &&& after.capacity == before.capacity
    &&& before.capacity > 0 ==> forall|other: Seq<char>| #[trigger]
        after.ids.contains(other) ==> other == id || before.ids.contains(other)
    &&& forall|other: Seq<char>| #[trigger]
        before.ids.contains(other) && (other != before.ids[0] || before.ids.len()
            < before.capacity) ==> after.ids.contains(other)
}

/// One more id is remembered beside the others.
pub(crate) proof fn lemma_remembers_others(seen: SeenView, id: Seq<char>)
    ensures
        remembers_others(seen.remember(id), seen, id),
{
    let ids = seen.ids;
    let after = remembered(ids, seen.capacity, id);
    assert forall|other: Seq<char>| #[trigger]
        after.contains(other) && seen.capacity > 0 implies other == id || ids.contains(other) by {
        let i = choose|i: int| 0 <= i < after.len() && after[i] == other;
        if i < after.len() - 1 {
            if ids.contains(id) {
                let at = ids.index_of(id);
                assert(0 <= at < ids.len());
                assert(ids[if i < at { i } else { i + 1 }] == other);
            } else if ids.len() == seen.capacity {
                assert(ids[i + 1] == other);
            } else {
                assert(ids[i] == other);
            }
        }
    }
    assert forall|other: Seq<char>| #[trigger]
        ids.contains(other)
            && (other != ids[0] || ids.len() < seen.capacity) implies after.contains(
        other,
    ) by {
        let i = choose|i: int| 0 <= i < ids.len() && ids[i] == other;
        if ids.contains(id) {
            let at = ids.index_of(id);
            assert(0 <= at < ids.len() && ids[at] == id);
            if i < at {
                assert(after[i] == other);
            } else if i > at {
                assert(after[i - 1] == other);
            } else {
                assert(after[after.len() - 1] == other);
            }
        } else if ids.len() == seen.capacity {
            assert(after[i - 1] == other);
        } else {
            assert(after[i] == other);
        }
    }
}

/// That a gift wrap was opened is remembered beside those that were opened before.
pub proof fn law_opened_wraps_stay_known(
    server: &mut NostrServerTransport,
    wrap: &Event,
    inner: Event,
    delivery: Option<Delivery>,
)
    requires
        call_ensures(NostrServerTransport::on_unwrapped, (server, wrap, Some(inner)), delivery),
    ensures
        remembers_others(
            final(server).seen_gift_wrap_ids@,
            old(server).seen_gift_wrap_ids@,
            wrap.id@,
        ),
        final(server).request_wrap_kinds@ == old(server).request_wrap_kinds@,
        final(server).config == old(server).config,
{
    lemma_remembers_others(old(server).seen_gift_wrap_ids@, wrap.id@);
    assert(final(server).state().seen == final(server).seen_gift_wrap_ids@);
    assert(final(server).state().wrap_kinds == final(server).request_wrap_kinds@);
}

/// That a gift wrap was decrypted is remembered beside those that were opened
/// before, and no session or route changes.
pub proof fn law_decrypted_wraps_stay_known(
    server: &mut NostrServerTransport,
    wrap: &Event,
    text: String,
    delivery: Option<Delivery>,
)
    requires
        call_ensures(
            NostrServerTransport::on_decrypted,
            (server, wrap, Ok::<String, Error>(text)),
            delivery,
        ),
        text_verifies(text@),
        event_of_text(text@) is Some,
    ensures
        remembers_others(
            final(server).seen_gift_wrap_ids@,
            old(server).seen_gift_wrap_ids@,
            wrap.id@,
        ),
        final(server).sessions@ == old(server).sessions@,
        final(server).event_routes@ == old(server).event_routes@,
        final(server).request_wrap_kinds@ == old(server).request_wrap_kinds@,
        final(server).config == old(server).config,
{
    lemma_remembers_others(old(server).seen_gift_wrap_ids@, wrap.id@);
    assert(final(server).state().seen == final(server).seen_gift_wrap_ids@);
    assert(final(server).state().wrap_kinds == final(server).request_wrap_kinds@);
    assert(final(server).state().sessions == final(server).sessions@);
    assert(final(server).state().routes == final(server).event_routes@);
}

} // verus!
