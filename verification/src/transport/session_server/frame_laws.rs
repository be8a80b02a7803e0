//! What stays as it is when a server takes a message, answers, or lets sessions
//! end.

use crate::protocol::error::Error;
use crate::protocol::nostr::{event_of_text, text_verifies, Event};
use crate::protocol::types::{JsonRpcMessage, MessageView};
use crate::protocol::validation::validate_and_parse;
use crate::transport::base_laws::gives_token;
use crate::transport::inbound::Delivery;
use crate::transport::policy_laws::lemma_opened;
use crate::transport::server::frame_laws::{
    lemma_remembers_others, remembers_others, same_entry,
};
use crate::transport::session_server::{Handled, NostrServerTransport, PlannedResponse};
use crate::util::string_map::StringMap;
use crate::util::time::Duration;
use vstd::prelude::*;

verus! {

/// A message that is handed on touches no request but its own: the routes and the
/// tokens of all others stay as they are.
pub proof fn law_other_requests_stay(
    server: &mut NostrServerTransport,
    message: JsonRpcMessage,
    delivery: &Delivery,
    handled: Handled,
    other: Seq<char>,
    token: Seq<char>,
)
    requires
        call_ensures(NostrServerTransport::on_message, (server, message, delivery), handled),
        handled is Forward,
        other != delivery.event_id@,
        !(message matches JsonRpcMessage::Request(request) && gives_token(request.params, token)),
    ensures
        same_entry(final(server).event_to_client@, old(server).event_to_client@, other),
        ({
            let after = final(server).sessions@[delivery.sender@];
            if old(server).sessions@.contains_key(delivery.sender@) {
                let before = old(server).sessions@[delivery.sender@];
                &&& same_entry(after.pending_requests, before.pending_requests, other)
                &&& same_entry(
                    after.progress_token_to_event,
                    before.progress_token_to_event,
                    token,
                )
            } else {
                &&& !after.pending_requests.contains_key(other)
                &&& !after.progress_token_to_event.contains_key(token)
            }
        }),
{
    lemma_opened(
        old(server).config.allowed_public_keys@,
        old(server).config.excluded_capabilities@,
        delivery.sender@,
        message,
    );
    assert(handled@ is Forward);
    match message {
        JsonRpcMessage::Request(request) => {
            assert(message@ == MessageView::Request(request@));
            if let Some(given) = crate::transport::inbound::progress_token(request@.params) {
                assert(gives_token(request.params, given));
            }
        },
        JsonRpcMessage::Notification(n) => {
            assert(message@ == MessageView::Notification(n@));
        },
        JsonRpcMessage::Response(r) => {
            assert(message@ == MessageView::Response(r@));
        },
        JsonRpcMessage::ErrorResponse(r) => {
            assert(message@ == MessageView::ErrorResponse(r@));
        },
    }
}

/// What a server keeps of a content is what it keeps of the message in it, but for
/// the moment that the clock gives.
pub proof fn law_delivery_kept(
    server: &mut NostrServerTransport,
    same: &mut NostrServerTransport,
    delivery: &Delivery,
    content: &str,
    message: JsonRpcMessage,
    handled: Handled,
    as_message: Handled,
    other: Seq<char>,
)
    requires
        content@ == delivery.content@,
        *old(same) == *old(server),
        call_ensures(validate_and_parse, (content,), Some(message)),
        call_ensures(NostrServerTransport::on_delivery, (server, delivery), handled),
        call_ensures(NostrServerTransport::on_message, (same, message, delivery), as_message),
        other != delivery.sender@,
    ensures
        final(server).config == final(same).config,
        final(server).event_to_client@ == final(same).event_to_client@,
        final(server).seen_gift_wrap_ids@ == final(same).seen_gift_wrap_ids@,
        same_entry(final(server).sessions@, final(same).sessions@, other),
        final(server).sessions@.contains_key(delivery.sender@)
            <==> final(same).sessions@.contains_key(delivery.sender@),
        final(server).sessions@.contains_key(delivery.sender@) ==> {
            let a = final(server).sessions@[delivery.sender@];
            let b = final(same).sessions@[delivery.sender@];
            &&& a.is_initialized == b.is_initialized
            &&& a.is_encrypted == b.is_encrypted
            &&& a.has_sent_common_tags == b.has_sent_common_tags
            &&& a.pending_requests == b.pending_requests
            &&& a.progress_token_to_event == b.progress_token_to_event
        },
{
    assert(final(server).state().seen == final(server).seen_gift_wrap_ids@);
    assert(final(same).state().seen == final(same).seen_gift_wrap_ids@);
}

/// Once an answer is out, no other token of its client is touched.
pub proof fn law_other_tokens_stay(
    server: &mut NostrServerTransport,
    event_id: &str,
    sent: &PlannedResponse,
    token: Seq<char>,
)
    requires
        call_ensures(NostrServerTransport::response_sent, (server, event_id, sent), ()),
        old(server).sessions@.contains_key(sent.client_pubkey@),
    ensures
        ({
            let before = old(server).sessions@[sent.client_pubkey@];
            let after = final(server).sessions@[sent.client_pubkey@];
            !(before.pending_requests.contains_key(event_id@)
                && before.pending_requests[event_id@].progress_token == Some(token)) ==> same_entry(
                after.progress_token_to_event,
                before.progress_token_to_event,
                token,
            )
        }),
        final(server).seen_gift_wrap_ids@ == old(server).seen_gift_wrap_ids@,
        final(server).config == old(server).config,
{
    assert(final(server).state().seen == final(server).seen_gift_wrap_ids@);
}

/// Where sessions end, the opened gift wraps stay known and the configuration
/// stays as it is.
pub proof fn law_end_of_sessions_changes_little(
    server: &mut NostrServerTransport,
    idle: &StringMap<Duration>,
    timeout: Duration,
    cleaned: usize,
)
    requires
        call_ensures(NostrServerTransport::expire_sessions, (server, idle, timeout), cleaned),
    ensures
        final(server).seen_gift_wrap_ids@ == old(server).seen_gift_wrap_ids@,
        final(server).config == old(server).config,
{
    assert(final(server).state().seen == final(server).seen_gift_wrap_ids@);
}

/// A server that is closed still knows the gift wraps that it opened, and keeps
/// its tags.
pub proof fn law_closed_server_remembers(
    server: &mut NostrServerTransport,
    attempt: Result<(), Error>,
    result: Result<(), Error>,
)
    requires
        call_ensures(NostrServerTransport::close, (server, attempt), result),
    ensures
        final(server).seen_gift_wrap_ids@ == old(server).seen_gift_wrap_ids@,
        final(server).extra_common_tags@ == old(server).extra_common_tags@,
        final(server).pricing_tags@ == old(server).pricing_tags@,
        final(server).has_message_receiver == old(server).has_message_receiver,
        final(server).base.encryption_mode == old(server).base.encryption_mode,
{
    assert(final(server).state().seen == final(server).seen_gift_wrap_ids@);
}

/// That a gift wrap was opened is remembered beside those that were opened before.
pub proof fn law_opened_wraps_stay_known(
    server: &mut NostrServerTransport,
    wrap: &Event,
    inner: Event,
    delivery: Option<Delivery>,
)
    requires
        call_ensures(NostrServerTransport::on_unwrapped, (server, wrap, Some(inner)), delivery),
    ensures
        remembers_others(
            final(server).seen_gift_wrap_ids@,
            old(server).seen_gift_wrap_ids@,
            wrap.id@,
        ),
        final(server).config == old(server).config,
{
    lemma_remembers_others(old(server).seen_gift_wrap_ids@, wrap.id@);
    assert(final(server).state().seen == final(server).seen_gift_wrap_ids@);
}

/// That a gift wrap was decrypted is remembered beside those that were opened
/// before, and no session or route changes.
pub proof fn law_decrypted_wraps_stay_known(
    server: &mut NostrServerTransport,
    wrap: &Event,
    text: String,
    delivery: Option<Delivery>,
)
    requires
        call_ensures(
            NostrServerTransport::on_decrypted,
            (server, wrap, Ok::<String, Error>(text)),
            delivery,
        ),
        text_verifies(text@),
        event_of_text(text@) is Some,
    ensures
        remembers_others(
            final(server).seen_gift_wrap_ids@,
            old(server).seen_gift_wrap_ids@,
            wrap.id@,
        ),
        final(server).sessions@ == old(server).sessions@,
        final(server).event_to_client@ == old(server).event_to_client@,
        final(server).config == old(server).config,
{
    lemma_remembers_others(old(server).seen_gift_wrap_ids@, wrap.id@);
    assert(final(server).state().seen == final(server).seen_gift_wrap_ids@);
    assert(final(server).state().sessions == final(server).sessions@);
    assert(final(server).state().event_to_client == final(server).event_to_client@);
}

} // verus!
