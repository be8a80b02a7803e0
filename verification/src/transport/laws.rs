//! What holds of client and server together.

use crate::protocol::constants::tags;
use crate::protocol::nostr::{is_hex_id, EventView};
use crate::protocol::serializers::tag_value;
use crate::protocol::types::{MessageView, RequestView};
use crate::protocol::validation::valid_content;
use crate::protocol::wire::message_text;
use crate::transport::base::{recipient_tags, response_tags};
use crate::transport::client;
use crate::transport::client::{reply_of, ClientView};
use crate::transport::inbound::{progress_token, DeliveryView};
use crate::transport::server;
use crate::transport::server::run::{
    after_steps, law_answer_reaches_requester, spared_by_all, ServerStep,
};
use crate::transport::server::{planned, ServerSettings, ServerView};
use crate::transport::dedup::SeenGiftWraps;
use vstd::prelude::*;

verus! {

/// The tags of an answer name the client and the request that it answers,
/// whatever other tags follow.
pub proof fn law_response_tags_name_request(
    key: Seq<char>,
    event_id: Seq<char>,
    rest: Seq<Seq<Seq<char>>>,
)
    ensures
        tag_value(response_tags(key, event_id) + rest, tags::PUBKEY@) == Some(key),
        tag_value(response_tags(key, event_id) + rest, tags::EVENT_ID@) == Some(event_id),
{
    reveal_strlit("p");
    reveal_strlit("e");
    assert(tags::PUBKEY@[0] == 'p' && tags::EVENT_ID@[0] == 'e');
    let all = response_tags(key, event_id) + rest;
    assert(all[0] == seq![tags::PUBKEY@, key]);
    assert(all.drop_first()[0] == seq![tags::EVENT_ID@, event_id]);
    reveal_with_fuel(tag_value, 3);
}

/// The tags of a message on its own name the recipient, and no event.
pub proof fn law_recipient_tags_name_recipient(key: Seq<char>)
    ensures
        tag_value(recipient_tags(key), tags::PUBKEY@) == Some(key),
        tag_value(recipient_tags(key), tags::EVENT_ID@) is None,
{
    reveal_strlit("p");
    reveal_strlit("e");
    assert(tags::PUBKEY@[0] == 'p' && tags::EVENT_ID@[0] == 'e');
    assert(recipient_tags(key)[0] == seq![tags::PUBKEY@, key]);
    reveal_with_fuel(tag_value, 2);
}

/// The answer of a server to a request that it has accepted is read by the
/// client that awaits it, with the id that the client gave the request; whatever
/// steps that leave the request alone the server has made in between.
pub proof fn law_answer_read_by_client(
    settings: ServerSettings,
    at_server: ServerView,
    delivery: DeliveryView,
    request: RequestView,
    moment: std::time::Instant,
    steps: Seq<ServerStep>,
    response: MessageView,
    at_client: ClientView,
    server_key: Seq<char>,
    event: EventView,
)
    requires
        is_hex_id(delivery.sender),
        is_hex_id(delivery.event_id),
        progress_token(request.params) != Some(delivery.event_id),
        spared_by_all(
            server::accepted(at_server, delivery, MessageView::Request(request), moment),
            steps,
            delivery.event_id,
            delivery.sender,
        ),
        at_client.pending.contains(delivery.event_id),
        event.pubkey == server_key,
        ({
            let start = server::accepted(at_server, delivery, MessageView::Request(request), moment);
            let later = after_steps(start, steps);
            let answer = planned(settings, later, delivery.event_id, response).outgoing.template;
            event.content == answer.content && event.tags == answer.tags
        }),
    ensures
        client::accepted(at_client, server_key, reply_of(event)) == valid_content(
            message_text(response.answering(request.id)),
        ),
{
    law_answer_reaches_requester(
        settings,
        at_server,
        delivery,
        request,
        moment,
        steps,
        response,
    );
    let tags = response_tags(delivery.sender, delivery.event_id);
    let rest = event.tags.skip(tags.len() as int);
    assert(event.tags =~= tags + rest);
    law_response_tags_name_request(delivery.sender, delivery.event_id, rest);
}

/// A gift wrap that was opened counts as opened; any other that counted as opened
/// still does, but for the one that was opened longest ago where there is no more
/// room, and no gift wrap counts as opened that was not.
pub proof fn law_opened_wrap_known(
    seen: &mut SeenGiftWraps,
    looked_at: &SeenGiftWraps,
    id: String,
    asked: &str,
    known: bool,
    other: Seq<char>,
)
    requires
        seen@.is_valid(),
        call_ensures(SeenGiftWraps::put, (seen, id), ()),
        call_ensures(SeenGiftWraps::contains, (looked_at, asked), known),
    ensures
        known <==> looked_at@.ids.contains(asked@),
        final(seen)@.ids.contains(id@),
        final(seen)@.ids.len() <= old(seen)@.capacity,
        final(seen)@.ids.contains(other) ==> other == id@ || old(seen)@.ids.contains(other),
        old(seen)@.ids.contains(other) && old(seen)@.ids.len() < old(seen)@.capacity ==> final(
            seen)@.ids.contains(other),
        old(seen)@.ids.contains(other) && other != old(seen)@.ids[0] ==> final(
            seen)@.ids.contains(other),
{
    crate::transport::dedup::law_remember(old(seen)@, id@, other);
}

/// There is room for as many gift wraps as are asked for, and none counts as
/// opened at first.
pub proof fn law_no_wrap_known(capacity: usize, seen: SeenGiftWraps, id: Seq<char>)
    requires
        call_ensures(SeenGiftWraps::new, (capacity,), seen),
        0 < capacity <= 1_000_000,
    ensures
        !seen@.ids.contains(id),
        seen@.capacity == capacity,
{
}

} // verus!
