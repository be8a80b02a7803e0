//! What clients get from a server: answers, refusals, notifications and
//! announcements.

use crate::protocol::error::Error;
use crate::protocol::laws::{
    is_answer_with_id, is_hex, lemma_answer_with_id, lemma_reads_as, lemma_text_on_wire, reads_as,
    text_on_wire,
};
use crate::protocol::nostr::tags_view;
use crate::protocol::session::SessionView;
use crate::protocol::types::{EncryptionMode, GiftWrapMode, JsonRpcMessage, MessageView};
use crate::transport::base::{chosen_wrap, response_tags, Outgoing};
use crate::transport::base_laws::must_encrypt;
use crate::transport::policy::{common_tags, optional_info, response_wrap};
use crate::transport::policy_laws::{
    lemma_common_tags, lists_capabilities, tells_capabilities, tells_description, tells_server,
};
use crate::transport::server::{
    extra_response_tags, is_initialized, planned, NostrServerTransport, PlannedResponse,
};
use vstd::prelude::*;

verus! {

/// Whether the gift wrap of a message is the right one: there is one exactly where
/// the message must be encrypted; its kind is the one that the mode names, or
/// where both are used the mirrored one, and otherwise the persistent one.
pub open spec fn is_right_wrap(
    wrap_kind: Option<u16>,
    sending: EncryptionMode,
    wraps: GiftWrapMode,
    is_encrypted: bool,
    mirrored: Option<u16>,
) -> bool {
    if must_encrypt(sending, 25910, Some(is_encrypted)) {
        wrap_kind == if !is_encrypted || wraps == GiftWrapMode::Persistent {
            Some(1059u16)
        } else if wraps == GiftWrapMode::Ephemeral || mirrored == Some(21059u16) {
            Some(21059u16)
        } else {
            Some(1059u16)
        }
    } else {
        wrap_kind is None
    }
}

/// What is stated of the gift wrap of an answer is the right one.
pub(crate) proof fn lemma_right_wrap(
    sending: EncryptionMode,
    wraps: GiftWrapMode,
    is_encrypted: bool,
    mirrored: Option<u16>,
)
    ensures
        is_right_wrap(
            chosen_wrap(
                sending,
                25910,
                Some(is_encrypted),
                response_wrap(wraps, is_encrypted, mirrored),
            ),
            sending,
            wraps,
            is_encrypted,
            mirrored,
        ),
{
}

/// Whether tags address a client and refer to an event, first of all.
pub open spec fn addresses(
    tags: Seq<Seq<Seq<char>>>,
    client: Seq<char>,
    event_id: Seq<char>,
) -> bool {
    &&& tags.len() >= 2
    &&& tags[0] == seq!["p"@, client]
    &&& tags[1] == seq!["e"@, event_id]
}

/// The gift wrap that a request came in, as far as it is known.
pub open spec fn known_wrap(server: NostrServerTransport, event_id: Seq<char>) -> Option<u16> {
    if server.request_wrap_kinds@.contains_key(event_id) {
        server.request_wrap_kinds@[event_id]
    } else {
        None
    }
}

/// The id that an answer to the request of an event gets: the one that the client
/// gave the request, where it is known.
pub open spec fn restores_id(
    session: SessionView,
    event_id: Seq<char>,
    answer: JsonRpcMessage,
    response: JsonRpcMessage,
) -> bool {
    if session.pending_requests.contains_key(event_id) {
        is_answer_with_id(answer, response, session.pending_requests[event_id])
    } else {
        answer@ == response@
    }
}

/// The answer to a request goes to the client that sent it, in a message in the
/// open or in the right gift wrap; it refers to the event of the request, has the
/// id that the client gave it, and says what the handler said.
pub proof fn law_response_reaches_client(
    server: &NostrServerTransport,
    event_id: &str,
    response: JsonRpcMessage,
    result: Result<PlannedResponse, Error>,
    answer: JsonRpcMessage,
    key: Seq<char>,
    reference: Seq<char>,
)
    requires
        call_ensures(NostrServerTransport::send_response, (server, event_id, response), result),
        server.event_routes@.contains_key(event_id@),
        server.sessions@.contains_key(server.event_routes@[event_id@]),
        reads_as(server.event_routes@[event_id@], key),
        reads_as(event_id@, reference),
        restores_id(
            server.sessions@[server.event_routes@[event_id@]],
            event_id@,
            answer,
            response,
        ),
    ensures
        ({
            let client = server.event_routes@[event_id@];
            let session = server.sessions@[client];
            &&& result matches Ok(sent)
            &&& sent.client_pubkey@ == client
            &&& sent.outgoing.recipient@ == key
            &&& sent.outgoing.template.kind == 25910
            &&& addresses(tags_view(sent.outgoing.template.tags@), key, reference)
            &&& sent.outgoing.template.content@ == text_on_wire(answer)
            &&& is_right_wrap(
                sent.outgoing.wrap_kind,
                server.base.encryption_mode,
                server.config.gift_wrap_mode,
                session.is_encrypted,
                known_wrap(*server, event_id@),
            )
        }),
{
    let client = server.event_routes@[event_id@];
    let session = server.sessions@[client];
    lemma_reads_as(client, key);
    lemma_reads_as(event_id@, reference);
    lemma_text_on_wire(answer);
    if session.pending_requests.contains_key(event_id@) {
        lemma_answer_with_id(answer, response, session.pending_requests[event_id@]);
    }
    lemma_right_wrap(
        server.base.encryption_mode,
        server.config.gift_wrap_mode,
        session.is_encrypted,
        known_wrap(*server, event_id@),
    );
    let sent = result->Ok_0;
    assert(sent@ == planned(server.settings(), server.state(), event_id@, response@));
    assert(sent@.outgoing.template.tags == tags_view(sent.outgoing.template.tags@));
}

/// What holds of the pricing tags: how many end an answer.
pub open spec fn priced(server: NostrServerTransport, response: JsonRpcMessage) -> int {
    if lists_capabilities(response) {
        server.pricing_tags@.len() as int
    } else {
        0
    }
}

/// What [`lists_capabilities`] says is what is stated of a list of capabilities.
pub(crate) proof fn lemma_lists_capabilities(message: JsonRpcMessage)
    ensures
        crate::transport::policy::is_capability_list(message@) == lists_capabilities(message),
{
    if let JsonRpcMessage::Response(response) = message {
        assert(message@ == MessageView::Response(response@));
    }
}

/// The first answer to a client tells it the server's ways, between the tags that
/// address it and the pricing tags: the description that is configured, what is
/// supported, and every extra tag. It counts as told with that answer, and later
/// answers tell nothing of it. An answer ends with the pricing tags exactly where
/// it is a list of capabilities.
pub proof fn law_first_response_tells_server(
    server: &NostrServerTransport,
    event_id: &str,
    response: JsonRpcMessage,
    result: Result<PlannedResponse, Error>,
)
    requires
        call_ensures(NostrServerTransport::send_response, (server, event_id, response), result),
        result is Ok,
    ensures
        ({
            let session = server.sessions@[server.event_routes@[event_id@]];
            let sent = result->Ok_0;
            let tags = tags_view(sent.outgoing.template.tags@);
            let end = tags.len() - priced(*server, response);
            &&& sent.sends_common_tags <==> !session.has_sent_common_tags
            &&& end >= 2
            &&& session.has_sent_common_tags ==> end == 2
            &&& !session.has_sent_common_tags ==> {
                &&& tells_server(
                    tags.subrange(2, end),
                    server.config.server_info,
                    server.config.encryption_mode,
                    server.config.gift_wrap_mode,
                    tags_view(server.extra_common_tags@),
                )
                &&& server.config.server_info matches Some(info) ==> tells_description(tags, info)
                &&& tells_capabilities(
                    tags,
                    server.config.encryption_mode,
                    server.config.gift_wrap_mode,
                )
                &&& forall|i: int|
                    0 <= i < server.extra_common_tags@.len() ==> tags.contains(
                        (#[trigger] server.extra_common_tags@[i])@,
                    )
            }
            &&& lists_capabilities(response) ==> tags.skip(end) == tags_view(server.pricing_tags@)
        }),
{
    let client = server.event_routes@[event_id@];
    let session = server.sessions@[client];
    let sent = result->Ok_0;
    let tags = tags_view(sent.outgoing.template.tags@);
    let end = tags.len() - priced(*server, response);
    let extra = tags_view(server.extra_common_tags@);
    let pricing = tags_view(server.pricing_tags@);
    lemma_lists_capabilities(response);
    let restored = crate::transport::server::restored(session, event_id@, response@);
    assert(crate::transport::policy::is_capability_list(restored) == lists_capabilities(response));
    assert(sent@.outgoing.template.tags == tags);
    let front = response_tags(
        crate::protocol::nostr::hex_id(client)->0,
        crate::protocol::nostr::hex_id(event_id@)->0,
    );
    let rest = extra_response_tags(server.settings(), session, restored);
    assert(tags == front + rest);
    let common = common_tags(
        optional_info(server.config.server_info),
        extra,
        server.config.encryption_mode,
        server.config.gift_wrap_mode,
    );
    if !session.has_sent_common_tags {
        lemma_common_tags(
            server.config.server_info,
            extra,
            server.config.encryption_mode,
            server.config.gift_wrap_mode,
        );
        assert(tags.subrange(2, end) =~= common);
        assert forall|tag: Seq<Seq<char>>| common.contains(tag) implies #[trigger] tags.contains(
            tag,
        ) by {
            let i = choose|i: int| 0 <= i < common.len() && common[i] == tag;
            assert(tags[2 + i] == tag);
        }
        assert forall|i: int| 0 <= i < server.extra_common_tags@.len() implies tags.contains(
            (#[trigger] server.extra_common_tags@[i])@,
        ) by {
            assert(extra[i] == server.extra_common_tags@[i]@);
            assert(common.contains(extra[i]));
        }
    }
    if lists_capabilities(response) {
        assert(tags.skip(end) =~= pricing);
    }
}

/// An answer has nowhere to go exactly where its event is unknown, its client has
/// no session, or one of the two is no id; the failure says so.
pub proof fn law_response_without_client(
    server: &NostrServerTransport,
    event_id: &str,
    response: JsonRpcMessage,
    result: Result<PlannedResponse, Error>,
)
    requires
        call_ensures(NostrServerTransport::send_response, (server, event_id, response), result),
    ensures
        ({
            let client = server.event_routes@[event_id@];
            &&& !server.event_routes@.contains_key(event_id@) ==> (result matches Err(
                Error::Other(reason),
            ) && reason@ == "No client found for event "@ + event_id@)
            &&& server.event_routes@.contains_key(event_id@) && !server.sessions@.contains_key(
                client,
            ) ==> (result matches Err(Error::Other(reason)) && reason@ == "No session for client "@
                + client)
            &&& !is_hex(client) || !is_hex(event_id@) ==> result is Err
        }),
{
    lemma_reads_as(server.event_routes@[event_id@], Seq::empty());
    lemma_reads_as(event_id@, Seq::empty());
}

/// A notification to a client with a session goes to that client, addressed by a
/// tag `p` with its key; a tag `e` with the id of the request's event follows
/// exactly where a request is given, and no other tag. It says what was given to
/// say, in the right gift wrap.
pub proof fn law_notification_reaches_client(
    server: &NostrServerTransport,
    client: &str,
    notification: &JsonRpcMessage,
    correlated: Option<&str>,
    result: Result<Outgoing, Error>,
    key: Seq<char>,
    reference: Seq<char>,
)
    requires
        call_ensures(
            NostrServerTransport::send_notification,
            (server, client, notification, correlated),
            result,
        ),
        server.sessions@.contains_key(client@),
        reads_as(client@, key),
        correlated matches Some(event_id) ==> reads_as(event_id@, reference),
    ensures
        result matches Ok(outgoing) && is_notification_to(
            *server,
            client@,
            key,
            *notification,
            correlated,
            reference,
            outgoing,
        ),
{
    lemma_reads_as(client@, key);
    lemma_text_on_wire(*notification);
    if let Some(event_id) = correlated {
        lemma_reads_as(event_id@, reference);
    }
    let outgoing = result->Ok_0;
    assert(outgoing@.template.tags == tags_view(outgoing.template.tags@));
}

/// Whether a message is the notification to a client that it should be, where the
/// client has that key, and the request that is given came in the event with that
/// id.
pub open spec fn is_notification_to(
    server: NostrServerTransport,
    client: Seq<char>,
    key: Seq<char>,
    notification: JsonRpcMessage,
    correlated: Option<&str>,
    reference: Seq<char>,
    outgoing: Outgoing,
) -> bool {
    let session = server.sessions@[client];
    let tags = tags_view(outgoing.template.tags@);
    &&& outgoing.recipient@ == key
    &&& outgoing.template.kind == 25910
    &&& outgoing.template.content@ == text_on_wire(notification)
    &&& match correlated {
        Some(_) => tags == seq![seq!["p"@, key], seq!["e"@, reference]],
        None => tags == seq![seq!["p"@, key]],
    }
    &&& is_right_wrap(
        outgoing.wrap_kind,
        server.base.encryption_mode,
        server.config.gift_wrap_mode,
        session.is_encrypted,
        wrap_to_mirror(server, session, correlated),
    )
}

/// The gift wrap that a notification mirrors: that of the request that is given,
/// where it is known, or else an ephemeral one where the client has sent one.
pub open spec fn wrap_to_mirror(
    server: NostrServerTransport,
    session: SessionView,
    correlated: Option<&str>,
) -> Option<u16> {
    let mirrored = match correlated {
        Some(event_id) => known_wrap(server, event_id@),
        None => None,
    };
    if mirrored is None && session.supports_ephemeral_gift_wrap {
        Some(21059u16)
    } else {
        mirrored
    }
}

/// A notification goes nowhere where the client has no session or no key, or where
/// the request that is given has no id.
pub proof fn law_notification_without_session(
    server: &NostrServerTransport,
    client: &str,
    notification: &JsonRpcMessage,
    correlated: Option<&str>,
    result: Result<Outgoing, Error>,
)
    requires
        call_ensures(
            NostrServerTransport::send_notification,
            (server, client, notification, correlated),
            result,
        ),
    ensures
        !server.sessions@.contains_key(client@) ==> (result matches Err(Error::Other(reason))
            && reason@ == "No session for "@ + client@),
        !is_hex(client@) ==> result is Err,
        correlated matches Some(event_id) ==> !is_hex(event_id@) ==> result is Err,
{
    lemma_reads_as(client@, Seq::empty());
    if let Some(event_id) = correlated {
        lemma_reads_as(event_id@, Seq::empty());
    }
}

/// What is broadcast goes once to each client that is initialized, as a
/// notification of its own, and to nobody else.
pub proof fn law_broadcast_reaches_initialized(
    server: &NostrServerTransport,
    notification: &JsonRpcMessage,
    sent: Vec<(String, Outgoing)>,
    client: Seq<char>,
    key: Seq<char>,
)
    requires
        call_ensures(NostrServerTransport::broadcast_notification, (server, notification), sent),
        reads_as(client, key),
    ensures
        server.sessions@.contains_key(client) && server.sessions@[client].is_initialized
            <==> exists|i: int| 0 <= i < sent@.len() && (#[trigger] sent@[i]).0@ == client,
        forall|i: int|
            0 <= i < sent@.len() && (#[trigger] sent@[i]).0@ == client ==> is_notification_to(
                *server,
                client,
                key,
                *notification,
                None,
                Seq::empty(),
                sent@[i].1,
            ),
        forall|i: int, j: int|
            0 <= i < j < sent@.len() ==> (#[trigger] sent@[i]).0@ != (#[trigger] sent@[j]).0@,
{
    lemma_reads_as(client, key);
    lemma_text_on_wire(*notification);
    let reached = |c: Seq<char>|
        crate::transport::server::broadcast_to(
            server.settings(),
            server.state(),
            c,
            notification@,
        );
    assert(crate::transport::broadcast::is_broadcast(sent@, reached));
    if server.sessions@.contains_key(client) && server.sessions@[client].is_initialized {
        assert(reached(client) is Some);
    }
    assert forall|i: int| 0 <= i < sent@.len() && (#[trigger] sent@[i]).0@
        == client implies is_notification_to(
        *server,
        client,
        key,
        *notification,
        None,
        Seq::empty(),
        sent@[i].1,
    ) by {
        assert(reached(sent@[i].0@) == Some(sent@[i].1@));
        let outgoing = sent@[i].1;
        assert(outgoing@.template.tags == tags_view(outgoing.template.tags@));
    }
    if exists|i: int| 0 <= i < sent@.len() && (#[trigger] sent@[i]).0@ == client {
        let i = choose|i: int| 0 <= i < sent@.len() && (#[trigger] sent@[i]).0@ == client;
        assert(reached(sent@[i].0@) == Some(sent@[i].1@));
    }
}

} // verus!
