//! What clients get from a server: answers and notifications.

use crate::protocol::error::Error;
use crate::protocol::json::JsonView;
use crate::protocol::laws::{
    is_answer_with_id, is_hex, lemma_answer_with_id, lemma_reads_as, lemma_text_on_wire, reads_as,
    text_on_wire,
};
use crate::protocol::nostr::{hex_id, tags_view};
use crate::protocol::types::{JsonRpcMessage, MessageView};
use crate::transport::base::{response_tags, Outgoing};
use crate::transport::policy::{common_tags, info_tags, optional_info};
use crate::transport::policy_laws::{
    description_number, is_description, lemma_common_tags, lemma_info_tags, lists_capabilities,
    tells_capabilities, tells_description, tells_server,
};
use crate::transport::server::answer_laws::{
    addresses, is_right_wrap, lemma_lists_capabilities, lemma_right_wrap,
};
use crate::transport::session_server::session::SessionView;
use crate::transport::session_server::{
    extra_response_tags, planned, NostrServerTransport, PlannedResponse,
};
use vstd::prelude::*;

verus! {

/// The answer to a request goes to the client that sent it, in a message in the
/// open or in the right gift wrap; it refers to the event of the request, has the
/// id that the client gave it, and says what the handler said.
pub proof fn law_response_reaches_client(
    server: &NostrServerTransport,
    event_id: &str,
    response: JsonRpcMessage,
    result: Result<PlannedResponse, Error>,
    answer: JsonRpcMessage,
    key: Seq<char>,
    reference: Seq<char>,
)
    requires
        call_ensures(NostrServerTransport::send_response, (server, event_id, response), result),
        server.event_to_client@.contains_key(event_id@),
        server.sessions@.contains_key(server.event_to_client@[event_id@]),
        server.sessions@[server.event_to_client@[event_id@]].pending_requests.contains_key(
            event_id@,
        ),
        reads_as(server.event_to_client@[event_id@], key),
        reads_as(event_id@, reference),
        is_answer_with_id(
            answer,
            response,
            server.sessions@[server.event_to_client@[event_id@]].pending_requests[event_id@].original_request_id,
        ),
    ensures
        ({
            let client = server.event_to_client@[event_id@];
            let session = server.sessions@[client];
            &&& result matches Ok(sent)
            &&& sent.client_pubkey@ == client
            &&& sent.outgoing.recipient@ == key
            &&& sent.outgoing.template.kind == 25910
            &&& addresses(tags_view(sent.outgoing.template.tags@), key, reference)
            &&& sent.outgoing.template.content@ == text_on_wire(answer)
            &&& is_right_wrap(
                sent.outgoing.wrap_kind,
                server.base.encryption_mode,
                server.config.gift_wrap_mode,
                session.is_encrypted,
                session.pending_requests[event_id@].wrap_kind,
            )
        }),
{
    let client = server.event_to_client@[event_id@];
    let session = server.sessions@[client];
    let route = session.pending_requests[event_id@];
    lemma_reads_as(client, key);
    lemma_reads_as(event_id@, reference);
    lemma_text_on_wire(answer);
    lemma_answer_with_id(answer, response, route.original_request_id);
    lemma_right_wrap(
        server.base.encryption_mode,
        server.config.gift_wrap_mode,
        session.is_encrypted,
        route.wrap_kind,
    );
    let sent = result->Ok_0;
    assert(sent@ == planned(server.settings(), server.state(), event_id@, response@));
    assert(sent@.outgoing.template.tags == tags_view(sent.outgoing.template.tags@));
}

/// Whether a message is the answer to `initialize`: a response whose result is an
/// object with the members `protocolVersion` and `serverInfo`.
pub open spec fn answers_initialize(message: JsonRpcMessage) -> bool {
    &&& message matches JsonRpcMessage::Response(response)
    &&& response.result@ matches JsonView::Object(members)
    &&& members.contains_key("protocolVersion"@)
    &&& members.contains_key("serverInfo"@)
}

/// The answer to `initialize` is told apart from all other messages, and so are
/// lists of capabilities.
pub proof fn law_responses_told_apart(message: &JsonRpcMessage, initializes: bool, lists: bool)
    requires
        call_ensures(
            NostrServerTransport::is_initialize_result_response,
            (message,),
            initializes,
        ),
        call_ensures(NostrServerTransport::is_capability_list_response, (message,), lists),
    ensures
        initializes == answers_initialize(*message),
        lists == lists_capabilities(*message),
{
    lemma_lists_capabilities(*message);
    if let JsonRpcMessage::Response(response) = *message {
        assert(message@ == MessageView::Response(response@));
    }
}

/// The tags of an answer are those that address it and those that are stated
/// beside them.
proof fn lemma_answer_tags(
    server: &NostrServerTransport,
    event_id: &str,
    response: JsonRpcMessage,
    result: Result<PlannedResponse, Error>,
) -> (front: Seq<Seq<Seq<char>>>)
    requires
        call_ensures(NostrServerTransport::send_response, (server, event_id, response), result),
        result is Ok,
    ensures
        ({
            let session = server.sessions@[server.event_to_client@[event_id@]];
            let tags = tags_view(result->Ok_0.outgoing.template.tags@);
            &&& front.len() == 2
            &&& result->Ok_0.sends_common_tags == !session.has_sent_common_tags
            &&& tags == front + (if !session.has_sent_common_tags {
                common_tags(
                    optional_info(server.config.server_info),
                    tags_view(server.extra_common_tags@),
                    server.config.encryption_mode,
                    server.config.gift_wrap_mode,
                )
            } else if answers_initialize(response) {
                info_tags(optional_info(server.config.server_info))
            } else {
                Seq::empty()
            }) + (if lists_capabilities(response) {
                tags_view(server.pricing_tags@)
            } else {
                Seq::empty()
            })
        }),
{
    let client = server.event_to_client@[event_id@];
    let session = server.sessions@[client];
    let route = session.pending_requests[event_id@];
    let sent = result->Ok_0;
    let tags = tags_view(sent.outgoing.template.tags@);
    let answer = response@.answering(route.original_request_id);
    lemma_lists_capabilities(response);
    if let JsonRpcMessage::Response(r) = response {
        assert(response@ == MessageView::Response(r@));
    }
    assert(crate::transport::policy::is_capability_list(answer) == lists_capabilities(response));
    assert(crate::transport::session_server::is_initialize_result(answer) == answers_initialize(
        response,
    ));
    assert(sent@.outgoing.template.tags == tags);
    let front = response_tags(hex_id(client)->0, hex_id(event_id@)->0);
    let rest = extra_response_tags(server.settings(), session, answer);
    assert(tags == front + rest);
    let told = if !session.has_sent_common_tags {
        common_tags(
            optional_info(server.config.server_info),
            tags_view(server.extra_common_tags@),
            server.config.encryption_mode,
            server.config.gift_wrap_mode,
        )
    } else if answers_initialize(response) {
        info_tags(optional_info(server.config.server_info))
    } else {
        Seq::empty()
    };
    let pricing = if lists_capabilities(response) {
        tags_view(server.pricing_tags@)
    } else {
        Seq::empty()
    };
    assert(rest == told + pricing);
    assert(front + (told + pricing) =~= front + told + pricing);
    front
}

/// The first answer to a client tells it the server's ways, between the tags that
/// address it and the pricing tags: the description that is configured, what is
/// supported, and every extra tag. It counts as told with that answer. An answer
/// ends with the pricing tags exactly where it is a list of capabilities.
pub proof fn law_first_response_tells_server(
    server: &NostrServerTransport,
    event_id: &str,
    response: JsonRpcMessage,
    result: Result<PlannedResponse, Error>,
)
    requires
        call_ensures(NostrServerTransport::send_response, (server, event_id, response), result),
        result is Ok,
        !server.sessions@[server.event_to_client@[event_id@]].has_sent_common_tags,
    ensures
        ({
            let sent = result->Ok_0;
            let tags = tags_view(sent.outgoing.template.tags@);
            let end = if lists_capabilities(response) {
                tags.len() - server.pricing_tags@.len()
            } else {
                tags.len() as int
            };
            &&& sent.sends_common_tags
            &&& end >= 2
            &&& tells_server(
                tags.subrange(2, end),
                server.config.server_info,
                server.config.encryption_mode,
                server.config.gift_wrap_mode,
                tags_view(server.extra_common_tags@),
            )
            &&& server.config.server_info matches Some(info) ==> tells_description(tags, info)
            &&& tells_capabilities(
                tags,
                server.config.encryption_mode,
                server.config.gift_wrap_mode,
            )
            &&& forall|i: int|
                0 <= i < server.extra_common_tags@.len() ==> tags.contains(
                    (#[trigger] server.extra_common_tags@[i])@,
                )
            &&& lists_capabilities(response) ==> tags.skip(end) == tags_view(server.pricing_tags@)
        }),
{
    let front = lemma_answer_tags(server, event_id, response, result);
    let tags = tags_view(result->Ok_0.outgoing.template.tags@);
    let end = if lists_capabilities(response) {
        tags.len() - server.pricing_tags@.len()
    } else {
        tags.len() as int
    };
    let common = common_tags(
        optional_info(server.config.server_info),
        tags_view(server.extra_common_tags@),
        server.config.encryption_mode,
        server.config.gift_wrap_mode,
    );
    lemma_common_tags(
        server.config.server_info,
        tags_view(server.extra_common_tags@),
        server.config.encryption_mode,
        server.config.gift_wrap_mode,
    );
    assert(tags.subrange(2, end) =~= common);
    assert forall|tag: Seq<Seq<char>>| common.contains(tag) implies #[trigger] tags.contains(
        tag,
    ) by {
        let i = choose|i: int| 0 <= i < common.len() && common[i] == tag;
        assert(tags[2 + i] == tag);
    }
    let extra = tags_view(server.extra_common_tags@);
    assert forall|i: int| 0 <= i < server.extra_common_tags@.len() implies tags.contains(
        (#[trigger] server.extra_common_tags@[i])@,
    ) by {
        assert(extra[i] == server.extra_common_tags@[i]@);
        assert(common.contains(extra[i]));
    }
    if lists_capabilities(response) {
        assert(tags.skip(end) =~= tags_view(server.pricing_tags@));
    }
}

/// Of later answers to a client the one to `initialize` tells the description
/// again, and the others tell nothing of the server's ways. An answer ends with
/// the pricing tags exactly where it is a list of capabilities.
pub proof fn law_later_response_tells_little(
    server: &NostrServerTransport,
    event_id: &str,
    response: JsonRpcMessage,
    result: Result<PlannedResponse, Error>,
)
    requires
        call_ensures(NostrServerTransport::send_response, (server, event_id, response), result),
        result is Ok,
        server.sessions@[server.event_to_client@[event_id@]].has_sent_common_tags,
    ensures
        ({
            let sent = result->Ok_0;
            let tags = tags_view(sent.outgoing.template.tags@);
            let end = if lists_capabilities(response) {
                tags.len() - server.pricing_tags@.len()
            } else {
                tags.len() as int
            };
            &&& !sent.sends_common_tags
            &&& !answers_initialize(response) || server.config.server_info is None ==> end == 2
            &&& answers_initialize(response) ==> (server.config.server_info matches Some(info)
                ==> tells_description(tags, info) && end == 2 + description_number(info))
            &&& lists_capabilities(response) ==> tags.skip(end) == tags_view(server.pricing_tags@)
        }),
{
    let front = lemma_answer_tags(server, event_id, response, result);
    let tags = tags_view(result->Ok_0.outgoing.template.tags@);
    let end = if lists_capabilities(response) {
        tags.len() - server.pricing_tags@.len()
    } else {
        tags.len() as int
    };
    if answers_initialize(response) {
        if let Some(info) = server.config.server_info {
            lemma_described_within(info, tags);
        }
    }
    if lists_capabilities(response) {
        assert(tags.skip(end) =~= tags_view(server.pricing_tags@));
    }
}

/// Where the tags of a description stand behind the first two, it is told.
proof fn lemma_described_within(
    info: crate::protocol::types::ServerInfo,
    tags: Seq<Seq<Seq<char>>>,
)
    ensures
        info_tags(Some(info@)).len() == description_number(info),
        tags.len() >= 2 + info_tags(Some(info@)).len() && (forall|i: int|
            0 <= i < info_tags(Some(info@)).len() ==> tags[2 + i] == #[trigger] info_tags(
                Some(info@),
            )[i]) ==> tells_description(tags, info),
{
    let described = info_tags(Some(info@));
    lemma_info_tags(info, Seq::empty());
    if tags.len() >= 2 + described.len() && (forall|i: int|
        0 <= i < described.len() ==> tags[2 + i] == #[trigger] described[i]) {
        assert forall|tag: Seq<Seq<char>>| is_description(tag, info) implies #[trigger] tags.contains(
            tag,
        ) by {
            lemma_info_tags(info, tag);
            let i = choose|i: int| 0 <= i < described.len() && described[i] == tag;
            assert(tags[2 + i] == tag);
        }
        if let Some(text) = info.name {
            assert(is_description(seq!["name"@, text@], info));
        }
        if let Some(text) = info.about {
            assert(is_description(seq!["about"@, text@], info));
        }
        if let Some(text) = info.website {
            assert(is_description(seq!["website"@, text@], info));
        }
        if let Some(text) = info.picture {
            assert(is_description(seq!["picture"@, text@], info));
        }
    }
}

/// An answer has nowhere to go where its event is unknown, its client has no
/// session, or the session does not await it; the failure says so.
pub proof fn law_response_without_client(
    server: &NostrServerTransport,
    event_id: &str,
    response: JsonRpcMessage,
    result: Result<PlannedResponse, Error>,
)
    requires
        call_ensures(NostrServerTransport::send_response, (server, event_id, response), result),
    ensures
        ({
            let client = server.event_to_client@[event_id@];
            let routed = server.event_to_client@.contains_key(event_id@);
            let known = server.sessions@.contains_key(client);
            &&& !routed ==> (result matches Err(Error::Other(reason)) && reason@
                == "No client found for event "@ + event_id@)
            &&& routed && !known ==> (result matches Err(Error::Other(reason)) && reason@
                == "No session for client "@ + client)
            &&& routed && known && !server.sessions@[client].pending_requests.contains_key(
                event_id@,
            ) ==> (result matches Err(Error::Other(reason)) && reason@
                == "No pending route for event "@ + event_id@)
            &&& !is_hex(client) || !is_hex(event_id@) ==> result is Err
        }),
{
    lemma_reads_as(server.event_to_client@[event_id@], Seq::empty());
    lemma_reads_as(event_id@, Seq::empty());
}

/// Whether a message reports progress under a token: a notification of progress
/// whose parameters have it as the text of their member `progressToken`.
pub open spec fn reports_progress(message: JsonRpcMessage, token: Seq<char>) -> bool {
    &&& message matches JsonRpcMessage::Notification(notification)
    &&& notification.method@ == "notifications/progress"@
    &&& notification.params matches Some(params)
    &&& params@ matches JsonView::Object(members)
    &&& members.contains_key("progressToken"@)
    &&& members["progressToken"@] == JsonView::Str(token)
}

/// What is stated of the token of a notification is the one that it reports
/// progress under.
pub(crate) proof fn lemma_reports_progress(message: JsonRpcMessage, token: Seq<char>)
    ensures
        crate::transport::session_server::notified_token(message@) == Some(token)
            <==> reports_progress(message, token),
{
    if let JsonRpcMessage::Notification(notification) = message {
        assert(message@ == MessageView::Notification(notification@));
    }
}

/// The token of a notification is the one that it reports progress under.
pub proof fn law_reported_token(notification: &JsonRpcMessage, token: Option<String>)
    requires
        call_ensures(
            NostrServerTransport::progress_token_from_notification,
            (notification,),
            token,
        ),
    ensures
        match token {
            Some(text) => reports_progress(*notification, text@),
            None => forall|text: Seq<char>| !reports_progress(*notification, text),
        },
{
    match token {
        Some(text) => lemma_reports_progress(*notification, text@),
        None => {
            assert forall|text: Seq<char>| !reports_progress(*notification, text) by {
                lemma_reports_progress(*notification, text);
            }
        },
    }
}

/// Whether a notification belongs to the request of an event: the one that is
/// given, or else the one that gave the token under which it reports progress.
pub open spec fn belongs_to(
    session: SessionView,
    notification: JsonRpcMessage,
    given: Option<&str>,
    event_id: Seq<char>,
) -> bool {
    match given {
        Some(id) => id@ == event_id,
        None => exists|token: Seq<char>| #[trigger]
            reports_progress(notification, token) && session.progress_token_to_event.contains_key(
                token,
            ) && session.progress_token_to_event[token] == event_id,
    }
}

/// What is stated of the request that a notification belongs to is the one that it
/// belongs to.
pub(crate) proof fn lemma_belongs_to(
    session: SessionView,
    notification: JsonRpcMessage,
    given: Option<&str>,
    event_id: Seq<char>,
)
    ensures
        crate::transport::session_server::correlation(
            session,
            notification@,
            crate::util::text::optional_str(given),
        ) == Some(event_id) <==> belongs_to(session, notification, given, event_id),
{
    if given is None {
        let stated = crate::transport::session_server::notified_token(notification@);
        if let Some(token) = stated {
            lemma_reports_progress(notification, token);
        }
        if belongs_to(session, notification, given, event_id) {
            let token = choose|token: Seq<char>| #[trigger]
                reports_progress(notification, token)
                    && session.progress_token_to_event.contains_key(token)
                    && session.progress_token_to_event[token] == event_id;
            lemma_reports_progress(notification, token);
        }
    }
}

/// The request that a notification belongs to is found.
pub proof fn law_correlation_found(
    session: &crate::transport::session_server::session::ClientSession,
    notification: &JsonRpcMessage,
    given: Option<&str>,
    found: Option<String>,
)
    requires
        call_ensures(
            NostrServerTransport::resolve_notification_correlation,
            (session, notification, given),
            found,
        ),
    ensures
        match found {
            Some(event_id) => belongs_to(session@, *notification, given, event_id@),
            None => forall|event_id: Seq<char>|
                !belongs_to(session@, *notification, given, event_id),
        },
{
    match found {
        Some(event_id) => lemma_belongs_to(session@, *notification, given, event_id@),
        None => {
            assert forall|event_id: Seq<char>| !belongs_to(
                session@,
                *notification,
                given,
                event_id,
            ) by {
                lemma_belongs_to(session@, *notification, given, event_id);
            }
        },
    }
}

/// Whether a message is the notification to a client that it should be, where it
/// belongs to the request of an event or to none, the client has that key, and the
/// event that id.
pub open spec fn is_notification_to(
    server: NostrServerTransport,
    client: Seq<char>,
    key: Seq<char>,
    notification: JsonRpcMessage,
    request: Option<Seq<char>>,
    reference: Seq<char>,
    outgoing: Outgoing,
) -> bool {
    let session = server.sessions@[client];
    let tags = tags_view(outgoing.template.tags@);
    &&& outgoing.recipient@ == key
    &&& outgoing.template.kind == 25910
    &&& outgoing.template.content@ == text_on_wire(notification)
    &&& match request {
        Some(_) => tags == seq![seq!["p"@, key], seq!["e"@, reference]],
        None => tags == seq![seq!["p"@, key]],
    }
    &&& is_right_wrap(
        outgoing.wrap_kind,
        server.base.encryption_mode,
        server.config.gift_wrap_mode,
        session.is_encrypted,
        match request {
            Some(event_id) => if session.pending_requests.contains_key(event_id) {
                session.pending_requests[event_id].wrap_kind
            } else {
                None
            },
            None => None,
        },
    )
}

/// A notification that belongs to a request goes to the client, addressed by a tag
/// `p` with its key and with a tag `e` that refers to the event of the request,
/// and no other tag. It says what was given to say, in the right gift wrap.
pub proof fn law_correlated_notification_reaches_client(
    server: &NostrServerTransport,
    client: &str,
    notification: &JsonRpcMessage,
    given: Option<&str>,
    event_id: Seq<char>,
    result: Result<Outgoing, Error>,
    key: Seq<char>,
    reference: Seq<char>,
)
    requires
        call_ensures(
            NostrServerTransport::send_notification,
            (server, client, notification, given),
            result,
        ),
        server.sessions@.contains_key(client@),
        reads_as(client@, key),
        reads_as(event_id, reference),
        belongs_to(server.sessions@[client@], *notification, given, event_id),
    ensures
        result matches Ok(outgoing) && is_notification_to(
            *server,
            client@,
            key,
            *notification,
            Some(event_id),
            reference,
            outgoing,
        ),
{
    lemma_reads_as(client@, key);
    lemma_reads_as(event_id, reference);
    lemma_text_on_wire(*notification);
    lemma_belongs_to(server.sessions@[client@], *notification, given, event_id);
    let outgoing = result->Ok_0;
    assert(outgoing@.template.tags == tags_view(outgoing.template.tags@));
}

/// A notification on its own goes to the client, addressed by a tag `p` with its
/// key and with no other tag. It says what was given to say, in the right gift
/// wrap.
pub proof fn law_plain_notification_reaches_client(
    server: &NostrServerTransport,
    client: &str,
    notification: &JsonRpcMessage,
    result: Result<Outgoing, Error>,
    key: Seq<char>,
)
    requires
        call_ensures(
            NostrServerTransport::send_notification,
            (server, client, notification, None::<&str>),
            result,
        ),
        server.sessions@.contains_key(client@),
        reads_as(client@, key),
        forall|token: Seq<char>| !reports_progress(*notification, token),
    ensures
        result matches Ok(outgoing) && is_notification_to(
            *server,
            client@,
            key,
            *notification,
            None,
            Seq::empty(),
            outgoing,
        ),
{
    lemma_reads_as(client@, key);
    lemma_text_on_wire(*notification);
    let stated = crate::transport::session_server::notified_token(notification@);
    if let Some(token) = stated {
        lemma_reports_progress(*notification, token);
    }
    let outgoing = result->Ok_0;
    assert(outgoing@.template.tags == tags_view(outgoing.template.tags@));
}

/// A notification to a client without a session or without a key goes nowhere, nor
/// does one that reports progress under a token that no request of the client has
/// given.
pub proof fn law_notification_without_session(
    server: &NostrServerTransport,
    client: &str,
    notification: &JsonRpcMessage,
    result: Result<Outgoing, Error>,
    token: Seq<char>,
)
    requires
        call_ensures(
            NostrServerTransport::send_notification,
            (server, client, notification, None::<&str>),
            result,
        ),
    ensures
        !server.sessions@.contains_key(client@) ==> (result matches Err(Error::Other(reason))
            && reason@ == "No session for "@ + client@),
        server.sessions@.contains_key(client@) && reports_progress(*notification, token)
            && !server.sessions@[client@].progress_token_to_event.contains_key(token)
            ==> result is Err,
        !is_hex(client@) ==> result is Err,
{
    lemma_reads_as(client@, Seq::empty());
    lemma_reports_progress(*notification, token);
}

/// What is broadcast goes once to each client that is initialized, as a
/// notification of its own, and to nobody else.
pub proof fn law_broadcast_reaches_initialized(
    server: &NostrServerTransport,
    notification: &JsonRpcMessage,
    sent: Vec<(String, Outgoing)>,
    client: Seq<char>,
    key: Seq<char>,
)
    requires
        call_ensures(NostrServerTransport::broadcast_notification, (server, notification), sent),
        reads_as(client, key),
        forall|token: Seq<char>| !reports_progress(*notification, token),
    ensures
        server.sessions@.contains_key(client) && server.sessions@[client].is_initialized
            <==> exists|i: int| 0 <= i < sent@.len() && (#[trigger] sent@[i]).0@ == client,
        forall|i: int|
            0 <= i < sent@.len() && (#[trigger] sent@[i]).0@ == client ==> is_notification_to(
                *server,
                client,
                key,
                *notification,
                None,
                Seq::empty(),
                sent@[i].1,
            ),
        forall|i: int, j: int|
            0 <= i < j < sent@.len() ==> (#[trigger] sent@[i]).0@ != (#[trigger] sent@[j]).0@,
{
    lemma_reads_as(client, key);
    lemma_text_on_wire(*notification);
    let stated = crate::transport::session_server::notified_token(notification@);
    if let Some(token) = stated {
        lemma_reports_progress(*notification, token);
    }
    let reached = |c: Seq<char>|
        crate::transport::session_server::broadcast_to(
            server.settings(),
            server.state(),
            c,
            notification@,
        );
    assert(crate::transport::broadcast::is_broadcast(sent@, reached));
    if server.sessions@.contains_key(client) && server.sessions@[client].is_initialized {
        assert(reached(client) is Some);
    }
    assert forall|i: int| 0 <= i < sent@.len() && (#[trigger] sent@[i]).0@
        == client implies is_notification_to(
        *server,
        client,
        key,
        *notification,
        None,
        Seq::empty(),
        sent@[i].1,
    ) by {
        assert(reached(sent@[i].0@) == Some(sent@[i].1@));
        let outgoing = sent@[i].1;
        assert(outgoing@.template.tags == tags_view(outgoing.template.tags@));
    }
    if exists|i: int| 0 <= i < sent@.len() && (#[trigger] sent@[i]).0@ == client {
        let i = choose|i: int| 0 <= i < sent@.len() && (#[trigger] sent@[i]).0@ == client;
        assert(reached(sent@[i].0@) == Some(sent@[i].1@));
    }
}

} // verus!
