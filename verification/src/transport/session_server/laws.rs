//! What holds of a server over several steps.

use crate::protocol::constants::NOTIFICATIONS_INITIALIZED_METHOD;
use crate::protocol::nostr::EventView;
use crate::protocol::types::{EncryptionMode, GiftWrapMode, MessageView, RequestView};
use crate::transport::dedup::law_remembered_while_there_is_room;
use crate::transport::expiry::{has_expired, is_stale};
use crate::transport::inbound::{classified, progress_token, DeliveryView};
use crate::transport::policy::is_capability_list;
use crate::transport::session_server::cleanup::expired;
use crate::transport::session_server::run::{
    after_steps, law_request_stays_awaited, law_session_remembers, law_token_keeps_request, outlasts,
    spared_by_all, spares_token, ServerStep,
};
use crate::transport::session_server::session::ClientSession;
use crate::transport::session_server::{
    accepted, correlation, notified, notified_token, planned, responded, ServerSettings, ServerView,
};
use crate::util::time::Duration;
use vstd::prelude::*;

verus! {

/// A gift wrap that was opened is not opened again, as long as fewer were opened
/// since than are remembered.
pub proof fn law_opened_wrap_skipped(
    mode: EncryptionMode,
    wraps: GiftWrapMode,
    state: ServerView,
    wrap: EventView,
    later: Seq<Seq<char>>,
)
    requires
        state.seen.is_valid(),
        later.len() < state.seen.capacity,
    ensures
        ({
            let seen = state.seen.remember(wrap.id).remember_all(later);
            &&& seen.is_valid()
            &&& classified(mode, wraps, seen.ids.contains(wrap.id), wrap) !is Decrypt
        }),
{
    law_remembered_while_there_is_room(state.seen, wrap.id, later);
}

/// Once an answer is out nothing is left of its request.
pub proof fn law_answered_request_settled(
    state: ServerView,
    event_id: Seq<char>,
    client: Seq<char>,
    sent_common_tags: bool,
)
    ensures
        ({
            let after = responded(state, event_id, client, sent_common_tags);
            &&& !after.event_to_client.contains_key(event_id)
            &&& after.sessions.dom() == state.sessions.dom()
            &&& after.sessions.contains_key(client)
                ==> !after.sessions[client].pending_requests.contains_key(event_id)
        }),
{
    let after = responded(state, event_id, client, sent_common_tags);
    assert(after.sessions.dom() =~= state.sessions.dom());
}

/// The common tags go out with the first answer to a client and with no later
/// one, as long as its session lasts.
pub proof fn law_common_tags_once(
    settings: ServerSettings,
    state: ServerView,
    event_id: Seq<char>,
    response: MessageView,
    steps: Seq<ServerStep>,
    later_event: Seq<char>,
    later_response: MessageView,
)
    requires
        state.event_to_client.contains_key(event_id),
        state.sessions.contains_key(state.event_to_client[event_id]),
        ({
            let client = state.event_to_client[event_id];
            let sends = planned(settings, state, event_id, response).sends_common_tags;
            let start = responded(state, event_id, client, sends);
            let later = after_steps(start, steps);
            &&& outlasts(start, steps, client)
            &&& later.event_to_client.contains_key(later_event)
            &&& later.event_to_client[later_event] == client
        }),
    ensures
        ({
            let client = state.event_to_client[event_id];
            let sends = planned(settings, state, event_id, response).sends_common_tags;
            let later = after_steps(responded(state, event_id, client, sends), steps);
            !planned(settings, later, later_event, later_response).sends_common_tags
        }),
{
    let client = state.event_to_client[event_id];
    let sends = planned(settings, state, event_id, response).sends_common_tags;
    law_session_remembers(responded(state, event_id, client, sends), steps, client);
}

/// The tags of a list of capabilities end with the pricing tags, in the first
/// answer to a client as in later ones.
pub proof fn law_pricing_with_capability_lists(
    settings: ServerSettings,
    state: ServerView,
    event_id: Seq<char>,
    response: MessageView,
)
    requires
        is_capability_list(response),
    ensures
        settings.pricing.is_suffix_of(
            planned(settings, state, event_id, response).outgoing.template.tags,
        ),
{
    let tags = planned(settings, state, event_id, response).outgoing.template.tags;
    let front = tags.len() - settings.pricing.len();
    assert(tags.subrange(front, tags.len() as int) =~= settings.pricing);
}

/// A message that is accepted makes its moment the last activity of its sender,
/// and leaves the sessions of all others as they are.
pub proof fn law_message_refreshes_session(
    state: ServerView,
    delivery: DeliveryView,
    message: MessageView,
    moment: std::time::Instant,
)
    ensures
        ({
            let after = accepted(state, delivery, message, moment);
            &&& after.sessions.contains_key(delivery.sender)
            &&& after.sessions[delivery.sender].last_activity == moment
            &&& after.sessions[delivery.sender].is_encrypted == delivery.is_encrypted
            &&& after.sessions.remove(delivery.sender) == state.sessions.remove(delivery.sender)
        }),
{
    let after = accepted(state, delivery, message, moment);
    assert(after.sessions.remove(delivery.sender) =~= state.sessions.remove(delivery.sender));
}

/// An answer is no activity: nobody's session is refreshed by it.
pub proof fn law_answer_is_no_activity(
    state: ServerView,
    event_id: Seq<char>,
    client: Seq<char>,
    sent_common_tags: bool,
    other: Seq<char>,
)
    ensures
        state.sessions.contains_key(other) ==> responded(
            state,
            event_id,
            client,
            sent_common_tags,
        ).sessions[other].last_activity == state.sessions[other].last_activity,
{
}

/// Every route leads to a session that awaits the answer.
pub open spec fn routes_tracked(state: ServerView) -> bool {
    forall|event_id: Seq<char>| #[trigger]
        state.event_to_client.contains_key(event_id) ==> {
            &&& state.sessions.contains_key(state.event_to_client[event_id])
            &&& state.sessions[state.event_to_client[event_id]].pending_requests.contains_key(
                event_id,
            )
        }
}

/// Accepting a message keeps every route to a session that awaits the answer.
pub proof fn law_accept_keeps_routes(
    state: ServerView,
    delivery: DeliveryView,
    message: MessageView,
    moment: std::time::Instant,
)
    requires
        routes_tracked(state),
    ensures
        routes_tracked(accepted(state, delivery, message, moment)),
{
    let after = accepted(state, delivery, message, moment);
    assert forall|event_id: Seq<char>| #[trigger]
        after.event_to_client.contains_key(event_id) implies {
        &&& after.sessions.contains_key(after.event_to_client[event_id])
        &&& after.sessions[after.event_to_client[event_id]].pending_requests.contains_key(event_id)
    } by {
        if state.event_to_client.contains_key(event_id) {
            assert(state.sessions.contains_key(state.event_to_client[event_id]));
        }
    }
}

/// An answer that is out keeps every other route to a session that awaits the
/// answer.
pub proof fn law_answer_keeps_routes(
    state: ServerView,
    event_id: Seq<char>,
    client: Seq<char>,
    sent_common_tags: bool,
)
    requires
        routes_tracked(state),
    ensures
        routes_tracked(responded(state, event_id, client, sent_common_tags)),
{
    let after = responded(state, event_id, client, sent_common_tags);
    assert forall|other: Seq<char>| #[trigger] after.event_to_client.contains_key(other) implies {
        &&& after.sessions.contains_key(after.event_to_client[other])
        &&& after.sessions[after.event_to_client[other]].pending_requests.contains_key(other)
    } by {
        assert(state.event_to_client.contains_key(other));
    }
}

/// Ending sessions leaves no route that leads to none: the routes that are left
/// lead to sessions that await the answer.
pub proof fn law_cleanup_keeps_routes(
    state: ServerView,
    idle: Map<Seq<char>, Duration>,
    timeout: Duration,
)
    requires
        routes_tracked(state),
    ensures
        routes_tracked(expired(state, idle, timeout)),
{
    let after = expired(state, idle, timeout);
    assert forall|event_id: Seq<char>| #[trigger]
        after.event_to_client.contains_key(event_id) implies {
        &&& after.sessions.contains_key(after.event_to_client[event_id])
        &&& after.sessions[after.event_to_client[event_id]].pending_requests.contains_key(event_id)
    } by {
        assert(state.event_to_client.contains_key(event_id));
        let client = state.event_to_client[event_id];
        if has_expired(state.sessions, idle, timeout, client) {
            assert(is_stale::<ClientSession>(state.sessions, idle, timeout, event_id));
        }
    }
}

/// A session ends exactly where it has been idle for longer than allowed, and
/// the others stay as they are.
pub proof fn law_cleanup_ends_idle_sessions(
    state: ServerView,
    idle: Map<Seq<char>, Duration>,
    timeout: Duration,
    client: Seq<char>,
)
    requires
        state.sessions.contains_key(client),
        idle.contains_key(client),
    ensures
        expired(state, idle, timeout).sessions.contains_key(client) <==> idle[client].total()
            <= timeout.total(),
        expired(state, idle, timeout).sessions.contains_key(client) ==> expired(
            state,
            idle,
            timeout,
        ).sessions[client] == state.sessions[client],
{
}

/// A client counts as initialized only once it said so, and stays it.
pub proof fn law_initialized_on_notice(
    state: ServerView,
    delivery: DeliveryView,
    message: MessageView,
    moment: std::time::Instant,
)
    ensures
        ({
            let was = state.sessions.contains_key(delivery.sender)
                && state.sessions[delivery.sender].is_initialized;
            let is_notice = message matches MessageView::Notification(n) && n.method
                == NOTIFICATIONS_INITIALIZED_METHOD@;
            accepted(state, delivery, message, moment).sessions[delivery.sender].is_initialized == (was
                || is_notice)
        }),
{
}

/// A notification of progress finds the request that gave its token, and where
/// both kinds are accepted mirrors the gift wrap that the request came in;
/// whatever steps that leave the request and its token alone come in between.
pub proof fn law_progress_finds_request(
    settings: ServerSettings,
    state: ServerView,
    delivery: DeliveryView,
    request: RequestView,
    moment: std::time::Instant,
    steps: Seq<ServerStep>,
    notification: MessageView,
)
    requires
        progress_token(request.params) is Some,
        notified_token(notification) == progress_token(request.params),
        ({
            let start = accepted(state, delivery, MessageView::Request(request), moment);
            &&& spared_by_all(start, steps, delivery.event_id)
            &&& forall|i: int|
                0 <= i < steps.len() ==> spares_token(
                    after_steps(start, steps.take(i)),
                    #[trigger] steps[i],
                    delivery.sender,
                    progress_token(request.params)->0,
                )
        }),
    ensures
        ({
            let start = accepted(state, delivery, MessageView::Request(request), moment);
            let session = after_steps(start, steps).sessions[delivery.sender];
            let found = correlation(session, notification, None);
            &&& found == Some(delivery.event_id)
            &&& session.is_encrypted && delivery.wrap_kind is Some
                && settings.gift_wrap_mode.accepts(delivery.wrap_kind->0) && settings.sending_mode
                != EncryptionMode::Disabled ==> notified(
                settings,
                session,
                delivery.sender,
                notification,
                found,
            ).wrap_kind == delivery.wrap_kind
        }),
{
    let start = accepted(state, delivery, MessageView::Request(request), moment);
    let token = progress_token(request.params)->0;
    law_token_keeps_request(start, steps, delivery.sender, token);
    law_request_stays_awaited(state, delivery, request, moment, steps);
}

} // verus!
