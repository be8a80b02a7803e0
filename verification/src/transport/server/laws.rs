//! What holds of a server over several steps.

use crate::protocol::constants::{
    EPHEMERAL_GIFT_WRAP_KIND, GIFT_WRAP_KIND, INITIALIZE_METHOD,
    NOTIFICATIONS_INITIALIZED_METHOD,
};
use crate::protocol::json::JsonView;
use crate::protocol::nostr::{hex_id, is_hex_id, EventView};
use crate::protocol::session::ClientSession;
use crate::protocol::types::{CapabilityExclusion, EncryptionMode, GiftWrapMode, MessageView};
use crate::transport::base::response_tags;
use crate::transport::dedup::law_remembered_while_there_is_room;
use crate::transport::expiry::{has_expired, is_stale, Session};
use crate::transport::inbound::{classified, DeliveryView};
use crate::transport::policy::{
    is_authorized, is_capability_list, is_excluded, requested_name,
};
use crate::transport::server::run::{
    after_steps, awaits, law_awaited_answer_reaches_requester, law_session_remembers, outlasts,
    ServerStep,
};
use crate::transport::server::cleanup::expired;
use crate::transport::server::{
    accepted, notified, planned, responded, response_outcome, ServerSettings, ServerView,
};
use crate::util::string_map::holds_text;
use crate::util::time::Duration;
use vstd::prelude::*;

verus! {

/// A gift wrap that was opened is not opened again, as long as fewer were opened
/// since than are remembered.
pub proof fn law_opened_wrap_skipped(
    mode: EncryptionMode,
    wraps: GiftWrapMode,
    state: ServerView,
    wrap: EventView,
    later: Seq<Seq<char>>,
)
    requires
        state.seen.is_valid(),
        later.len() < state.seen.capacity,
    ensures
        ({
            let seen = state.seen.remember(wrap.id).remember_all(later);
            &&& seen.is_valid()
            &&& classified(mode, wraps, seen.ids.contains(wrap.id), wrap) !is Decrypt
        }),
{
    law_remembered_while_there_is_room(state.seen, wrap.id, later);
}

/// The methods that open a session may be called by anybody.
pub proof fn law_initialization_open_to_all(
    allowed: Seq<String>,
    excluded: Seq<CapabilityExclusion>,
    sender: Seq<char>,
    message: MessageView,
)
    requires
        message.method() == Some(INITIALIZE_METHOD@) || message.method() == Some(
            NOTIFICATIONS_INITIALIZED_METHOD@,
        ),
    ensures
        is_authorized(allowed, excluded, sender, message),
{
}

/// Where keys are listed, a client that is not listed may send nothing but what
/// is excluded from the list; where none are listed, everybody may send
/// everything.
pub proof fn law_allowlist(
    allowed: Seq<String>,
    excluded: Seq<CapabilityExclusion>,
    sender: Seq<char>,
    message: MessageView,
)
    ensures
        allowed.len() == 0 ==> is_authorized(allowed, excluded, sender, message),
        holds_text(allowed, sender) ==> is_authorized(allowed, excluded, sender, message),
        allowed.len() > 0 && !holds_text(allowed, sender) && message.method() is Some ==> (
        is_authorized(allowed, excluded, sender, message) <==> is_excluded(
            excluded,
            message.method()->0,
            requested_name(message),
        )),
{
}

/// The gift wrap of an answer is the one that the request came in where both
/// kinds are accepted, and otherwise the one that the mode names; a request in
/// the open is answered in the open unless encryption is required. (What counts
/// as in the open or not is the client's last message: here it came like the
/// request.)
pub proof fn law_answer_mirrors_request(
    settings: ServerSettings,
    state: ServerView,
    delivery: DeliveryView,
    request_id: JsonView,
    response: MessageView,
)
    requires
        is_hex_id(delivery.sender),
        is_hex_id(delivery.event_id),
        awaits(state, delivery, request_id),
        state.sessions[delivery.sender].is_encrypted == delivery.is_encrypted,
        settings.sending_mode != EncryptionMode::Disabled,
        delivery.is_encrypted == (delivery.wrap_kind is Some),
        delivery.wrap_kind is Some ==> settings.gift_wrap_mode.accepts(delivery.wrap_kind->0),
    ensures
        response_outcome(settings, state, delivery.event_id, response) matches Ok(answer) && {
            &&& delivery.is_encrypted ==> answer.outgoing.wrap_kind == delivery.wrap_kind
            &&& !delivery.is_encrypted && settings.sending_mode == EncryptionMode::Optional
                ==> answer.outgoing.wrap_kind is None
            &&& !delivery.is_encrypted && settings.sending_mode == EncryptionMode::Required
                ==> answer.outgoing.wrap_kind == Some(GIFT_WRAP_KIND)
        },
{
    law_awaited_answer_reaches_requester(settings, state, delivery, request_id, response);
}

/// Once an answer is out nothing is left of its request.
pub proof fn law_answered_request_settled(
    state: ServerView,
    event_id: Seq<char>,
    client: Seq<char>,
    sent_common_tags: bool,
)
    ensures
        ({
            let after = responded(state, event_id, client, sent_common_tags);
            &&& !after.routes.contains_key(event_id)
            &&& !after.wrap_kinds.contains_key(event_id)
            &&& after.sessions.dom() == state.sessions.dom()
            &&& after.sessions.contains_key(client) ==> {
                &&& !after.sessions[client].pending_requests.contains_key(event_id)
                &&& !after.sessions[client].event_to_progress_token.contains_key(event_id)
            }
        }),
{
    let after = responded(state, event_id, client, sent_common_tags);
    assert(after.sessions.dom() =~= state.sessions.dom());
}

/// The common tags go out with the first answer to a client and with no later
/// one, as long as its session lasts; later answers carry no tags beside those
/// that address them but the pricing tags, with a list of capabilities.
pub proof fn law_common_tags_once(
    settings: ServerSettings,
    state: ServerView,
    event_id: Seq<char>,
    response: MessageView,
    steps: Seq<ServerStep>,
    later_event: Seq<char>,
    later_response: MessageView,
)
    requires
        state.routes.contains_key(event_id),
        state.sessions.contains_key(state.routes[event_id]),
        ({
            let client = state.routes[event_id];
            let sends = planned(settings, state, event_id, response).sends_common_tags;
            let start = responded(state, event_id, client, sends);
            let later = after_steps(start, steps);
            &&& outlasts(start, steps, client)
            &&& later.routes.contains_key(later_event)
            &&& later.routes[later_event] == client
        }),
    ensures
        ({
            let client = state.routes[event_id];
            let sends = planned(settings, state, event_id, response).sends_common_tags;
            let later = after_steps(responded(state, event_id, client, sends), steps);
            let answer = planned(settings, later, later_event, later_response);
            &&& !answer.sends_common_tags
            &&& answer.outgoing.template.tags == response_tags(
                hex_id(client)->0,
                hex_id(later_event)->0,
            ) + (if is_capability_list(later_response) {
                settings.pricing
            } else {
                Seq::empty()
            })
        }),
{
    let client = state.routes[event_id];
    let sends = planned(settings, state, event_id, response).sends_common_tags;
    let start = responded(state, event_id, client, sends);
    law_session_remembers(start, steps, client);
    let later = after_steps(start, steps);
    let answer = planned(settings, later, later_event, later_response).outgoing.template;
    let tags = response_tags(hex_id(client)->0, hex_id(later_event)->0);
    let pricing = if is_capability_list(later_response) {
        settings.pricing
    } else {
        Seq::empty()
    };
    assert(answer.tags =~= tags + pricing);
}

/// The tags of a list of capabilities end with the pricing tags, in the first
/// answer to a client as in later ones.
pub proof fn law_pricing_with_capability_lists(
    settings: ServerSettings,
    state: ServerView,
    event_id: Seq<char>,
    response: MessageView,
)
    requires
        is_capability_list(response),
    ensures
        settings.pricing.is_suffix_of(
            planned(settings, state, event_id, response).outgoing.template.tags,
        ),
{
    let tags = planned(settings, state, event_id, response).outgoing.template.tags;
    let front = tags.len() - settings.pricing.len();
    assert(tags.subrange(front, tags.len() as int) =~= settings.pricing);
}

/// A message that is accepted makes its moment the last activity of its sender,
/// and leaves the sessions of all others as they are.
pub proof fn law_message_refreshes_session(
    state: ServerView,
    delivery: DeliveryView,
    message: MessageView,
    moment: std::time::Instant,
)
    ensures
        ({
            let after = accepted(state, delivery, message, moment);
            &&& after.sessions.contains_key(delivery.sender)
            &&& after.sessions[delivery.sender].last_activity == moment
            &&& after.sessions[delivery.sender].is_encrypted == delivery.is_encrypted
            &&& after.sessions.remove(delivery.sender) == state.sessions.remove(delivery.sender)
        }),
{
    let after = accepted(state, delivery, message, moment);
    assert(after.sessions.remove(delivery.sender) =~= state.sessions.remove(delivery.sender));
}

/// An answer is no activity: nobody's session is refreshed by it.
pub proof fn law_answer_is_no_activity(
    state: ServerView,
    event_id: Seq<char>,
    client: Seq<char>,
    sent_common_tags: bool,
    other: Seq<char>,
)
    ensures
        state.sessions.contains_key(other) ==> responded(
            state,
            event_id,
            client,
            sent_common_tags,
        ).sessions[other].last_activity == state.sessions[other].last_activity,
{
}

/// Every route leads to a session that awaits the answer.
pub open spec fn routes_tracked(state: ServerView) -> bool {
    forall|event_id: Seq<char>| #[trigger]
        state.routes.contains_key(event_id) ==> {
            &&& state.sessions.contains_key(state.routes[event_id])
            &&& state.sessions[state.routes[event_id]].pending_requests.contains_key(event_id)
        }
}

/// Accepting a message keeps every route to a session that awaits the answer.
pub proof fn law_accept_keeps_routes(
    state: ServerView,
    delivery: DeliveryView,
    message: MessageView,
    moment: std::time::Instant,
)
    requires
        routes_tracked(state),
    ensures
        routes_tracked(accepted(state, delivery, message, moment)),
{
    let after = accepted(state, delivery, message, moment);
    assert forall|event_id: Seq<char>| #[trigger] after.routes.contains_key(event_id) implies {
        &&& after.sessions.contains_key(after.routes[event_id])
        &&& after.sessions[after.routes[event_id]].pending_requests.contains_key(event_id)
    } by {
        if state.routes.contains_key(event_id) {
            assert(state.sessions.contains_key(state.routes[event_id]));
        }
    }
}

/// An answer that is out keeps every other route to a session that awaits the
/// answer. (A client that named the event of another of its requests as its
/// progress token loses that request's entry.)
pub proof fn law_answer_keeps_routes(
    state: ServerView,
    event_id: Seq<char>,
    sent_common_tags: bool,
)
    requires
        routes_tracked(state),
        state.routes.contains_key(event_id),
        ({
            let tokens = state.sessions[state.routes[event_id]].event_to_progress_token;
            tokens.contains_key(event_id) ==> tokens[event_id] == event_id
                || !state.routes.contains_key(tokens[event_id])
        }),
    ensures
        routes_tracked(responded(state, event_id, state.routes[event_id], sent_common_tags)),
{
    let client = state.routes[event_id];
    let after = responded(state, event_id, client, sent_common_tags);
    assert forall|other: Seq<char>| #[trigger] after.routes.contains_key(other) implies {
        &&& after.sessions.contains_key(after.routes[other])
        &&& after.sessions[after.routes[other]].pending_requests.contains_key(other)
    } by {
        assert(state.routes.contains_key(other));
    }
}

/// Ending sessions leaves no route that leads to none: the routes that are left
/// lead to sessions that await the answer.
pub proof fn law_cleanup_keeps_routes(
    state: ServerView,
    idle: Map<Seq<char>, Duration>,
    timeout: Duration,
)
    requires
        routes_tracked(state),
    ensures
        routes_tracked(expired(state, idle, timeout)),
{
    let after = expired(state, idle, timeout);
    assert forall|event_id: Seq<char>| #[trigger] after.routes.contains_key(event_id) implies {
        &&& after.sessions.contains_key(after.routes[event_id])
        &&& after.sessions[after.routes[event_id]].pending_requests.contains_key(event_id)
    } by {
        assert(state.routes.contains_key(event_id));
        let client = state.routes[event_id];
        if has_expired(state.sessions, idle, timeout, client) {
            assert(ClientSession::mentions(state.sessions[client], event_id));
            assert(is_stale::<ClientSession>(state.sessions, idle, timeout, event_id));
        }
    }
}

/// A session ends exactly where it has been idle for longer than allowed, and
/// the others stay as they are.
pub proof fn law_cleanup_ends_idle_sessions(
    state: ServerView,
    idle: Map<Seq<char>, Duration>,
    timeout: Duration,
    client: Seq<char>,
)
    requires
        state.sessions.contains_key(client),
        idle.contains_key(client),
    ensures
        expired(state, idle, timeout).sessions.contains_key(client) <==> idle[client].total()
            <= timeout.total(),
        expired(state, idle, timeout).sessions.contains_key(client) ==> expired(
            state,
            idle,
            timeout,
        ).sessions[client] == state.sessions[client],
{
}

/// A client counts as initialized only once it said so, and stays it.
pub proof fn law_initialized_on_notice(
    state: ServerView,
    delivery: DeliveryView,
    message: MessageView,
    moment: std::time::Instant,
)
    ensures
        ({
            let was = state.sessions.contains_key(delivery.sender)
                && state.sessions[delivery.sender].is_initialized;
            let is_notice = message matches MessageView::Notification(n) && n.method
                == NOTIFICATIONS_INITIALIZED_METHOD@;
            accepted(state, delivery, message, moment).sessions[delivery.sender].is_initialized == (was
                || is_notice)
        }),
{
}

/// A client that has once sent an ephemeral gift wrap gets, where both kinds are
/// accepted, ephemeral gift wraps for encrypted notifications that belong to no
/// request, as long as its session lasts.
pub proof fn law_ephemeral_support_learned(
    settings: ServerSettings,
    state: ServerView,
    delivery: DeliveryView,
    message: MessageView,
    moment: std::time::Instant,
    steps: Seq<ServerStep>,
    notification: MessageView,
)
    requires
        delivery.wrap_kind == Some(EPHEMERAL_GIFT_WRAP_KIND),
        settings.gift_wrap_mode == GiftWrapMode::Optional,
        settings.sending_mode != EncryptionMode::Disabled,
        ({
            let start = accepted(state, delivery, message, moment);
            &&& outlasts(start, steps, delivery.sender)
            &&& after_steps(start, steps).sessions[delivery.sender].is_encrypted
        }),
    ensures
        notified(
            settings,
            after_steps(accepted(state, delivery, message, moment), steps),
            delivery.sender,
            notification,
            None,
        ).wrap_kind == Some(EPHEMERAL_GIFT_WRAP_KIND),
{
    law_session_remembers(accepted(state, delivery, message, moment), steps, delivery.sender);
}

/// A notification that belongs to a request mirrors, where both kinds are
/// accepted, the gift wrap that the request came in.
pub proof fn law_correlated_notification_mirrors(
    settings: ServerSettings,
    state: ServerView,
    delivery: DeliveryView,
    request_id: JsonView,
    notification: MessageView,
)
    requires
        awaits(state, delivery, request_id),
        state.sessions[delivery.sender].is_encrypted,
        delivery.wrap_kind is Some,
        settings.gift_wrap_mode.accepts(delivery.wrap_kind->0),
        settings.sending_mode != EncryptionMode::Disabled,
    ensures
        notified(
            settings,
            state,
            delivery.sender,
            notification,
            Some(delivery.event_id),
        ).wrap_kind == delivery.wrap_kind,
{
}

} // verus!
