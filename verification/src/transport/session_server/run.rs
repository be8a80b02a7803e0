//! A server over many steps: what it keeps of its clients and their requests.

use crate::protocol::constants::CTXVM_MESSAGES_KIND;
use crate::protocol::nostr::{is_hex_id, law_hex_id_stable};
use crate::protocol::types::{MessageView, RequestView};
use crate::protocol::wire::message_text;
use crate::transport::base::{chosen_wrap, response_tags};
use crate::transport::expiry::{has_expired, is_stale, Session};
use crate::transport::inbound::{progress_token, DeliveryView};
use crate::transport::policy::response_wrap;
use crate::transport::session_server::cleanup::expired;
use crate::transport::session_server::session::{ClientSession, RouteView};
use crate::transport::session_server::{
    accepted, extra_response_tags, responded, response_outcome, route_of, ServerSettings, ServerView,
};
use crate::util::time::Duration;
use vstd::prelude::*;

verus! {

/// A step of a server that runs.
pub enum ServerStep {
    /// It opens a gift wrap.
    Open(Seq<char>),
    /// It accepts a message.
    Accept(DeliveryView, MessageView, std::time::Instant),
    /// The answer to the request of an event is out to a client, with the common
    /// tags or without.
    Answer(Seq<char>, Seq<char>, bool),
    /// The sessions that were idle for longer than allowed end.
    Cleanup(Map<Seq<char>, Duration>, Duration),
}

/// The state after a step.
pub open spec fn after_step(state: ServerView, step: ServerStep) -> ServerView {
    match step {
        ServerStep::Open(wrap_id) => ServerView { seen: state.seen.remember(wrap_id), ..state },
        ServerStep::Accept(delivery, message, moment) => accepted(state, delivery, message, moment),
        ServerStep::Answer(event_id, client, sent_common_tags) => responded(
            state,
            event_id,
            client,
            sent_common_tags,
        ),
        ServerStep::Cleanup(idle, timeout) => expired(state, idle, timeout),
    }
}

/// The state after these steps, one after the other.
pub open spec fn after_steps(state: ServerView, steps: Seq<ServerStep>) -> ServerView
    decreases steps.len(),
{
    if steps.len() == 0 {
        state
    } else {
        after_step(after_steps(state, steps.drop_last()), steps.last())
    }
}

/// Whether a client's session outlasts these steps, one after the other: none
/// comes in which it has been idle too long.
pub open spec fn outlasts(state: ServerView, steps: Seq<ServerStep>, client: Seq<char>) -> bool {
    forall|i: int|
        0 <= i < steps.len() ==> ((#[trigger] steps[i]) matches ServerStep::Cleanup(idle, timeout)
            ==> !has_expired(after_steps(state, steps.take(i)).sessions, idle, timeout, client))
}

/// What a session has learned of its client it does not forget: that it is
/// initialized, and that it got the common tags.
pub proof fn law_session_remembers(
    state: ServerView,
    steps: Seq<ServerStep>,
    client: Seq<char>,
)
    requires
        state.sessions.contains_key(client),
        outlasts(state, steps, client),
    ensures
        ({
            let before = state.sessions[client];
            let later = after_steps(state, steps).sessions[client];
            &&& after_steps(state, steps).sessions.contains_key(client)
            &&& before.is_initialized ==> later.is_initialized
            &&& before.has_sent_common_tags ==> later.has_sent_common_tags
        }),
    decreases steps.len(),
{
    if steps.len() > 0 {
        let front = steps.drop_last();
        assert forall|i: int| 0 <= i < front.len() implies ((
        #[trigger] front[i]) matches ServerStep::Cleanup(idle, timeout) ==> !has_expired(
            after_steps(state, front.take(i)).sessions,
            idle,
            timeout,
            client,
        )) by {
            assert(front[i] == steps[i]);
            assert(front.take(i) =~= steps.take(i));
        }
        law_session_remembers(state, front, client);
        let last = steps.len() - 1;
        assert(steps[last] == steps.last());
        assert(steps.take(last) =~= front);
    }
}

/// What a server keeps of the request in an event: the client that the answer
/// goes to, and the route that a client's session holds for it.
pub open spec fn kept(
    state: ServerView,
    event_id: Seq<char>,
    client: Seq<char>,
) -> (Option<Seq<char>>, Option<RouteView>) {
    (
        state.event_to_client.get(event_id),
        if state.sessions.contains_key(client) {
            state.sessions[client].pending_requests.get(event_id)
        } else {
            None
        },
    )
}

/// Whether a server awaits the answer to a request: it came with that delivery.
pub open spec fn awaits(state: ServerView, delivery: DeliveryView, request: RequestView) -> bool {
    kept(state, delivery.event_id, delivery.sender) == (
        Some(delivery.sender),
        Some(route_of(delivery, request)),
    )
}

/// Accepting a message changes nothing of the requests in other events.
pub proof fn law_accept_keeps_other_requests(
    state: ServerView,
    delivery: DeliveryView,
    message: MessageView,
    moment: std::time::Instant,
    event_id: Seq<char>,
    client: Seq<char>,
)
    requires
        message is Request ==> event_id != delivery.event_id,
    ensures
        kept(accepted(state, delivery, message, moment), event_id, client) == kept(
            state,
            event_id,
            client,
        ),
{
}

/// An answer that is out changes nothing of the requests in other events.
pub proof fn law_answer_keeps_other_requests(
    state: ServerView,
    answered: Seq<char>,
    recipient: Seq<char>,
    sent_common_tags: bool,
    event_id: Seq<char>,
    client: Seq<char>,
)
    requires
        event_id != answered,
    ensures
        kept(responded(state, answered, recipient, sent_common_tags), event_id, client) == kept(
            state,
            event_id,
            client,
        ),
{
}

/// Ending sessions changes nothing of the requests that no ended session awaits
/// the answer to.
pub proof fn law_cleanup_keeps_other_requests(
    state: ServerView,
    idle: Map<Seq<char>, Duration>,
    timeout: Duration,
    event_id: Seq<char>,
    client: Seq<char>,
)
    requires
        !is_stale::<ClientSession>(state.sessions, idle, timeout, event_id),
    ensures
        kept(expired(state, idle, timeout), event_id, client) == kept(state, event_id, client),
{
    if has_expired(state.sessions, idle, timeout, client) {
        assert(!ClientSession::mentions(state.sessions[client], event_id));
    }
}

/// Whether a step leaves the request of an event alone: no other request comes in
/// that event, it is not answered, and no session ends that awaits the answer.
pub open spec fn spares(state: ServerView, step: ServerStep, event_id: Seq<char>) -> bool {
    match step {
        ServerStep::Open(_) => true,
        ServerStep::Accept(delivery, message, _) => message is Request ==> event_id
            != delivery.event_id,
        ServerStep::Answer(answered, _, _) => event_id != answered,
        ServerStep::Cleanup(idle, timeout) => !is_stale::<ClientSession>(state.sessions, idle, timeout, event_id),
    }
}

/// Whether all these steps, one after the other, leave the request of an event
/// alone.
pub open spec fn spared_by_all(
    state: ServerView,
    steps: Seq<ServerStep>,
    event_id: Seq<char>,
) -> bool {
    forall|i: int|
        0 <= i < steps.len() ==> spares(
            after_steps(state, steps.take(i)),
            #[trigger] steps[i],
            event_id,
        )
}

/// Whether the answer to a request goes to the client that sent it, with the id
/// that the client gave it and a reference to its event, in a gift wrap of the
/// kind that the request came in where the mode leaves the choice.
pub open spec fn reaches_requester(
    settings: ServerSettings,
    state: ServerView,
    delivery: DeliveryView,
    request: RequestView,
    response: MessageView,
) -> bool {
    let encrypted = state.sessions[delivery.sender].is_encrypted;
    &&& response_outcome(settings, state, delivery.event_id, response) matches Ok(answer)
    &&& answer.client_pubkey == delivery.sender
    &&& answer.outgoing.recipient == delivery.sender
    &&& answer.outgoing.template.content == message_text(response.answering(request.id))
    &&& response_tags(delivery.sender, delivery.event_id).is_prefix_of(
        answer.outgoing.template.tags,
    )
    &&& answer.outgoing.wrap_kind == chosen_wrap(
        settings.sending_mode,
        CTXVM_MESSAGES_KIND,
        Some(encrypted),
        response_wrap(settings.gift_wrap_mode, encrypted, delivery.wrap_kind),
    )
}

/// The answer to a request that is awaited reaches the client that sent it.
pub proof fn law_awaited_answer_reaches_requester(
    settings: ServerSettings,
    state: ServerView,
    delivery: DeliveryView,
    request: RequestView,
    response: MessageView,
)
    requires
        is_hex_id(delivery.sender),
        is_hex_id(delivery.event_id),
        awaits(state, delivery, request),
    ensures
        reaches_requester(settings, state, delivery, request, response),
{
    law_hex_id_stable(delivery.sender);
    law_hex_id_stable(delivery.event_id);
    let session = state.sessions[delivery.sender];
    let tags = response_tags(delivery.sender, delivery.event_id);
    let rest = extra_response_tags(settings, session, response.answering(request.id));
    assert((tags + rest).take(tags.len() as int) =~= tags);
}

/// A request that was accepted is awaited, with the id that its client gave it,
/// through all steps that leave it alone.
pub proof fn law_request_stays_awaited(
    state: ServerView,
    delivery: DeliveryView,
    request: RequestView,
    moment: std::time::Instant,
    steps: Seq<ServerStep>,
)
    requires
        spared_by_all(
            accepted(state, delivery, MessageView::Request(request), moment),
            steps,
            delivery.event_id,
        ),
    ensures
        awaits(
            after_steps(accepted(state, delivery, MessageView::Request(request), moment), steps),
            delivery,
            request,
        ),
    decreases steps.len(),
{
    let start = accepted(state, delivery, MessageView::Request(request), moment);
    if steps.len() > 0 {
        let front = steps.drop_last();
        assert forall|i: int| 0 <= i < front.len() implies spares(
            after_steps(start, front.take(i)),
            #[trigger] front[i],
            delivery.event_id,
        ) by {
            assert(front[i] == steps[i]);
            assert(front.take(i) =~= steps.take(i));
        }
        law_request_stays_awaited(state, delivery, request, moment, front);
        let last = steps.len() - 1;
        assert(steps[last] == steps.last());
        assert(steps.take(last) =~= front);
        let before = after_steps(start, front);
        match steps.last() {
            ServerStep::Open(_) => {},
            ServerStep::Accept(other, message, at) => {
                law_accept_keeps_other_requests(
                    before,
                    other,
                    message,
                    at,
                    delivery.event_id,
                    delivery.sender,
                );
            },
            ServerStep::Answer(answered, client, sent) => {
                law_answer_keeps_other_requests(
                    before,
                    answered,
                    client,
                    sent,
                    delivery.event_id,
                    delivery.sender,
                );
            },
            ServerStep::Cleanup(idle, timeout) => {
                law_cleanup_keeps_other_requests(
                    before,
                    idle,
                    timeout,
                    delivery.event_id,
                    delivery.sender,
                );
            },
        }
    }
}

/// The answer to a request goes to the client that sent it, with the id that the
/// client gave it and a reference to its event, in a gift wrap of the kind that
/// the request came in where the mode leaves the choice; whatever steps that
/// leave the request alone come in between.
pub proof fn law_answer_reaches_requester(
    settings: ServerSettings,
    state: ServerView,
    delivery: DeliveryView,
    request: RequestView,
    moment: std::time::Instant,
    steps: Seq<ServerStep>,
    response: MessageView,
)
    requires
        is_hex_id(delivery.sender),
        is_hex_id(delivery.event_id),
        spared_by_all(
            accepted(state, delivery, MessageView::Request(request), moment),
            steps,
            delivery.event_id,
        ),
    ensures
        reaches_requester(
            settings,
            after_steps(accepted(state, delivery, MessageView::Request(request), moment), steps),
            delivery,
            request,
            response,
        ),
{
    let start = accepted(state, delivery, MessageView::Request(request), moment);
    law_request_stays_awaited(state, delivery, request, moment, steps);
    law_awaited_answer_reaches_requester(
        settings,
        after_steps(start, steps),
        delivery,
        request,
        response,
    );
}

/// The request that a client's progress token stands for.
pub open spec fn token_event(
    state: ServerView,
    client: Seq<char>,
    token: Seq<char>,
) -> Option<Seq<char>> {
    if state.sessions.contains_key(client) {
        state.sessions[client].progress_token_to_event.get(token)
    } else {
        None
    }
}

/// Whether a step leaves a progress token of a client alone: no request of the
/// client that gives the same token comes or is answered, and its session does
/// not end.
pub open spec fn spares_token(
    state: ServerView,
    step: ServerStep,
    client: Seq<char>,
    token: Seq<char>,
) -> bool {
    match step {
        ServerStep::Open(_) => true,
        ServerStep::Accept(delivery, message, _) => {
            message matches MessageView::Request(request) ==> (client == delivery.sender
                ==> progress_token(request.params) != Some(token))
        },
        ServerStep::Answer(answered, recipient, _) => {
            kept(state, answered, client).1 matches Some(route) ==> (recipient == client
                ==> route.progress_token != Some(token))
        },
        ServerStep::Cleanup(idle, timeout) => !has_expired(state.sessions, idle, timeout, client),
    }
}

/// A progress token stands for the request that gave it through all steps that
/// leave it alone.
pub proof fn law_token_keeps_request(
    state: ServerView,
    steps: Seq<ServerStep>,
    client: Seq<char>,
    token: Seq<char>,
)
    requires
        forall|i: int|
            0 <= i < steps.len() ==> spares_token(
                after_steps(state, steps.take(i)),
                #[trigger] steps[i],
                client,
                token,
            ),
    ensures
        token_event(after_steps(state, steps), client, token) == token_event(state, client, token),
    decreases steps.len(),
{
    if steps.len() > 0 {
        let front = steps.drop_last();
        assert forall|i: int| 0 <= i < front.len() implies spares_token(
            after_steps(state, front.take(i)),
            #[trigger] front[i],
            client,
            token,
        ) by {
            assert(front[i] == steps[i]);
            assert(front.take(i) =~= steps.take(i));
        }
        law_token_keeps_request(state, front, client, token);
        let last = steps.len() - 1;
        assert(steps[last] == steps.last());
        assert(steps.take(last) =~= front);
    }
}

} // verus!
