//! What the stores of a server keep.

use crate::protocol::session::{ClientSession, SessionView};
use crate::transport::server::correlation_store::ServerEventRouteStore;
use crate::transport::server::session_store::{SessionSnapshot, SessionStore};
use crate::util::time::is_reading;
use vstd::prelude::*;

verus! {

/// Whether two sessions say the same of their requests and of when the client was
/// last active.
pub open spec fn same_requests(a: SessionView, b: SessionView) -> bool {
    &&& a.last_activity == b.last_activity
    &&& a.pending_requests == b.pending_requests
    &&& a.event_to_progress_token == b.event_to_progress_token
}

/// Whether a session is that of a client that has just come: nothing has happened
/// in it yet.
pub open spec fn is_new_session(session: SessionView, is_encrypted: bool) -> bool {
    &&& !session.is_initialized
    &&& session.is_encrypted == is_encrypted
    &&& !session.has_sent_common_tags
    &&& !session.supports_ephemeral_gift_wrap
    &&& is_reading(session.last_activity)
    &&& session.pending_requests == Map::<Seq<char>, crate::protocol::json::JsonView>::empty()
    &&& session.event_to_progress_token == Map::<Seq<char>, Seq<char>>::empty()
}

/// A new session is one in which nothing has happened yet.
pub proof fn law_session_created(is_encrypted: bool, session: ClientSession)
    requires
        call_ensures(ClientSession::new, (is_encrypted,), session),
    ensures
        is_new_session(session@, is_encrypted),
{
}

/// That a client was active is noted by a reading of the clock, and nothing else
/// of its session changes.
pub proof fn law_activity_noted(session: &mut ClientSession)
    requires
        call_ensures(ClientSession::update_activity, (session,), ()),
    ensures
        is_reading(final(session).last_activity),
        final(session).is_initialized == old(session).is_initialized,
        final(session).is_encrypted == old(session).is_encrypted,
        final(session).has_sent_common_tags == old(session).has_sent_common_tags,
        final(session).supports_ephemeral_gift_wrap == old(session).supports_ephemeral_gift_wrap,
        final(session).pending_requests@ == old(session).pending_requests@,
        final(session).event_to_progress_token@ == old(session).event_to_progress_token@,
{
    assert(final(session)@.pending_requests == old(session)@.pending_requests);
    assert(final(session)@.event_to_progress_token == old(session)@.event_to_progress_token);
    assert(final(session)@.is_initialized == old(session)@.is_initialized);
    assert(final(session)@.is_encrypted == old(session)@.is_encrypted);
    assert(final(session)@.has_sent_common_tags == old(session)@.has_sent_common_tags);
    assert(final(session)@.supports_ephemeral_gift_wrap
        == old(session)@.supports_ephemeral_gift_wrap);
}

/// A client that comes for the first time gets a new session; the session of one
/// that comes again only takes over whether it is encrypted. No other session
/// changes.
pub proof fn law_session_found_or_created(
    store: &mut SessionStore,
    client: &str,
    is_encrypted: bool,
    created: bool,
    other: Seq<char>,
)
    requires
        call_ensures(
            SessionStore::get_or_create_session,
            (store, client, is_encrypted),
            created,
        ),
        other != client@,
    ensures
        created <==> !old(store)@.contains_key(client@),
        final(store)@.contains_key(client@),
        final(store)@[client@].is_encrypted == is_encrypted,
        created ==> is_new_session(final(store)@[client@], is_encrypted),
        !created ==> {
            let before = old(store)@[client@];
            let after = final(store)@[client@];
            &&& after.is_initialized == before.is_initialized
            &&& after.has_sent_common_tags == before.has_sent_common_tags
            &&& after.supports_ephemeral_gift_wrap == before.supports_ephemeral_gift_wrap
            &&& same_requests(after, before)
        },
        is_untouched(final(store)@, old(store)@, other),
{
}

/// Whether a session is there as it was, or still is not there.
pub open spec fn is_untouched(
    after: Map<Seq<char>, SessionView>,
    before: Map<Seq<char>, SessionView>,
    client: Seq<char>,
) -> bool {
    &&& after.contains_key(client) <==> before.contains_key(client)
    &&& before.contains_key(client) ==> after[client] == before[client]
}

/// Whether a snapshot says what a session says.
pub open spec fn shows(taken: SessionSnapshot, session: SessionView) -> bool {
    &&& taken.is_initialized == session.is_initialized
    &&& taken.is_encrypted == session.is_encrypted
    &&& taken.has_sent_common_tags == session.has_sent_common_tags
    &&& taken.supports_ephemeral_gift_wrap == session.supports_ephemeral_gift_wrap
}

/// The session of a client is shown where it has one; all sessions are shown, each
/// once, and they are counted.
pub proof fn law_sessions_shown(
    store: &SessionStore,
    client: &str,
    taken: Option<SessionSnapshot>,
    all: Vec<(String, SessionSnapshot)>,
    number: usize,
)
    requires
        call_ensures(SessionStore::get_session, (store, client), taken),
        call_ensures(SessionStore::get_all_sessions, (store,), all),
        call_ensures(SessionStore::session_count, (store,), number),
    ensures
        taken is Some <==> store@.contains_key(client@),
        taken matches Some(snapshot) ==> shows(snapshot, store@[client@]),
        number == all@.len(),
        number == store@.dom().len(),
        forall|i: int|
            0 <= i < all@.len() ==> store@.contains_key((#[trigger] all@[i]).0@) && shows(
                all@[i].1,
                store@[all@[i].0@],
            ),
        forall|i: int, j: int|
            0 <= i < j < all@.len() ==> (#[trigger] all@[i]).0@ != (#[trigger] all@[j]).0@,
{
}

/// Every session is among those that are shown.
pub proof fn law_no_session_left_out(
    store: &SessionStore,
    all: Vec<(String, SessionSnapshot)>,
    client: Seq<char>,
)
    requires
        call_ensures(SessionStore::get_all_sessions, (store,), all),
        store@.contains_key(client),
    ensures
        exists|i: int| 0 <= i < all@.len() && (#[trigger] all@[i]).0@ == client,
{
    let keys = all@.map_values(|entry: (String, SessionSnapshot)| entry.0@);
    assert forall|i: int, j: int| 0 <= i < keys.len() && 0 <= j < keys.len() && i
        != j implies keys[i] != keys[j] by {
        if i < j {
            assert(all@[i].0@ != all@[j].0@);
        } else {
            assert(all@[j].0@ != all@[i].0@);
        }
    }
    keys.unique_seq_to_set();
    let shown = keys.to_set();
    assert forall|key: Seq<char>| shown.contains(key) implies store@.dom().contains(key) by {
        let i = choose|i: int| 0 <= i < keys.len() && keys[i] == key;
        assert(store@.contains_key(all@[i].0@));
    }
    vstd::set_lib::lemma_subset_equality(shown, store@.dom());
    assert(shown.contains(client));
    let i = choose|i: int| 0 <= i < keys.len() && keys[i] == client;
    assert(all@[i].0@ == client);
}

/// A client counts as initialized once that is noted, and as told the server's ways
/// once that is; each only where it has a session, and nothing else changes.
pub proof fn law_sessions_marked(
    initialized: &mut SessionStore,
    told: &mut SessionStore,
    client: &str,
    was_there: bool,
    was_told: bool,
    other: Seq<char>,
)
    requires
        call_ensures(SessionStore::mark_initialized, (initialized, client), was_there),
        call_ensures(SessionStore::mark_common_tags_sent, (told, client), was_told),
        other != client@,
    ensures
        was_there <==> old(initialized)@.contains_key(client@),
        was_there ==> {
            let before = old(initialized)@[client@];
            let after = final(initialized)@[client@];
            &&& final(initialized)@.contains_key(client@)
            &&& after.is_initialized
            &&& after.is_encrypted == before.is_encrypted
            &&& after.has_sent_common_tags == before.has_sent_common_tags
            &&& after.supports_ephemeral_gift_wrap == before.supports_ephemeral_gift_wrap
            &&& same_requests(after, before)
        },
        !was_there ==> final(initialized)@ == old(initialized)@,
        is_untouched(final(initialized)@, old(initialized)@, other),
        was_told <==> old(told)@.contains_key(client@),
        was_told ==> {
            let before = old(told)@[client@];
            let after = final(told)@[client@];
            &&& final(told)@.contains_key(client@)
            &&& after.has_sent_common_tags
            &&& after.is_initialized == before.is_initialized
            &&& after.is_encrypted == before.is_encrypted
            &&& after.supports_ephemeral_gift_wrap == before.supports_ephemeral_gift_wrap
            &&& same_requests(after, before)
        },
        !was_told ==> final(told)@ == old(told)@,
        is_untouched(final(told)@, old(told)@, other),
{
}

/// A session that is removed is gone and no other is; a store that is new or
/// cleared holds none.
pub proof fn law_sessions_removed(
    store: &mut SessionStore,
    cleared: &mut SessionStore,
    created: SessionStore,
    client: &str,
    existed: bool,
    other: Seq<char>,
)
    requires
        call_ensures(SessionStore::remove_session, (store, client), existed),
        call_ensures(SessionStore::clear, (cleared,), ()),
        call_ensures(SessionStore::new, (), created),
        other != client@,
    ensures
        existed <==> old(store)@.contains_key(client@),
        !final(store)@.contains_key(client@),
        is_untouched(final(store)@, old(store)@, other),
        !final(cleared)@.contains_key(other) && !final(cleared)@.contains_key(client@),
        !created@.contains_key(other) && !created@.contains_key(client@),
{
}

/// The route of an event is the one that was registered last for it, and it is
/// there until it is taken out; other routes stay as they are.
pub proof fn law_route_registered(
    store: &mut ServerEventRouteStore,
    event_id: String,
    client: String,
    other: Seq<char>,
)
    requires
        call_ensures(ServerEventRouteStore::register, (store, event_id, client), ()),
        other != event_id@,
    ensures
        final(store)@.contains_key(event_id@) && final(store)@[event_id@] == client@,
        final(store)@.contains_key(other) <==> old(store)@.contains_key(other),
        old(store)@.contains_key(other) ==> final(store)@[other] == old(store)@[other],
{
}

/// A route is found where there is one, both on looking it up and on taking it
/// out; once it is taken out it is gone, and no other is.
pub proof fn law_route_taken(
    store: &mut ServerEventRouteStore,
    looked_at: &ServerEventRouteStore,
    event_id: &str,
    found: Option<String>,
    taken: Option<String>,
    other: Seq<char>,
)
    requires
        looked_at@ == store@,
        call_ensures(ServerEventRouteStore::get, (looked_at, event_id), found),
        call_ensures(ServerEventRouteStore::pop, (store, event_id), taken),
        other != event_id@,
    ensures
        found is Some <==> old(store)@.contains_key(event_id@),
        taken is Some <==> old(store)@.contains_key(event_id@),
        found matches Some(client) ==> client@ == old(store)@[event_id@] && taken->0@ == client@,
        !final(store)@.contains_key(event_id@),
        final(store)@.contains_key(other) <==> old(store)@.contains_key(other),
        old(store)@.contains_key(other) ==> final(store)@[other] == old(store)@[other],
{
}

/// Where the routes of a client are removed, exactly those to it are gone; a store
/// that is new or cleared holds no route.
pub proof fn law_routes_removed(
    store: &mut ServerEventRouteStore,
    cleared: &mut ServerEventRouteStore,
    created: ServerEventRouteStore,
    client: &str,
    event_id: Seq<char>,
)
    requires
        call_ensures(ServerEventRouteStore::remove_for_client, (store, client), ()),
        call_ensures(ServerEventRouteStore::clear, (cleared,), ()),
        call_ensures(ServerEventRouteStore::new, (), created),
    ensures
        final(store)@.contains_key(event_id) <==> old(store)@.contains_key(event_id) && old(
            store)@[event_id] != client@,
        final(store)@.contains_key(event_id) ==> final(store)@[event_id] == old(store)@[event_id],
        !final(cleared)@.contains_key(event_id),
        !created@.contains_key(event_id),
{
}

} // verus!
