//! Sessions that have been idle too long, whatever else a session holds.

use crate::util::string_map::{
    distinct_texts, holds_text, lemma_holds_text_join, lemma_holds_text_take, StringMap,
};
use crate::util::time::{elapsed, is_time_since, Duration};
use vstd::prelude::*;

verus! {

/// What a server keeps of one client, as far as its end goes.
pub trait Session: View {
    /// When the client was last active.
    spec fn last_moment(session: Self::V) -> std::time::Instant;

    /// Whether something is kept elsewhere under this id for the session alone.
    spec fn mentions(session: Self::V, id: Seq<char>) -> bool;

    /// When the client was last active.
    fn active_at(&self) -> (moment: &std::time::Instant)
        ensures
            *moment == Self::last_moment(self@),
    ;

    /// The ids under which something is kept elsewhere for the session alone.
    fn mentioned(&self) -> (ids: Vec<String>)
        ensures
            forall|id: Seq<char>| #[trigger]
                holds_text(ids@, id) <==> Self::mentions(self@, id),
    ;
}

/// Whether a client's session has been idle for longer than allowed.
pub open spec fn has_expired<S>(
    sessions: Map<Seq<char>, S>,
    idle: Map<Seq<char>, Duration>,
    timeout: Duration,
    client: Seq<char>,
) -> bool {
    &&& sessions.contains_key(client)
    &&& idle.contains_key(client)
    &&& idle[client].total() > timeout.total()
}

/// Whether a session that has expired mentions an id.
pub open spec fn is_stale<S: Session>(
    sessions: Map<Seq<char>, S::V>,
    idle: Map<Seq<char>, Duration>,
    timeout: Duration,
    id: Seq<char>,
) -> bool {
    exists|client: Seq<char>| #[trigger]
        has_expired(sessions, idle, timeout, client) && S::mentions(sessions[client], id)
}

/// The sessions that are left once those that have expired are gone.
pub open spec fn lasting<S>(
    sessions: Map<Seq<char>, S>,
    idle: Map<Seq<char>, Duration>,
    timeout: Duration,
) -> Map<Seq<char>, S> {
    sessions.remove_keys(
        Set::new(|client: Seq<char>| has_expired(sessions, idle, timeout, client)),
    )
}

/// Whether these are the idle times of all sessions: each what the clock gives as
/// the time since the session's last activity.
pub open spec fn is_idle_by_clock<S: Session>(
    sessions: Map<Seq<char>, S::V>,
    idle: Map<Seq<char>, Duration>,
) -> bool {
    &&& idle.dom() == sessions.dom()
    &&& forall|client: Seq<char>| #[trigger]
        idle.contains_key(client) ==> is_time_since(
            S::last_moment(sessions[client]),
            idle[client],
        )
}

/// Takes the sessions that have expired out; hands out how many there were, and
/// all that they mention.
pub fn take_expired<S: Session>(
    sessions: &mut StringMap<S>,
    idle: &StringMap<Duration>,
    timeout: Duration,
) -> (taken: (usize, Vec<String>))
    ensures
        final(sessions)@ == lasting(old(sessions)@, idle@, timeout),
        old(sessions)@.dom().finite(),
        final(sessions)@.dom().finite(),
        taken.0 == old(sessions)@.dom().len() - final(sessions)@.dom().len(),
        forall|id: Seq<char>| #[trigger]
            holds_text(taken.1@, id) <==> is_stale::<S>(old(sessions)@, idle@, timeout, id),
{
    let keys = sessions.keys();
    let mut stale: Vec<String> = Vec::new();
    let mut cleaned: usize = 0;
    let mut i: usize = 0;
    let ghost before = sessions@;
    proof {
        assert forall|id: Seq<char>| !holds_text(stale@, id) by {}
    }
    while i < keys.len()
        invariant
            i <= keys@.len(),
            cleaned <= i,
            before == old(sessions)@,
            before.dom().finite(),
            sessions@.dom().finite(),
            cleaned == before.dom().len() - sessions@.dom().len(),
            distinct_texts(keys@),
            forall|key: Seq<char>| #[trigger]
                before.contains_key(key) <==> holds_text(keys@, key),
            forall|key: Seq<char>| #[trigger]
                sessions@.contains_key(key) <==> before.contains_key(key) && !(holds_text(
                    keys@.take(i as int),
                    key,
                ) && has_expired(before, idle@, timeout, key)),
            forall|key: Seq<char>| #[trigger]
                sessions@.contains_key(key) ==> sessions@[key] == before[key],
            forall|id: Seq<char>| #[trigger]
                holds_text(stale@, id) <==> exists|client: Seq<char>| #[trigger]
                    has_expired(before, idle@, timeout, client) && holds_text(
                        keys@.take(i as int),
                        client,
                    ) && S::mentions(before[client], id),
        decreases keys@.len() - i,
    {
        let ghost key = keys@[i as int]@;
        let ghost current = sessions@;
        let ghost gathered = stale@;
        proof {
            assert(holds_text(keys@, key));
            assert(before.contains_key(key));
            if holds_text(keys@.take(i as int), key) {
                let j = choose|j: int|
                    0 <= j < keys@.take(i as int).len() && (#[trigger] keys@.take(i as int)[j])@
                        == key;
                assert(keys@[j]@ == keys@[i as int]@);
            }
            assert(current.contains_key(key));
            assert forall|k: Seq<char>| #[trigger]
                holds_text(keys@.take(i + 1), k) <==> holds_text(keys@.take(i as int), k) || k
                    == key by {
                lemma_holds_text_take(keys@, i as int, k);
            }
        }
        let goes = match idle.get(keys[i].as_str()) {
            Some(span) => span.exceeds(timeout),
            None => false,
        };
        assert(goes == has_expired(before, idle@, timeout, key));
        if goes {
            if let Some(session) = sessions.remove(keys[i].as_str()) {
                let mut mentioned = session.mentioned();
                let ghost ids = mentioned@;
                stale.append(&mut mentioned);
                cleaned = cleaned + 1;
                proof {
                    assert(stale@ =~= gathered + ids);
                    assert forall|id: Seq<char>| #[trigger]
                        holds_text(stale@, id) <==> holds_text(gathered, id) || S::mentions(
                            before[key],
                            id,
                        ) by {
                        lemma_holds_text_join(gathered, ids, id);
                        assert(S::mentions(session@, id) <==> holds_text(ids, id));
                    }
                }
            }
        }
        proof {
            assert forall|id: Seq<char>| #[trigger]
                holds_text(stale@, id) <==> exists|client: Seq<char>| #[trigger]
                    has_expired(before, idle@, timeout, client) && holds_text(
                        keys@.take(i + 1),
                        client,
                    ) && S::mentions(before[client], id) by {
                if holds_text(gathered, id) {
                    let client = choose|client: Seq<char>| #[trigger]
                        has_expired(before, idle@, timeout, client) && holds_text(
                            keys@.take(i as int),
                            client,
                        ) && S::mentions(before[client], id);
                    assert(holds_text(keys@.take(i + 1), client));
                    assert(has_expired(before, idle@, timeout, client));
                }
                if goes && S::mentions(before[key], id) {
                    assert(holds_text(keys@.take(i + 1), key));
                    assert(has_expired(before, idle@, timeout, key));
                }
                if exists|client: Seq<char>| #[trigger]
                    has_expired(before, idle@, timeout, client) && holds_text(
                        keys@.take(i + 1),
                        client,
                    ) && S::mentions(before[client], id) {
                    let client = choose|client: Seq<char>| #[trigger]
                        has_expired(before, idle@, timeout, client) && holds_text(
                            keys@.take(i + 1),
                            client,
                        ) && S::mentions(before[client], id);
                    assert(holds_text(keys@.take(i as int), client) || client == key);
                    if client != key {
                        assert(has_expired(before, idle@, timeout, client));
                        assert(holds_text(gathered, id));
                    }
                }
            }
        }
        i = i + 1;
    }
    proof {
        assert(keys@.take(i as int) =~= keys@);
        assert(sessions@ =~= lasting(before, idle@, timeout));
        assert forall|id: Seq<char>| #[trigger]
            holds_text(stale@, id) <==> is_stale::<S>(before, idle@, timeout, id) by {
            if is_stale::<S>(before, idle@, timeout, id) {
                let client = choose|client: Seq<char>| #[trigger]
                    has_expired(before, idle@, timeout, client) && S::mentions(before[client], id);
                assert(before.contains_key(client));
                assert(holds_text(keys@, client));
            }
        }
    }
    (cleaned, stale)
}

/// How long each client has been idle.
pub fn idle_times<S: Session>(sessions: &StringMap<S>) -> (idle: StringMap<Duration>)
    ensures
        is_idle_by_clock::<S>(sessions@, idle@),
{
    let keys = sessions.keys();
    let mut idle: StringMap<Duration> = StringMap::new();
    let mut i: usize = 0;
    while i < keys.len()
        invariant
            i <= keys@.len(),
            forall|key: Seq<char>| #[trigger]
                sessions@.contains_key(key) <==> holds_text(keys@, key),
            forall|key: Seq<char>| #[trigger]
                idle@.contains_key(key) <==> holds_text(keys@.take(i as int), key),
            forall|key: Seq<char>| #[trigger]
                idle@.contains_key(key) ==> is_time_since(
                    S::last_moment(sessions@[key]),
                    idle@[key],
                ),
        decreases keys@.len() - i,
    {
        proof {
            assert(holds_text(keys@, keys@[i as int]@));
            assert(sessions@.contains_key(keys@[i as int]@));
            assert forall|key: Seq<char>| #[trigger]
                holds_text(keys@.take(i + 1), key) <==> holds_text(keys@.take(i as int), key)
                    || keys@[i as int]@ == key by {
                lemma_holds_text_take(keys@, i as int, key);
            }
        }
        if let Some(session) = sessions.get(keys[i].as_str()) {
            let span = elapsed(session.active_at());
            idle.insert(keys[i].clone(), span);
        }
        i = i + 1;
    }
    proof {
        assert(keys@.take(i as int) =~= keys@);
        assert(idle@.dom() =~= sessions@.dom());
    }
    idle
}

} // verus!
