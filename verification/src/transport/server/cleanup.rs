//! The end of sessions that have been idle too long.

use crate::protocol::session::{ClientSession, SessionView};
use crate::transport::expiry::{
    idle_times, is_idle_by_clock, is_stale, lasting, take_expired, Session,
};
use crate::transport::server::{NostrServerTransport, ServerView};
use crate::util::string_map::{holds_text, lemma_holds_text_join, StringMap};
use crate::util::time::Duration;
use vstd::prelude::*;

verus! {

impl Session for ClientSession {
    open spec fn last_moment(session: SessionView) -> std::time::Instant {
        session.last_activity
    }

    /// As a pending request or as one that reports progress.
    open spec fn mentions(session: SessionView, id: Seq<char>) -> bool {
        session.pending_requests.contains_key(id) || session.event_to_progress_token.contains_key(
            id,
        )
    }

    fn active_at(&self) -> (moment: &std::time::Instant) {
        &self.last_activity
    }

    fn mentioned(&self) -> (ids: Vec<String>) {
        let mut ids = self.pending_requests.keys();
        let mut reporting = self.event_to_progress_token.keys();
        let ghost pending = ids@;
        let ghost others = reporting@;
        ids.append(&mut reporting);
        proof {
            assert(ids@ =~= pending + others);
            assert forall|id: Seq<char>| #[trigger]
                holds_text(ids@, id) <==> Self::mentions(self@, id) by {
                lemma_holds_text_join(pending, others, id);
                assert(self@.pending_requests.contains_key(id) <==> holds_text(pending, id));
                assert(self@.event_to_progress_token.contains_key(id) <==> holds_text(others, id));
            }
        }
        ids
    }
}

/// The state once the sessions that have expired are gone, along with the routes
/// and gift-wrap kinds of all that they mention.
pub open spec fn expired(
    state: ServerView,
    idle: Map<Seq<char>, Duration>,
    timeout: Duration,
) -> ServerView {
    let stale = Set::new(
        |id: Seq<char>| is_stale::<ClientSession>(state.sessions, idle, timeout, id),
    );
    ServerView {
        sessions: lasting(state.sessions, idle, timeout),
        routes: state.routes.remove_keys(stale),
        wrap_kinds: state.wrap_kinds.remove_keys(stale),
        ..state
    }
}

impl NostrServerTransport {
    /// Ends the sessions that have been idle for longer than allowed, given how
    /// long each has been idle. Returns how many there were.
    pub fn expire_sessions(&mut self, idle: &StringMap<Duration>, timeout: Duration) -> (cleaned: usize)
        ensures
            final(self).same_setup(old(self)),
            final(self).state() == expired(old(self).state(), idle@, timeout),
            old(self).state().sessions.dom().finite(),
            final(self).state().sessions.dom().finite(),
            cleaned == old(self).state().sessions.dom().len()
                - final(self).state().sessions.dom().len(),
    {
        let (cleaned, stale) = take_expired(&mut self.sessions.sessions, idle, timeout);
        self.event_routes.pop_all(&stale);
        self.request_wrap_kinds.remove_all(&stale);
        proof {
            let before = old(self).state();
            assert(Set::new(|id: Seq<char>| holds_text(stale@, id)) =~= Set::new(
                |id: Seq<char>| is_stale::<ClientSession>(before.sessions, idle@, timeout, id),
            ));
        }
        cleaned
    }

    /// Ends the sessions that have been idle for longer than allowed by now.
    /// Returns how many there were.
    ///
    /// How long each session has been idle is what the clock gives as the time
    /// since its last activity; exactly the sessions for which that exceeds the
    /// limit end.
    pub fn cleanup_sessions(&mut self, timeout: Duration) -> (cleaned: usize)
        ensures
            final(self).same_setup(old(self)),
            old(self).state().sessions.dom().finite(),
            final(self).state().sessions.dom().finite(),
            cleaned == old(self).state().sessions.dom().len()
                - final(self).state().sessions.dom().len(),
            exists|idle: Map<Seq<char>, Duration>|
                #![trigger expired(old(self).state(), idle, timeout)]
                {
                    &&& is_idle_by_clock::<ClientSession>(old(self).state().sessions, idle)
                    &&& final(self).state() == expired(old(self).state(), idle, timeout)
                },
    {
        let idle = idle_times(&self.sessions.sessions);
        self.expire_sessions(&idle, timeout)
    }
}

} // verus!
