//! The sessions of all clients.

use crate::protocol::session::{ClientSession, SessionView};
use crate::util::string_map::{distinct_texts, holds_text, StringMap};
use crate::util::time::is_reading;
use vstd::prelude::*;

verus! {

/// Manages client sessions keyed by public key (hex).
#[derive(Debug)]
pub struct SessionStore {
    pub sessions: StringMap<ClientSession>,
}

impl View for SessionStore {
    type V = Map<Seq<char>, SessionView>;

    open spec fn view(&self) -> Map<Seq<char>, SessionView> {
        self.sessions@
    }
}

/// A lightweight snapshot of session state.
#[derive(Debug, Clone, Copy, PartialEq, Eq, Structural)]
pub struct SessionSnapshot {
    pub is_initialized: bool,
    pub is_encrypted: bool,
    pub has_sent_common_tags: bool,
    pub supports_ephemeral_gift_wrap: bool,
}

/// The snapshot of a session.
pub open spec fn snapshot_of(session: SessionView) -> SessionSnapshot {
    SessionSnapshot {
        is_initialized: session.is_initialized,
        is_encrypted: session.is_encrypted,
        has_sent_common_tags: session.has_sent_common_tags,
        supports_ephemeral_gift_wrap: session.supports_ephemeral_gift_wrap,
    }
}

/// The snapshot of a session.
fn snapshot(session: &ClientSession) -> (taken: SessionSnapshot)
    ensures
        taken == snapshot_of(session@),
{
    SessionSnapshot {
        is_initialized: session.is_initialized,
        is_encrypted: session.is_encrypted,
        has_sent_common_tags: session.has_sent_common_tags,
        supports_ephemeral_gift_wrap: session.supports_ephemeral_gift_wrap,
    }
}

impl Default for SessionStore {
    fn default() -> (store: Self)
        ensures
            store@ == Map::<Seq<char>, SessionView>::empty(),
    {
        Self::new()
    }
}

impl SessionStore {
    /// A store without sessions.
    pub fn new() -> (store: Self)
        ensures
            store@ == Map::<Seq<char>, SessionView>::empty(),
    {
        SessionStore { sessions: StringMap::new() }
    }

    /// Get an existing session or create a new one. Returns `true` if a new session was created.
    pub fn get_or_create_session(&mut self, client_pubkey: &str, is_encrypted: bool) -> (created:
        bool)
        ensures
            created == !old(self)@.contains_key(client_pubkey@),
            final(self)@ == old(self)@.insert(
                client_pubkey@,
                if old(self)@.contains_key(client_pubkey@) {
                    SessionView { is_encrypted, ..old(self)@[client_pubkey@] }
                } else {
                    SessionView::fresh(is_encrypted, final(self)@[client_pubkey@].last_activity)
                },
            ),
            created ==> is_reading(final(self)@[client_pubkey@].last_activity),
    {
        match self.sessions.remove(client_pubkey) {
            Some(session) => {
                let mut session = session;
                session.is_encrypted = is_encrypted;
                self.sessions.insert(client_pubkey.to_owned(), session);
                proof {
                    assert(self@ =~= old(self)@.insert(
                        client_pubkey@,
                        SessionView { is_encrypted, ..old(self)@[client_pubkey@] },
                    ));
                }
                false
            },
            None => {
                let session = ClientSession::new(is_encrypted);
                let ghost moment = session@.last_activity;
                self.sessions.insert(client_pubkey.to_owned(), session);
                proof {
                    assert(self@ =~= old(self)@.insert(
                        client_pubkey@,
                        SessionView::fresh(is_encrypted, moment),
                    ));
                }
                true
            },
        }
    }

    /// Get a read-only snapshot of session fields.
    /// Returns `None` if the session does not exist.
    pub fn get_session(&self, client_pubkey: &str) -> (taken: Option<SessionSnapshot>)
        ensures
            taken == if self@.contains_key(client_pubkey@) {
                Some(snapshot_of(self@[client_pubkey@]))
            } else {
                None
            },
    {
        match self.sessions.get(client_pubkey) {
            Some(session) => Some(snapshot(session)),
            None => None,
        }
    }

    /// Mark a session as initialized. Returns `true` if the session existed.
    pub fn mark_initialized(&mut self, client_pubkey: &str) -> (existed: bool)
        ensures
            existed == old(self)@.contains_key(client_pubkey@),
            final(self)@ == if existed {
                old(self)@.insert(
                    client_pubkey@,
                    SessionView { is_initialized: true, ..old(self)@[client_pubkey@] },
                )
            } else {
                old(self)@
            },
    {
        match self.sessions.remove(client_pubkey) {
            Some(session) => {
                let mut session = session;
                session.is_initialized = true;
                self.sessions.insert(client_pubkey.to_owned(), session);
                proof {
                    assert(self@ =~= old(self)@.insert(
                        client_pubkey@,
                        SessionView { is_initialized: true, ..old(self)@[client_pubkey@] },
                    ));
                }
                true
            },
            None => {
                proof {
                    assert(self@ =~= old(self)@);
                }
                false
            },
        }
    }

    /// Mark that common tags have been sent for this session.
    pub fn mark_common_tags_sent(&mut self, client_pubkey: &str) -> (existed: bool)
        ensures
            existed == old(self)@.contains_key(client_pubkey@),
            final(self)@ == with_common_tags_sent(old(self)@, client_pubkey@),
    {
        match self.sessions.remove(client_pubkey) {
            Some(session) => {
                let mut session = session;
                session.has_sent_common_tags = true;
                self.sessions.insert(client_pubkey.to_owned(), session);
                proof {
                    assert(self@ =~= with_common_tags_sent(old(self)@, client_pubkey@));
                }
                true
            },
            None => {
                proof {
                    assert(self@ =~= old(self)@);
                }
                false
            },
        }
    }

    /// Remove a session. Returns `true` if it existed.
    pub fn remove_session(&mut self, client_pubkey: &str) -> (existed: bool)
        ensures
            existed == old(self)@.contains_key(client_pubkey@),
            final(self)@ == old(self)@.remove(client_pubkey@),
    {
        self.sessions.remove(client_pubkey).is_some()
    }

    /// Remove all sessions.
    pub fn clear(&mut self)
        ensures
            final(self)@ == Map::<Seq<char>, SessionView>::empty(),
    {
        self.sessions.clear();
    }

    /// Number of active sessions.
    pub fn session_count(&self) -> (number: usize)
        ensures
            self@.dom().finite(),
            number == self@.dom().len(),
    {
        self.sessions.len()
    }

    /// Return a snapshot of all sessions as `(client_pubkey, snapshot)` pairs.
    pub fn get_all_sessions(&self) -> (all: Vec<(String, SessionSnapshot)>)
        ensures
            self@.dom().finite(),
            all@.len() == self@.dom().len(),
            forall|i: int, j: int|
                0 <= i < j < all@.len() ==> (#[trigger] all@[i]).0@ != (#[trigger] all@[j]).0@,
            forall|i: int|
                0 <= i < all@.len() ==> {
                    &&& self@.contains_key((#[trigger] all@[i]).0@)
                    &&& all@[i].1 == snapshot_of(self@[all@[i].0@])
                },
    {
        let keys = self.sessions.keys();
        let mut all: Vec<(String, SessionSnapshot)> = Vec::new();
        let mut i: usize = 0;
        while i < keys.len()
            invariant
                i <= keys@.len(),
                all@.len() == i,
                distinct_texts(keys@),
                forall|key: Seq<char>| #[trigger]
                    self@.contains_key(key) <==> holds_text(keys@, key),
                forall|j: int|
                    0 <= j < i ==> {
                        &&& (#[trigger] all@[j]).0@ == keys@[j]@
                        &&& self@.contains_key(all@[j].0@)
                        &&& all@[j].1 == snapshot_of(self@[all@[j].0@])
                    },
            decreases keys@.len() - i,
        {
            proof {
                assert(holds_text(keys@, keys@[i as int]@));
                assert(self@.contains_key(keys@[i as int]@));
            }
            match self.sessions.get(keys[i].as_str()) {
                Some(session) => {
                    all.push((keys[i].clone(), snapshot(session)));
                },
                None => {},
            }
            i = i + 1;
        }
        proof {
            assert forall|i: int, j: int| 0 <= i < j < all@.len() implies (#[trigger] all@[i]).0@
                != (#[trigger] all@[j]).0@ by {
                assert(keys@[i]@ != keys@[j]@);
            }
        }
        all
    }
}

/// The sessions once the common tags went out to a client.
pub open spec fn with_common_tags_sent(
    sessions: Map<Seq<char>, SessionView>,
    client: Seq<char>,
) -> Map<Seq<char>, SessionView> {
    if sessions.contains_key(client) {
        sessions.insert(client, SessionView { has_sent_common_tags: true, ..sessions[client] })
    } else {
        sessions
    }
}

} // verus!
