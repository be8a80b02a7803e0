//! What a server keeps of one client.

use crate::protocol::json::{Json, JsonView};
use crate::util::string_map::StringMap;
use crate::util::time::{is_reading, read_clock};
use vstd::prelude::*;

verus! {

/// Client session state tracked by the server transport.
#[derive(Debug)]
pub struct ClientSession {
    /// Whether the client has completed MCP initialization.
    pub is_initialized: bool,
    /// Whether the client's messages were encrypted.
    pub is_encrypted: bool,
    /// Whether the common tags went out with an answer already.
    pub has_sent_common_tags: bool,
    /// Whether the client has sent an ephemeral gift wrap.
    pub supports_ephemeral_gift_wrap: bool,
    /// Last activity timestamp.
    pub last_activity: std::time::Instant,
    /// Pending requests: event id to original request id.
    pub pending_requests: StringMap<Json>,
    /// Progress token tracking: event id to progress token.
    pub event_to_progress_token: StringMap<String>,
}

/// What a [`ClientSession`] says.
pub struct SessionView {
    pub is_initialized: bool,
    pub is_encrypted: bool,
    pub has_sent_common_tags: bool,
    pub supports_ephemeral_gift_wrap: bool,
    pub last_activity: std::time::Instant,
    pub pending_requests: Map<Seq<char>, JsonView>,
    pub event_to_progress_token: Map<Seq<char>, Seq<char>>,
}

impl View for ClientSession {
    type V = SessionView;

    open spec fn view(&self) -> SessionView {
        SessionView {
            is_initialized: self.is_initialized,
            is_encrypted: self.is_encrypted,
            has_sent_common_tags: self.has_sent_common_tags,
            supports_ephemeral_gift_wrap: self.supports_ephemeral_gift_wrap,
            last_activity: self.last_activity,
            pending_requests: self.pending_requests@,
            event_to_progress_token: self.event_to_progress_token@,
        }
    }
}

impl SessionView {
    /// The session of a client that has just come, at that moment.
    pub open spec fn fresh(is_encrypted: bool, moment: std::time::Instant) -> SessionView {
        SessionView {
            is_initialized: false,
            is_encrypted,
            has_sent_common_tags: false,
            supports_ephemeral_gift_wrap: false,
            last_activity: moment,
            pending_requests: Map::empty(),
            event_to_progress_token: Map::empty(),
        }
    }
}

impl ClientSession {
    /// The session of a client that has just come.
    pub fn new(is_encrypted: bool) -> (session: Self)
        ensures
            session@ == SessionView::fresh(is_encrypted, session@.last_activity),
            is_reading(session@.last_activity),
    {
        ClientSession {
            is_initialized: false,
            is_encrypted,
            has_sent_common_tags: false,
            supports_ephemeral_gift_wrap: false,
            last_activity: read_clock(),
            pending_requests: StringMap::new(),
            event_to_progress_token: StringMap::new(),
        }
    }

    /// Takes note that the client was active just now: the last activity becomes
    /// a reading of the clock, and the rest stays.
    pub fn update_activity(&mut self)
        ensures
            final(self)@ == (SessionView {
                last_activity: final(self)@.last_activity,
                ..old(self)@
            }),
            is_reading(final(self)@.last_activity),
    {
        self.last_activity = read_clock();
    }
}

} // verus!
