//! What the server keeps of one client, the routes of its requests included.

use crate::protocol::json::{Json, JsonView};
use crate::util::string_map::StringMap;
use crate::util::text::{clone_text, optional_text};
use crate::util::time::{is_reading, read_clock};
use vstd::prelude::*;

verus! {

/// How the answer to a request finds its way back.
#[derive(Debug)]
pub struct PendingRequestRoute {
    /// The id that the client gave the request.
    pub original_request_id: Json,
    /// The token under which progress on it is reported.
    pub progress_token: Option<String>,
    /// The kind of the gift wrap that it came in.
    pub wrap_kind: Option<u16>,
}

/// What a [`PendingRequestRoute`] says.
pub struct RouteView {
    pub original_request_id: JsonView,
    pub progress_token: Option<Seq<char>>,
    pub wrap_kind: Option<u16>,
}

impl View for PendingRequestRoute {
    type V = RouteView;

    open spec fn view(&self) -> RouteView {
        RouteView {
            original_request_id: self.original_request_id@,
            progress_token: optional_text(self.progress_token),
            wrap_kind: self.wrap_kind,
        }
    }
}

impl Clone for PendingRequestRoute {
    fn clone(&self) -> (copy: Self)
        ensures
            copy@ == self@,
    {
        PendingRequestRoute {
            original_request_id: self.original_request_id.clone(),
            progress_token: clone_text(&self.progress_token),
            wrap_kind: self.wrap_kind,
        }
    }
}

/// Client session state tracked by the server transport.
#[derive(Debug)]
pub struct ClientSession {
    /// Whether the client has completed MCP initialization.
    pub is_initialized: bool,
    /// Whether the client's messages were encrypted.
    pub is_encrypted: bool,
    /// Whether the common tags went out with an answer already.
    pub has_sent_common_tags: bool,
    /// Last activity timestamp.
    pub last_activity: std::time::Instant,
    /// Pending requests: event id to route.
    pub pending_requests: StringMap<PendingRequestRoute>,
    /// Progress token tracking: progress token to event id.
    pub progress_token_to_event: StringMap<String>,
}

/// What a [`ClientSession`] says.
pub struct SessionView {
    pub is_initialized: bool,
    pub is_encrypted: bool,
    pub has_sent_common_tags: bool,
    pub last_activity: std::time::Instant,
    pub pending_requests: Map<Seq<char>, RouteView>,
    pub progress_token_to_event: Map<Seq<char>, Seq<char>>,
}

impl View for ClientSession {
    type V = SessionView;

    open spec fn view(&self) -> SessionView {
        SessionView {
            is_initialized: self.is_initialized,
            is_encrypted: self.is_encrypted,
            has_sent_common_tags: self.has_sent_common_tags,
            last_activity: self.last_activity,
            pending_requests: self.pending_requests@,
            progress_token_to_event: self.progress_token_to_event@,
        }
    }
}

impl SessionView {
    /// The session of a client that has just come, at that moment.
    pub open spec fn fresh(is_encrypted: bool, moment: std::time::Instant) -> SessionView {
        SessionView {
            is_initialized: false,
            is_encrypted,
            has_sent_common_tags: false,
            last_activity: moment,
            pending_requests: Map::empty(),
            progress_token_to_event: Map::empty(),
        }
    }
}

impl ClientSession {
    /// The session of a client that has just come.
    pub fn new(is_encrypted: bool) -> (session: Self)
        ensures
            session@ == SessionView::fresh(is_encrypted, session@.last_activity),
            is_reading(session@.last_activity),
    {
        ClientSession {
            is_initialized: false,
            is_encrypted,
            has_sent_common_tags: false,
            last_activity: read_clock(),
            pending_requests: StringMap::new(),
            progress_token_to_event: StringMap::new(),
        }
    }

    /// Takes note that the client was active just now: the last activity becomes
    /// a reading of the clock, and the rest stays.
    pub fn update_activity(&mut self)
        ensures
            final(self)@ == (SessionView {
                last_activity: final(self)@.last_activity,
                ..old(self)@
            }),
            is_reading(final(self)@.last_activity),
    {
        self.last_activity = read_clock();
    }
}

} // verus!
