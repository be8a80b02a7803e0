//! Which requests await an answer.

use crate::util::string_map::StringMap;
use vstd::prelude::*;

verus! {

/// Tracks pending request event ids awaiting responses on the client side.
#[derive(Debug)]
pub struct ClientCorrelationStore {
    pending_requests: StringMap<()>,
}

impl View for ClientCorrelationStore {
    type V = Set<Seq<char>>;

    closed spec fn view(&self) -> Set<Seq<char>> {
        self.pending_requests@.dom()
    }
}

impl Default for ClientCorrelationStore {
    fn default() -> (store: Self)
        ensures
            store@ == Set::<Seq<char>>::empty(),
    {
        Self::new()
    }
}

impl ClientCorrelationStore {
    /// A store without pending requests.
    pub fn new() -> (store: Self)
        ensures
            store@ == Set::<Seq<char>>::empty(),
    {
        let store = ClientCorrelationStore { pending_requests: StringMap::new() };
        proof {
            assert(store@ =~= Set::<Seq<char>>::empty());
        }
        store
    }

    /// Takes note of a request.
    pub fn register(&mut self, event_id: String)
        ensures
            final(self)@ == old(self)@.insert(event_id@),
    {
        self.pending_requests.insert(event_id, ());
    }

    /// Whether a request awaits its answer.
    pub fn contains(&self, event_id: &str) -> (pending: bool)
        ensures
            pending == self@.contains(event_id@),
    {
        self.pending_requests.contains_key(event_id)
    }

    /// Forgets a request.
    pub fn remove(&mut self, event_id: &str)
        ensures
            final(self)@ == old(self)@.remove(event_id@),
    {
        let _ = self.pending_requests.remove(event_id);
    }

    /// Forgets all requests.
    pub fn clear(&mut self)
        ensures
            final(self)@ == Set::<Seq<char>>::empty(),
    {
        self.pending_requests.clear();
        proof {
            assert(self@ =~= Set::<Seq<char>>::empty());
        }
    }
}

} // verus!
