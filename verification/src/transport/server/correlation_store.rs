//! Which client each request came from.

use crate::util::string_map::{distinct_texts, holds_text, lemma_holds_text_take, StringMap};
use crate::util::text::same_text;
use vstd::prelude::*;

verus! {

/// Maps event ids to client public keys for response routing.
#[derive(Debug)]
pub struct ServerEventRouteStore {
    event_to_client: StringMap<String>,
}

impl View for ServerEventRouteStore {
    type V = Map<Seq<char>, Seq<char>>;

    closed spec fn view(&self) -> Map<Seq<char>, Seq<char>> {
        self.event_to_client@
    }
}

impl Default for ServerEventRouteStore {
    fn default() -> (store: Self)
        ensures
            store@ == Map::<Seq<char>, Seq<char>>::empty(),
    {
        Self::new()
    }
}

/// The routes without those of one client.
pub open spec fn without_client(routes: Map<Seq<char>, Seq<char>>, client: Seq<char>) -> Map<
    Seq<char>,
    Seq<char>,
> {
    routes.remove_keys(Set::new(|event_id: Seq<char>| routes[event_id] == client))
}

impl ServerEventRouteStore {
    /// A store without routes.
    pub fn new() -> (store: Self)
        ensures
            store@ == Map::<Seq<char>, Seq<char>>::empty(),
    {
        ServerEventRouteStore { event_to_client: StringMap::new() }
    }

    /// Routes an event to a client.
    pub fn register(&mut self, event_id: String, client_pubkey: String)
        ensures
            final(self)@ == old(self)@.insert(event_id@, client_pubkey@),
    {
        self.event_to_client.insert(event_id, client_pubkey);
    }

    /// Returns the client public key for the given event id without removing it.
    pub fn get(&self, event_id: &str) -> (client: Option<String>)
        ensures
            match client {
                Some(key) => self@.contains_key(event_id@) && self@[event_id@] == key@,
                None => !self@.contains_key(event_id@),
            },
    {
        match self.event_to_client.get(event_id) {
            Some(key) => Some(key.clone()),
            None => None,
        }
    }

    /// Removes and returns the client public key for the given event id.
    pub fn pop(&mut self, event_id: &str) -> (client: Option<String>)
        ensures
            final(self)@ == old(self)@.remove(event_id@),
            match client {
                Some(key) => old(self)@.contains_key(event_id@) && old(self)@[event_id@] == key@,
                None => !old(self)@.contains_key(event_id@),
            },
    {
        self.event_to_client.remove(event_id)
    }

    /// Removes the routes of these events.
    pub(crate) fn pop_all(&mut self, event_ids: &Vec<String>)
        ensures
            final(self)@ == old(self)@.remove_keys(
                Set::new(|event_id: Seq<char>| holds_text(event_ids@, event_id)),
            ),
    {
        self.event_to_client.remove_all(event_ids);
    }

    /// Removes all routes for a given client public key.
    pub fn remove_for_client(&mut self, client_pubkey: &str)
        ensures
            final(self)@ == without_client(old(self)@, client_pubkey@),
    {
        let keys = self.event_to_client.keys();
        let ghost before = self@;
        let mut i: usize = 0;
        while i < keys.len()
            invariant
                i <= keys@.len(),
                before == old(self)@,
                distinct_texts(keys@),
                forall|key: Seq<char>| #[trigger]
                    before.contains_key(key) <==> holds_text(keys@, key),
                forall|key: Seq<char>| #[trigger]
                    self@.contains_key(key) <==> before.contains_key(key) && !(holds_text(
                        keys@.take(i as int),
                        key,
                    ) && before[key] == client_pubkey@),
                forall|key: Seq<char>| #[trigger]
                    self@.contains_key(key) ==> self@[key] == before[key],
            decreases keys@.len() - i,
        {
            let ghost current = self@;
            let ghost key = keys@[i as int]@;
            proof {
                assert(holds_text(keys@, key));
                assert(before.contains_key(key));
                if holds_text(keys@.take(i as int), key) {
                    let j = choose|j: int|
                        0 <= j < keys@.take(i as int).len() && (#[trigger] keys@.take(i as int)[j])@
                            == key;
                    assert(keys@[j]@ == keys@[i as int]@);
                }
                assert(current.contains_key(key));
                assert forall|k: Seq<char>| #[trigger]
                    holds_text(keys@.take(i + 1), k) <==> holds_text(keys@.take(i as int), k) || k
                        == key by {
                    lemma_holds_text_take(keys@, i as int, k);
                }
            }
            let goes = match self.event_to_client.get(keys[i].as_str()) {
                Some(client) => same_text(client.as_str(), client_pubkey),
                None => false,
            };
            if goes {
                let _ = self.event_to_client.remove(keys[i].as_str());
            }
            i = i + 1;
        }
        proof {
            assert(keys@.take(i as int) =~= keys@);
            assert(self@ =~= without_client(before, client_pubkey@));
        }
    }

    /// Removes all routes.
    pub fn clear(&mut self)
        ensures
            final(self)@ == Map::<Seq<char>, Seq<char>>::empty(),
    {
        self.event_to_client.clear();
    }
}

/// What was registered is found, and other routes stay as they are.
pub proof fn law_registered_route_found(
    routes: Map<Seq<char>, Seq<char>>,
    event_id: Seq<char>,
    client: Seq<char>,
    other: Seq<char>,
)
    ensures
        routes.insert(event_id, client).contains_key(event_id),
        routes.insert(event_id, client)[event_id] == client,
        other != event_id ==> routes.insert(event_id, client).contains_key(other)
            == routes.contains_key(other),
        !routes.insert(event_id, client).remove(event_id).contains_key(event_id),
{
}

/// Removing a client's routes leaves exactly those of other clients.
pub proof fn law_only_client_removed(
    routes: Map<Seq<char>, Seq<char>>,
    client: Seq<char>,
    event_id: Seq<char>,
)
    ensures
        without_client(routes, client).contains_key(event_id) <==> routes.contains_key(event_id)
            && routes[event_id] != client,
        without_client(routes, client).contains_key(event_id) ==> without_client(
            routes,
            client,
        )[event_id] == routes[event_id],
{
}

} // verus!
