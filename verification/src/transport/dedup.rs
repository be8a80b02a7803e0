//! The gift wraps that were opened already.
//!
//! Relays may deliver an event more than once. The ids of the gift wraps that
//! were opened are remembered, as many as fit, in the cache of the `lru` crate.

use vstd::prelude::*;

verus! {

/// The cache of `lru`.
#[verifier::external_type_specification]
#[verifier::external_body]
#[verifier::reject_recursive_types(K)]
#[verifier::reject_recursive_types(V)]
#[verifier::reject_recursive_types(S)]
pub struct ExLruCache<K, V, S>(lru::LruCache<K, V, S>);

/// The hasher that a cache of `lru` has by default.
#[verifier::external_type_specification]
#[verifier::external_body]
pub struct ExLruHasher(lru::DefaultHasher);

/// The keys of a cache, the one that was put longest ago first.
pub uninterp spec fn cached_ids(cache: lru::LruCache<String, ()>) -> Seq<Seq<char>>;

/// How many keys a cache was made for.
pub uninterp spec fn cache_capacity(cache: lru::LruCache<String, ()>) -> nat;

/// How many ids can be remembered at most.
pub const MAX_REMEMBERED: usize = 1_000_000;

/// The ids that are remembered once one more is: it comes last, wherever it was
/// before, and the first goes where there is no room.
pub open spec fn remembered(ids: Seq<Seq<char>>, capacity: nat, id: Seq<char>) -> Seq<Seq<char>> {
    if ids.contains(id) {
        ids.remove(ids.index_of(id)).push(id)
    } else if ids.len() == capacity {
        ids.drop_first().push(id)
    } else {
        ids.push(id)
    }
}

/// Makes a cache with `lru::LruCache::new`.
///
/// Taken on trust: that it is empty and made for that many keys.
#[verifier::external_body]
fn cache_new(capacity: usize) -> (cache: lru::LruCache<String, ()>)
    requires
        0 < capacity <= MAX_REMEMBERED,
    ensures
        cached_ids(cache) == Seq::<Seq<char>>::empty(),
        cache_capacity(cache) == capacity,
{
    lru::LruCache::new(std::num::NonZeroUsize::new(capacity).unwrap())
}

/// Looks a key up with `lru::LruCache::contains`.
///
/// Taken on trust: that the answer is whether the key is there.
#[verifier::external_body]
fn cache_contains(cache: &lru::LruCache<String, ()>, id: &str) -> (found: bool)
    ensures
        found == cached_ids(*cache).contains(id@),
{
    cache.contains(id)
}

/// Puts a key with `lru::LruCache::put`.
///
/// Taken on trust: that the key comes last, that the first key goes where the
/// cache is full and the key was not there, and that the rest stays.
#[verifier::external_body]
fn cache_put(cache: &mut lru::LruCache<String, ()>, id: String)
    ensures
        cached_ids(*final(cache)) == remembered(
            cached_ids(*old(cache)),
            cache_capacity(*old(cache)),
            id@,
        ),
        cache_capacity(*final(cache)) == cache_capacity(*old(cache)),
{
    cache.put(id, ());
}

/// The ids of the gift wraps that were opened.
pub struct SeenGiftWraps {
    cache: lru::LruCache<String, ()>,
}

/// The remembered ids, and how many there can be.
pub struct SeenView {
    /// The one that came longest ago first.
    pub ids: Seq<Seq<char>>,
    pub capacity: nat,
}

impl SeenView {
    /// The ids once one more was opened.
    pub open spec fn remember(self, id: Seq<char>) -> SeenView {
        SeenView { ids: remembered(self.ids, self.capacity, id), ..self }
    }

    /// The ids once these were opened, one after the other.
    pub open spec fn remember_all(self, ids: Seq<Seq<char>>) -> SeenView
        decreases ids.len(),
    {
        if ids.len() == 0 {
            self
        } else {
            self.remember_all(ids.drop_last()).remember(ids.last())
        }
    }

    /// Whether an id is among the last that were opened, as many as given.
    pub open spec fn is_among_last(self, id: Seq<char>, number: nat) -> bool {
        exists|i: int|
            0 <= i < self.ids.len() && self.ids.len() - number <= i && #[trigger] self.ids[i] == id
    }

    /// Whether no id is there twice and there are not too many.
    pub open spec fn is_valid(self) -> bool {
        self.ids.no_duplicates() && self.ids.len() <= self.capacity && self.capacity > 0
    }
}

impl View for SeenGiftWraps {
    type V = SeenView;

    closed spec fn view(&self) -> SeenView {
        SeenView { ids: cached_ids(self.cache), capacity: cache_capacity(self.cache) }
    }
}

impl SeenGiftWraps {
    /// Room for that many ids.
    pub fn new(capacity: usize) -> (seen: Self)
        requires
            0 < capacity <= MAX_REMEMBERED,
        ensures
            seen@ == (SeenView { ids: Seq::empty(), capacity: capacity as nat }),
            seen@.is_valid(),
    {
        SeenGiftWraps { cache: cache_new(capacity) }
    }

    /// Whether that gift wrap was opened already, as far as is remembered.
    pub fn contains(&self, id: &str) -> (seen: bool)
        ensures
            seen == self@.ids.contains(id@),
    {
        cache_contains(&self.cache, id)
    }

    /// Remembers that a gift wrap was opened.
    pub fn put(&mut self, id: String)
        ensures
            final(self)@ == old(self)@.remember(id@),
            old(self)@.is_valid() ==> final(self)@.is_valid(),
    {
        proof {
            if self@.is_valid() {
                law_remember(self@, id@, id@);
            }
        }
        cache_put(&mut self.cache, id);
    }
}

/// An id that was opened is remembered, as the last to go; no other id goes but
/// the one that came longest ago, and that only where there is no room.
pub proof fn law_remember(seen: SeenView, id: Seq<char>, other: Seq<char>)
    requires
        seen.is_valid(),
    ensures
        seen.remember(id).is_valid(),
        seen.remember(id).ids.contains(id),
        seen.remember(id).ids.last() == id,
        seen.remember(id).ids.contains(other) ==> other == id || seen.ids.contains(other),
        seen.ids.contains(other) && !seen.remember(id).ids.contains(other) ==> {
            &&& seen.ids.len() == seen.capacity
            &&& !seen.ids.contains(id)
            &&& other == seen.ids.first()
        },
{
    let ids = seen.ids;
    let after = remembered(ids, seen.capacity, id);
    if ids.contains(id) {
        let at = ids.index_of(id);
        let rest = ids.remove(at);
        assert(0 <= at < ids.len() && ids[at] == id);
        assert(forall|i: int| 0 <= i < rest.len() ==> #[trigger] rest[i] == ids[if i < at {
            i
        } else {
            i + 1
        }]);
        assert(after.no_duplicates());
        if ids.contains(other) {
            let i = choose|i: int| 0 <= i < ids.len() && ids[i] == other;
            if i < at {
                assert(after[i] == other);
            } else if i > at {
                assert(after[i - 1] == other);
            } else {
                assert(after[after.len() - 1] == other);
            }
        }
        if after.contains(other) && other != id {
            let i = choose|i: int| 0 <= i < after.len() && after[i] == other;
            assert(i < rest.len());
            assert(rest[i] == other);
            assert(ids[if i < at { i } else { i + 1 }] == other);
        }
    } else {
        let rest = if ids.len() == seen.capacity {
            ids.drop_first()
        } else {
            ids
        };
        let start: int = if ids.len() == seen.capacity { 1 } else { 0 };
        assert(forall|i: int| 0 <= i < rest.len() ==> #[trigger] rest[i] == ids[i + start]);
        assert(after =~= rest.push(id));
        assert forall|i: int, j: int| 0 <= i < after.len() && 0 <= j < after.len() && i
            != j implies after[i] != after[j] by {
            if i < rest.len() {
                assert(ids.contains(ids[i + start]));
            }
            if j < rest.len() {
                assert(ids.contains(ids[j + start]));
            }
        }
        if ids.contains(other) {
            let i = choose|i: int| 0 <= i < ids.len() && ids[i] == other;
            if i >= start {
                assert(after[i - start] == other);
            }
        }
        if after.contains(other) && other != id {
            let i = choose|i: int| 0 <= i < after.len() && after[i] == other;
            assert(i < rest.len());
            assert(ids[i + start] == other);
        }
    }
    assert(after[after.len() - 1] == id);
}

/// Opening one more gift wrap moves an id by at most one place towards the end of
/// its time.
proof fn lemma_remember_ages(seen: SeenView, id: Seq<char>, number: nat, other: Seq<char>)
    requires
        seen.is_valid(),
        seen.is_among_last(id, number),
        number < seen.capacity,
    ensures
        seen.remember(other).is_among_last(id, number + 1),
{
    let ids = seen.ids;
    let after = seen.remember(other).ids;
    let i = choose|i: int| 0 <= i < ids.len() && ids.len() - number <= i && #[trigger] ids[i] == id;
    if ids.contains(other) {
        let at = ids.index_of(other);
        assert(0 <= at < ids.len() && ids[at] == other);
        if at < i {
            assert(after[i - 1] == id);
        } else if at > i {
            assert(after[i] == id);
        } else {
            assert(after[after.len() - 1] == id);
        }
    } else if ids.len() == seen.capacity {
        assert(after[i - 1] == id);
    } else {
        assert(after[i] == id);
    }
}

/// An id that was opened is remembered until as many others were opened since as
/// there is room for ids.
pub proof fn law_remembered_while_there_is_room(
    seen: SeenView,
    id: Seq<char>,
    later: Seq<Seq<char>>,
)
    requires
        seen.is_valid(),
        later.len() < seen.capacity,
    ensures
        ({
            let after = seen.remember(id).remember_all(later);
            &&& after.is_valid()
            &&& after.capacity == seen.capacity
            &&& after.ids.contains(id)
            &&& after.is_among_last(id, later.len() + 1)
        }),
    decreases later.len(),
{
    let after = seen.remember(id).remember_all(later);
    if later.len() == 0 {
        law_remember(seen, id, id);
        assert(after.ids[after.ids.len() - 1] == id);
    } else {
        law_remembered_while_there_is_room(seen, id, later.drop_last());
        let before = seen.remember(id).remember_all(later.drop_last());
        law_remember(before, later.last(), id);
        lemma_remember_ages(before, id, later.len(), later.last());
        let i = choose|i: int| 0 <= i < after.ids.len() && #[trigger] after.ids[i] == id;
        assert(after.ids.contains(after.ids[i]));
    }
}

} // verus!
