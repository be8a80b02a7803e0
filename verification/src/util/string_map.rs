//! A map from strings to values.

use vstd::prelude::*;

verus! {

/// A map from strings to values of type `V`.
///
/// The entries are held in the order in which their keys first came; no key
/// occurs twice.
#[derive(Debug)]
pub struct StringMap<V> {
    entries: Vec<(String, V)>,
}

/// The entries by key.
pub open spec fn entries_map<V: View>(entries: Seq<(String, V)>) -> Map<Seq<char>, V::V>
    decreases entries.len(),
{
    if entries.len() == 0 {
        Map::empty()
    } else {
        entries_map(entries.drop_last()).insert(entries.last().0@, entries.last().1@)
    }
}

/// Whether no key occurs twice.
pub open spec fn distinct_keys<V>(entries: Seq<(String, V)>) -> bool {
    forall|i: int, j: int|
        0 <= i < j < entries.len() ==> (#[trigger] entries[i]).0@ != (#[trigger] entries[j]).0@
}

/// Whether no text occurs twice.
pub open spec fn distinct_texts(texts: Seq<String>) -> bool {
    forall|i: int, j: int|
        0 <= i < j < texts.len() ==> (#[trigger] texts[i])@ != (#[trigger] texts[j])@
}

/// Whether a text is among the given ones.
pub open spec fn holds_text(texts: Seq<String>, text: Seq<char>) -> bool {
    exists|i: int| 0 <= i < texts.len() && (#[trigger] texts[i])@ == text
}

/// The first of the texts and one more hold what either holds.
pub proof fn lemma_holds_text_take(texts: Seq<String>, i: int, text: Seq<char>)
    requires
        0 <= i < texts.len(),
    ensures
        holds_text(texts.take(i + 1), text) <==> holds_text(texts.take(i), text) || texts[i]@
            == text,
{
    if holds_text(texts.take(i + 1), text) {
        let j = choose|j: int|
            0 <= j < texts.take(i + 1).len() && (#[trigger] texts.take(i + 1)[j])@ == text;
        if j < i {
            assert(texts.take(i)[j]@ == text);
        }
    }
    if holds_text(texts.take(i), text) {
        let j = choose|j: int|
            0 <= j < texts.take(i).len() && (#[trigger] texts.take(i)[j])@ == text;
        assert(texts.take(i + 1)[j]@ == text);
    }
    if texts[i]@ == text {
        assert(texts.take(i + 1)[i]@ == text);
    }
}

/// Two lists, one after the other, hold what either holds.
pub proof fn lemma_holds_text_join(a: Seq<String>, b: Seq<String>, text: Seq<char>)
    ensures
        holds_text(a + b, text) <==> holds_text(a, text) || holds_text(b, text),
{
    if holds_text(a, text) {
        let i = choose|i: int| 0 <= i < a.len() && (#[trigger] a[i])@ == text;
        assert((a + b)[i]@ == text);
    }
    if holds_text(b, text) {
        let i = choose|i: int| 0 <= i < b.len() && (#[trigger] b[i])@ == text;
        assert((a + b)[a.len() + i]@ == text);
    }
    if holds_text(a + b, text) {
        let i = choose|i: int| 0 <= i < (a + b).len() && (#[trigger] (a + b)[i])@ == text;
        if i < a.len() {
            assert(a[i]@ == text);
        } else {
            assert(b[i - a.len()]@ == text);
        }
    }
}

/// A key is in the map exactly where an entry bears it.
proof fn lemma_key_has_entry<V: View>(entries: Seq<(String, V)>, key: Seq<char>)
    ensures
        entries_map(entries).contains_key(key) <==> exists|i: int|
            0 <= i < entries.len() && (#[trigger] entries[i]).0@ == key,
    decreases entries.len(),
{
    if entries.len() > 0 {
        lemma_key_has_entry(entries.drop_last(), key);
        if entries.last().0@ == key {
            assert(entries[entries.len() - 1].0@ == key);
        }
        if exists|i: int| 0 <= i < entries.len() && (#[trigger] entries[i]).0@ == key {
            let i = choose|i: int| 0 <= i < entries.len() && (#[trigger] entries[i]).0@ == key;
            if i < entries.len() - 1 {
                assert(entries.drop_last()[i].0@ == key);
            }
        }
        if entries_map(entries.drop_last()).contains_key(key) {
            let i = choose|i: int|
                0 <= i < entries.drop_last().len() && (#[trigger] entries.drop_last()[i]).0@ == key;
            assert(entries[i].0@ == key);
        }
    }
}

/// Where no key occurs twice, the map holds the value of each entry.
proof fn lemma_entry_counts<V: View>(entries: Seq<(String, V)>, i: int)
    requires
        distinct_keys(entries),
        0 <= i < entries.len(),
    ensures
        entries_map(entries).contains_key(entries[i].0@),
        entries_map(entries)[entries[i].0@] == entries[i].1@,
    decreases entries.len(),
{
    if i < entries.len() - 1 {
        assert(entries.drop_last()[i] == entries[i]);
        assert(entries[i].0@ != entries[entries.len() - 1].0@);
        lemma_entry_counts(entries.drop_last(), i);
    }
}

/// Where no key occurs twice, there are as many keys as entries.
proof fn lemma_entry_number<V: View>(entries: Seq<(String, V)>)
    requires
        distinct_keys(entries),
    ensures
        entries_map(entries).dom().finite(),
        entries_map(entries).dom().len() == entries.len(),
    decreases entries.len(),
{
    if entries.len() > 0 {
        lemma_entry_number(entries.drop_last());
        lemma_key_has_entry(entries.drop_last(), entries.last().0@);
        if entries_map(entries.drop_last()).contains_key(entries.last().0@) {
            let i = choose|i: int|
                0 <= i < entries.drop_last().len() && (#[trigger] entries.drop_last()[i]).0@
                    == entries.last().0@;
            assert(entries[i].0@ == entries[entries.len() - 1].0@);
        }
    } else {
        assert(entries_map(entries).dom() =~= Set::empty());
    }
}

/// Putting another value in place of one entry's value changes that key alone.
proof fn lemma_entry_replaced<V: View>(before: Seq<(String, V)>, after: Seq<(String, V)>, at: int)
    requires
        distinct_keys(before),
        0 <= at < before.len(),
        after.len() == before.len(),
        after[at].0@ == before[at].0@,
        forall|j: int| 0 <= j < before.len() && j != at ==> after[j] == #[trigger] before[j],
    ensures
        distinct_keys(after),
        entries_map(after) == entries_map(before).insert(after[at].0@, after[at].1@),
{
    assert forall|i: int, j: int| 0 <= i < j < after.len() implies (#[trigger] after[i]).0@ != (
    #[trigger] after[j]).0@ by {
        assert(before[i].0@ != before[j].0@);
    }
    let expected = entries_map(before).insert(after[at].0@, after[at].1@);
    assert forall|k: Seq<char>| #[trigger]
        entries_map(after).contains_key(k) == expected.contains_key(k) && (expected.contains_key(k)
            ==> entries_map(after)[k] == expected[k]) by {
        lemma_key_has_entry(before, k);
        lemma_key_has_entry(after, k);
        lemma_entry_counts(before, at);
        lemma_entry_counts(after, at);
        if entries_map(after).contains_key(k) {
            let i = choose|i: int| 0 <= i < after.len() && (#[trigger] after[i]).0@ == k;
            lemma_entry_counts(after, i);
            lemma_entry_counts(before, i);
        }
        if entries_map(before).contains_key(k) {
            let i = choose|i: int| 0 <= i < before.len() && (#[trigger] before[i]).0@ == k;
            assert(after[i].0@ == k);
        }
    }
    assert(entries_map(after) =~= expected);
}

/// Taking one entry out takes its key out of the map.
proof fn lemma_entry_removed<V: View>(entries: Seq<(String, V)>, at: int)
    requires
        distinct_keys(entries),
        0 <= at < entries.len(),
    ensures
        distinct_keys(entries.remove(at)),
        entries_map(entries.remove(at)) == entries_map(entries).remove(entries[at].0@),
{
    let after = entries.remove(at);
    assert forall|i: int, j: int| 0 <= i < j < after.len() implies (#[trigger] after[i]).0@ != (
    #[trigger] after[j]).0@ by {
        let i0 = if i < at { i } else { i + 1 };
        let j0 = if j < at { j } else { j + 1 };
        assert(entries[i0].0@ != entries[j0].0@);
    }
    let expected = entries_map(entries).remove(entries[at].0@);
    assert forall|k: Seq<char>| #[trigger]
        entries_map(after).contains_key(k) == expected.contains_key(k) && (expected.contains_key(k)
            ==> entries_map(after)[k] == expected[k]) by {
        lemma_key_has_entry(entries, k);
        lemma_key_has_entry(after, k);
        if entries_map(after).contains_key(k) {
            let i = choose|i: int| 0 <= i < after.len() && (#[trigger] after[i]).0@ == k;
            let i0 = if i < at { i } else { i + 1 };
            assert(entries[i0].0@ == k);
            assert(entries[i0].0@ != entries[at].0@);
            lemma_entry_counts(after, i);
            lemma_entry_counts(entries, i0);
        }
        if expected.contains_key(k) {
            let i = choose|i: int| 0 <= i < entries.len() && (#[trigger] entries[i]).0@ == k;
            let i1 = if i < at { i } else { i - 1 };
            assert(after[i1].0@ == k);
        }
    }
    assert(entries_map(after) =~= expected);
}

impl<V: View> View for StringMap<V> {
    type V = Map<Seq<char>, V::V>;

    closed spec fn view(&self) -> Map<Seq<char>, V::V> {
        entries_map(self.entries@)
    }
}

impl<V> StringMap<V> {
    #[verifier::type_invariant]
    spec fn well_formed(&self) -> bool {
        distinct_keys(self.entries@)
    }
}

impl<V: View> StringMap<V> {
    /// An empty map.
    pub fn new() -> (map: Self)
        ensures
            map@ == Map::<Seq<char>, V::V>::empty(),
    {
        StringMap { entries: Vec::new() }
    }

    /// The place of a key's entry.
    fn position(&self, key: &str) -> (place: Option<usize>)
        ensures
            match place {
                Some(i) => i < self.entries@.len() && self.entries@[i as int].0@ == key@,
                None => forall|i: int|
                    0 <= i < self.entries@.len() ==> (#[trigger] self.entries@[i]).0@ != key@,
            },
    {
        let wanted = key.to_owned();
        let mut i: usize = 0;
        while i < self.entries.len()
            invariant
                wanted@ == key@,
                i <= self.entries@.len(),
                forall|j: int| 0 <= j < i ==> (#[trigger] self.entries@[j]).0@ != key@,
            decreases self.entries@.len() - i,
        {
            if self.entries[i].0 == wanted {
                return Some(i);
            }
            i = i + 1;
        }
        None
    }

    /// The number of keys.
    pub fn len(&self) -> (number: usize)
        ensures
            self@.dom().finite(),
            number == self@.dom().len(),
    {
        proof {
            use_type_invariant(self);
            lemma_entry_number(self.entries@);
        }
        self.entries.len()
    }

    /// Whether there are no keys.
    pub fn is_empty(&self) -> (empty: bool)
        ensures
            empty == (self@ == Map::<Seq<char>, V::V>::empty()),
    {
        proof {
            if self.entries@.len() > 0 {
                lemma_key_has_entry(self.entries@, self.entries@[0].0@);
            }
        }
        self.entries.len() == 0
    }

    /// Whether the key is there.
    pub fn contains_key(&self, key: &str) -> (found: bool)
        ensures
            found == self@.contains_key(key@),
    {
        proof {
            lemma_key_has_entry(self.entries@, key@);
        }
        self.position(key).is_some()
    }

    /// The value of a key.
    pub fn get(&self, key: &str) -> (found: Option<&V>)
        ensures
            match found {
                Some(value) => self@.contains_key(key@) && self@[key@] == value@,
                None => !self@.contains_key(key@),
            },
    {
        proof {
            use_type_invariant(self);
            lemma_key_has_entry(self.entries@, key@);
        }
        match self.position(key) {
            Some(i) => {
                proof {
                    lemma_entry_counts(self.entries@, i as int);
                }
                Some(&self.entries[i].1)
            },
            None => None,
        }
    }

    /// Sets the value of a key.
    pub fn insert(&mut self, key: String, value: V)
        ensures
            final(self)@ == old(self)@.insert(key@, value@),
    {
        proof {
            use_type_invariant(&*self);
        }
        let place = self.position(key.as_str());
        let mut entries: Vec<(String, V)> = Vec::new();
        std::mem::swap(&mut entries, &mut self.entries);
        let ghost before = entries@;
        match place {
            Some(i) => {
                entries.set(i, (key, value));
                proof {
                    lemma_entry_replaced(before, entries@, i as int);
                }
            },
            None => {
                entries.push((key, value));
                proof {
                    assert(entries@.drop_last() =~= before);
                    assert forall|i: int, j: int| 0 <= i < j < entries@.len() implies (
                    #[trigger] entries@[i]).0@ != (#[trigger] entries@[j]).0@ by {
                        if j < before.len() {
                            assert(before[i].0@ != before[j].0@);
                        } else {
                            assert(before[i].0@ != key@);
                        }
                    }
                }
            },
        }
        self.entries = entries;
    }

    /// Takes a key out, and hands out the value that it had.
    pub fn remove(&mut self, key: &str) -> (removed: Option<V>)
        ensures
            final(self)@ == old(self)@.remove(key@),
            match removed {
                Some(value) => old(self)@.contains_key(key@) && old(self)@[key@] == value@,
                None => !old(self)@.contains_key(key@),
            },
    {
        proof {
            use_type_invariant(&*self);
            lemma_key_has_entry(self.entries@, key@);
        }
        match self.position(key) {
            Some(i) => {
                proof {
                    lemma_entry_counts(self.entries@, i as int);
                    lemma_entry_removed(self.entries@, i as int);
                }
                let mut entries: Vec<(String, V)> = Vec::new();
                std::mem::swap(&mut entries, &mut self.entries);
                let entry = entries.remove(i);
                self.entries = entries;
                Some(entry.1)
            },
            None => {
                assert(self@.remove(key@) =~= self@);
                None
            },
        }
    }

    /// Takes these keys out.
    pub fn remove_all(&mut self, keys: &Vec<String>)
        ensures
            final(self)@ == old(self)@.remove_keys(
                Set::new(|key: Seq<char>| holds_text(keys@, key)),
            ),
    {
        let mut i: usize = 0;
        while i < keys.len()
            invariant
                i <= keys@.len(),
                self@ =~= old(self)@.remove_keys(
                    Set::new(|key: Seq<char>| holds_text(keys@.take(i as int), key)),
                ),
            decreases keys@.len() - i,
        {
            let _ = self.remove(keys[i].as_str());
            proof {
                assert forall|key: Seq<char>| #[trigger]
                    holds_text(keys@.take(i + 1), key) <==> holds_text(keys@.take(i as int), key)
                        || keys@[i as int]@ == key by {
                    lemma_holds_text_take(keys@, i as int, key);
                }
            }
            i = i + 1;
        }
        proof {
            assert(keys@.take(i as int) =~= keys@);
        }
    }

    /// Takes every key out.
    pub fn clear(&mut self)
        ensures
            final(self)@ == Map::<Seq<char>, V::V>::empty(),
    {
        self.entries = Vec::new();
    }

    /// The keys, each once.
    pub fn keys(&self) -> (keys: Vec<String>)
        ensures
            distinct_texts(keys@),
            forall|key: Seq<char>| #[trigger]
                self@.contains_key(key) <==> holds_text(keys@, key),
            self@.dom().finite(),
            keys@.len() == self@.dom().len(),
    {
        proof {
            use_type_invariant(self);
            lemma_entry_number(self.entries@);
        }
        let mut keys: Vec<String> = Vec::new();
        let mut i: usize = 0;
        while i < self.entries.len()
            invariant
                i <= self.entries@.len(),
                keys@.len() == i,
                forall|j: int| 0 <= j < i ==> (#[trigger] keys@[j])@ == self.entries@[j].0@,
            decreases self.entries@.len() - i,
        {
            keys.push(self.entries[i].0.clone());
            i = i + 1;
        }
        proof {
            assert forall|key: Seq<char>| #[trigger]
                self@.contains_key(key) <==> holds_text(keys@, key) by {
                lemma_key_has_entry(self.entries@, key);
                if holds_text(keys@, key) {
                    let j = choose|j: int| 0 <= j < keys@.len() && (#[trigger] keys@[j])@ == key;
                    assert(self.entries@[j].0@ == key);
                }
                if self@.contains_key(key) {
                    let j = choose|j: int|
                        0 <= j < self.entries@.len() && (#[trigger] self.entries@[j]).0@ == key;
                    assert(keys@[j]@ == key);
                }
            }
        }
        keys
    }
}

} // verus!
