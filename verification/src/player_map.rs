//! A map from player ids to values that remembers the order of first insertion.
use vstd::prelude::*;
use vstd::hash_map::StringHashMap;

verus! {

/// A finite map keyed by player id. Walking it visits the keys in the order in
/// which they were first inserted; inserting under a key that is present
/// replaces the value and leaves the key where it is.
pub struct PlayerMap<V> {
    ids: Vec<String>,
    items: Vec<V>,
    index: StringHashMap<usize>,
}

impl<V> View for PlayerMap<V> {
    type V = Map<Seq<char>, V>;

    /// The map from each key to its value.
    open spec fn view(&self) -> Map<Seq<char>, V> {
        Map::new(
            |key: Seq<char>| self.keys().contains(key),
            |key: Seq<char>| self.values()[self.keys().index_of(key)],
        )
    }
}

impl<V> PlayerMap<V> {
    /// The keys, in the order of their first insertion.
    pub closed spec fn keys(&self) -> Seq<Seq<char>> {
        self.ids@.map_values(|id: String| id@)
    }

    /// The values, each at the position of its key in `keys`.
    pub closed spec fn values(&self) -> Seq<V> {
        self.items@
    }

    /// The pairs of key and value, in the order of the keys.
    pub open spec fn entries(&self) -> Seq<(Seq<char>, V)> {
        Seq::new(self.keys().len(), |i: int| (self.keys()[i], self.values()[i]))
    }

    /// The invariant of the type, which holds of every map that executable
    /// code can hold: keys and values go together, and the lookup index finds
    /// each key, and nothing else, at the key's position.
    #[verifier::type_invariant]
    pub closed spec fn wf(&self) -> bool {
        &&& self.ids@.len() == self.items@.len()
        &&& forall|i: int|
            0 <= i < self.ids@.len() ==> self.index@.contains_key(#[trigger] self.ids@[i]@)
                && self.index@[self.ids@[i]@] == i
        &&& forall|key: Seq<char>| #[trigger]
            self.index@.contains_key(key) ==> 0 <= self.index@[key] < self.ids@.len()
                && self.ids@[self.index@[key] as int]@ == key
    }

    /// What the invariant means for the keys and values: there are as many
    /// values as keys, and no key occurs twice.
    pub open spec fn well_formed(&self) -> bool {
        &&& self.keys().len() == self.values().len()
        &&& self.keys().no_duplicates()
    }

    /// A map that satisfies its invariant is well formed, and its view holds
    /// each key with the value that stands at the key's position.
    pub proof fn lemma_well_formed(&self)
        requires
            self.wf(),
        ensures
            self.well_formed(),
            forall|i: int|
                0 <= i < self.keys().len() ==> self@.contains_key(#[trigger] self.keys()[i])
                    && self@[self.keys()[i]] == self.values()[i],
    {
        let keys = self.keys();
        assert forall|i: int, j: int|
            0 <= i < keys.len() && 0 <= j < keys.len() && i != j implies keys[i] != keys[j] by {
            assert(self.index@[self.ids@[i]@] == i);
            assert(self.index@[self.ids@[j]@] == j);
        }
        assert forall|i: int| 0 <= i < keys.len() implies self@.contains_key(#[trigger] keys[i])
            && self@[keys[i]] == self.values()[i] by {
            let j = keys.index_of(keys[i]);
            assert(0 <= j < keys.len() && keys[j] == keys[i]);
        }
    }

    /// The empty map.
    pub fn new() -> (map: Self)
        ensures
            map.wf(),
            map.keys() == Seq::<Seq<char>>::empty(),
            map.values() == Seq::<V>::empty(),
            map@ == Map::<Seq<char>, V>::empty(),
    {
        let map = PlayerMap { ids: Vec::new(), items: Vec::new(), index: StringHashMap::new() };
        assert(map.keys() =~= Seq::<Seq<char>>::empty());
        assert(map@ =~= Map::<Seq<char>, V>::empty());
        map
    }

    /// The number of keys.
    pub fn len(&self) -> (n: usize)
        ensures
            n == self.keys().len(),
            n == self.values().len(),
    {
        proof {
            use_type_invariant(self);
        }
        self.ids.len()
    }

    /// Whether `key` is present.
    pub fn contains_key(&self, key: &str) -> (present: bool)
        ensures
            present == self@.contains_key(key@),
    {
        proof {
            use_type_invariant(self);
            self.lemma_index_agrees();
        }
        self.index.contains_key(key)
    }

    /// The value under `key`, if the key is present.
    pub fn get(&self, key: &str) -> (value: Option<&V>)
        ensures
            match value {
                Some(v) => self@.contains_key(key@) && *v == self@[key@],
                None => !self@.contains_key(key@),
            },
    {
        proof {
            use_type_invariant(self);
            self.lemma_index_agrees();
        }
        match self.index.get(key) {
            Some(position) => Some(&self.items[*position]),
            None => None,
        }
    }

    /// The key at position `i`.
    pub fn key_at(&self, i: usize) -> (key: &String)
        requires
            i < self.keys().len(),
        ensures
            key@ == self.keys()[i as int],
    {
        proof {
            use_type_invariant(self);
        }
        &self.ids[i]
    }

    /// The value at position `i`.
    pub fn value_at(&self, i: usize) -> (value: &V)
        requires
            i < self.values().len(),
        ensures
            *value == self.values()[i as int],
            self.values().len() == self.keys().len(),
            self@.contains_key(self.keys()[i as int]),
            self@[self.keys()[i as int]] == *value,
    {
        proof {
            use_type_invariant(self);
            self.lemma_index_agrees();
        }
        &self.items[i]
    }

    /// Puts `value` under `key`. A key that is new goes to the end; a key that is
    /// present keeps its position and has its value replaced.
    pub fn insert(&mut self, key: String, value: V)
        ensures
            final(self)@ == old(self)@.insert(key@, value),
            old(self)@.contains_key(key@) ==> final(self).keys() == old(self).keys()
                && final(self).values() == old(self).values().update(
                old(self).keys().index_of(key@),
                value,
            ),
            !old(self)@.contains_key(key@) ==> final(self).keys() == old(self).keys().push(key@)
                && final(self).values() == old(self).values().push(value),
    {
        proof {
            use_type_invariant(&*self);
            self.lemma_index_agrees();
        }
        let ghost before = *self;
        // The fields are changed outside the map, which is then put back whole:
        // a map is never seen with its invariant broken.
        let mut taken = PlayerMap::new();
        core::mem::swap(self, &mut taken);
        let PlayerMap { mut ids, mut items, mut index } = taken;
        match index.get(key.as_str()) {
            Some(position) => {
                let i: usize = *position;
                items.set(i, value);
            },
            None => {
                let n: usize = ids.len();
                index.insert(key.clone(), n);
                ids.push(key);
                items.push(value);
            },
        }
        let after = PlayerMap { ids, items, index };
        proof {
            if before@.contains_key(key@) {
                assert(after.keys() == before.keys());
            } else {
                assert(after.keys() =~= before.keys().push(key@));
            }
            after.lemma_index_agrees();
            assert(after@ =~= before@.insert(key@, value));
        }
        *self = after;
    }

    /// How the lookup index, the keys and the view agree.
    proof fn lemma_index_agrees(&self)
        requires
            self.wf(),
        ensures
            self.well_formed(),
            self@.dom() =~= self.index@.dom(),
            forall|key: Seq<char>| #[trigger]
                self.index@.contains_key(key) ==> self.keys().index_of(key) == self.index@[key]
                    && self@[key] == self.items@[self.index@[key] as int],
            forall|i: int|
                0 <= i < self.keys().len() ==> self@.contains_key(#[trigger] self.keys()[i])
                    && self@[self.keys()[i]] == self.values()[i] && self.keys().index_of(
                    self.keys()[i],
                ) == i,
    {
        self.lemma_well_formed();
        let keys = self.keys();
        assert forall|key: Seq<char>| self.index@.contains_key(key) implies keys.contains(key)
            && keys.index_of(key) == self.index@[key] by {
            let i = self.index@[key] as int;
            assert(keys[i] == key);
            let j = keys.index_of(key);
            assert(0 <= j < keys.len() && keys[j] == key);
        }
        assert forall|key: Seq<char>| keys.contains(key) implies self.index@.contains_key(key) by {
            let i = choose|i: int| 0 <= i < keys.len() && keys[i] == key;
            assert(self.index@.contains_key(self.ids@[i]@));
        }
        assert forall|i: int| 0 <= i < keys.len() implies keys.index_of(#[trigger] keys[i]) == i by {
            assert(self.index@.contains_key(self.ids@[i]@));
        }
    }
}

/// The map that holds `map` and then each pair of `pairs`, put in one after
/// another: of two pairs with one key, the later one stays.
pub open spec fn inserted_all<V>(map: Map<Seq<char>, V>, pairs: Seq<(Seq<char>, V)>) -> Map<
    Seq<char>,
    V,
>
    decreases pairs.len(),
{
    if pairs.len() == 0 {
        map
    } else {
        inserted_all(map, pairs.drop_last()).insert(pairs.last().0, pairs.last().1)
    }
}

/// The keys `keys`, followed by the keys of `pairs` that are new, each where
/// it is first seen.
pub open spec fn keys_after<V>(keys: Seq<Seq<char>>, pairs: Seq<(Seq<char>, V)>) -> Seq<
    Seq<char>,
>
    decreases pairs.len(),
{
    if pairs.len() == 0 {
        keys
    } else {
        let before = keys_after(keys, pairs.drop_last());
        if before.contains(pairs.last().0) {
            before
        } else {
            before.push(pairs.last().0)
        }
    }
}

/// If a prefix of the pairs has been put into a map, putting in the next pair
/// gives the map and the keys of the longer prefix.
pub proof fn lemma_insert_next<V>(
    map: Map<Seq<char>, V>,
    keys: Seq<Seq<char>>,
    pairs: Seq<(Seq<char>, V)>,
    i: int,
)
    requires
        0 <= i < pairs.len(),
    ensures
        inserted_all(map, pairs.take(i + 1)) == inserted_all(map, pairs.take(i)).insert(
            pairs[i].0,
            pairs[i].1,
        ),
        keys_after(keys, pairs.take(i + 1)) == if keys_after(keys, pairs.take(i)).contains(
            pairs[i].0,
        ) {
            keys_after(keys, pairs.take(i))
        } else {
            keys_after(keys, pairs.take(i)).push(pairs[i].0)
        },
{
    assert(pairs.take(i + 1).drop_last() =~= pairs.take(i));
}

/// Putting in two runs of pairs one after the other is putting in their
/// concatenation.
pub proof fn lemma_inserted_concat<V>(
    map: Map<Seq<char>, V>,
    keys: Seq<Seq<char>>,
    first: Seq<(Seq<char>, V)>,
    second: Seq<(Seq<char>, V)>,
)
    ensures
        inserted_all(inserted_all(map, first), second) == inserted_all(map, first + second),
        keys_after(keys_after(keys, first), second) == keys_after(keys, first + second),
    decreases second.len(),
{
    if second.len() == 0 {
        assert(first + second =~= first);
    } else {
        lemma_inserted_concat(map, keys, first, second.drop_last());
        assert((first + second).drop_last() =~= first + second.drop_last());
    }
}

/// The position of the last pair among the first `end` pairs that has key
/// `key`, or -1 if there is none.
pub open spec fn last_with_key<V>(pairs: Seq<(Seq<char>, V)>, key: Seq<char>, end: int) -> int
    decreases end,
{
    if end <= 0 {
        -1
    } else if pairs[end - 1].0 == key {
        end - 1
    } else {
        last_with_key(pairs, key, end - 1)
    }
}

/// `last_with_key` finds a pair with the key wherever one stands, and no pair
/// after the one it finds has the key.
pub proof fn lemma_last_with_key<V>(pairs: Seq<(Seq<char>, V)>, key: Seq<char>, end: int)
    requires
        0 <= end <= pairs.len(),
    ensures
        -1 <= last_with_key(pairs, key, end) < end,
        last_with_key(pairs, key, end) >= 0 ==> pairs[last_with_key(pairs, key, end)].0 == key,
        forall|j: int|
            last_with_key(pairs, key, end) < j < end ==> (#[trigger] pairs[j]).0 != key,
    decreases end,
{
    if end > 0 && pairs[end - 1].0 != key {
        lemma_last_with_key(pairs, key, end - 1);
    }
}

/// Of the pairs that are put into a map, the last one with a given key
/// decides the value under that key.
pub proof fn lemma_inserted_last_wins<V>(
    map: Map<Seq<char>, V>,
    pairs: Seq<(Seq<char>, V)>,
    i: int,
)
    requires
        0 <= i < pairs.len(),
        forall|j: int| i < j < pairs.len() ==> (#[trigger] pairs[j]).0 != pairs[i].0,
    ensures
        inserted_all(map, pairs).contains_key(pairs[i].0),
        inserted_all(map, pairs)[pairs[i].0] == pairs[i].1,
    decreases pairs.len(),
{
    if i < pairs.len() - 1 {
        assert(pairs.last() == pairs[pairs.len() - 1]);
        lemma_inserted_last_wins(map, pairs.drop_last(), i);
    }
}

/// A map into which pairs are put holds the keys that it held and the keys of
/// the pairs, and no others; a key that no pair has keeps its value.
pub proof fn lemma_inserted_keys<V>(
    map: Map<Seq<char>, V>,
    pairs: Seq<(Seq<char>, V)>,
    key: Seq<char>,
)
    ensures
        inserted_all(map, pairs).contains_key(key) <==> map.contains_key(key) || exists|j: int|
            0 <= j < pairs.len() && (#[trigger] pairs[j]).0 == key,
        (forall|j: int| 0 <= j < pairs.len() ==> (#[trigger] pairs[j]).0 != key) ==> (
        map.contains_key(key) ==> inserted_all(map, pairs)[key] == map[key]),
    decreases pairs.len(),
{
    if pairs.len() > 0 {
        lemma_inserted_keys(map, pairs.drop_last(), key);
        let shorter = pairs.drop_last();
        assert(pairs.last() == pairs[pairs.len() - 1]);
        if exists|j: int| 0 <= j < shorter.len() && (#[trigger] shorter[j]).0 == key {
            let j = choose|j: int| 0 <= j < shorter.len() && (#[trigger] shorter[j]).0 == key;
            assert(pairs[j].0 == key);
        }
        if exists|j: int| 0 <= j < pairs.len() && (#[trigger] pairs[j]).0 == key {
            let j = choose|j: int| 0 <= j < pairs.len() && (#[trigger] pairs[j]).0 == key;
            if j < shorter.len() {
                assert(shorter[j].0 == key);
            }
        }
        assert forall|j: int| 0 <= j < shorter.len() && (forall|j: int|
            0 <= j < pairs.len() ==> (#[trigger] pairs[j]).0 != key) implies (
        #[trigger] shorter[j]).0 != key by {
            assert(pairs[j].0 != key);
        }
    }
}

} // verus!
