//! What an output remembers of the elements of its last frame, in drawing order.

use vstd::prelude::*;

use indexmap::IndexMap;

use crate::utils::geometry::Rectangle;

verus! {

/// What was last drawn of an element.
#[derive(Clone, Copy, Debug, PartialEq, Eq, Structural)]
pub struct ElementState {
    pub last_commit: usize,
    pub last_geometry: Rectangle,
    pub last_z_index: usize,
}

/// The integers that identify an element: whether it is a protocol object, and its number.
pub type Key = (bool, usize);

/// `indexmap::IndexMap`, a hash map that keeps the order of insertion.
#[verifier::external_type_specification]
#[verifier::external_body]
#[verifier::reject_recursive_types(K)]
#[verifier::reject_recursive_types(V)]
#[verifier::reject_recursive_types(S)]
pub struct ExIndexMap<K, V, S>(IndexMap<K, V, S>);

/// The entries of the map in the order in which it is walked.
pub uninterp spec fn entries(map: IndexMap<Key, ElementState>) -> Seq<(Key, ElementState)>;

/// The position of the first entry with the key, or the length if there is none.
pub open spec fn position(s: Seq<(Key, ElementState)>, key: Key) -> int
    decreases s.len(),
{
    if s.len() == 0 {
        0
    } else if s.first().0 == key {
        0
    } else {
        1 + position(s.drop_first(), key)
    }
}

/// The state that is kept under a key.
pub open spec fn lookup(s: Seq<(Key, ElementState)>, key: Key) -> Option<ElementState> {
    if position(s, key) < s.len() {
        Some(s[position(s, key)].1)
    } else {
        None
    }
}

/// The entries after a state was put under a key: an entry with that key keeps its place, a
/// new one comes last.
pub open spec fn put(
    s: Seq<(Key, ElementState)>,
    key: Key,
    state: ElementState,
) -> Seq<(Key, ElementState)> {
    if position(s, key) < s.len() {
        s.update(position(s, key), (key, state))
    } else {
        s.push((key, state))
    }
}

/// The entries after putting each of `new` in turn into an empty map.
pub open spec fn collected(new: Seq<(Key, ElementState)>) -> Seq<(Key, ElementState)>
    decreases new.len(),
{
    if new.len() == 0 {
        Seq::empty()
    } else {
        put(collected(new.drop_last()), new.last().0, new.last().1)
    }
}

/// The position is within the sequence or at its end, and what stands there has the key.
pub proof fn position_finds(s: Seq<(Key, ElementState)>, key: Key)
    ensures
        0 <= position(s, key) <= s.len(),
        position(s, key) < s.len() ==> s[position(s, key)].0 == key,
        forall|i: int| 0 <= i < position(s, key) ==> (#[trigger] s[i]).0 != key,
    decreases s.len(),
{
    if s.len() > 0 && s.first().0 != key {
        let tail = s.drop_first();
        position_finds(tail, key);
        assert forall|i: int| 0 <= i < position(s, key) implies (#[trigger] s[i]).0 != key by {
            if i > 0 {
                assert(tail[i - 1] == s[i]);
            }
        }
    }
}

/// After a state is put under a key, that key gives the state and every other key gives what
/// it gave before.
pub proof fn put_then_lookup(
    s: Seq<(Key, ElementState)>,
    key: Key,
    state: ElementState,
    other: Key,
)
    ensures
        lookup(put(s, key, state), key) == Some(state),
        other != key ==> lookup(put(s, key, state), other) == lookup(s, other),
{
    position_finds(s, key);
    position_finds(s, other);
    position_finds(put(s, key, state), key);
    position_finds(put(s, key, state), other);
    let t = put(s, key, state);
    let p = position(s, key);
    let q = position(s, other);
    assert(t[p] == (key, state));
    let pt = position(t, key);
    if pt < p {
        assert(t[pt] == s[pt]);
    }
    if other != key {
        let qt = position(t, other);
        if qt < t.len() && qt != p {
            assert(t[qt] == s[qt]);
        }
        if q < s.len() {
            assert(t[q] == s[q]);
        }
    }
}

/// `IndexMap::new`: a map without entries.
#[verifier::external_body]
fn index_map_new() -> (map: IndexMap<Key, ElementState>)
    ensures
        entries(map) == Seq::<(Key, ElementState)>::empty(),
{
    IndexMap::new()
}

/// `IndexMap::insert`: an entry with an equal key keeps its place and gets the new value,
/// otherwise the pair is added last.
#[verifier::external_body]
fn index_map_insert(map: &mut IndexMap<Key, ElementState>, key: Key, state: ElementState)
    ensures
        entries(*final(map)) == put(entries(*old(map)), key, state),
{
    map.insert(key, state);
}

/// `IndexMap::get`: the value under the key, if there is one.
#[verifier::external_body]
fn index_map_get(map: &IndexMap<Key, ElementState>, key: Key) -> (state: Option<ElementState>)
    ensures
        state == lookup(entries(*map), key),
{
    map.get(&key).copied()
}

/// `IndexMap::len`: the number of entries.
#[verifier::external_body]
fn index_map_len(map: &IndexMap<Key, ElementState>) -> (len: usize)
    ensures
        len == entries(*map).len(),
{
    map.len()
}

/// `IndexMap::get_index`: the entry at a position of the order of insertion, if there is one.
#[verifier::external_body]
fn index_map_get_index(map: &IndexMap<Key, ElementState>, index: usize) -> (entry: Option<
    (Key, ElementState),
>)
    ensures
        entry == (if index < entries(*map).len() {
            Some(entries(*map)[index as int])
        } else {
            None::<(Key, ElementState)>
        }),
{
    map.get_index(index).map(|(key, state)| (*key, *state))
}

/// The states of the elements of the last frame.
pub struct ElementMap {
    inner: IndexMap<Key, ElementState>,
}

impl View for ElementMap {
    type V = Seq<(Key, ElementState)>;

    closed spec fn view(&self) -> Seq<(Key, ElementState)> {
        entries(self.inner)
    }
}

impl ElementMap {
    pub fn new() -> (map: ElementMap)
        ensures
            map@ == Seq::<(Key, ElementState)>::empty(),
    {
        ElementMap { inner: index_map_new() }
    }

    /// Keeps `state` under `key`.
    pub fn insert(&mut self, key: Key, state: ElementState)
        ensures
            final(self)@ == put(old(self)@, key, state),
    {
        index_map_insert(&mut self.inner, key, state);
    }

    /// The state under `key`.
    pub fn get(&self, key: Key) -> (state: Option<ElementState>)
        ensures
            state == lookup(self@, key),
    {
        index_map_get(&self.inner, key)
    }

    /// The number of elements.
    pub fn len(&self) -> (len: usize)
        ensures
            len == self@.len(),
    {
        index_map_len(&self.inner)
    }

    /// The entry at `index` of the order in which the elements were added.
    pub fn get_index(&self, index: usize) -> (entry: Option<(Key, ElementState)>)
        ensures
            entry == (if index < self@.len() {
                Some(self@[index as int])
            } else {
                None::<(Key, ElementState)>
            }),
    {
        index_map_get_index(&self.inner, index)
    }

    /// The map after adding the given entries in order.
    pub fn collect(new: &Vec<(Key, ElementState)>) -> (map: ElementMap)
        ensures
            map@ == collected(new@),
    {
        let mut map = ElementMap::new();
        assert(new@.take(0) =~= Seq::<(Key, ElementState)>::empty());
        for i in 0..new.len()
            invariant
                map@ == collected(new@.take(i as int)),
        {
            assert(new@.take(i as int + 1).drop_last() =~= new@.take(i as int));
            map.insert(new[i].0, new[i].1);
        }
        assert(new@.take(new.len() as int) =~= new@);
        map
    }
}

} // verus!
