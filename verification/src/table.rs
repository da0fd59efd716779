//! Tables keyed by a snowflake: a concurrent map finds the slot, a vector holds the values.
use dashmap::{DashMap, DashSet};
use std::collections::hash_map::RandomState;
use std::collections::HashSet;
use vstd::prelude::*;

verus! {

/// `dashmap::DashMap`, carried as an opaque value.
#[verifier::external_type_specification]
#[verifier::external_body]
#[verifier::reject_recursive_types(K)]
#[verifier::reject_recursive_types(V)]
#[verifier::reject_recursive_types(S)]
pub struct ExDashMap<K, V, S>(dashmap::DashMap<K, V, S>);

/// `dashmap::DashSet`, carried as an opaque value.
#[verifier::external_type_specification]
#[verifier::external_body]
#[verifier::reject_recursive_types(K)]
#[verifier::reject_recursive_types(S)]
pub struct ExDashSet<K, S>(dashmap::DashSet<K, S>);

/// The slot that a slot index holds for each key.
pub uninterp spec fn slot_map(index: DashMap<u64, usize, RandomState>) -> Map<u64, usize>;

/// The members of an identifier set.
pub uninterp spec fn id_set(set: DashSet<u64, RandomState>) -> Set<u64>;

/// `DashMap::new`: a map without entries.
#[verifier::external_body]
pub(crate) fn slots_new() -> (index: DashMap<u64, usize, RandomState>)
    ensures
        slot_map(index) == (Map::<u64, usize>::empty()),
{
    DashMap::new()
}

/// `DashMap::get`: the value under the key, if the key is there. The guard is released before
/// the copy is handed out.
#[verifier::external_body]
pub(crate) fn slots_get(index: &DashMap<u64, usize, RandomState>, key: u64) -> (slot: Option<usize>)
    ensures
        slot == (if slot_map(*index).contains_key(key) {
            Some(slot_map(*index)[key])
        } else {
            None
        }),
{
    index.get(&key).map(|entry| *entry.value())
}

/// `DashMap::insert`: the key holds the value from now on, every other key is as before.
#[verifier::external_body]
pub(crate) fn slots_insert(index: &mut DashMap<u64, usize, RandomState>, key: u64, slot: usize)
    ensures
        slot_map(*final(index)) == slot_map(*old(index)).insert(key, slot),
{
    index.insert(key, slot);
}

/// `DashMap::remove`: the key is gone from now on, every other key is as before.
#[verifier::external_body]
pub(crate) fn slots_remove(index: &mut DashMap<u64, usize, RandomState>, key: u64)
    ensures
        slot_map(*final(index)) == slot_map(*old(index)).remove(key),
{
    index.remove(&key);
}

/// `DashSet::new`: a set without members.
#[verifier::external_body]
pub(crate) fn ids_new() -> (set: DashSet<u64, RandomState>)
    ensures
        id_set(set) == Set::<u64>::empty(),
{
    DashSet::new()
}

/// `DashSet::contains`: whether the identifier is a member.
#[verifier::external_body]
pub(crate) fn ids_contains(set: &DashSet<u64, RandomState>, id: u64) -> (found: bool)
    ensures
        found == id_set(*set).contains(id),
{
    set.contains(&id)
}

/// `DashSet::insert`: the identifier is a member from now on.
#[verifier::external_body]
pub(crate) fn ids_insert(set: &mut DashSet<u64, RandomState>, id: u64)
    ensures
        id_set(*final(set)) == id_set(*old(set)).insert(id),
{
    set.insert(id);
}

/// `DashSet::remove`: the identifier is no member from now on.
#[verifier::external_body]
pub(crate) fn ids_remove(set: &mut DashSet<u64, RandomState>, id: u64)
    ensures
        id_set(*final(set)) == id_set(*old(set)).remove(id),
{
    set.remove(&id);
}

/// A sequence that names each member of a set once, in some order.
pub open spec fn listing(ids: Seq<u64>, set: Set<u64>) -> bool {
    ids.no_duplicates() && ids.to_set() == set
}

/// A map from snowflakes to values.
pub struct Table<V> {
    index: DashMap<u64, usize, RandomState>,
    keys: Vec<u64>,
    values: Vec<V>,
}

impl<V> Table<V> {
    /// Every key has one slot, and every slot is found again by its key.
    pub closed spec fn wf(&self) -> bool {
        &&& self.keys@.len() == self.values@.len()
        &&& forall|k: u64| #[trigger]
            slot_map(self.index).contains_key(k) ==> slot_map(self.index)[k] < self.keys@.len()
                && self.keys@[slot_map(self.index)[k] as int] == k
        &&& forall|i: int|
            0 <= i < self.keys@.len() ==> slot_map(self.index).contains_key(#[trigger] self.keys@[i])
                && slot_map(self.index)[self.keys@[i]] == i
    }
}

impl<V> View for Table<V> {
    type V = Map<u64, V>;

    closed spec fn view(&self) -> Map<u64, V> {
        Map::new(
            |k: u64| slot_map(self.index).contains_key(k),
            |k: u64| self.values@[slot_map(self.index)[k] as int],
        )
    }
}

impl<V> Table<V> {
    /// A table without entries.
    pub fn new() -> (table: Self)
        ensures
            table.wf(),
            table@ == Map::<u64, V>::empty(),
    {
        let table = Table { index: slots_new(), keys: Vec::new(), values: Vec::new() };
        assert(table@ =~= Map::<u64, V>::empty());
        table
    }

    /// Whether the key has a value.
    pub fn contains_key(&self, key: u64) -> (found: bool)
        requires
            self.wf(),
        ensures
            found == self@.contains_key(key),
    {
        slots_get(&self.index, key).is_some()
    }

    /// The value under the key.
    pub fn get(&self, key: u64) -> (value: Option<&V>)
        requires
            self.wf(),
        ensures
            value == (if self@.contains_key(key) {
                Some(&self@[key])
            } else {
                None
            }),
    {
        match slots_get(&self.index, key) {
            Some(slot) => Some(&self.values[slot]),
            None => None,
        }
    }

    /// Puts the value under the key, in place of the one that was there.
    pub fn insert(&mut self, key: u64, value: V)
        requires
            old(self).wf(),
        ensures
            final(self).wf(),
            final(self)@ == old(self)@.insert(key, value),
    {
        match slots_get(&self.index, key) {
            Some(slot) => {
                self.values.set(slot, value);
            },
            None => {
                let slot: usize = self.keys.len();
                self.keys.push(key);
                self.values.push(value);
                slots_insert(&mut self.index, key, slot);
            },
        }
        assert(self@ =~= old(self)@.insert(key, value));
    }

    /// Takes the entry of the key out.
    pub fn remove(&mut self, key: u64) -> (value: Option<V>)
        requires
            old(self).wf(),
        ensures
            final(self).wf(),
            final(self)@ == old(self)@.remove(key),
            value == (if old(self)@.contains_key(key) {
                Some(old(self)@[key])
            } else {
                None
            }),
    {
        match slots_get(&self.index, key) {
            Some(slot) => {
                let last: usize = self.keys.len() - 1;
                let moved = self.keys[last];
                slots_remove(&mut self.index, key);
                if slot < last {
                    slots_insert(&mut self.index, moved, slot);
                }
                self.keys.swap_remove(slot);
                let value = self.values.swap_remove(slot);
                assert(self@ =~= old(self)@.remove(key));
                Some(value)
            },
            None => {
                assert(self@ =~= old(self)@.remove(key));
                None
            },
        }
    }

    /// The place of the key's value, which is the given one where the key had none.
    pub fn entry(&mut self, key: u64, default: V) -> (place: &mut V)
        requires
            old(self).wf(),
        ensures
            final(self).wf(),
            *place == (if old(self)@.contains_key(key) {
                old(self)@[key]
            } else {
                default
            }),
            final(self)@ == old(self)@.insert(key, *final(place)),
    {
        let slot: usize = match slots_get(&self.index, key) {
            Some(slot) => slot,
            None => {
                let slot: usize = self.keys.len();
                self.keys.push(key);
                self.values.push(default);
                slots_insert(&mut self.index, key, slot);
                slot
            },
        };
        &mut self.values[slot]
    }

    /// How many keys there are.
    pub fn len(&self) -> (n: usize)
        requires
            self.wf(),
        ensures
            self@.dom().finite(),
            n == self@.dom().len(),
    {
        proof {
            self.keys_are_domain();
            self.keys@.unique_seq_to_set();
        }
        self.keys.len()
    }

    /// The keys, each once.
    pub fn keys(&self) -> (keys: Vec<u64>)
        requires
            self.wf(),
        ensures
            listing(keys@, self@.dom()),
    {
        proof {
            self.keys_are_domain();
        }
        let keys = self.keys.clone();
        assert(keys@ =~= self.keys@);
        keys
    }

    proof fn keys_are_domain(&self)
        requires
            self.wf(),
        ensures
            listing(self.keys@, self@.dom()),
    {
        assert forall|k: u64| self@.contains_key(k) implies self.keys@.contains(k) by {
            assert(self.keys@[slot_map(self.index)[k] as int] == k);
        }
        assert(self.keys@.to_set() =~= self@.dom());
    }
}

/// What the values of a map show.
pub open spec fn shown<V: View>(m: Map<u64, V>) -> Map<u64, V::V> {
    Map::new(|k: u64| m.contains_key(k), |k: u64| m[k]@)
}

/// What is shown follows what is put in and taken out.
pub proof fn shown_follows<V: View>(m: Map<u64, V>, k: u64, v: V)
    ensures
        shown(m.insert(k, v)) == shown(m).insert(k, v@),
        shown(m.remove(k)) == shown(m).remove(k),
{
    assert(shown(m.insert(k, v)) =~= shown(m).insert(k, v@));
    assert(shown(m.remove(k)) =~= shown(m).remove(k));
}

/// Whether a list holds an identifier.
pub fn has_id(ids: &Vec<u64>, id: u64) -> (found: bool)
    ensures
        found == ids@.contains(id),
{
    let mut i: usize = 0;
    while i < ids.len()
        invariant
            i <= ids@.len(),
            forall|j: int| 0 <= j < i ==> ids@[j] != id,
        decreases ids@.len() - i,
    {
        if ids[i] == id {
            return true;
        }
        i = i + 1;
    }
    false
}

/// A map from pairs of snowflakes to values.
pub struct Pairs<V> {
    rows: Table<Table<V>>,
}

impl<V> Pairs<V> {
    /// The rows and the table of rows are in order.
    pub closed spec fn wf(&self) -> bool {
        self.rows.wf() && forall|a: u64| #[trigger] self.rows@.contains_key(a) ==> self.rows@[a].wf()
    }
}

impl<V> View for Pairs<V> {
    type V = Map<(u64, u64), V>;

    closed spec fn view(&self) -> Map<(u64, u64), V> {
        Map::new(
            |k: (u64, u64)| self.rows@.contains_key(k.0) && self.rows@[k.0]@.contains_key(k.1),
            |k: (u64, u64)| self.rows@[k.0]@[k.1],
        )
    }
}

impl<V> Pairs<V> {
    /// A map without entries.
    pub fn new() -> (pairs: Self)
        ensures
            pairs.wf(),
            pairs@ == Map::<(u64, u64), V>::empty(),
    {
        let pairs = Pairs { rows: Table::new() };
        assert(pairs@ =~= Map::<(u64, u64), V>::empty());
        pairs
    }

    /// The value under the pair.
    pub fn get(&self, a: u64, b: u64) -> (value: Option<&V>)
        requires
            self.wf(),
        ensures
            value == (if self@.contains_key((a, b)) {
                Some(&self@[(a, b)])
            } else {
                None
            }),
    {
        match self.rows.get(a) {
            Some(row) => row.get(b),
            None => None,
        }
    }

    /// Puts the value under the pair, in place of the one that was there.
    pub fn insert(&mut self, a: u64, b: u64, value: V)
        requires
            old(self).wf(),
        ensures
            final(self).wf(),
            final(self)@ == old(self)@.insert((a, b), value),
    {
        let row = self.rows.entry(a, Table::new());
        row.insert(b, value);
        assert(self@ =~= old(self)@.insert((a, b), value));
    }

    /// Takes the entry of the pair out.
    pub fn remove(&mut self, a: u64, b: u64) -> (value: Option<V>)
        requires
            old(self).wf(),
        ensures
            final(self).wf(),
            final(self)@ == old(self)@.remove((a, b)),
            value == (if old(self)@.contains_key((a, b)) {
                Some(old(self)@[(a, b)])
            } else {
                None
            }),
    {
        let row = self.rows.entry(a, Table::new());
        let value = row.remove(b);
        assert(self@ =~= old(self)@.remove((a, b)));
        value
    }

    /// Takes the entry of the pair out, and gives the fallback where there is none.
    pub fn take(&mut self, a: u64, b: u64, fallback: V) -> (value: V)
        requires
            old(self).wf(),
        ensures
            final(self).wf(),
            final(self)@ == old(self)@.remove((a, b)),
            value == (if old(self)@.contains_key((a, b)) {
                old(self)@[(a, b)]
            } else {
                fallback
            }),
    {
        match self.remove(a, b) {
            Some(value) => value,
            None => fallback,
        }
    }
}

/// Sets of snowflakes, one for each guild.
pub struct Roster {
    sets: Table<HashSet<u64>>,
}

impl Roster {
    /// The table of sets is in order.
    pub closed spec fn wf(&self) -> bool {
        self.sets.wf()
    }

    /// The set of a guild.
    pub open spec fn of(&self, gid: u64) -> Set<u64> {
        Set::new(|id: u64| self@.contains((gid, id)))
    }
}

impl View for Roster {
    type V = Set<(u64, u64)>;

    closed spec fn view(&self) -> Set<(u64, u64)> {
        Set::new(|k: (u64, u64)| self.sets@.contains_key(k.0) && self.sets@[k.0]@.contains(k.1))
    }
}

impl Roster {
    /// Empty sets.
    pub fn new() -> (roster: Self)
        ensures
            roster.wf(),
            roster@ == Set::<(u64, u64)>::empty(),
    {
        let roster = Roster { sets: Table::new() };
        assert(roster@ =~= Set::<(u64, u64)>::empty());
        roster
    }

    /// Whether the set of the guild holds the identifier.
    pub fn contains(&self, gid: u64, id: u64) -> (found: bool)
        requires
            self.wf(),
        ensures
            found == self@.contains((gid, id)),
    {
        broadcast use vstd::std_specs::hash::group_hash_axioms;

        match self.sets.get(gid) {
            Some(set) => set.contains(&id),
            None => false,
        }
    }

    /// Whether the set of the guild holds one of the identifiers.
    pub fn contains_any(&self, gid: u64, ids: &Vec<u64>) -> (found: bool)
        requires
            self.wf(),
        ensures
            found == exists|i: int| 0 <= i < ids@.len() && self@.contains((gid, #[trigger] ids@[i])),
    {
        let mut i: usize = 0;
        while i < ids.len()
            invariant
                i <= ids@.len(),
                self.wf(),
                forall|j: int| 0 <= j < i ==> !self@.contains((gid, #[trigger] ids@[j])),
            decreases ids@.len() - i,
        {
            if self.contains(gid, ids[i]) {
                return true;
            }
            i = i + 1;
        }
        false
    }

    /// Whether the set of the guild holds anything.
    pub fn any(&self, gid: u64) -> (found: bool)
        requires
            self.wf(),
        ensures
            found == exists|id: u64| self@.contains((gid, id)),
    {
        match self.sets.get(gid) {
            Some(set) => {
                let none = set.is_empty();
                proof {
                    if !none {
                        let id = set@.choose();
                        assert(self@.contains((gid, id)));
                    }
                }
                !none
            },
            None => false,
        }
    }

    /// Adds the identifier to the set of the guild.
    pub fn insert(&mut self, gid: u64, id: u64)
        requires
            old(self).wf(),
        ensures
            final(self).wf(),
            final(self)@ == old(self)@.insert((gid, id)),
    {
        broadcast use vstd::std_specs::hash::group_hash_axioms;

        let set = self.sets.entry(gid, HashSet::new());
        set.insert(id);
        assert(self@ =~= old(self)@.insert((gid, id)));
    }

    /// Takes the identifier out of the set of the guild.
    pub fn remove(&mut self, gid: u64, id: u64)
        requires
            old(self).wf(),
        ensures
            final(self).wf(),
            final(self)@ == old(self)@.remove((gid, id)),
    {
        broadcast use vstd::std_specs::hash::group_hash_axioms;

        let set = self.sets.entry(gid, HashSet::new());
        set.remove(&id);
        assert(self@ =~= old(self)@.remove((gid, id)));
    }

    /// Gives the guild this set in place of the one it had.
    pub fn replace(&mut self, gid: u64, set: HashSet<u64>)
        requires
            old(self).wf(),
        ensures
            final(self).wf(),
            forall|g: u64, id: u64|
                final(self)@.contains((g, id)) <==> if g == gid {
                    set@.contains(id)
                } else {
                    old(self)@.contains((g, id))
                },
    {
        self.sets.insert(gid, set);
    }

    /// The set of the guild, each member once, in no particular order.
    pub fn list(&self, gid: u64) -> (ids: Vec<u64>)
        requires
            self.wf(),
        ensures
            listing(ids@, self.of(gid)),
    {
        broadcast use vstd::std_specs::hash::group_hash_axioms;

        let mut ids: Vec<u64> = Vec::new();
        match self.sets.get(gid) {
            Some(set) => {
                let members = set.iter();
                let ghost all = vstd::std_specs::iter::IteratorSpec::remaining(&members).unref();
                for id in it: members
                    invariant
                        it.seq().unref() == all,
                        ids@ == all.take(it.index() as int),
                {
                    ids.push(*id);
                    assert(all.take(it.index() + 1) =~= all.take(it.index() as int).push(*id));
                }
                assert(ids@ =~= all);
                assert(ids@.to_set() =~= self.of(gid));
            },
            None => {
                assert(ids@.to_set() =~= self.of(gid));
            },
        }
        ids
    }
}

/// Sets of marked snowflakes, one for each guild.
pub struct Marks {
    sets: Table<DashSet<u64, RandomState>>,
}

impl Marks {
    /// The table of sets is in order.
    pub closed spec fn wf(&self) -> bool {
        self.sets.wf()
    }
}

impl View for Marks {
    type V = Set<(u64, u64)>;

    closed spec fn view(&self) -> Set<(u64, u64)> {
        Set::new(
            |k: (u64, u64)| self.sets@.contains_key(k.0) && id_set(self.sets@[k.0]).contains(k.1),
        )
    }
}

impl Marks {
    /// No marks.
    pub fn new() -> (marks: Self)
        ensures
            marks.wf(),
            marks@ == Set::<(u64, u64)>::empty(),
    {
        let marks = Marks { sets: Table::new() };
        assert(marks@ =~= Set::<(u64, u64)>::empty());
        marks
    }

    /// Whether the identifier is marked in the guild.
    pub fn contains(&self, gid: u64, id: u64) -> (found: bool)
        requires
            self.wf(),
        ensures
            found == self@.contains((gid, id)),
    {
        match self.sets.get(gid) {
            Some(set) => ids_contains(set, id),
            None => false,
        }
    }

    /// Marks the identifier in the guild.
    pub fn insert(&mut self, gid: u64, id: u64)
        requires
            old(self).wf(),
        ensures
            final(self).wf(),
            final(self)@ == old(self)@.insert((gid, id)),
    {
        let set = self.sets.entry(gid, ids_new());
        ids_insert(set, id);
        assert(self@ =~= old(self)@.insert((gid, id)));
    }

    /// Takes the mark of the identifier in the guild away.
    pub fn remove(&mut self, gid: u64, id: u64)
        requires
            old(self).wf(),
        ensures
            final(self).wf(),
            final(self)@ == old(self)@.remove((gid, id)),
    {
        let set = self.sets.entry(gid, ids_new());
        ids_remove(set, id);
        assert(self@ =~= old(self)@.remove((gid, id)));
    }
}

} // verus!
