//! Sums over tables.
use vstd::prelude::*;

use crate::table::Table;

verus! {

/// The sum of the values of a map.
pub open spec fn total(m: Map<u64, nat>) -> nat
    decreases m.dom().len(),
    when m.dom().finite()
{
    if m.dom().len() == 0 {
        0
    } else {
        let k = m.dom().choose();
        m[k] + total(m.remove(k))
    }
}

/// The sum does not depend on the order: any value can be taken out of it first.
pub proof fn total_of_rest(m: Map<u64, nat>, k: u64)
    requires
        m.dom().finite(),
        m.contains_key(k),
    ensures
        total(m) == m[k] + total(m.remove(k)),
    decreases m.dom().len(),
{
    let c = m.dom().choose();
    if c != k {
        total_of_rest(m.remove(c), k);
        assert(m.remove(k).dom().len() < m.dom().len());
        total_of_rest(m.remove(k), c);
        assert(m.remove(c).remove(k) =~= m.remove(k).remove(c));
    }
}

/// What is left of a map without the first keys of a list.
pub open spec fn without(m: Map<u64, nat>, keys: Seq<u64>) -> Map<u64, nat> {
    m.remove_keys(keys.to_set())
}

/// The next key of a list that names each key once is still there when those before it are gone.
proof fn next_key_is_left(m: Map<u64, nat>, keys: Seq<u64>, i: int)
    requires
        m.dom().finite(),
        keys.no_duplicates(),
        keys.to_set() == m.dom(),
        0 <= i < keys.len(),
    ensures
        without(m, keys.take(i)).contains_key(keys[i]),
        without(m, keys.take(i))[keys[i]] == m[keys[i]],
        without(m, keys.take(i)).dom().finite(),
        without(m, keys.take(i + 1)) == without(m, keys.take(i)).remove(keys[i]),
{
    assert(keys.to_set().contains(keys[i]));
    assert(!keys.take(i).to_set().contains(keys[i])) by {
        if keys.take(i).to_set().contains(keys[i]) {
            let j = keys.take(i).index_of(keys[i]);
            assert(keys[j] == keys[i]);
        }
    }
    assert(without(m, keys.take(i)).dom().subset_of(m.dom()));
    assert forall|k: u64| #[trigger]
        keys.take(i + 1).to_set().contains(k) <==> keys.take(i).to_set().contains(k) || k == keys[i] by {
        if keys.take(i + 1).to_set().contains(k) && k != keys[i] {
            let j = keys.take(i + 1).index_of(k);
            assert(keys.take(i)[j] == k);
        }
        if keys.take(i).to_set().contains(k) {
            let j = keys.take(i).index_of(k);
            assert(keys.take(i + 1)[j] == k);
        }
        assert(keys.take(i + 1)[i] == keys[i]);
    }
    assert(without(m, keys.take(i + 1)) =~= without(m, keys.take(i)).remove(keys[i]));
}

proof fn nothing_is_left(m: Map<u64, nat>, keys: Seq<u64>)
    requires
        keys.to_set() == m.dom(),
    ensures
        total(without(m, keys)) == 0,
{
    assert(without(m, keys) =~= Map::<u64, nat>::empty());
}

/// The numbers of a table.
pub open spec fn counts(m: Map<u64, usize>) -> Map<u64, nat> {
    m.map_values(|n: usize| n as nat)
}

/// How many elements the lists of a table have.
pub open spec fn lengths<T>(m: Map<u64, Vec<T>>) -> Map<u64, nat> {
    m.map_values(|list: Vec<T>| list@.len())
}

/// The sum of what a number stands for in each value of a table.
fn sum_by<V>(table: &Table<V>, number: impl Fn(&V) -> usize, Ghost(means): Ghost<spec_fn(V) -> nat>) -> (sum:
    u128)
    requires
        table.wf(),
        forall|v: V| #[trigger] call_requires(number, (&v,)),
        forall|v: V, n: usize| #[trigger] call_ensures(number, (&v,), n) ==> n == means(v),
    ensures
        sum == total(table@.map_values(means)),
{
    let keys = table.keys();
    let ghost m = table@.map_values(means);
    let mut sum: u128 = 0;
    let mut i: usize = 0;
    assert(m.dom() =~= table@.dom());
    assert(m.dom().finite());
    assert(without(m, keys@.take(0)) =~= m);
    while i < keys.len()
        invariant
            i <= keys@.len(),
            table.wf(),
            forall|v: V| #[trigger] call_requires(number, (&v,)),
            forall|v: V, n: usize| #[trigger] call_ensures(number, (&v,), n) ==> n == means(v),
            m == table@.map_values(means),
            m.dom().finite(),
            keys@.no_duplicates(),
            keys@.to_set() == m.dom(),
            sum <= i * 0xffff_ffff_ffff_ffff,
            sum + total(without(m, keys@.take(i as int))) == total(m),
        decreases keys@.len() - i,
    {
        proof {
            next_key_is_left(m, keys@, i as int);
            total_of_rest(without(m, keys@.take(i as int)), keys@[i as int]);
        }
        let n: usize = match table.get(keys[i]) {
            Some(value) => number(value),
            None => 0,
        };
        sum = sum + n as u128;
        i = i + 1;
    }
    proof {
        assert(keys@.take(keys@.len() as int) =~= keys@);
        nothing_is_left(m, keys@);
    }
    sum
}

/// The sum of the numbers of a table.
pub fn sum_counts(table: &Table<usize>) -> (sum: u128)
    requires
        table.wf(),
    ensures
        sum == total(counts(table@)),
{
    let number = |n: &usize| -> (r: usize)
        ensures
            r == *n,
        { *n };
    sum_by(table, number, Ghost(|n: usize| n as nat))
}

/// How many elements the lists of a table have together.
pub fn sum_lengths<T>(table: &Table<Vec<T>>) -> (sum: u128)
    requires
        table.wf(),
    ensures
        sum == total(lengths(table@)),
{
    let number = |list: &Vec<T>| -> (r: usize)
        ensures
            r == list@.len(),
        { list.len() };
    sum_by(table, number, Ghost(|list: Vec<T>| list@.len()))
}

/// A table without entries sums up to nothing, and an entry more adds its number to the sum of the
/// numbers and its length to the sum of the lengths.
pub proof fn entry_adds_to_sum<T>(
    m: Map<u64, usize>,
    k: u64,
    n: usize,
    lists: Map<u64, Vec<T>>,
    key: u64,
    list: Vec<T>,
)
    requires
        m.dom().finite(),
        !m.contains_key(k),
        lists.dom().finite(),
        !lists.contains_key(key),
    ensures
        total(counts(Map::empty())) == 0,
        total(lengths::<T>(Map::empty())) == 0,
        total(counts(m.insert(k, n))) == total(counts(m)) + n,
        total(lengths(lists.insert(key, list))) == total(lengths(lists)) + list@.len(),
{
    assert(counts(Map::empty()).dom() =~= Set::empty());
    assert(lengths::<T>(Map::empty()).dom() =~= Set::empty());
    let more = counts(m.insert(k, n));
    assert(more.dom() =~= m.dom().insert(k));
    total_of_rest(more, k);
    assert(more.remove(k) =~= counts(m));
    let longer = lengths(lists.insert(key, list));
    assert(longer.dom() =~= lists.dom().insert(key));
    total_of_rest(longer, key);
    assert(longer.remove(key) =~= lengths(lists));
}

} // verus!
