//! Container builders: construct or extend a map or set from a list of
//! entries in one call.
//!
//! Each builder inserts the given entries in order, so for maps a later
//! entry with the same key overwrites an earlier one.

use vstd::prelude::*;
use std::collections::{BTreeMap, BTreeSet, HashMap, HashSet, VecDeque};

verus! {

broadcast use vstd::std_specs::hash::group_hash_axioms, vstd::std_specs::btree::group_btree_axioms;

/// The map `m` after inserting the entries in order.
pub open spec fn map_extended<K, V>(m: Map<K, V>, entries: Seq<(K, V)>) -> Map<K, V>
    decreases entries.len(),
{
    if entries.len() == 0 {
        m
    } else {
        map_extended(m.insert(entries[0].0, entries[0].1), entries.drop_first())
    }
}

/// The set `s` after inserting the values in order.
pub open spec fn set_extended<K>(s: Set<K>, values: Seq<K>) -> Set<K>
    decreases values.len(),
{
    if values.len() == 0 {
        s
    } else {
        set_extended(s.insert(values[0]), values.drop_first())
    }
}

/// Extends a hash map with the given entries, inserted in order.
pub fn make_map_into<K: core::cmp::Eq + core::hash::Hash, V>(
    map: HashMap<K, V>,
    entries: Vec<(K, V)>,
) -> (r: HashMap<K, V>)
    ensures
        vstd::std_specs::hash::obeys_key_model::<K>() ==> r@ == map_extended(map@, entries@),
{
    let mut map = map;
    let mut entries = entries;
    let ghost m0 = map@;
    let ghost e0 = entries@;
    while entries.len() > 0
        invariant
            vstd::std_specs::hash::obeys_key_model::<K>() ==> map_extended(m0, e0) == map_extended(
                map@,
                entries@,
            ),
        decreases entries.len(),
    {
        let ghost pre = entries@;
        let (k, v) = entries.remove(0);
        proof {
            assert(pre.remove(0) =~= pre.drop_first());
        }
        map.insert(k, v);
    }
    map
}

/// Builds a hash map from the given entries, inserted in order.
pub fn make_map<K: core::cmp::Eq + core::hash::Hash, V>(entries: Vec<(K, V)>) -> (r: HashMap<K, V>)
    ensures
        vstd::std_specs::hash::obeys_key_model::<K>() ==> r@ == map_extended(
            Map::<K, V>::empty(),
            entries@,
        ),
{
    make_map_into(HashMap::new(), entries)
}

/// Extends an ordered map with the given entries, inserted in order.
pub fn make_btree_map_into<K: Ord, V>(map: BTreeMap<K, V>, entries: Vec<(K, V)>) -> (r: BTreeMap<
    K,
    V,
>)
    ensures
        vstd::laws_cmp::obeys_cmp::<K>() ==> r@ == map_extended(map@, entries@),
{
    let mut map = map;
    let mut entries = entries;
    let ghost m0 = map@;
    let ghost e0 = entries@;
    while entries.len() > 0
        invariant
            vstd::laws_cmp::obeys_cmp::<K>() ==> map_extended(m0, e0) == map_extended(
                map@,
                entries@,
            ),
        decreases entries.len(),
    {
        let ghost pre = entries@;
        let (k, v) = entries.remove(0);
        proof {
            assert(pre.remove(0) =~= pre.drop_first());
        }
        map.insert(k, v);
    }
    map
}

/// Builds an ordered map from the given entries, inserted in order.
pub fn make_btree_map<K: Ord, V>(entries: Vec<(K, V)>) -> (r: BTreeMap<K, V>)
    ensures
        vstd::laws_cmp::obeys_cmp::<K>() ==> r@ == map_extended(Map::<K, V>::empty(), entries@),
{
    make_btree_map_into(BTreeMap::new(), entries)
}

/// Extends a hash set with the given values, inserted in order.
pub fn make_set_into<K: core::cmp::Eq + core::hash::Hash>(set: HashSet<K>, values: Vec<K>) -> (r:
    HashSet<K>)
    ensures
        vstd::std_specs::hash::obeys_key_model::<K>() ==> r@ == set_extended(set@, values@),
{
    let mut set = set;
    let mut values = values;
    let ghost s0 = set@;
    let ghost v0 = values@;
    while values.len() > 0
        invariant
            vstd::std_specs::hash::obeys_key_model::<K>() ==> set_extended(s0, v0) == set_extended(
                set@,
                values@,
            ),
        decreases values.len(),
    {
        let ghost pre = values@;
        let k = values.remove(0);
        proof {
            assert(pre.remove(0) =~= pre.drop_first());
        }
        set.insert(k);
    }
    set
}

/// Builds a hash set from the given values, inserted in order.
pub fn make_set<K: core::cmp::Eq + core::hash::Hash>(values: Vec<K>) -> (r: HashSet<K>)
    ensures
        vstd::std_specs::hash::obeys_key_model::<K>() ==> r@ == set_extended(
            Set::<K>::empty(),
            values@,
        ),
{
    make_set_into(HashSet::new(), values)
}

/// Extends an ordered set with the given values, inserted in order.
pub fn make_btree_set_into<K: Ord>(set: BTreeSet<K>, values: Vec<K>) -> (r: BTreeSet<K>)
    ensures
        vstd::laws_cmp::obeys_cmp::<K>() ==> r@ == set_extended(set@, values@),
{
    let mut set = set;
    let mut values = values;
    let ghost s0 = set@;
    let ghost v0 = values@;
    while values.len() > 0
        invariant
            vstd::laws_cmp::obeys_cmp::<K>() ==> set_extended(s0, v0) == set_extended(
                set@,
                values@,
            ),
        decreases values.len(),
    {
        let ghost pre = values@;
        let k = values.remove(0);
        proof {
            assert(pre.remove(0) =~= pre.drop_first());
        }
        set.insert(k);
    }
    set
}

/// Builds an ordered set from the given values, inserted in order.
pub fn make_btree_set<K: Ord>(values: Vec<K>) -> (r: BTreeSet<K>)
    ensures
        vstd::laws_cmp::obeys_cmp::<K>() ==> r@ == set_extended(Set::<K>::empty(), values@),
{
    make_btree_set_into(BTreeSet::new(), values)
}

/// Extends a deque with the given values, pushed onto the back in order.
pub fn make_vec_deque_into<T>(deque: VecDeque<T>, values: Vec<T>) -> (r: VecDeque<T>)
    ensures
        r@ == deque@ + values@,
{
    let mut deque = deque;
    let mut values = values;
    let ghost d0 = deque@;
    let ghost v0 = values@;
    while values.len() > 0
        invariant
            deque@ + values@ == d0 + v0,
        decreases values.len(),
    {
        let ghost pre_d = deque@;
        let ghost pre_v = values@;
        let v = values.remove(0);
        deque.push_back(v);
        proof {
            assert(pre_d.push(pre_v[0]) + pre_v.remove(0) =~= pre_d + pre_v);
        }
    }
    proof {
        assert(deque@ + values@ =~= deque@);
    }
    deque
}

/// Builds a deque from the given values, front to back.
pub fn make_vec_deque<T>(values: Vec<T>) -> (r: VecDeque<T>)
    ensures
        r@ == values@,
{
    let ghost vals = values@;
    let r = make_vec_deque_into(VecDeque::new(), values);
    proof {
        assert(Seq::<T>::empty() + vals =~= vals);
    }
    r
}

/// Joins two deques, the second appended behind the first.
pub fn join_vec_deques<T>(front: VecDeque<T>, back: VecDeque<T>) -> (r: VecDeque<T>)
    ensures
        r@ == front@ + back@,
{
    let mut front = front;
    let mut back = back;
    front.append(&mut back);
    front
}

} // verus!
