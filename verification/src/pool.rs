//! An object pool recycling values through a free list.
//!
//! [`SyncPool`] keeps returned values on a last-in-first-out free list;
//! `get` hands back the most recently returned value, falling back to an
//! optional factory when the pool is empty.  The free list is exclusively
//! owned by the pool and every node leaves it by ownership transfer, so a
//! popped value can never be observed through a stale reference and the
//! reclamation races of shared-memory free lists (a node freed and reused
//! while an old pointer to it is still in flight) cannot arise here.

use vstd::prelude::*;
use vstd::multiset::Multiset;

verus! {

/// A pool of values of type `T`, with an optional factory of type `F` used
/// to construct fresh values when the pool is empty.
#[verifier::reject_recursive_types(T)]
pub struct SyncPool<T, F: Fn() -> Option<T>> {
    new_fn: Option<F>,
    pool: Vec<T>,
}

impl<T, F: Fn() -> Option<T>> SyncPool<T, F> {
    /// The values currently in the pool, oldest first; `get` takes from the
    /// back.
    pub closed spec fn contents(&self) -> Seq<T> {
        self.pool@
    }

    /// The factory handed to [`Self::new`], if any.
    pub closed spec fn factory(&self) -> Option<F> {
        self.new_fn
    }

    /// Creates an empty pool with the given factory.
    pub fn new(new_fn: Option<F>) -> (r: Self)
        ensures
            r.contents() == Seq::<T>::empty(),
            r.factory() == new_fn,
    {
        SyncPool { new_fn, pool: Vec::new() }
    }

    /// Acquires a value: the most recently returned one if the pool is not
    /// empty, else whatever the factory yields (`None` when there is no
    /// factory or the factory reports exhaustion).
    pub fn get(&mut self) -> (r: Option<T>)
        requires
            old(self).factory() matches Some(f) ==> call_requires(f, ()),
        ensures
            final(self).factory() == old(self).factory(),
            old(self).contents().len() > 0 ==> r == Some(old(self).contents().last())
                && final(self).contents() == old(self).contents().drop_last(),
            old(self).contents().len() == 0 ==> final(self).contents() == old(self).contents()
                && match old(self).factory() {
                None => r is None,
                Some(f) => call_ensures(f, (), r),
            },
    {
        match self.pop_front() {
            Some(v) => Some(v),
            None => match &self.new_fn {
                Some(f) => f(),
                None => None,
            },
        }
    }

    /// Returns a value to the pool.
    pub fn put(&mut self, value: T)
        ensures
            final(self).factory() == old(self).factory(),
            final(self).contents() == old(self).contents().push(value),
    {
        self.push_front(value);
    }

    /// Splices a value onto the head of the free list.
    fn push_front(&mut self, value: T)
        ensures
            final(self).factory() == old(self).factory(),
            final(self).contents() == old(self).contents().push(value),
    {
        self.pool.push(value);
    }

    /// Unlinks and returns the head of the free list, or `None` if the
    /// list is empty.
    fn pop_front(&mut self) -> (r: Option<T>)
        ensures
            final(self).factory() == old(self).factory(),
            old(self).contents().len() > 0 ==> r == Some(old(self).contents().last())
                && final(self).contents() == old(self).contents().drop_last(),
            old(self).contents().len() == 0 ==> r is None && final(self).contents() == old(
                self,
            ).contents(),
    {
        self.pool.pop()
    }
}

/// Pool recycling: returning three values and then acquiring three times
/// hands back exactly those three values — none lost, none duplicated —
/// and leaves the pool as it was.  The three acquisitions yield the values
/// newest first, and as a multiset they are exactly the three returned.
pub proof fn lemma_pool_recycling<T>(s: Seq<T>, a: T, b: T, c: T)
    ensures
        s.push(a).push(b).push(c).last() == c,
        s.push(a).push(b).push(c).drop_last() == s.push(a).push(b),
        s.push(a).push(b).last() == b,
        s.push(a).push(b).drop_last() == s.push(a),
        s.push(a).last() == a,
        s.push(a).drop_last() == s,
        seq![a, b, c].to_multiset() == Multiset::<T>::empty().insert(c).insert(b).insert(a),
{
    broadcast use vstd::multiset::group_multiset_axioms;
    broadcast use vstd::seq_lib::group_to_multiset_ensures;

    assert(s.push(a).push(b).push(c).drop_last() =~= s.push(a).push(b));
    assert(s.push(a).push(b).drop_last() =~= s.push(a));
    assert(s.push(a).drop_last() =~= s);
    let abc = seq![a, b, c];
    assert(abc =~= Seq::<T>::empty().push(a).push(b).push(c));
    assert(Seq::<T>::empty().to_multiset() =~= Multiset::<T>::empty());
    assert(abc.to_multiset() =~= Multiset::<T>::empty().insert(a).insert(b).insert(c));
    assert(Multiset::<T>::empty().insert(a).insert(b).insert(c) =~= Multiset::<T>::empty().insert(
        c,
    ).insert(b).insert(a));
}

} // verus!
