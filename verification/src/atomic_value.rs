//! Swappable value containers.
//!
//! [`AtomicValue`] owns zero or one heap value in a single slot and replaces
//! it in one step; [`AtomicArcValue`] stores a reference-counted handle so
//! that loads share the payload instead of cloning it.  The `NE` variants
//! wrap them with a never-empty invariant, making every operation total.
//!
//! The containers transfer ownership explicitly: the slot owns at most one
//! value at a time, every operation that replaces the slot takes ownership
//! of the new value and either returns or drops the displaced one, and the
//! displaced value is handed out exactly once.  Each operation takes the
//! memory-ordering argument a caller of a shared-memory implementation
//! would choose; the ordering does not affect the value-level behaviour
//! specified here.

use vstd::prelude::*;
use vstd::multiset::Multiset;
use std::sync::Arc;

verus! {

/// Memory ordering for container operations, mirroring the orderings of
/// hardware atomic instructions.  Every operation takes one explicitly;
/// none of the value-level guarantees below depend on the choice.
#[derive(Clone, Copy, Debug, PartialEq, Eq, Structural)]
pub enum Ordering {
    Relaxed,
    Acquire,
    Release,
    AcqRel,
    SeqCst,
}

/// Shorthand for [`AtomicValue`].
pub type AV<T> = AtomicValue<T>;

/// Shorthand for [`AtomicArcValue`].
pub type AAV<T> = AtomicArcValue<T>;

/// Shorthand for [`NEAtomicValue`].
pub type NEAV<T> = NEAtomicValue<T>;

/// Shorthand for [`NEAtomicArcValue`].
pub type NEAAV<T> = NEAtomicArcValue<T>;

/// A container holding zero or one value in a single swappable slot.
///
/// The slot either holds no value (`None` view) or exactly one value; every
/// operation that displaces the previous value either returns it to the
/// caller (`swap`, `take`) or drops it (`store`), so each stored value is
/// released exactly once.
pub struct AtomicValue<T> {
    slot: Option<T>,
}

impl<T> View for AtomicValue<T> {
    type V = Option<T>;

    closed spec fn view(&self) -> Option<T> {
        self.slot
    }
}

impl<T: Clone> AtomicValue<T> {
    /// Creates a new `AtomicValue<T>` holding the given value.
    pub fn new(val: T) -> (r: Self)
        ensures
            r@ == Some(val),
    {
        AtomicValue { slot: Some(val) }
    }

    /// Creates a new `AtomicValue<T>` with an empty slot; no allocation.
    pub fn empty() -> (r: Self)
        ensures
            r@ is None,
    {
        AtomicValue { slot: None }
    }

    /// Attempts to load and clone the value stored, returning `None` if no
    /// value has been stored.  The slot is unchanged.
    pub fn load(&self, order: Ordering) -> (r: Option<T>)
        ensures
            match self@ {
                None => r is None,
                Some(v) => r matches Some(c) && cloned(v, c),
            },
    {
        match &self.slot {
            None => None,
            Some(v) => Some(v.clone()),
        }
    }

    /// Loads and clones the value stored; the slot must be filled.
    pub fn load_unchecked(&self, order: Ordering) -> (r: T)
        requires
            self@ is Some,
        ensures
            self@ matches Some(v) && cloned(v, r),
    {
        match &self.slot {
            Some(v) => v.clone(),
            None => unreached(),
        }
    }

    /// Stores a value, dropping the displaced one, if any.
    pub fn store(&mut self, val: T, order: Ordering)
        ensures
            final(self)@ == Some(val),
    {
        self.slot = Some(val);
    }

    /// Stores a value, dropping the displaced one; the slot must be filled.
    pub fn store_unchecked(&mut self, val: T, order: Ordering)
        requires
            old(self)@ is Some,
        ensures
            final(self)@ == Some(val),
    {
        self.slot = Some(val);
    }

    /// Stores a value only if the slot is empty.  On failure the slot is
    /// untouched and the value is handed back unchanged, so the failing
    /// path neither leaks nor loses it.
    pub fn store_if_empty(&mut self, val: T, success: Ordering, failure: Ordering) -> (r: Result<
        (),
        T,
    >)
        ensures
            old(self)@ is None ==> final(self)@ == Some(val) && r is Ok,
            old(self)@ is Some ==> final(self)@ == old(self)@ && r == Err::<(), T>(val),
    {
        match &self.slot {
            None => {
                self.slot = Some(val);
                Ok(())
            },
            Some(_) => Err(val),
        }
    }

    /// Like [`Self::store_if_empty`], but permitted to fail spuriously even
    /// when the slot is empty; callers needing a success guarantee must
    /// retry.  A failure always hands the value back unchanged.
    pub fn store_if_empty_weak(&mut self, val: T, success: Ordering, failure: Ordering) -> (r:
        Result<(), T>)
        ensures
            r is Ok ==> old(self)@ is None && final(self)@ == Some(val),
            r matches Err(v) ==> v == val && final(self)@ == old(self)@,
            old(self)@ is Some ==> r is Err,
    {
        match &self.slot {
            None => {
                self.slot = Some(val);
                Ok(())
            },
            Some(_) => Err(val),
        }
    }

    /// Swaps the current value for the given value, returning the displaced
    /// one, if it exists.
    pub fn swap(&mut self, val: T, order: Ordering) -> (r: Option<T>)
        ensures
            final(self)@ == Some(val),
            r == old(self)@,
    {
        let displaced = self.slot.take();
        self.slot = Some(val);
        displaced
    }

    /// Swaps the current value for the given value, returning the displaced
    /// one; the slot must be filled.
    pub fn swap_unchecked(&mut self, val: T, order: Ordering) -> (r: T)
        requires
            old(self)@ is Some,
        ensures
            final(self)@ == Some(val),
            old(self)@ == Some(r),
    {
        let displaced = self.slot.take();
        self.slot = Some(val);
        match displaced {
            Some(v) => v,
            None => unreached(),
        }
    }

    /// Takes the value stored, leaving the slot empty, or returns `None` if
    /// the slot was already empty.
    pub fn take(&mut self, order: Ordering) -> (r: Option<T>)
        ensures
            final(self)@ is None,
            r == old(self)@,
    {
        self.slot.take()
    }

    /// Takes the value stored, leaving the slot empty; the slot must be
    /// filled.
    pub fn take_unchecked(&mut self, order: Ordering) -> (r: T)
        requires
            old(self)@ is Some,
        ensures
            final(self)@ is None,
            old(self)@ == Some(r),
    {
        match self.slot.take() {
            Some(v) => v,
            None => unreached(),
        }
    }

    /// Returns whether the slot is currently empty.
    pub fn is_empty(&self, order: Ordering) -> (r: bool)
        ensures
            r == (self@ is None),
    {
        self.slot.is_none()
    }
}

impl<T: Copy> AtomicValue<T> {
    /// Attempts to load and copy the value stored, returning `None` if no
    /// value has been stored.
    pub fn load_copied(&self, order: Ordering) -> (r: Option<T>)
        ensures
            r == self@,
    {
        self.slot
    }

    /// Loads and copies the value stored; the slot must be filled.
    pub fn load_copied_unchecked(&self, order: Ordering) -> (r: T)
        requires
            self@ is Some,
        ensures
            self@ == Some(r),
    {
        match self.slot {
            Some(v) => v,
            None => unreached(),
        }
    }
}

impl<T: Clone + Default> AtomicValue<T> {
    /// Creates a new `AtomicValue<T>` holding `T`'s default value.
    pub fn new_default() -> (r: Self)
        ensures
            r@ matches Some(d) && call_ensures(T::default, (), d),
    {
        AtomicValue { slot: Some(T::default()) }
    }
}

impl<T: Clone> Default for AtomicValue<T> {
    /// Creates a new empty `AtomicValue<T>`.
    fn default() -> (r: Self)
        ensures
            r@ is None,
    {
        AtomicValue::empty()
    }
}

/// Relies on `Arc::clone`: the returned handle is a new reference to the
/// same payload, so its mathematical value equals the original's.
#[verifier::external_body]
fn arc_clone<T>(a: &Arc<T>) -> (r: Arc<T>)
    ensures
        r == *a,
{
    Arc::clone(a)
}

/// A container holding zero or one reference-counted handle in a single
/// swappable slot.
///
/// The slot discipline is the same as [`AtomicValue`]'s, but loads return a
/// new handle to the stored payload instead of cloning the payload, so any
/// number of readers may keep the payload alive after it has been displaced
/// from the slot.
pub struct AtomicArcValue<T> {
    inner: AtomicValue<Arc<T>>,
}

impl<T> View for AtomicArcValue<T> {
    type V = Option<Arc<T>>;

    closed spec fn view(&self) -> Option<Arc<T>> {
        self.inner@
    }
}

impl<T> AtomicArcValue<T> {
    /// Creates a new `AtomicArcValue<T>` holding the given value behind a
    /// fresh handle.
    pub fn new(val: T) -> (r: Self)
        ensures
            r@ matches Some(a) && a == val,
    {
        AtomicArcValue { inner: AtomicValue { slot: Some(Arc::new(val)) } }
    }

    /// Creates a new `AtomicArcValue<T>` holding the given handle.
    pub fn from_arc(val: Arc<T>) -> (r: Self)
        ensures
            r@ == Some(val),
    {
        AtomicArcValue { inner: AtomicValue { slot: Some(val) } }
    }

    /// Creates a new `AtomicArcValue<T>` with an empty slot; no allocation.
    pub fn empty() -> (r: Self)
        ensures
            r@ is None,
    {
        AtomicArcValue { inner: AtomicValue { slot: None } }
    }

    /// Attempts to load the stored handle, returning a new handle to the
    /// same payload, or `None` if no value has been stored.
    pub fn load(&self, order: Ordering) -> (r: Option<Arc<T>>)
        ensures
            r == self@,
    {
        match &self.inner.slot {
            None => None,
            Some(a) => Some(arc_clone(a)),
        }
    }

    /// Loads the stored handle; the slot must be filled.
    pub fn load_unchecked(&self, order: Ordering) -> (r: Arc<T>)
        requires
            self@ is Some,
        ensures
            self@ == Some(r),
    {
        match &self.inner.slot {
            Some(a) => arc_clone(a),
            None => unreached(),
        }
    }

    /// Stores a value behind a fresh handle, dropping the displaced handle,
    /// if any.
    pub fn store(&mut self, val: T, order: Ordering)
        ensures
            final(self)@ matches Some(a) && a == val,
    {
        self.inner.slot = Some(Arc::new(val));
    }

    /// Stores a value behind a fresh handle, dropping the displaced handle;
    /// the slot must be filled.
    pub fn store_unchecked(&mut self, val: T, order: Ordering)
        requires
            old(self)@ is Some,
        ensures
            final(self)@ matches Some(a) && a == val,
    {
        self.inner.slot = Some(Arc::new(val));
    }

    /// Stores a value only if the slot is empty.  On failure the slot is
    /// untouched and the value is handed back unchanged, with no handle or
    /// allocation left behind.
    pub fn store_if_empty(&mut self, val: T, success: Ordering, failure: Ordering) -> (r: Result<
        (),
        T,
    >)
        ensures
            old(self)@ is None ==> (final(self)@ matches Some(a) && a == val) && r is Ok,
            old(self)@ is Some ==> final(self)@ == old(self)@ && r == Err::<(), T>(val),
    {
        match &self.inner.slot {
            None => {
                self.inner.slot = Some(Arc::new(val));
                Ok(())
            },
            Some(_) => Err(val),
        }
    }

    /// Like [`Self::store_if_empty`], but permitted to fail spuriously even
    /// when the slot is empty; a failure always hands the value back
    /// unchanged.
    pub fn store_if_empty_weak(&mut self, val: T, success: Ordering, failure: Ordering) -> (r:
        Result<(), T>)
        ensures
            r is Ok ==> old(self)@ is None && (final(self)@ matches Some(a) && a == val),
            r matches Err(v) ==> v == val && final(self)@ == old(self)@,
            old(self)@ is Some ==> r is Err,
    {
        match &self.inner.slot {
            None => {
                self.inner.slot = Some(Arc::new(val));
                Ok(())
            },
            Some(_) => Err(val),
        }
    }

    /// Swaps the current handle for a fresh handle to the given value,
    /// returning the displaced handle, if it exists.
    pub fn swap(&mut self, val: T, order: Ordering) -> (r: Option<Arc<T>>)
        ensures
            final(self)@ matches Some(a) && a == val,
            r == old(self)@,
    {
        let displaced = self.inner.slot.take();
        self.inner.slot = Some(Arc::new(val));
        displaced
    }

    /// Swaps the current handle for a fresh handle to the given value,
    /// returning the displaced handle; the slot must be filled.
    pub fn swap_unchecked(&mut self, val: T, order: Ordering) -> (r: Arc<T>)
        requires
            old(self)@ is Some,
        ensures
            final(self)@ matches Some(a) && a == val,
            old(self)@ == Some(r),
    {
        let displaced = self.inner.slot.take();
        self.inner.slot = Some(Arc::new(val));
        match displaced {
            Some(a) => a,
            None => unreached(),
        }
    }

    /// Same as [`Self::store`] but takes a handle.
    pub fn store_arc(&mut self, val: Arc<T>, order: Ordering)
        ensures
            final(self)@ == Some(val),
    {
        self.inner.slot = Some(val);
    }

    /// Same as [`Self::store_unchecked`] but takes a handle.
    pub fn store_arc_unchecked(&mut self, val: Arc<T>, order: Ordering)
        requires
            old(self)@ is Some,
        ensures
            final(self)@ == Some(val),
    {
        self.inner.slot = Some(val);
    }

    /// Same as [`Self::store_if_empty`] but takes a handle.
    pub fn store_arc_if_empty(&mut self, val: Arc<T>, success: Ordering, failure: Ordering) -> (r:
        Result<(), Arc<T>>)
        ensures
            old(self)@ is None ==> final(self)@ == Some(val) && r is Ok,
            old(self)@ is Some ==> final(self)@ == old(self)@ && r == Err::<(), Arc<T>>(val),
    {
        match &self.inner.slot {
            None => {
                self.inner.slot = Some(val);
                Ok(())
            },
            Some(_) => Err(val),
        }
    }

    /// Same as [`Self::store_if_empty_weak`] but takes a handle.
    pub fn store_arc_if_empty_weak(&mut self, val: Arc<T>, success: Ordering, failure: Ordering) -> (r:
        Result<(), Arc<T>>)
        ensures
            r is Ok ==> old(self)@ is None && final(self)@ == Some(val),
            r matches Err(v) ==> v == val && final(self)@ == old(self)@,
            old(self)@ is Some ==> r is Err,
    {
        match &self.inner.slot {
            None => {
                self.inner.slot = Some(val);
                Ok(())
            },
            Some(_) => Err(val),
        }
    }

    /// Same as [`Self::swap`] but takes a handle.
    pub fn swap_arc(&mut self, val: Arc<T>, order: Ordering) -> (r: Option<Arc<T>>)
        ensures
            final(self)@ == Some(val),
            r == old(self)@,
    {
        let displaced = self.inner.slot.take();
        self.inner.slot = Some(val);
        displaced
    }

    /// Same as [`Self::swap_unchecked`] but takes a handle.
    pub fn swap_arc_unchecked(&mut self, val: Arc<T>, order: Ordering) -> (r: Arc<T>)
        requires
            old(self)@ is Some,
        ensures
            final(self)@ == Some(val),
            old(self)@ == Some(r),
    {
        let displaced = self.inner.slot.take();
        self.inner.slot = Some(val);
        match displaced {
            Some(a) => a,
            None => unreached(),
        }
    }

    /// Takes the stored handle, leaving the slot empty, or returns `None`
    /// if the slot was already empty.
    pub fn take(&mut self, order: Ordering) -> (r: Option<Arc<T>>)
        ensures
            final(self)@ is None,
            r == old(self)@,
    {
        self.inner.slot.take()
    }

    /// Takes the stored handle, leaving the slot empty; the slot must be
    /// filled.
    pub fn take_unchecked(&mut self, order: Ordering) -> (r: Arc<T>)
        requires
            old(self)@ is Some,
        ensures
            final(self)@ is None,
            old(self)@ == Some(r),
    {
        match self.inner.slot.take() {
            Some(a) => a,
            None => unreached(),
        }
    }

    /// Returns whether the slot is currently empty.
    pub fn is_empty(&self, order: Ordering) -> (r: bool)
        ensures
            r == (self@ is None),
    {
        self.inner.slot.is_none()
    }
}

impl<T: Default> AtomicArcValue<T> {
    /// Creates a new `AtomicArcValue<T>` holding `T`'s default value behind
    /// a fresh handle.
    pub fn new_default() -> (r: Self)
        ensures
            r@ matches Some(a) && (exists|d: T| #[trigger] call_ensures(T::default, (), d) && a == d),
    {
        AtomicArcValue { inner: AtomicValue { slot: Some(Arc::new(T::default())) } }
    }
}

impl<T> Default for AtomicArcValue<T> {
    /// Creates a new empty `AtomicArcValue<T>`.
    fn default() -> (r: Self)
        ensures
            r@ is None,
    {
        AtomicArcValue::empty()
    }
}


/// The non-empty version of [`AtomicValue`]: the slot is filled at
/// construction and every operation keeps it filled, so loads and swaps
/// are total and need no empty check.
pub struct NEAtomicValue<T> {
    inner: AtomicValue<T>,
}

impl<T> NEAtomicValue<T> {
    #[verifier::type_invariant]
    spec fn non_empty(self) -> bool {
        self.inner@ is Some
    }
}

impl<T> View for NEAtomicValue<T> {
    type V = T;

    closed spec fn view(&self) -> T {
        self.inner@->0
    }
}

impl<T: Clone> NEAtomicValue<T> {
    /// Creates a new `NEAtomicValue<T>` holding the given value.
    pub fn new(val: T) -> (r: Self)
        ensures
            r@ == val,
    {
        NEAtomicValue { inner: AtomicValue::new(val) }
    }

    /// Loads and clones the value stored.
    pub fn load(&self, order: Ordering) -> (r: T)
        ensures
            cloned(self@, r),
    {
        proof {
            use_type_invariant(self);
        }
        self.inner.load_unchecked(order)
    }

    /// Stores a value, dropping the displaced one.
    pub fn store(&mut self, val: T, order: Ordering)
        ensures
            final(self)@ == val,
    {
        *self = NEAtomicValue { inner: AtomicValue { slot: Some(val) } };
    }

    /// Swaps the current value for the given value, returning the displaced
    /// one.
    pub fn swap(&mut self, val: T, order: Ordering) -> (r: T)
        ensures
            final(self)@ == val,
            r == old(self)@,
    {
        proof {
            use_type_invariant(&*self);
        }
        let mut tmp = NEAtomicValue { inner: AtomicValue { slot: Some(val) } };
        core::mem::swap(self, &mut tmp);
        match tmp.inner.slot {
            Some(v) => v,
            None => unreached(),
        }
    }
}

impl<T: Copy> NEAtomicValue<T> {
    /// Loads and copies the value stored.
    pub fn load_copied(&self, order: Ordering) -> (r: T)
        ensures
            r == self@,
    {
        proof {
            use_type_invariant(self);
        }
        self.inner.load_copied_unchecked(order)
    }
}

impl<T: Clone + Default> Default for NEAtomicValue<T> {
    /// Creates a new `NEAtomicValue<T>` holding `T`'s default value.
    fn default() -> (r: Self)
        ensures
            call_ensures(T::default, (), r@),
    {
        NEAtomicValue::new(T::default())
    }
}

/// The non-empty version of [`AtomicArcValue`]: the slot always holds a
/// handle, so loads and swaps are total.
pub struct NEAtomicArcValue<T> {
    inner: AtomicArcValue<T>,
}

impl<T> NEAtomicArcValue<T> {
    #[verifier::type_invariant]
    spec fn non_empty(self) -> bool {
        self.inner@ is Some
    }
}

impl<T> View for NEAtomicArcValue<T> {
    type V = Arc<T>;

    closed spec fn view(&self) -> Arc<T> {
        self.inner@->0
    }
}

impl<T> NEAtomicArcValue<T> {
    /// Creates a new `NEAtomicArcValue<T>` holding the given value behind a
    /// fresh handle.
    pub fn new(val: T) -> (r: Self)
        ensures
            r@ == val,
    {
        NEAtomicArcValue { inner: AtomicArcValue::new(val) }
    }

    /// Creates a new `NEAtomicArcValue<T>` holding the given handle.
    pub fn from_arc(val: Arc<T>) -> (r: Self)
        ensures
            r@ == val,
    {
        NEAtomicArcValue { inner: AtomicArcValue::from_arc(val) }
    }

    /// Loads the stored handle, returning a new handle to the same payload.
    pub fn load(&self, order: Ordering) -> (r: Arc<T>)
        ensures
            r == self@,
    {
        proof {
            use_type_invariant(self);
        }
        self.inner.load_unchecked(order)
    }

    /// Stores a value behind a fresh handle, dropping the displaced handle.
    pub fn store(&mut self, val: T, order: Ordering)
        ensures
            final(self)@ == val,
    {
        self.store_arc(Arc::new(val), order);
    }

    /// Swaps the current handle for a fresh handle to the given value,
    /// returning the displaced handle.
    pub fn swap(&mut self, val: T, order: Ordering) -> (r: Arc<T>)
        ensures
            final(self)@ == val,
            r == old(self)@,
    {
        self.swap_arc(Arc::new(val), order)
    }

    /// Same as [`Self::store`] but takes a handle.
    pub fn store_arc(&mut self, val: Arc<T>, order: Ordering)
        ensures
            final(self)@ == val,
    {
        *self = NEAtomicArcValue { inner: AtomicArcValue { inner: AtomicValue { slot: Some(val) } } };
    }

    /// Same as [`Self::swap`] but takes a handle.
    pub fn swap_arc(&mut self, val: Arc<T>, order: Ordering) -> (r: Arc<T>)
        ensures
            final(self)@ == val,
            r == old(self)@,
    {
        proof {
            use_type_invariant(&*self);
        }
        let mut tmp = NEAtomicArcValue {
            inner: AtomicArcValue { inner: AtomicValue { slot: Some(val) } },
        };
        core::mem::swap(self, &mut tmp);
        match tmp.inner.inner.slot {
            Some(a) => a,
            None => unreached(),
        }
    }
}

impl<T: Default> Default for NEAtomicArcValue<T> {
    /// Creates a new `NEAtomicArcValue<T>` holding `T`'s default value.
    fn default() -> (r: Self)
        ensures
            exists|d: T| #[trigger] call_ensures(T::default, (), d) && r@ == d,
    {
        NEAtomicArcValue::new(T::default())
    }
}

/// One container operation, as the slot sees it: what [`AtomicValue::store`],
/// [`AtomicValue::swap`], [`AtomicValue::take`] and
/// [`AtomicValue::store_if_empty`] do to the slot, per their contracts.
pub enum SlotOp<T> {
    Store(T),
    Swap(T),
    Take,
    StoreIfEmpty(T),
}

/// 1 if the slot holds a value, else 0.
pub open spec fn occupied<T>(slot: Option<T>) -> nat {
    if slot is Some {
        1
    } else {
        0
    }
}

/// The slot contents after one operation.
pub open spec fn slot_after<T>(slot: Option<T>, op: SlotOp<T>) -> Option<T> {
    match op {
        SlotOp::Store(v) => Some(v),
        SlotOp::Swap(v) => Some(v),
        SlotOp::Take => None,
        SlotOp::StoreIfEmpty(v) => if slot is None {
            Some(v)
        } else {
            slot
        },
    }
}

/// How many values the operation moves into the container: one for every
/// store or swap, one for a store-if-empty that succeeds, none otherwise.
pub open spec fn op_allocs<T>(slot: Option<T>, op: SlotOp<T>) -> nat {
    match op {
        SlotOp::Store(_) => 1,
        SlotOp::Swap(_) => 1,
        SlotOp::Take => 0,
        SlotOp::StoreIfEmpty(_) => if slot is None {
            1
        } else {
            0
        },
    }
}

/// How many values the operation releases, whether dropped (`store`) or
/// handed to the caller (`swap`, `take`): one whenever a filled slot is
/// displaced or emptied.
pub open spec fn op_frees<T>(slot: Option<T>, op: SlotOp<T>) -> nat {
    match op {
        SlotOp::Store(_) => occupied(slot),
        SlotOp::Swap(_) => occupied(slot),
        SlotOp::Take => occupied(slot),
        SlotOp::StoreIfEmpty(_) => 0,
    }
}

/// The slot contents after a sequence of operations.
pub open spec fn slot_after_ops<T>(slot: Option<T>, ops: Seq<SlotOp<T>>) -> Option<T>
    decreases ops.len(),
{
    if ops.len() == 0 {
        slot
    } else {
        slot_after_ops(slot_after(slot, ops[0]), ops.drop_first())
    }
}

/// Total values moved in over a sequence of operations.
pub open spec fn allocs_after_ops<T>(slot: Option<T>, ops: Seq<SlotOp<T>>) -> nat
    decreases ops.len(),
{
    if ops.len() == 0 {
        0
    } else {
        op_allocs(slot, ops[0]) + allocs_after_ops(slot_after(slot, ops[0]), ops.drop_first())
    }
}

/// Total values released over a sequence of operations.
pub open spec fn frees_after_ops<T>(slot: Option<T>, ops: Seq<SlotOp<T>>) -> nat
    decreases ops.len(),
{
    if ops.len() == 0 {
        0
    } else {
        op_frees(slot, ops[0]) + frees_after_ops(slot_after(slot, ops[0]), ops.drop_first())
    }
}

/// Free-exactly-once: over any sequence of store/swap/take/store-if-empty
/// operations on one container, the values moved in and the values released
/// balance exactly, up to the one value a filled slot still owes to its
/// teardown.  With the final drop releasing whatever remains, every value
/// the container ever took ownership of is released exactly once: no leak
/// and no double free.
pub proof fn lemma_free_exactly_once<T>(slot: Option<T>, ops: Seq<SlotOp<T>>)
    ensures
        occupied(slot) + allocs_after_ops(slot, ops) == frees_after_ops(slot, ops) + occupied(
            slot_after_ops(slot, ops),
        ),
    decreases ops.len(),
{
    if ops.len() > 0 {
        lemma_free_exactly_once(slot_after(slot, ops[0]), ops.drop_first());
    }
}

/// Empty round-trip: an empty slot holds nothing — a load of it observes
/// no value — and a store-if-empty on it succeeds, after which the slot
/// holds exactly the stored value, which a load then observes.  These are
/// the two-call forms of [`AtomicValue::empty`], [`AtomicValue::load`],
/// [`AtomicValue::is_empty`] and [`AtomicValue::store_if_empty`]'s
/// contracts.
pub proof fn lemma_empty_round_trip<T>(v: T)
    ensures
        occupied(Option::<T>::None) == 0,
        slot_after(Option::<T>::None, SlotOp::StoreIfEmpty(v)) == Some(v),
{
}

/// Store-if-empty exclusion: after a store-if-empty installs a first
/// value, a second store-if-empty changes nothing — the slot still holds
/// the first value, and per [`AtomicValue::store_if_empty`]'s contract the
/// failing call hands the second value back unchanged, so it is neither
/// installed, lost nor leaked.
pub proof fn lemma_store_if_empty_exclusion<T>(v1: T, v2: T)
    ensures
        slot_after(
            slot_after(Option::<T>::None, SlotOp::StoreIfEmpty(v1)),
            SlotOp::StoreIfEmpty(v2),
        ) == Some(v1),
{
}

/// The multiset of values a slot holds: empty or a singleton.
pub open spec fn slot_multiset<T>(slot: Option<T>) -> Multiset<T> {
    match slot {
        None => Multiset::empty(),
        Some(v) => Multiset::empty().insert(v),
    }
}

/// The multiset of displaced values handed back by a sequence of swaps,
/// each swap returning the slot contents it displaced, per
/// [`AtomicValue::swap`]'s contract.
pub open spec fn displaced_by_swaps<T>(slot: Option<T>, vals: Seq<T>) -> Multiset<T>
    decreases vals.len(),
{
    if vals.len() == 0 {
        Multiset::empty()
    } else {
        slot_multiset(slot).add(displaced_by_swaps(Some(vals[0]), vals.drop_first()))
    }
}

/// The slot contents after a sequence of swaps.
pub open spec fn slot_after_swaps<T>(slot: Option<T>, vals: Seq<T>) -> Option<T>
    decreases vals.len(),
{
    if vals.len() == 0 {
        slot
    } else {
        slot_after_swaps(Some(vals[0]), vals.drop_first())
    }
}

/// Last swap wins: after at least one swap, the slot holds exactly the
/// value of the swap the atomic order serialized last, whatever the
/// interleaving before it.
pub proof fn lemma_last_swap_wins<T>(slot: Option<T>, vals: Seq<T>)
    requires
        vals.len() > 0,
    ensures
        slot_after_swaps(slot, vals) == Some(vals.last()),
    decreases vals.len(),
{
    if vals.len() == 1 {
        assert(slot_after_swaps(Some(vals[0]), vals.drop_first()) == Some(vals[0]));
    } else {
        lemma_last_swap_wins(Some(vals[0]), vals.drop_first());
        assert(vals.drop_first().last() == vals.last());
    }
}

/// Swap accounting: after any serialization of swaps of the submitted
/// values, the displaced values handed back to the callers plus the final
/// slot contents are exactly the initial contents plus every submitted
/// value — no value is both installed and never handed back, and none is
/// handed back twice.
pub proof fn lemma_swap_accounting<T>(slot: Option<T>, vals: Seq<T>)
    ensures
        slot_multiset(slot).add(vals.to_multiset()) == displaced_by_swaps(slot, vals).add(
            slot_multiset(slot_after_swaps(slot, vals)),
        ),
    decreases vals.len(),
{
    broadcast use vstd::multiset::group_multiset_axioms;
    broadcast use vstd::seq_lib::group_to_multiset_ensures;

    if vals.len() == 0 {
        assert(vals.to_multiset() =~= Multiset::<T>::empty());
        assert(slot_multiset(slot).add(vals.to_multiset()) =~= displaced_by_swaps(slot, vals).add(
            slot_multiset(slot_after_swaps(slot, vals)),
        ));
    } else {
        let v0 = vals[0];
        let rest = vals.drop_first();
        lemma_swap_accounting(Some(v0), rest);
        vstd::seq_lib::to_multiset_insert(rest, 0, v0);
        assert(rest.insert(0, v0) =~= vals);
        assert(vals.to_multiset() == rest.to_multiset().insert(v0));
        assert(slot_multiset(Some(v0)) =~= Multiset::<T>::empty().insert(v0));
        assert(slot_multiset(slot).add(vals.to_multiset()) =~= slot_multiset(slot).add(
            slot_multiset(Some(v0)).add(rest.to_multiset()),
        ));
        assert(slot_multiset(slot).add(slot_multiset(Some(v0)).add(rest.to_multiset()))
            =~= slot_multiset(slot).add(
            displaced_by_swaps(Some(v0), rest).add(slot_multiset(slot_after_swaps(slot, vals))),
        ));
        assert(slot_multiset(slot).add(
            displaced_by_swaps(Some(v0), rest).add(slot_multiset(slot_after_swaps(slot, vals))),
        ) =~= displaced_by_swaps(slot, vals).add(slot_multiset(slot_after_swaps(slot, vals))));
    }
}

} // verus!
