//! A generic value-deduplication store ("interner").
//!
//! The store keeps each logically distinct value exactly once and returns a
//! small, copyable [`Handle`](handle::Handle) for it, so later equality checks
//! become integer comparisons and repeated values consume memory once.
//!
//! Logical equality of elements is the total relation supplied by
//! [`InternValue`](value::InternValue); borrowed keys of other shapes reach
//! the store through [`FromRef`](from_ref::FromRef).

pub mod arena;
pub mod float;
pub mod from_ref;
pub mod handle;
pub mod laws;
pub mod value;

use core::marker::PhantomData;
use std::borrow::Cow;

use vstd::prelude::*;

use crate::from_ref::FromRef;
use crate::handle::Handle;
use crate::value::InternValue;

pub use crate::float::{FloatBits32, FloatBits64};

verus! {

/// The one error an interning operation can raise: the handle type cannot
/// represent the index a genuinely new value would get.
#[derive(Clone, Copy, Debug, PartialEq, Eq)]
pub enum InternerError {
    /// The number of unique items would exceed the maximum value
    /// representable by the chosen handle type.
    Overflow,
}

/// Relies on `Vec::capacity`: the number of elements the vector can hold
/// without reallocating, which is at least its current length.
#[verifier::external_body]
fn vec_capacity<T>(v: &Vec<T>) -> (r: usize)
    ensures
        r >= v@.len(),
{
    v.capacity()
}

/// Relies on `Vec::shrink_to_fit`: it drops spare capacity and leaves the
/// contents unchanged.
#[verifier::external_body]
fn vec_shrink_to_fit<T>(v: &mut Vec<T>)
    ensures
        final(v)@ == old(v)@,
{
    v.shrink_to_fit()
}

/// No two distinct positions of `s` hold values that are `same`.
pub open spec fn distinct_values<T: InternValue>(s: Seq<T>) -> bool {
    forall|i: int, j: int| 0 <= i < j < s.len() ==> !(#[trigger] s[i].same(&s[j]))
}

/// Pushing the owned image of a key that no element of `s` matches keeps the
/// elements pairwise distinct.
proof fn lemma_push_distinct<Q: ?Sized, T: FromRef<Q>>(s: Seq<T>, v: T, key: &Q)
    requires
        distinct_values(s),
        forall|j: int| 0 <= j < s.len() ==> !(#[trigger] s[j]).ref_same(key),
        v.ref_same(key),
    ensures
        distinct_values(s.push(v)),
{
    let s2 = s.push(v);
    assert forall|i: int, j: int| 0 <= i < j < s2.len() implies !(#[trigger] s2[i].same(
        &s2[j],
    )) by {
        if j == s.len() {
            if s2[i].same(&s2[j]) {
                T::lemma_ref_congruent(&s[i], &v, key);
            }
        }
    }
}

/// Removing one position keeps the remaining elements pairwise distinct.
proof fn lemma_remove_distinct<T: InternValue>(s: Seq<T>, k: int)
    requires
        distinct_values(s),
        0 <= k < s.len(),
    ensures
        distinct_values(s.remove(k)),
{
    s.remove_ensures(k);
    let s2 = s.remove(k);
    assert forall|i: int, j: int| 0 <= i < j < s2.len() implies !(#[trigger] s2[i].same(
        &s2[j],
    )) by {
        let i0: int = if i < k {
            i
        } else {
            i + 1
        };
        let j0: int = if j < k {
            j
        } else {
            j + 1
        };
        assert(s2[i] == s[i0]);
        assert(s2[j] == s[j0]);
    }
}

/// A deduplicated, insertion-ordered store of values of type `T`, handing out
/// handles of type `H`.
///
/// Each logically distinct value is stored exactly once, at a dense index
/// `0..len`, and is named by the handle for that index. `S` is the
/// constructor-supplied hash strategy; it is an external collaborator that
/// the store carries but does not interpret.
pub struct Interner<T, S, H = u32> {
    items: Vec<T>,
    build_hasher: S,
    _handle: PhantomData<H>,
}

impl<T, S, H> View for Interner<T, S, H> {
    type V = Seq<T>;

    closed spec fn view(&self) -> Seq<T> {
        self.items@
    }
}

impl<T: InternValue, S: Default, H: Handle> Default for Interner<T, S, H> {
    /// An empty interner with the hash strategy's default value.
    fn default() -> (r: Self)
        ensures
            r@ == Seq::<T>::empty(),
            r.wf(),
    {
        Self::new(S::default())
    }
}

impl<T: InternValue, S, H: Handle> Interner<T, S, H> {
    /// Well-formedness: no two slots hold equal values, and the store never
    /// holds more values than the handle type can name.
    pub open spec fn wf(&self) -> bool {
        &&& distinct_values(self@)
        &&& self@.len() <= H::max_count()
    }

    /// Some slot holds the owned image of `key`.
    pub open spec fn spec_contains_ref<Q: ?Sized>(&self, key: &Q) -> bool where T: FromRef<Q> {
        exists|i: int| 0 <= i < self@.len() && (#[trigger] self@[i]).ref_same(key)
    }

    /// What every intern operation guarantees, keyed by `key`.
    ///
    /// On a hit the store is unchanged and the returned handle names the
    /// matching slot; on a miss the owned image of `key` is appended and the
    /// returned handle names the new last slot; `Overflow` is returned exactly
    /// when the value is new and the handle space is full, and then the store
    /// is unchanged.
    pub open spec fn intern_post<Q: ?Sized>(
        pre: Self,
        post: Self,
        key: &Q,
        r: Result<H, InternerError>,
    ) -> bool where T: FromRef<Q> {
        match r {
            Ok(h) => {
                &&& h.idx_of() < post@.len()
                &&& post@[h.idx_of() as int].ref_same(key)
                &&& if pre.spec_contains_ref(key) {
                    post@ == pre@
                } else {
                    &&& pre@.len() < H::max_count()
                    &&& h.idx_of() == pre@.len()
                    &&& post@ == pre@.push(post@[pre@.len() as int])
                }
            },
            Err(e) => {
                &&& e == InternerError::Overflow
                &&& post@ == pre@
                &&& !pre.spec_contains_ref(key)
                &&& pre@.len() >= H::max_count()
            },
        }
    }

    /// Creates a new, empty interner carrying the given hash strategy.
    pub fn new(hasher: S) -> (r: Self)
        ensures
            r@ == Seq::<T>::empty(),
            r.wf(),
    {
        Interner { items: Vec::new(), build_hasher: hasher, _handle: PhantomData }
    }

    /// Creates a new, empty interner with room reserved for `capacity` items.
    /// The capacity is a hint only.
    pub fn with_capacity(hasher: S, capacity: usize) -> (r: Self)
        ensures
            r@ == Seq::<T>::empty(),
            r.wf(),
    {
        Interner { items: Vec::with_capacity(capacity), build_hasher: hasher, _handle: PhantomData }
    }

    /// Finds the first (and, in a well-formed store, only) slot whose value
    /// is the owned image of `key`.
    fn find_ref<Q: ?Sized>(&self, key: &Q) -> (r: Option<usize>) where T: FromRef<Q>
        ensures
            match r {
                Some(i) => {
                    &&& i < self@.len()
                    &&& self@[i as int].ref_same(key)
                    &&& forall|j: int| 0 <= j < i ==> !(#[trigger] self@[j]).ref_same(key)
                },
                None => !self.spec_contains_ref(key),
            },
    {
        let n = self.items.len();
        let mut i: usize = 0;
        while i < n
            invariant
                n == self@.len(),
                i <= n,
                forall|j: int| 0 <= j < i ==> !(#[trigger] self@[j]).ref_same(key),
            decreases n - i,
        {
            if self.items[i].ref_eq(key) {
                return Some(i);
            }
            i += 1;
        }
        None
    }

    /// Interns an owned value, taking ownership.
    ///
    /// If an equal value is already stored its handle is returned and the
    /// candidate is discarded; otherwise the value itself is stored. The
    /// overflow check happens before any mutation, so a failing call leaves
    /// the store unchanged.
    pub fn intern_owned(&mut self, item: T) -> (r: Result<H, InternerError>)
        requires
            old(self).wf(),
        ensures
            final(self).wf(),
            Self::intern_post(*old(self), *final(self), &item, r),
            !old(self).spec_contains_ref(&item) && r is Ok ==> final(self)@ == old(self)@.push(
                item,
            ),
    {
        match self.find_ref(&item) {
            Some(i) => Ok(H::index_to_handle(i).unwrap()),
            None => {
                match H::index_to_handle(self.items.len()) {
                    None => Err(InternerError::Overflow),
                    Some(h) => {
                        proof {
                            T::lemma_same_reflexive(&item);
                            lemma_push_distinct(self@, item, &item);
                        }
                        self.items.push(item);
                        Ok(h)
                    },
                }
            },
        }
    }

    /// Interns a borrowed value by reference.
    ///
    /// A hit returns the existing handle with no allocation; a miss invokes
    /// [`FromRef::from_ref`] exactly once to build the owned value.
    pub fn intern_ref<Q: ?Sized>(&mut self, item: &Q) -> (r: Result<
        H,
        InternerError,
    >) where T: FromRef<Q>
        requires
            old(self).wf(),
        ensures
            final(self).wf(),
            Self::intern_post(*old(self), *final(self), item, r),
    {
        match self.find_ref(item) {
            Some(i) => Ok(H::index_to_handle(i).unwrap()),
            None => {
                match H::index_to_handle(self.items.len()) {
                    None => Err(InternerError::Overflow),
                    Some(h) => {
                        let v = T::from_ref(item);
                        proof {
                            lemma_push_distinct(self@, v, item);
                        }
                        self.items.push(v);
                        Ok(h)
                    },
                }
            },
        }
    }

    /// Interns a value wrapped in a `Cow`: the owned variant behaves like
    /// [`Self::intern_owned`] (no copy), the borrowed variant like
    /// [`Self::intern_ref`] (copy only on a miss).
    pub fn intern_cow<'a, Q: ?Sized + ToOwned<Owned = T>>(&mut self, item: Cow<'a, Q>) -> (r:
        Result<H, InternerError>) where T: FromRef<Q>
        requires
            old(self).wf(),
        ensures
            final(self).wf(),
            match item {
                Cow::Borrowed(q) => Self::intern_post(*old(self), *final(self), q, r),
                Cow::Owned(t) => Self::intern_post::<T>(*old(self), *final(self), &t, r),
            },
    {
        match item {
            Cow::Borrowed(q) => self.intern_ref(q),
            Cow::Owned(t) => self.intern_owned(t),
        }
    }

    /// Returns the existing handle for `key` or inserts a newly constructed
    /// value. `make` must build the owned image of `key`; it runs exactly
    /// once on a genuine miss and never on a hit.
    pub fn intern_ref_or_insert_with<Q: ?Sized, F: FnOnce() -> T>(
        &mut self,
        key: &Q,
        make: F,
    ) -> (r: Result<H, InternerError>) where T: FromRef<Q>
        requires
            old(self).wf(),
            call_requires(make, ()),
            forall|v: T| call_ensures(make, (), v) ==> #[trigger] v.ref_same(key),
        ensures
            final(self).wf(),
            Self::intern_post(*old(self), *final(self), key, r),
    {
        match self.find_ref(key) {
            Some(i) => Ok(H::index_to_handle(i).unwrap()),
            None => {
                match H::index_to_handle(self.items.len()) {
                    None => Err(InternerError::Overflow),
                    Some(h) => {
                        let v = make();
                        proof {
                            lemma_push_distinct(self@, v, key);
                        }
                        self.items.push(v);
                        Ok(h)
                    },
                }
            },
        }
    }

    /// Returns the handle for `item` if present, without inserting or
    /// cloning. Read-only lookups never raise `Overflow`.
    pub fn lookup_handle<Q: ?Sized>(&self, item: &Q) -> (r: Result<
        Option<H>,
        InternerError,
    >) where T: FromRef<Q>
        requires
            self.wf(),
        ensures
            match r {
                Ok(Some(h)) => h.idx_of() < self@.len() && self@[h.idx_of() as int].ref_same(item),
                Ok(None) => !self.spec_contains_ref(item),
                Err(_) => false,
            },
    {
        match self.find_ref(item) {
            Some(i) => Ok(Some(H::index_to_handle(i).unwrap())),
            None => Ok(None),
        }
    }

    /// Returns true if an equal item is present; never mutates.
    pub fn contains<Q: ?Sized>(&self, item: &Q) -> (r: bool) where T: FromRef<Q>
        ensures
            r == self.spec_contains_ref(item),
    {
        self.find_ref(item).is_some()
    }

    /// Resolves a handle back to a reference to the interned value; `None`
    /// when the handle does not name a slot.
    pub fn resolve(&self, handle: H) -> (r: Option<&T>)
        ensures
            match r {
                Some(v) => handle.idx_of() < self@.len() && *v == self@[handle.idx_of() as int],
                None => handle.idx_of() >= self@.len(),
            },
    {
        let n = self.items.len();
        match handle.handle_to_index() {
            None => None,
            Some(idx) => {
                if idx < n {
                    Some(&self.items[idx])
                } else {
                    None
                }
            },
        }
    }

    /// Removes the value whose owned image `key` names, shifting every higher
    /// slot down by one; returns the removed slot's handle and the value, or
    /// `None` if absent. Handles above the removed slot become stale and must
    /// be repaired with [`handle::repair_handles`].
    pub fn remove<Q: ?Sized>(&mut self, key: &Q) -> (r: Option<(H, T)>) where T: FromRef<Q>
        requires
            old(self).wf(),
        ensures
            final(self).wf(),
            match r {
                Some((h, v)) => {
                    &&& h.idx_of() < old(self)@.len()
                    &&& v == old(self)@[h.idx_of() as int]
                    &&& v.ref_same(key)
                    &&& final(self)@ == old(self)@.remove(h.idx_of() as int)
                },
                None => final(self)@ == old(self)@ && !old(self).spec_contains_ref(key),
            },
    {
        match self.find_ref(key) {
            None => None,
            Some(i) => {
                proof {
                    lemma_remove_distinct(self@, i as int);
                }
                let v = self.items.remove(i);
                let h = H::index_to_handle(i).unwrap();
                Some((h, v))
            },
        }
    }

    /// Removes the value a handle names, shifting every higher slot down by
    /// one; returns the value, or `None` when the handle does not name a
    /// slot. Handles above the removed slot become stale and must be repaired
    /// with [`handle::repair_handles`].
    pub fn remove_by_handle(&mut self, handle: H) -> (r: Option<T>)
        requires
            old(self).wf(),
        ensures
            final(self).wf(),
            match r {
                Some(v) => {
                    &&& handle.idx_of() < old(self)@.len()
                    &&& v == old(self)@[handle.idx_of() as int]
                    &&& final(self)@ == old(self)@.remove(handle.idx_of() as int)
                },
                None => final(self)@ == old(self)@ && handle.idx_of() >= old(self)@.len(),
            },
    {
        let n = self.items.len();
        match handle.handle_to_index() {
            None => None,
            Some(idx) => {
                if idx < n {
                    proof {
                        lemma_remove_distinct(self@, idx as int);
                    }
                    Some(self.items.remove(idx))
                } else {
                    None
                }
            },
        }
    }

    /// Current capacity, in number of items.
    pub fn capacity(&self) -> (r: usize)
        ensures
            r >= self@.len(),
    {
        vec_capacity(&self.items)
    }

    /// Shrinks capacity toward the current length; the contents are
    /// unchanged.
    pub fn shrink_to_fit(&mut self)
        ensures
            final(self)@ == old(self)@,
    {
        vec_shrink_to_fit(&mut self.items)
    }

    /// Reserves capacity for at least `additional` more items; a memory hint
    /// that never changes the contents.
    pub fn reserve(&mut self, additional: usize)
        ensures
            final(self)@ == old(self)@,
    {
        self.items.reserve(additional);
    }

    /// Removes all items; future handle assignment starts again at index 0.
    pub fn clear(&mut self)
        ensures
            final(self)@ == Seq::<T>::empty(),
            final(self).wf(),
    {
        self.items.clear();
    }

    /// The number of unique items currently stored.
    pub fn len(&self) -> (r: usize)
        ensures
            r == self@.len(),
    {
        self.items.len()
    }

    /// Whether the interner holds no items.
    pub fn is_empty(&self) -> (r: bool)
        ensures
            r == (self@.len() == 0),
    {
        self.items.is_empty()
    }

    /// The stored values, in insertion order (as long as no removal has
    /// occurred). Iterating the returned vector visits every unique item.
    pub fn iter(&self) -> (r: &Vec<T>)
        ensures
            r@ == self@,
    {
        &self.items
    }

    /// Consumes the interner and returns all unique items, ordered by first
    /// insertion: if no removal ever occurred, the element at position `i`
    /// corresponds to the handle for index `i`.
    pub fn export(self) -> (r: Vec<T>)
        ensures
            r@ == self@,
    {
        self.items
    }
}

} // verus!
