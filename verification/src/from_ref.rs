//! The value-construction abstraction: given a borrowed reference of some
//! shape, produce an owned value of the store's element type.
//!
//! The store's borrowed-insert path looks a key up by `ref_eq` and, exactly
//! once per genuine miss, builds the owned value with `from_ref`; a hit
//! performs no construction at all. The two coherence lemmas tie the
//! borrowed-shape relation to the element equality of [`InternValue`], so
//! deduplication behaves the same whichever insert path a value arrived by.

use vstd::prelude::*;

use crate::value::{
    box_slice_as_slice, box_str_as_str, box_str_from, seq_same, slice_duplicate, slice_same_eq,
    vec_into_boxed_slice, InternValue,
};

verus! {

/// Construct an owned value from a reference of a possibly different shape.
///
/// Similar to `ToOwned` or `Clone`, but it can be implemented on any
/// combination of element type and borrowed type.
pub trait FromRef<Borrowed: ?Sized>: InternValue {
    /// Whether this owned value is the owned image of `key`.
    spec fn ref_same(&self, key: &Borrowed) -> bool;

    /// At most one owned value, up to the element equality `same`, is the
    /// image of a given key.
    proof fn lemma_ref_functional(a: &Self, b: &Self, key: &Borrowed)
        requires
            a.ref_same(key),
            b.ref_same(key),
        ensures
            a.same(b),
    ;

    /// Being the image of a key respects the element equality `same`.
    proof fn lemma_ref_congruent(a: &Self, b: &Self, key: &Borrowed)
        requires
            a.same(b),
            b.ref_same(key),
        ensures
            a.ref_same(key),
    ;

    /// Construct the owned image of `val`.
    fn from_ref(val: &Borrowed) -> (r: Self)
        ensures
            r.ref_same(val),
    ;

    /// Decide whether this value is the owned image of `val`.
    fn ref_eq(&self, val: &Borrowed) -> (r: bool)
        ensures
            r == self.ref_same(val),
    ;
}

/// Identity: any storable value is its own owned image, via `duplicate`.
impl<T: InternValue> FromRef<T> for T {
    open spec fn ref_same(&self, key: &T) -> bool {
        self.same(key)
    }

    proof fn lemma_ref_functional(a: &T, b: &T, key: &T) {
        T::lemma_same_symmetric(b, key);
        T::lemma_same_transitive(a, key, b);
    }

    proof fn lemma_ref_congruent(a: &T, b: &T, key: &T) {
        T::lemma_same_transitive(a, b, key);
    }

    fn from_ref(val: &T) -> (r: T) {
        val.duplicate()
    }

    fn ref_eq(&self, val: &T) -> (r: bool) {
        self.value_eq(val)
    }
}

/// Text slice to growable owned string.
impl FromRef<str> for String {
    open spec fn ref_same(&self, key: &str) -> bool {
        self@ == key@
    }

    proof fn lemma_ref_functional(a: &String, b: &String, key: &str) {
    }

    proof fn lemma_ref_congruent(a: &String, b: &String, key: &str) {
    }

    fn from_ref(val: &str) -> (r: String) {
        val.to_owned()
    }

    fn ref_eq(&self, val: &str) -> (r: bool) {
        self.as_str().eq(val)
    }
}

/// Text slice to boxed owned string.
impl FromRef<str> for Box<str> {
    open spec fn ref_same(&self, key: &str) -> bool {
        self@ == key@
    }

    proof fn lemma_ref_functional(a: &Box<str>, b: &Box<str>, key: &str) {
    }

    proof fn lemma_ref_congruent(a: &Box<str>, b: &Box<str>, key: &str) {
    }

    fn from_ref(val: &str) -> (r: Box<str>) {
        box_str_from(val)
    }

    fn ref_eq(&self, val: &str) -> (r: bool) {
        box_str_as_str(self).eq(val)
    }
}

/// Element-storable slice to growable owned sequence.
impl<T: InternValue> FromRef<[T]> for Vec<T> {
    open spec fn ref_same(&self, key: &[T]) -> bool {
        seq_same(self@, key@)
    }

    proof fn lemma_ref_functional(a: &Vec<T>, b: &Vec<T>, key: &[T]) {
        assert forall|i: int| 0 <= i < a@.len() implies (#[trigger] a@[i]).same(&b@[i]) by {
            T::lemma_same_symmetric(&b@[i], &key@[i]);
            T::lemma_same_transitive(&a@[i], &key@[i], &b@[i]);
        }
    }

    proof fn lemma_ref_congruent(a: &Vec<T>, b: &Vec<T>, key: &[T]) {
        assert forall|i: int| 0 <= i < a@.len() implies (#[trigger] a@[i]).same(&key@[i]) by {
            T::lemma_same_transitive(&a@[i], &b@[i], &key@[i]);
        }
    }

    fn from_ref(val: &[T]) -> (r: Vec<T>) {
        slice_duplicate(val)
    }

    fn ref_eq(&self, val: &[T]) -> (r: bool) {
        slice_same_eq(self.as_slice(), val)
    }
}

/// Element-storable slice to boxed owned slice.
impl<T: InternValue> FromRef<[T]> for Box<[T]> {
    open spec fn ref_same(&self, key: &[T]) -> bool {
        seq_same(self@, key@)
    }

    proof fn lemma_ref_functional(a: &Box<[T]>, b: &Box<[T]>, key: &[T]) {
        assert forall|i: int| 0 <= i < a@.len() implies (#[trigger] a@[i]).same(&b@[i]) by {
            T::lemma_same_symmetric(&b@[i], &key@[i]);
            T::lemma_same_transitive(&a@[i], &key@[i], &b@[i]);
        }
    }

    proof fn lemma_ref_congruent(a: &Box<[T]>, b: &Box<[T]>, key: &[T]) {
        assert forall|i: int| 0 <= i < a@.len() implies (#[trigger] a@[i]).same(&key@[i]) by {
            T::lemma_same_transitive(&a@[i], &b@[i], &key@[i]);
        }
    }

    fn from_ref(val: &[T]) -> (r: Box<[T]>) {
        vec_into_boxed_slice(slice_duplicate(val))
    }

    fn ref_eq(&self, val: &[T]) -> (r: bool) {
        slice_same_eq(box_slice_as_slice(self), val)
    }
}

} // verus!
