//! The element-key capability: a total equality relation on the element type,
//! decidable in executable code.
//!
//! The store deduplicates under this relation, so it must be an equivalence:
//! reflexive, symmetric and transitive. Native floating-point equality is not
//! total (NaN is not equal to itself), which is why floats enter the store
//! through the bit-pattern wrapper in [`crate::float`].

use vstd::prelude::*;

verus! {

/// Relies on `<str as PartialEq>::eq`: two string slices compare equal
/// exactly when they hold the same sequence of characters.
pub assume_specification[ <str as PartialEq>::eq ](a: &str, b: &str) -> (r: bool)
    ensures
        r == (a@ == b@),
;

/// A value the store can hold: a type with a total equality relation `same`,
/// decided by `value_eq` and realized on demand by `duplicate`.
pub trait InternValue: Sized {
    /// The element type's logical equality: the relation under which the
    /// store deduplicates.
    spec fn same(&self, other: &Self) -> bool;

    /// `same` is reflexive: every value equals itself (this is where native
    /// float equality would fail).
    proof fn lemma_same_reflexive(x: &Self)
        ensures
            x.same(x),
    ;

    /// `same` is symmetric.
    proof fn lemma_same_symmetric(x: &Self, y: &Self)
        requires
            x.same(y),
        ensures
            y.same(x),
    ;

    /// `same` is transitive.
    proof fn lemma_same_transitive(x: &Self, y: &Self, z: &Self)
        requires
            x.same(y),
            y.same(z),
        ensures
            x.same(z),
    ;

    /// Decides `same`.
    fn value_eq(&self, other: &Self) -> (r: bool)
        ensures
            r == self.same(other),
    ;

    /// Produces a value `same` as this one: a clone under the element type's
    /// equality.
    fn duplicate(&self) -> (r: Self)
        ensures
            r.same(self),
    ;
}

impl InternValue for String {
    open spec fn same(&self, other: &String) -> bool {
        self@ == other@
    }

    proof fn lemma_same_reflexive(x: &String) {
    }

    proof fn lemma_same_symmetric(x: &String, y: &String) {
    }

    proof fn lemma_same_transitive(x: &String, y: &String, z: &String) {
    }

    fn value_eq(&self, other: &String) -> (r: bool) {
        self.eq(other)
    }

    fn duplicate(&self) -> (r: String) {
        self.clone()
    }
}

impl InternValue for i128 {
    open spec fn same(&self, other: &i128) -> bool {
        *self == *other
    }

    proof fn lemma_same_reflexive(x: &i128) {
    }

    proof fn lemma_same_symmetric(x: &i128, y: &i128) {
    }

    proof fn lemma_same_transitive(x: &i128, y: &i128, z: &i128) {
    }

    fn value_eq(&self, other: &i128) -> (r: bool) {
        *self == *other
    }

    fn duplicate(&self) -> (r: i128) {
        *self
    }
}

impl InternValue for isize {
    open spec fn same(&self, other: &isize) -> bool {
        *self == *other
    }

    proof fn lemma_same_reflexive(x: &isize) {
    }

    proof fn lemma_same_symmetric(x: &isize, y: &isize) {
    }

    proof fn lemma_same_transitive(x: &isize, y: &isize, z: &isize) {
    }

    fn value_eq(&self, other: &isize) -> (r: bool) {
        *self == *other
    }

    fn duplicate(&self) -> (r: isize) {
        *self
    }
}

impl InternValue for bool {
    open spec fn same(&self, other: &bool) -> bool {
        *self == *other
    }

    proof fn lemma_same_reflexive(x: &bool) {
    }

    proof fn lemma_same_symmetric(x: &bool, y: &bool) {
    }

    proof fn lemma_same_transitive(x: &bool, y: &bool, z: &bool) {
    }

    fn value_eq(&self, other: &bool) -> (r: bool) {
        *self == *other
    }

    fn duplicate(&self) -> (r: bool) {
        *self
    }
}

impl InternValue for char {
    open spec fn same(&self, other: &char) -> bool {
        *self == *other
    }

    proof fn lemma_same_reflexive(x: &char) {
    }

    proof fn lemma_same_symmetric(x: &char, y: &char) {
    }

    proof fn lemma_same_transitive(x: &char, y: &char, z: &char) {
    }

    fn value_eq(&self, other: &char) -> (r: bool) {
        *self == *other
    }

    fn duplicate(&self) -> (r: char) {
        *self
    }
}

/// Pointwise element equality of two sequences of storable values.
pub open spec fn seq_same<T: InternValue>(a: Seq<T>, b: Seq<T>) -> bool {
    &&& a.len() == b.len()
    &&& forall|i: int| 0 <= i < a.len() ==> (#[trigger] a[i]).same(&b[i])
}

/// Decides `seq_same` on two slices.
pub(crate) fn slice_same_eq<T: InternValue>(a: &[T], b: &[T]) -> (r: bool)
    ensures
        r == seq_same(a@, b@),
{
    let n = a.len();
    if n != b.len() {
        return false;
    }
    let mut i: usize = 0;
    while i < n
        invariant
            n == a@.len(),
            n == b@.len(),
            i <= n,
            forall|j: int| 0 <= j < i ==> (#[trigger] a@[j]).same(&b@[j]),
        decreases n - i,
    {
        if !a[i].value_eq(&b[i]) {
            return false;
        }
        i += 1;
    }
    true
}

/// Duplicates the elements of a slice into an owned vector, pointwise `same`.
pub(crate) fn slice_duplicate<T: InternValue>(a: &[T]) -> (r: Vec<T>)
    ensures
        seq_same(r@, a@),
{
    let n = a.len();
    let mut out: Vec<T> = Vec::with_capacity(n);
    let mut i: usize = 0;
    while i < n
        invariant
            n == a@.len(),
            i <= n,
            out@.len() == i,
            forall|j: int| 0 <= j < i ==> (#[trigger] out@[j]).same(&a@[j]),
        decreases n - i,
    {
        out.push(a[i].duplicate());
        i += 1;
    }
    out
}

/// Relies on `Box`'s `Deref` for `str`: dereferencing yields the boxed slice
/// itself.
#[verifier::external_body]
pub(crate) fn box_str_as_str(b: &Box<str>) -> (r: &str)
    ensures
        r@ == b@,
{
    b
}

/// Relies on `Box::<str>::from(&str)`: it allocates a copy of the string
/// slice.
#[verifier::external_body]
pub(crate) fn box_str_from(val: &str) -> (r: Box<str>)
    ensures
        r@ == val@,
{
    Box::from(val)
}

/// Relies on `Box`'s `Deref` for `[T]`: dereferencing yields the boxed slice
/// itself.
#[verifier::external_body]
pub(crate) fn box_slice_as_slice<T>(b: &Box<[T]>) -> (r: &[T])
    ensures
        r@ == b@,
{
    b
}

/// Relies on `Vec::into_boxed_slice`: it converts the vector into a boxed
/// slice of the very same elements, dropping only excess capacity.
#[verifier::external_body]
pub(crate) fn vec_into_boxed_slice<T>(v: Vec<T>) -> (r: Box<[T]>)
    ensures
        r@ == v@,
{
    v.into_boxed_slice()
}

/// A boxed string slice is a storable value: equality is equality of the
/// character sequences.
impl InternValue for Box<str> {
    open spec fn same(&self, other: &Box<str>) -> bool {
        self@ == other@
    }

    proof fn lemma_same_reflexive(x: &Box<str>) {
    }

    proof fn lemma_same_symmetric(x: &Box<str>, y: &Box<str>) {
    }

    proof fn lemma_same_transitive(x: &Box<str>, y: &Box<str>, z: &Box<str>) {
    }

    fn value_eq(&self, other: &Box<str>) -> (r: bool) {
        box_str_as_str(self).eq(box_str_as_str(other))
    }

    fn duplicate(&self) -> (r: Box<str>) {
        box_str_from(box_str_as_str(self))
    }
}

/// A boxed slice of storable elements is a storable value: equality is
/// pointwise element equality.
impl<T: InternValue> InternValue for Box<[T]> {
    open spec fn same(&self, other: &Box<[T]>) -> bool {
        seq_same(self@, other@)
    }

    proof fn lemma_same_reflexive(x: &Box<[T]>) {
        assert forall|i: int| 0 <= i < x@.len() implies (#[trigger] x@[i]).same(&x@[i]) by {
            T::lemma_same_reflexive(&x@[i]);
        }
    }

    proof fn lemma_same_symmetric(x: &Box<[T]>, y: &Box<[T]>) {
        assert forall|i: int| 0 <= i < y@.len() implies (#[trigger] y@[i]).same(&x@[i]) by {
            T::lemma_same_symmetric(&x@[i], &y@[i]);
        }
    }

    proof fn lemma_same_transitive(x: &Box<[T]>, y: &Box<[T]>, z: &Box<[T]>) {
        assert forall|i: int| 0 <= i < x@.len() implies (#[trigger] x@[i]).same(&z@[i]) by {
            T::lemma_same_transitive(&x@[i], &y@[i], &z@[i]);
        }
    }

    fn value_eq(&self, other: &Box<[T]>) -> (r: bool) {
        slice_same_eq(box_slice_as_slice(self), box_slice_as_slice(other))
    }

    fn duplicate(&self) -> (r: Box<[T]>) {
        vec_into_boxed_slice(slice_duplicate(box_slice_as_slice(self)))
    }
}

/// An owned sequence is a storable value when its elements are: equality is
/// pointwise element equality.
impl<T: InternValue> InternValue for Vec<T> {
    open spec fn same(&self, other: &Vec<T>) -> bool {
        seq_same(self@, other@)
    }

    proof fn lemma_same_reflexive(x: &Vec<T>) {
        assert forall|i: int| 0 <= i < x@.len() implies (#[trigger] x@[i]).same(&x@[i]) by {
            T::lemma_same_reflexive(&x@[i]);
        }
    }

    proof fn lemma_same_symmetric(x: &Vec<T>, y: &Vec<T>) {
        assert forall|i: int| 0 <= i < y@.len() implies (#[trigger] y@[i]).same(&x@[i]) by {
            T::lemma_same_symmetric(&x@[i], &y@[i]);
        }
    }

    proof fn lemma_same_transitive(x: &Vec<T>, y: &Vec<T>, z: &Vec<T>) {
        assert forall|i: int| 0 <= i < x@.len() implies (#[trigger] x@[i]).same(&z@[i]) by {
            T::lemma_same_transitive(&x@[i], &y@[i], &z@[i]);
        }
    }

    fn value_eq(&self, other: &Vec<T>) -> (r: bool) {
        slice_same_eq(self.as_slice(), other.as_slice())
    }

    fn duplicate(&self) -> (r: Vec<T>) {
        slice_duplicate(self.as_slice())
    }
}

impl InternValue for u8 {
    open spec fn same(&self, other: &u8) -> bool {
        *self == *other
    }

    proof fn lemma_same_reflexive(x: &u8) {
    }

    proof fn lemma_same_symmetric(x: &u8, y: &u8) {
    }

    proof fn lemma_same_transitive(x: &u8, y: &u8, z: &u8) {
    }

    fn value_eq(&self, other: &u8) -> (r: bool) {
        *self == *other
    }

    fn duplicate(&self) -> (r: u8) {
        *self
    }
}

impl InternValue for u16 {
    open spec fn same(&self, other: &u16) -> bool {
        *self == *other
    }

    proof fn lemma_same_reflexive(x: &u16) {
    }

    proof fn lemma_same_symmetric(x: &u16, y: &u16) {
    }

    proof fn lemma_same_transitive(x: &u16, y: &u16, z: &u16) {
    }

    fn value_eq(&self, other: &u16) -> (r: bool) {
        *self == *other
    }

    fn duplicate(&self) -> (r: u16) {
        *self
    }
}

impl InternValue for u32 {
    open spec fn same(&self, other: &u32) -> bool {
        *self == *other
    }

    proof fn lemma_same_reflexive(x: &u32) {
    }

    proof fn lemma_same_symmetric(x: &u32, y: &u32) {
    }

    proof fn lemma_same_transitive(x: &u32, y: &u32, z: &u32) {
    }

    fn value_eq(&self, other: &u32) -> (r: bool) {
        *self == *other
    }

    fn duplicate(&self) -> (r: u32) {
        *self
    }
}

impl InternValue for u64 {
    open spec fn same(&self, other: &u64) -> bool {
        *self == *other
    }

    proof fn lemma_same_reflexive(x: &u64) {
    }

    proof fn lemma_same_symmetric(x: &u64, y: &u64) {
    }

    proof fn lemma_same_transitive(x: &u64, y: &u64, z: &u64) {
    }

    fn value_eq(&self, other: &u64) -> (r: bool) {
        *self == *other
    }

    fn duplicate(&self) -> (r: u64) {
        *self
    }
}

impl InternValue for usize {
    open spec fn same(&self, other: &usize) -> bool {
        *self == *other
    }

    proof fn lemma_same_reflexive(x: &usize) {
    }

    proof fn lemma_same_symmetric(x: &usize, y: &usize) {
    }

    proof fn lemma_same_transitive(x: &usize, y: &usize, z: &usize) {
    }

    fn value_eq(&self, other: &usize) -> (r: bool) {
        *self == *other
    }

    fn duplicate(&self) -> (r: usize) {
        *self
    }
}

impl InternValue for u128 {
    open spec fn same(&self, other: &u128) -> bool {
        *self == *other
    }

    proof fn lemma_same_reflexive(x: &u128) {
    }

    proof fn lemma_same_symmetric(x: &u128, y: &u128) {
    }

    proof fn lemma_same_transitive(x: &u128, y: &u128, z: &u128) {
    }

    fn value_eq(&self, other: &u128) -> (r: bool) {
        *self == *other
    }

    fn duplicate(&self) -> (r: u128) {
        *self
    }
}

impl InternValue for i8 {
    open spec fn same(&self, other: &i8) -> bool {
        *self == *other
    }

    proof fn lemma_same_reflexive(x: &i8) {
    }

    proof fn lemma_same_symmetric(x: &i8, y: &i8) {
    }

    proof fn lemma_same_transitive(x: &i8, y: &i8, z: &i8) {
    }

    fn value_eq(&self, other: &i8) -> (r: bool) {
        *self == *other
    }

    fn duplicate(&self) -> (r: i8) {
        *self
    }
}

impl InternValue for i16 {
    open spec fn same(&self, other: &i16) -> bool {
        *self == *other
    }

    proof fn lemma_same_reflexive(x: &i16) {
    }

    proof fn lemma_same_symmetric(x: &i16, y: &i16) {
    }

    proof fn lemma_same_transitive(x: &i16, y: &i16, z: &i16) {
    }

    fn value_eq(&self, other: &i16) -> (r: bool) {
        *self == *other
    }

    fn duplicate(&self) -> (r: i16) {
        *self
    }
}

impl InternValue for i32 {
    open spec fn same(&self, other: &i32) -> bool {
        *self == *other
    }

    proof fn lemma_same_reflexive(x: &i32) {
    }

    proof fn lemma_same_symmetric(x: &i32, y: &i32) {
    }

    proof fn lemma_same_transitive(x: &i32, y: &i32, z: &i32) {
    }

    fn value_eq(&self, other: &i32) -> (r: bool) {
        *self == *other
    }

    fn duplicate(&self) -> (r: i32) {
        *self
    }
}

impl InternValue for i64 {
    open spec fn same(&self, other: &i64) -> bool {
        *self == *other
    }

    proof fn lemma_same_reflexive(x: &i64) {
    }

    proof fn lemma_same_symmetric(x: &i64, y: &i64) {
    }

    proof fn lemma_same_transitive(x: &i64, y: &i64, z: &i64) {
    }

    fn value_eq(&self, other: &i64) -> (r: bool) {
        *self == *other
    }

    fn duplicate(&self) -> (r: i64) {
        *self
    }
}

} // verus!
