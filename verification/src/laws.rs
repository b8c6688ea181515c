//! The store's general guarantees, stated once over the contracts of the
//! intern, resolve, remove and repair operations and proved for every element
//! type, key shape and handle type.

use vstd::prelude::*;

use crate::from_ref::FromRef;
use crate::handle::Handle;
use crate::value::InternValue;
use crate::{Interner, InternerError};

verus! {

/// In a well-formed store, at most one slot holds the owned image of a key:
/// the slot a successful intern call names is unique.
pub proof fn lemma_match_unique<Q: ?Sized, T: FromRef<Q>, S, H: Handle>(
    s: Interner<T, S, H>,
    key: &Q,
    i: int,
    j: int,
)
    requires
        s.wf(),
        0 <= i < s@.len(),
        0 <= j < s@.len(),
        s@[i].ref_same(key),
        s@[j].ref_same(key),
    ensures
        i == j,
{
    if i != j {
        T::lemma_ref_functional(&s@[i], &s@[j], key);
        T::lemma_same_symmetric(&s@[i], &s@[j]);
    }
}

/// Idempotence: once a key has been interned successfully, interning it again
/// returns the very same handle, cannot fail, and leaves the store — in
/// particular its length — unchanged.
///
/// `s0 -> s1` is the first successful intern of `key` (any of the intern
/// operations, whose shared postcondition is `intern_post`), and `s1 -> s2`
/// a second intern of the same key.
pub proof fn lemma_intern_idempotent<Q: ?Sized, T: FromRef<Q>, S, H: Handle>(
    s0: Interner<T, S, H>,
    s1: Interner<T, S, H>,
    s2: Interner<T, S, H>,
    key: &Q,
    h1: H,
    r2: Result<H, InternerError>,
)
    requires
        s1.wf(),
        Interner::intern_post(s0, s1, key, Ok(h1)),
        Interner::intern_post(s1, s2, key, r2),
    ensures
        r2 == Ok::<H, InternerError>(h1),
        s2@ == s1@,
{
    let i1 = h1.idx_of() as int;
    assert(s1@[i1].ref_same(key));
    match r2 {
        Ok(h2) => {
            lemma_match_unique(s1, key, i1, h2.idx_of() as int);
            H::lemma_idx_injective(h1, h2);
        },
        Err(_) => {
            assert(s1.spec_contains_ref(key));
        },
    }
}

/// Round-trip: a handle produced by a successful intern of `key` names a slot
/// of the resulting store, and the value in that slot — the one `resolve`
/// returns for the handle — is the owned image of `key`.
pub proof fn lemma_intern_round_trip<Q: ?Sized, T: FromRef<Q>, S, H: Handle>(
    pre: Interner<T, S, H>,
    post: Interner<T, S, H>,
    key: &Q,
    h: H,
)
    requires
        Interner::intern_post(pre, post, key, Ok(h)),
    ensures
        h.idx_of() < post@.len(),
        post@[h.idx_of() as int].ref_same(key),
{
}

/// Order: an intern call never moves an existing slot. So, with no removals,
/// the value at position `i` of `export()` is still the value that the
/// intern call which produced the handle for index `i` stored there.
pub proof fn lemma_intern_preserves_slots<Q: ?Sized, T: FromRef<Q>, S, H: Handle>(
    pre: Interner<T, S, H>,
    post: Interner<T, S, H>,
    key: &Q,
    r: Result<H, InternerError>,
)
    requires
        Interner::intern_post(pre, post, key, r),
    ensures
        pre@.len() <= post@.len(),
        forall|i: int| 0 <= i < pre@.len() ==> post@[i] == pre@[i],
{
}

/// Removal repair: after the slot named by `removed` is deleted, a handle
/// repaired as `repair_after_remove` and `repair_handles` do — decremented
/// when strictly above the removed slot, untouched otherwise — names the very
/// value it named before the removal.
pub proof fn lemma_remove_then_repair<T: InternValue, S, H: Handle>(
    pre: Interner<T, S, H>,
    post: Interner<T, S, H>,
    removed: H,
    h: H,
    repaired: H,
)
    requires
        removed.idx_of() < pre@.len(),
        post@ == pre@.remove(removed.idx_of() as int),
        h.idx_of() < pre@.len(),
        h.idx_of() != removed.idx_of(),
        h.idx_of() > removed.idx_of() ==> repaired.idx_of() == h.idx_of() - 1,
        h.idx_of() <= removed.idx_of() ==> repaired == h,
    ensures
        repaired.idx_of() < post@.len(),
        post@[repaired.idx_of() as int] == pre@[h.idx_of() as int],
{
    pre@.remove_ensures(removed.idx_of() as int);
}

} // verus!
