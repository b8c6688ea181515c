//! The handle algebra: a fallible, bidirectional mapping between a dense
//! zero-based index and an opaque, caller-chosen unsigned handle type.
//!
//! This is the single choke-point for capacity exhaustion: converting an
//! index to a handle fails exactly when the handle type cannot represent the
//! index, and every insert path of the store checks that conversion before it
//! mutates anything.

use vstd::prelude::*;

verus! {

use vstd::pervasive::VecAdditionalExecFns;

/// An unsigned handle type, convertible to and from a dense index.
///
/// A handle is a plain copyable value carrying no ownership; two handles are
/// equal exactly when they denote the same index (`lemma_idx_injective`).
pub trait Handle: Copy + Sized {
    /// The index this handle denotes.
    spec fn idx_of(self) -> nat;

    /// The number of distinct indices the handle type can represent; a store
    /// keyed by this handle type holds at most this many values.
    spec fn max_count() -> nat;

    /// Two handles denoting the same index are the same handle.
    proof fn lemma_idx_injective(a: Self, b: Self)
        requires
            a.idx_of() == b.idx_of(),
        ensures
            a == b,
    ;

    /// Converts a dense index to a handle; returns `None` exactly when the
    /// handle type cannot represent `idx`.
    fn index_to_handle(idx: usize) -> (r: Option<Self>)
        ensures
            r is Some <==> (idx as nat) < Self::max_count(),
            r matches Some(h) ==> h.idx_of() == idx as nat,
    ;

    /// Converts a handle back to a lookup index; fails only when the index
    /// cannot be represented on the host.
    fn handle_to_index(self) -> (r: Option<usize>)
        ensures
            r matches Some(i) ==> i as nat == self.idx_of(),
            r is None ==> self.idx_of() > usize::MAX as nat,
    ;

    /// Repairs this handle after the value at `removed` was deleted from the
    /// store: a handle strictly above the removed slot moves down by one, any
    /// other handle is returned unchanged.
    fn repair_after_remove(self, removed: Self) -> (r: Self)
        ensures
            self.idx_of() > removed.idx_of() ==> r.idx_of() == self.idx_of() - 1,
            self.idx_of() <= removed.idx_of() ==> r == self,
    ;
}

impl Handle for u8 {
    open spec fn idx_of(self) -> nat {
        self as nat
    }

    open spec fn max_count() -> nat {
        u8::MAX as nat + 1
    }

    proof fn lemma_idx_injective(a: u8, b: u8) {
    }

    fn index_to_handle(idx: usize) -> (r: Option<u8>) {
        if idx <= u8::MAX as usize {
            Some(idx as u8)
        } else {
            None
        }
    }

    fn handle_to_index(self) -> (r: Option<usize>) {
        Some(self as usize)
    }

    fn repair_after_remove(self, removed: u8) -> (r: u8) {
        if self > removed {
            self - 1
        } else {
            self
        }
    }
}

impl Handle for u16 {
    open spec fn idx_of(self) -> nat {
        self as nat
    }

    open spec fn max_count() -> nat {
        u16::MAX as nat + 1
    }

    proof fn lemma_idx_injective(a: u16, b: u16) {
    }

    fn index_to_handle(idx: usize) -> (r: Option<u16>) {
        if idx <= u16::MAX as usize {
            Some(idx as u16)
        } else {
            None
        }
    }

    fn handle_to_index(self) -> (r: Option<usize>) {
        Some(self as usize)
    }

    fn repair_after_remove(self, removed: u16) -> (r: u16) {
        if self > removed {
            self - 1
        } else {
            self
        }
    }
}

impl Handle for u32 {
    open spec fn idx_of(self) -> nat {
        self as nat
    }

    open spec fn max_count() -> nat {
        u32::MAX as nat + 1
    }

    proof fn lemma_idx_injective(a: u32, b: u32) {
    }

    fn index_to_handle(idx: usize) -> (r: Option<u32>) {
        if idx <= u32::MAX as usize {
            Some(idx as u32)
        } else {
            None
        }
    }

    fn handle_to_index(self) -> (r: Option<usize>) {
        Some(self as usize)
    }

    fn repair_after_remove(self, removed: u32) -> (r: u32) {
        if self > removed {
            self - 1
        } else {
            self
        }
    }
}

impl Handle for u64 {
    open spec fn idx_of(self) -> nat {
        self as nat
    }

    open spec fn max_count() -> nat {
        u64::MAX as nat + 1
    }

    proof fn lemma_idx_injective(a: u64, b: u64) {
    }

    fn index_to_handle(idx: usize) -> (r: Option<u64>) {
        Some(idx as u64)
    }

    fn handle_to_index(self) -> (r: Option<usize>) {
        if self <= usize::MAX as u64 {
            Some(self as usize)
        } else {
            None
        }
    }

    fn repair_after_remove(self, removed: u64) -> (r: u64) {
        if self > removed {
            self - 1
        } else {
            self
        }
    }
}

impl Handle for usize {
    open spec fn idx_of(self) -> nat {
        self as nat
    }

    open spec fn max_count() -> nat {
        usize::MAX as nat + 1
    }

    proof fn lemma_idx_injective(a: usize, b: usize) {
    }

    fn index_to_handle(idx: usize) -> (r: Option<usize>) {
        Some(idx)
    }

    fn handle_to_index(self) -> (r: Option<usize>) {
        Some(self)
    }

    fn repair_after_remove(self, removed: usize) -> (r: usize) {
        if self > removed {
            self - 1
        } else {
            self
        }
    }
}

/// Repairs every externally held handle after a removal: each handle strictly
/// greater than `removed` is decremented by one in place; handles less than
/// or equal to `removed` are left untouched.
///
/// A removal invalidates every handle above the removed slot; this is the
/// sanctioned repair path for handles persisted outside the store.
pub fn repair_handles<H: Handle>(removed: H, handles: &mut Vec<H>)
    ensures
        final(handles)@.len() == old(handles)@.len(),
        forall|i: int|
            0 <= i < old(handles)@.len() ==> {
                let h = old(handles)@[i];
                &&& h.idx_of() > removed.idx_of() ==> (#[trigger] final(handles)@[i]).idx_of()
                    == h.idx_of() - 1
                &&& h.idx_of() <= removed.idx_of() ==> final(handles)@[i] == h
            },
{
    let n = handles.len();
    let mut i: usize = 0;
    while i < n
        invariant
            n == handles@.len(),
            i <= n,
            handles@.len() == old(handles)@.len(),
            forall|j: int|
                i <= j < n ==> handles@[j] == old(handles)@[j],
            forall|j: int|
                0 <= j < i ==> {
                    let h = old(handles)@[j];
                    &&& h.idx_of() > removed.idx_of() ==> (#[trigger] handles@[j]).idx_of()
                        == h.idx_of() - 1
                    &&& h.idx_of() <= removed.idx_of() ==> handles@[j] == h
                },
        decreases n - i,
    {
        let repaired = handles[i].repair_after_remove(removed);
        handles.set(i, repaired);
        i += 1;
    }
}

} // verus!
