//! Arena export: flattening a store of string-like values into one buffer
//! plus a prefix-sum offsets table, avoiding per-value allocation overhead
//! when materializing many small strings.
//!
//! The offsets are byte positions into the buffer's UTF-8 encoding, so the
//! value behind handle `h` is the byte slice of the buffer between
//! `offsets[h]` and `offsets[h + 1]` — each such position falls on a
//! character boundary by construction.

use vstd::prelude::*;

use crate::handle::Handle;
use crate::value::{box_str_as_str, InternValue};
use crate::Interner;

verus! {

use vstd::string::StringExecFns;
use vstd::utf8::encode_utf8;

/// A string-like element: it exposes its contents as one borrowed text.
pub trait TextValue: Sized {
    /// The character sequence of this value.
    spec fn text(&self) -> Seq<char>;

    /// Borrows the text.
    fn as_text(&self) -> (r: &str)
        ensures
            r@ == self.text(),
    ;
}

impl TextValue for String {
    open spec fn text(&self) -> Seq<char> {
        self@
    }

    fn as_text(&self) -> (r: &str) {
        self.as_str()
    }
}

impl TextValue for Box<str> {
    open spec fn text(&self) -> Seq<char> {
        self@
    }

    fn as_text(&self) -> (r: &str) {
        box_str_as_str(self)
    }
}

/// The UTF-8 encoding of concatenated text is the concatenation of the
/// encodings.
proof fn lemma_encode_utf8_concat(a: Seq<char>, b: Seq<char>)
    ensures
        encode_utf8(a + b) == encode_utf8(a) + encode_utf8(b),
    decreases a.len(),
{
    if a.len() == 0 {
        assert(a + b =~= b);
        assert(encode_utf8(a) + encode_utf8(b) =~= encode_utf8(b));
    } else {
        lemma_encode_utf8_concat(a.drop_first(), b);
        assert((a + b).drop_first() =~= a.drop_first() + b);
        assert((a + b)[0] == a[0]);
        assert(encode_utf8(a + b) =~= encode_utf8(a) + encode_utf8(b));
    }
}

impl<T: InternValue + TextValue, S, H: Handle> Interner<T, S, H> {
    /// Consumes the interner and flattens all string-like values into a
    /// single contiguous arena.
    ///
    /// Returns the arena and a table of `len + 1` offsets, measured in bytes
    /// of the arena's UTF-8 encoding: the table starts at `0`, each entry
    /// advances by the encoded byte length of one stored value in insertion
    /// order, and the value associated with handle `h` occupies the bytes of
    /// the arena between `offsets[h]` and `offsets[h + 1]`.
    pub fn export_arena(self) -> (r: (String, Vec<usize>))
        ensures
            r.1@.len() == self@.len() + 1,
            r.1@[0] == 0,
            forall|i: int|
                0 <= i < self@.len() ==> r.1@[i + 1] == r.1@[i] + encode_utf8(
                    (#[trigger] self@[i]).text(),
                ).len(),
            encode_utf8(r.0@).len() == r.1@[self@.len() as int],
            forall|i: int|
                0 <= i < self@.len() ==> encode_utf8(r.0@).subrange(
                    r.1@[i] as int,
                    r.1@[i + 1] as int,
                ) == encode_utf8((#[trigger] self@[i]).text()),
    {
        let items = self.export();
        let n = items.len();
        let mut arena = String::new();
        let mut offsets: Vec<usize> = Vec::with_capacity(n);
        offsets.push(0);
        proof {
            assert(encode_utf8(arena@) =~= Seq::<u8>::empty());
        }
        let mut i: usize = 0;
        while i < n
            invariant
                n == items@.len(),
                i <= n,
                offsets@.len() == i + 1,
                offsets@[0] == 0,
                forall|j: int|
                    0 <= j < i ==> offsets@[j + 1] == offsets@[j] + encode_utf8(
                        (#[trigger] items@[j]).text(),
                    ).len(),
                forall|j: int| 0 <= j <= i ==> (#[trigger] offsets@[j]) <= encode_utf8(
                    arena@,
                ).len(),
                offsets@[i as int] == encode_utf8(arena@).len(),
                forall|j: int|
                    0 <= j < i ==> encode_utf8(arena@).subrange(
                        offsets@[j] as int,
                        offsets@[j + 1] as int,
                    ) == encode_utf8((#[trigger] items@[j]).text()),
            decreases n - i,
        {
            let ghost prev = arena@;
            let ghost prev_offsets = offsets@;
            arena.append(items[i].as_text());
            let end = arena.as_str().as_bytes().len();
            offsets.push(end);
            proof {
                let tail = items@[i as int].text();
                lemma_encode_utf8_concat(prev, tail);
                assert(arena@ == prev + tail);
                assert(encode_utf8(arena@) == encode_utf8(prev) + encode_utf8(tail));
                assert(offsets@ == prev_offsets.push(end));
                assert forall|j: int|
                    0 <= j < i + 1 implies encode_utf8(arena@).subrange(
                    offsets@[j] as int,
                    offsets@[j + 1] as int,
                ) == encode_utf8((#[trigger] items@[j]).text()) by {
                    let bytes = encode_utf8(arena@);
                    let prev_bytes = encode_utf8(prev);
                    if j < i {
                        let a = prev_offsets[j] as int;
                        let b = prev_offsets[j + 1] as int;
                        assert(offsets@[j] as int == a && offsets@[j + 1] as int == b);
                        assert(prev_offsets[j + 1] == prev_offsets[j] + encode_utf8(
                            (items@[j]).text(),
                        ).len());
                        assert(prev_offsets[j + 1] <= prev_bytes.len());
                        assert(0 <= a <= b <= prev_bytes.len());
                        assert forall|k: int| 0 <= k < b - a implies bytes.subrange(a, b)[k]
                            == prev_bytes.subrange(a, b)[k] by {
                            assert(bytes[a + k] == prev_bytes[a + k]);
                        }
                        assert(bytes.subrange(a, b) =~= prev_bytes.subrange(a, b));
                    } else {
                        assert(bytes.subrange(offsets@[j] as int, offsets@[j + 1] as int)
                            =~= encode_utf8(tail));
                    }
                }
            }
            i += 1;
        }
        (arena, offsets)
    }
}

} // verus!
