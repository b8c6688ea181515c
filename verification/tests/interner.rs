use std::borrow::Cow;
use std::collections::hash_map::RandomState;
use std::hash::BuildHasherDefault;

use rustc_hash::FxHasher;

use xgx_intern::{Interner, InternerError};

// A helper to create a standard interner for tests that use strings.
fn create_string_interner() -> Interner<String, RandomState> {
    Interner::new(RandomState::new())
}

#[test]
fn test_new_and_empty() {
    let interner = create_string_interner();
    assert!(interner.is_empty());
    assert_eq!(interner.len(), 0);
}

#[test]
fn test_intern_owned_and_resolve() {
    let mut interner = create_string_interner();
    let item = "hello".to_string();
    let handle = interner.intern_owned(item.clone()).unwrap();

    assert!(!interner.is_empty());
    assert_eq!(interner.len(), 1);
    assert_eq!(interner.resolve(handle), Some(&item));
}

#[test]
fn test_intern_owned_duplicate_returns_same_handle() {
    let mut interner = create_string_interner();
    let item1 = "hello".to_string();
    let item2 = "hello".to_string();

    let handle1 = interner.intern_owned(item1).unwrap();
    let handle2 = interner.intern_owned(item2).unwrap();

    assert_eq!(handle1, handle2);
    assert_eq!(interner.len(), 1);
}

#[test]
fn test_intern_ref_and_resolve() {
    let mut interner = create_string_interner();
    let item = "world".to_string();

    let handle = interner.intern_ref(&item).unwrap();
    assert_eq!(interner.len(), 1);
    assert_eq!(interner.resolve(handle), Some(&item));
}

#[test]
fn test_intern_ref_duplicate_returns_same_handle() {
    let mut interner = create_string_interner();
    let item = "world".to_string();

    let handle_owned = interner.intern_owned(item.clone()).unwrap();
    assert_eq!(interner.len(), 1);

    let handle_ref = interner.intern_ref(&item).unwrap();
    assert_eq!(handle_owned, handle_ref);
    assert_eq!(interner.len(), 1);
}

#[test]
fn test_intern_cow_variants() {
    let mut interner = create_string_interner();
    let item = "cow".to_string();

    // Intern using Cow::Owned. We must specify the type for the Cow's generic
    // parameter to resolve the ambiguity between `String` and `str`.
    let handle1 = interner
        .intern_cow(Cow::<String>::Owned(item.clone()))
        .unwrap();
    assert_eq!(interner.len(), 1);
    assert_eq!(interner.resolve(handle1), Some(&item));

    // Intern using Cow::Borrowed, which should find the existing entry
    let handle2 = interner.intern_cow(Cow::Borrowed(&item)).unwrap();
    assert_eq!(handle1, handle2);
    assert_eq!(interner.len(), 1);

    // Intern a new item via Cow::Borrowed
    let new_item = "new_cow".to_string();
    let handle3 = interner.intern_cow(Cow::Borrowed(&new_item)).unwrap();
    assert_ne!(handle1, handle3);
    assert_eq!(interner.len(), 2);
    assert_eq!(interner.resolve(handle3), Some(&new_item));
}

#[test]
fn test_mixed_interning_provides_consistent_handles() {
    let mut interner = create_string_interner();
    let val = "test".to_string();

    let h_owned = interner.intern_owned(val.clone()).unwrap();
    let h_ref = interner.intern_ref(&val).unwrap();
    let h_cow = interner.intern_cow(Cow::Borrowed(&val)).unwrap();

    assert_eq!(h_owned, h_ref);
    assert_eq!(h_ref, h_cow);
    assert_eq!(interner.len(), 1);
}

#[test]
fn test_resolve_invalid_handle_returns_none() {
    let interner = create_string_interner();
    // Create an out-of-bounds handle. u32 is the default.
    let invalid_handle: u32 = 999;
    assert_eq!(interner.resolve(invalid_handle), None);
}

#[test]
fn test_custom_handle_type_u16() {
    let mut interner: Interner<i32, RandomState, u16> = Interner::new(RandomState::new());
    let h1 = interner.intern_owned(100).unwrap();
    let h2 = interner.intern_owned(200).unwrap();
    let h3 = interner.intern_owned(100).unwrap();

    assert_eq!(h1, 0u16);
    assert_eq!(h2, 1u16);
    assert_eq!(h1, h3);
    assert_eq!(interner.len(), 2);
}

#[test]
fn test_handle_overflow_error() {
    // Use a small handle type (u8) to make overflow easy to test.
    let mut interner: Interner<u16, RandomState, u8> = Interner::new(RandomState::new());

    // Intern 256 unique values (0 to 255), which should succeed.
    for i in 0..=255 {
        let handle_res = interner.intern_owned(i as u16);
        assert!(handle_res.is_ok());
        assert_eq!(handle_res.unwrap(), i as u8);
    }
    assert_eq!(interner.len(), 256);

    // The next unique insertion (the 257th) should fail.
    let overflow_res = interner.intern_owned(256);
    assert!(matches!(overflow_res, Err(InternerError::Overflow)));

    // The length should not have changed after the failed insertion.
    assert_eq!(interner.len(), 256);
}

#[test]
fn test_custom_hasher_fxhash() {
    // Use FxHasher for potentially faster hashing of integers.
    type FxBuildHasher = BuildHasherDefault<FxHasher>;
    let mut interner: Interner<i64, FxBuildHasher> = Interner::new(FxBuildHasher::default());

    let h1 = interner.intern_owned(12345).unwrap();
    let h2 = interner.intern_owned(12345).unwrap();

    assert_eq!(h1, h2);
    assert_eq!(interner.len(), 1);
}

#[test]
fn test_export_preserves_insertion_order() {
    let mut interner = create_string_interner();
    let h1 = interner.intern_owned("first".to_string()).unwrap();
    let h2 = interner.intern_owned("second".to_string()).unwrap();
    let _ = interner.intern_owned("first".to_string()).unwrap(); // Duplicate, should not affect order.

    let exported_data = interner.export();

    let expected = vec!["first".to_string(), "second".to_string()];
    assert_eq!(exported_data, expected);

    // The index from the exported vec should correspond to the handle.
    let idx1: usize = h1.try_into().ok().unwrap();
    let idx2: usize = h2.try_into().ok().unwrap();
    assert_eq!(exported_data[idx1], "first");
    assert_eq!(exported_data[idx2], "second");
}

#[test]
fn test_into_iterator_ref() {
    let mut interner = create_string_interner();
    interner.intern_ref("a").unwrap();
    interner.intern_ref("b").unwrap();

    let mut collected = Vec::new();
    for s in interner.iter() {
        collected.push(s.as_str());
    }

    assert_eq!(collected, vec!["a", "b"]);
}

#[test]
fn test_get_does_not_insert() {
    let mut interner = create_string_interner();
    assert!(interner.lookup_handle("x").is_ok_and(|h| h.is_none()));
    assert!(interner.is_empty());

    let h = interner.intern_ref("x").unwrap();
    assert_eq!(interner.lookup_handle("x").unwrap(), Some(h));
    assert_eq!(interner.len(), 1);
}

#[test]
fn test_contains() {
    let mut interner = create_string_interner();
    interner.intern_ref("abc").unwrap();
    assert!(interner.contains("abc"));
    assert!(!interner.contains("def"));
}

#[test]
fn intern_ref_or_insert_with_runs_make_only_on_miss() {
    let mut interner = create_string_interner();
    let mut ran = false;
    let h1 = interner
        .intern_ref_or_insert_with("key", || {
            ran = true;
            "key".to_string()
        })
        .unwrap();
    assert!(ran);
    assert_eq!(interner.len(), 1);

    let mut ran_again = false;
    let h2 = interner
        .intern_ref_or_insert_with("key", || {
            ran_again = true;
            "key".to_string()
        })
        .unwrap();
    assert!(!ran_again);
    assert_eq!(h1, h2);
    assert_eq!(interner.len(), 1);
}

#[test]
fn clear_empties_and_restarts_handles() {
    let mut interner = create_string_interner();
    interner.intern_owned("a".to_string()).unwrap();
    interner.intern_owned("b".to_string()).unwrap();
    assert_eq!(interner.len(), 2);

    interner.clear();
    assert!(interner.is_empty());

    // Handle assignment starts again at index 0.
    let h = interner.intern_owned("c".to_string()).unwrap();
    assert_eq!(h, 0u32);
}

#[test]
fn capacity_and_reserve_and_shrink_keep_contents() {
    let mut interner: Interner<String, RandomState> =
        Interner::with_capacity(RandomState::new(), 16);
    interner.intern_owned("a".to_string()).unwrap();
    interner.intern_owned("b".to_string()).unwrap();
    interner.intern_owned("c".to_string()).unwrap();

    assert!(interner.capacity() >= 3);
    interner.reserve(100);
    assert!(interner.capacity() >= 103);
    interner.shrink_to_fit();
    assert!(interner.capacity() >= 3);

    assert_eq!(interner.len(), 3);
    assert_eq!(interner.resolve(0u32), Some(&"a".to_string()));
    assert_eq!(interner.resolve(1u32), Some(&"b".to_string()));
    assert_eq!(interner.resolve(2u32), Some(&"c".to_string()));
}
