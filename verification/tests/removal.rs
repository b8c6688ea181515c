use std::collections::hash_map::RandomState;

use xgx_intern::handle::repair_handles;
use xgx_intern::Interner;

fn create_string_interner() -> Interner<String, RandomState> {
    Interner::new(RandomState::new())
}

#[test]
fn remove_shifts_and_repair_restores() {
    let mut interner = create_string_interner();
    let h0 = interner.intern_owned("A".to_string()).unwrap();
    let h1 = interner.intern_owned("B".to_string()).unwrap();
    let h2 = interner.intern_owned("C".to_string()).unwrap();
    assert_eq!((h0, h1, h2), (0u32, 1u32, 2u32));

    let removed = interner.remove("B");
    assert_eq!(removed, Some((1u32, "B".to_string())));
    assert_eq!(interner.len(), 2);

    // Below the removed slot: unaffected. Above it: shifted down, so the old
    // top handle is now out of range and the old top value sits one lower.
    assert_eq!(interner.resolve(0u32), Some(&"A".to_string()));
    assert_eq!(interner.resolve(2u32), None);
    assert_eq!(interner.resolve(1u32), Some(&"C".to_string()));

    // Repairing an external handle list re-points every stale handle.
    let mut handles: Vec<u32> = vec![0, 1, 2];
    repair_handles(1u32, &mut handles);
    assert_eq!(handles, vec![0, 1, 1]);
    assert_eq!(interner.resolve(handles[2]), Some(&"C".to_string()));
}

#[test]
fn remove_absent_returns_none() {
    let mut interner = create_string_interner();
    interner.intern_owned("A".to_string()).unwrap();
    assert_eq!(interner.remove("Z"), None);
    assert_eq!(interner.len(), 1);
}

#[test]
fn remove_by_handle_returns_value() {
    let mut interner = create_string_interner();
    interner.intern_owned("A".to_string()).unwrap();
    interner.intern_owned("B".to_string()).unwrap();

    assert_eq!(interner.remove_by_handle(0u32), Some("A".to_string()));
    assert_eq!(interner.len(), 1);
    assert_eq!(interner.resolve(0u32), Some(&"B".to_string()));

    // A handle past the end names nothing.
    assert_eq!(interner.remove_by_handle(5u32), None);
    assert_eq!(interner.len(), 1);
}

#[test]
fn export_arena_concatenates_in_order() {
    let mut interner = create_string_interner();
    interner.intern_owned("hello".to_string()).unwrap();
    interner.intern_owned("world".to_string()).unwrap();

    let (buffer, offsets) = interner.export_arena();
    assert_eq!(buffer, "helloworld".to_string());
    assert_eq!(offsets, vec![0, 5, 10]);

    let words = ["hello", "world"];
    for (h, word) in words.iter().enumerate() {
        assert_eq!(&buffer[offsets[h]..offsets[h + 1]], *word);
    }
}

#[test]
fn export_arena_offsets_are_byte_positions() {
    let mut interner = create_string_interner();
    // "aé" is three bytes in UTF-8 (the 'é' takes two), but two characters.
    interner.intern_owned("a\u{e9}".to_string()).unwrap();
    interner.intern_owned("b".to_string()).unwrap();

    let (buffer, offsets) = interner.export_arena();
    assert_eq!(buffer, "a\u{e9}b".to_string());
    assert_eq!(offsets, vec![0, 3, 4]);
    assert_eq!(&buffer[offsets[0]..offsets[1]], "a\u{e9}");
    assert_eq!(&buffer[offsets[1]..offsets[2]], "b");
}

#[test]
fn export_arena_of_boxed_str_store() {
    let mut interner: Interner<Box<str>, RandomState> = Interner::new(RandomState::new());
    interner.intern_ref("hello").unwrap();
    interner.intern_ref("world").unwrap();

    let (buffer, offsets) = interner.export_arena();
    assert_eq!(buffer, "helloworld".to_string());
    assert_eq!(offsets, vec![0, 5, 10]);
}

#[test]
fn export_arena_of_empty_store() {
    let interner = create_string_interner();
    let (buffer, offsets) = interner.export_arena();
    assert_eq!(buffer, String::new());
    assert_eq!(offsets, vec![0]);
}
