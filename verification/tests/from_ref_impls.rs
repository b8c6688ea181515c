use ahash::RandomState;

use xgx_intern::from_ref::FromRef;
use xgx_intern::Interner;

#[test]
fn test_from_ref_identity() {
    // Test the identity FromRef: any storable type is its own owned image.
    // We use u32, which is Copy/Clone
    let mut interner = Interner::<u32, RandomState>::new(RandomState::new());
    let val = 42u32;
    // intern_ref takes &Q. Here Q is u32. T is u32.
    // It should clone the integer.
    let h = interner.intern_ref(&val).unwrap();
    assert_eq!(*interner.resolve(h).unwrap(), 42);
}

// Helper to verify FromRef works for a specific type combo
fn assert_from_ref<
    B: ?Sized + PartialEq + core::fmt::Debug,
    O: FromRef<B> + core::borrow::Borrow<B> + core::fmt::Debug + PartialEq,
>(
    borrowed: &B,
    expected: &O,
) {
    let converted = O::from_ref(borrowed);
    assert_eq!(&converted, expected);
    assert_eq!(converted.borrow(), borrowed);
}

#[test]
fn test_identity_t() {
    // Test T -> T (Clone)
    let input = 42;
    assert_from_ref::<i32, i32>(&input, &42);
}

#[test]
fn from_ref_str_to_string() {
    let input = "hello";
    assert_from_ref::<str, String>(input, &String::from("hello"));

    // Interning through the str shape finds the value stored as a String.
    let mut interner = Interner::<String, RandomState>::new(RandomState::new());
    let h1 = interner.intern_ref(input).unwrap();
    let h2 = interner.intern_owned("hello".to_string()).unwrap();
    assert_eq!(h1, h2);
    assert_eq!(interner.len(), 1);
    assert_eq!(interner.resolve(h1), Some(&"hello".to_string()));
}

#[test]
fn from_ref_str_to_boxed_str() {
    let input = "hello";
    let b: Box<str> = Box::from("hello");
    assert_from_ref::<str, Box<str>>(input, &b);

    let mut interner = Interner::<Box<str>, RandomState>::new(RandomState::new());
    let h1 = interner.intern_ref(input).unwrap();
    let h2 = interner.intern_ref("hello").unwrap();
    assert_eq!(h1, h2);
    assert_eq!(interner.len(), 1);
    assert_eq!(&**interner.resolve(h1).unwrap(), "hello");
}

#[test]
fn from_ref_slice_to_boxed_slice() {
    let input: &[u8] = &[1, 2, 3];
    let b: Box<[u8]> = Box::from(input);
    assert_from_ref::<[u8], Box<[u8]>>(input, &b);

    let mut interner = Interner::<Box<[u32]>, RandomState>::new(RandomState::new());
    let slice: &[u32] = &[1, 2, 3];
    let h = interner.intern_ref(slice).unwrap();
    assert_eq!(&**interner.resolve(h).unwrap(), slice);
    let h2 = interner.intern_ref(slice).unwrap();
    assert_eq!(h, h2);
    assert_eq!(interner.len(), 1);
}

#[test]
fn from_ref_clone_only_slice_to_boxed_slice() {
    // Elements that are Clone but not Copy also reach the boxed form.
    let input: &[String] = &["x".to_string(), "y".to_string()];
    let b: Box<[String]> = Box::from(input);
    assert_from_ref::<[String], Box<[String]>>(input, &b);

    let mut interner = Interner::<Box<[String]>, RandomState>::new(RandomState::new());
    let h1 = interner.intern_ref(input).unwrap();
    let h2 = interner.intern_ref(input).unwrap();
    assert_eq!(h1, h2);
    assert_eq!(interner.len(), 1);
    assert_eq!(&**interner.resolve(h1).unwrap(), input);
}

#[test]
fn from_ref_slice_to_vec() {
    let input: &[u8] = &[1, 2, 3];
    assert_from_ref::<[u8], Vec<u8>>(input, &Vec::from(input));

    let mut interner = Interner::<Vec<u32>, RandomState>::new(RandomState::new());
    let slice: &[u32] = &[1, 2, 3];
    let h = interner.intern_ref(slice).unwrap();
    assert_eq!(&**interner.resolve(h).unwrap(), slice);

    // The same slice contents hit the stored vector again.
    let h2 = interner.intern_ref(slice).unwrap();
    assert_eq!(h, h2);
    assert_eq!(interner.len(), 1);
}
