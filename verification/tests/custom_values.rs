use std::collections::hash_map::RandomState;

use xgx_intern::value::InternValue;
use xgx_intern::Interner;

#[derive(Debug, Clone, Hash, Eq, PartialEq)]
struct TestStruct {
    id: u32,
    name: String,
}

// An integrator-supplied element type: equality is the derived structural
// equality, duplication is the derived clone. The ghost items of the trait
// (the `same` relation and its three laws) are erased in compiled code, so an
// unverified impl supplies them as plain functions that nothing ever calls.
impl InternValue for TestStruct {
    fn same(&self, other: &Self) -> bool {
        self == other
    }

    fn lemma_same_reflexive(_: &Self) {}

    fn lemma_same_symmetric(_: &Self, _: &Self) {}

    fn lemma_same_transitive(_: &Self, _: &Self, _: &Self) {}

    fn value_eq(&self, other: &Self) -> bool {
        self == other
    }

    fn duplicate(&self) -> Self {
        self.clone()
    }
}

#[test]
fn test_with_custom_struct_type() {
    let mut interner: Interner<TestStruct, RandomState> = Interner::new(RandomState::new());
    let item1 = TestStruct {
        id: 1,
        name: "one".into(),
    };
    let item2 = TestStruct {
        id: 1,
        name: "one".into(),
    };
    let item3 = TestStruct {
        id: 2,
        name: "two".into(),
    };

    let h1 = interner.intern_ref(&item1).unwrap();
    let h2 = interner.intern_ref(&item2).unwrap();
    let h3 = interner.intern_ref(&item3).unwrap();

    assert_eq!(h1, h2);
    assert_ne!(h1, h3);
    assert_eq!(interner.len(), 2);
    assert_eq!(interner.resolve(h1), Some(&item1));
}
