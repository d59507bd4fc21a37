use std::cell::Cell;

use mun_abi::{
    ArrayTypeId, DerivedTypeIds, HasStaticTypeId, PointerTypeId, Reinitialized, StaticTypeMap,
    TypeId,
};

#[test]
fn first_request_installs_and_later_requests_observe_it() {
    let mut map: StaticTypeMap<String> = StaticTypeMap::new();
    let key = i32::type_id();
    assert!(map.get(&key).is_none());

    let calls = Cell::new(0);
    let first = map.call_once(key, || {
        calls.set(calls.get() + 1);
        String::from("first")
    });
    assert_eq!(first, "first");
    assert_eq!(calls.get(), 1);

    let second = map.call_once(key, || {
        calls.set(calls.get() + 1);
        String::from("second")
    });
    assert_eq!(second, "first");
    assert_eq!(calls.get(), 1);
    assert!(std::ptr::eq(first, second));
    assert!(std::ptr::eq(first, map.get(&key).unwrap()));
}

#[test]
fn keys_are_compared_by_structure() {
    let mut map: StaticTypeMap<u32> = StaticTypeMap::default();
    let leaf: &'static TypeId<'static> = Box::leak(Box::new(u8::type_id()));
    let other_leaf: &'static TypeId<'static> = Box::leak(Box::new(u8::type_id()));
    let key = TypeId::Pointer(PointerTypeId {
        pointee: leaf,
        mutable: true,
    });
    let same_key = TypeId::Pointer(PointerTypeId {
        pointee: other_leaf,
        mutable: true,
    });
    let other_key = TypeId::Pointer(PointerTypeId {
        pointee: leaf,
        mutable: false,
    });

    assert_eq!(*map.call_once(key, || 1), 1);
    assert_eq!(*map.call_once(other_key, || 2), 2);
    assert_eq!(*map.call_once(same_key, || 3), 1);
    assert_eq!(map.get(&same_key), Some(&1));
    assert_eq!(map.get(&other_key), Some(&2));
    assert_eq!(map.get(&u8::type_id()), None);
}

#[test]
fn many_requests_for_one_key_compute_once() {
    let mut map: StaticTypeMap<usize> = StaticTypeMap::new();
    let calls = Cell::new(0usize);
    let mut seen = Vec::new();
    for round in 0..16 {
        let value = map.call_once(u64::type_id(), || {
            calls.set(calls.get() + 1);
            round + 40
        });
        seen.push(*value);
    }
    assert_eq!(calls.get(), 1);
    assert!(seen.iter().all(|value| *value == 40));
}

#[test]
fn pointer_identities_are_derived_once() {
    let mut ids = DerivedTypeIds::new();
    let pointee = i32::type_id();

    let constant = ids.pointer(pointee, false);
    assert!(
        *constant
            == TypeId::Pointer(PointerTypeId {
                pointee: &pointee,
                mutable: false
            })
    );
    let mutable = ids.pointer(pointee, true);
    assert!(
        *mutable
            == TypeId::Pointer(PointerTypeId {
                pointee: &pointee,
                mutable: true
            })
    );
    assert!(*constant != *mutable);

    assert!(std::ptr::eq(constant, ids.pointer(i32::type_id(), false)));
    assert!(std::ptr::eq(mutable, ids.pointer(i32::type_id(), true)));
    assert!(std::ptr::eq(constant, ids.pointer_to_type::<i32>(false)));
    assert!(!std::ptr::eq(constant, ids.pointer_to_type::<u32>(false)));
}

#[test]
fn array_identities_are_derived_once() {
    let mut ids = DerivedTypeIds::default();
    let element = u16::type_id();
    let array = ids.array(element);
    assert!(*array == TypeId::Array(ArrayTypeId { element: &element }));
    assert!(std::ptr::eq(array, ids.array_of_type::<u16>()));
    assert!(!std::ptr::eq(array, ids.array_of_type::<u8>()));

    let pointer = ids.pointer(element, false);
    assert!(*pointer != *array);
}

#[test]
fn derived_identities_nest() {
    let mut ids = DerivedTypeIds::new();
    let inner = *ids.pointer_to_type::<u8>(true);
    let outer = ids.pointer(inner, false);
    assert_eq!(
        outer.to_string(),
        "*const *mut a079a753-b628-6ef7-6626-48e1f9ad043e"
    );
    let array = ids.array(*outer);
    assert_eq!(
        array.to_string(),
        "[*const *mut a079a753-b628-6ef7-6626-48e1f9ad043e]"
    );
    assert!(std::ptr::eq(outer, ids.pointer(inner, false)));
}

#[test]
fn installing_under_an_installed_key_is_refused() {
    let mut map: StaticTypeMap<&'static str> = StaticTypeMap::new();
    let key = i8::type_id();
    let first = map.install(key, "first").expect("the key is new");
    assert_eq!(*first, "first");
    assert!(std::ptr::eq(first, map.get(&key).unwrap()));

    assert_eq!(map.install(key, "second"), Err(Reinitialized));
    assert_eq!(map.install(i8::type_id(), "first"), Err(Reinitialized));
    assert_eq!(map.get(&key), Some(&"first"));
    assert_eq!(*map.call_once(key, || "third"), "first");

    assert_eq!(map.install(i16::type_id(), "other"), Ok(&"other"));
    assert_eq!(map.get(&key), Some(&"first"));
    assert_eq!(map.get(&i16::type_id()), Some(&"other"));
}

#[test]
fn a_request_that_finds_nothing_installs_what_it_computed() {
    let mut map: StaticTypeMap<u8> = StaticTypeMap::new();
    assert_eq!(*map.call_once(u8::type_id(), || 8), 8);
    assert_eq!(map.install(u8::type_id(), 9), Err(Reinitialized));
    assert_eq!(map.get(&u8::type_id()), Some(&8));
}
