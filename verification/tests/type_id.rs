use mun_abi::{
    is_compatible, ArrayTypeId, DerivedTypeIds, Guid, HasStaticTypeId, HasStaticTypeName,
    PointerTypeId, PrimitiveType, TypeId, ABI_VERSION, GET_INFO_FN_NAME, GET_VERSION_FN_NAME,
    SET_ALLOCATOR_HANDLE_FN_NAME,
};

#[test]
fn display() {
    assert_eq!(i32::type_id().to_string(), i32::guid().to_string());
    assert_eq!(
        TypeId::Concrete(Guid::from_str("core::f64")).to_string(),
        Guid::from_str("core::f64").to_string()
    );
    assert_eq!(
        TypeId::Concrete(Guid::from_str("core::void")).to_string(),
        Guid::from_str("core::void").to_string()
    );

    let i32_type_id = &i32::type_id();
    assert_eq!(
        TypeId::Pointer(PointerTypeId {
            pointee: i32_type_id,
            mutable: false
        })
        .to_string(),
        format!("*const {}", i32::guid().to_string())
    );
    assert_eq!(
        TypeId::Pointer(PointerTypeId {
            pointee: i32_type_id,
            mutable: true
        })
        .to_string(),
        format!("*mut {}", i32::guid().to_string())
    );

    assert_eq!(
        TypeId::Array(ArrayTypeId {
            element: i32_type_id
        })
        .to_string(),
        format!("[{}]", i32::guid().to_string())
    );
}

#[test]
fn display_of_nested_identities() {
    let leaf = i32::type_id();
    let pointer = TypeId::Pointer(PointerTypeId {
        pointee: &leaf,
        mutable: true,
    });
    let array = TypeId::Array(ArrayTypeId { element: &pointer });
    let outer = PointerTypeId {
        pointee: &array,
        mutable: false,
    };
    assert_eq!(
        outer.to_string(),
        "*const [*mut 17797a74-19d6-3217-d235-954317885bfa]"
    );
    assert_eq!(
        ArrayTypeId { element: &leaf }.to_string(),
        "[17797a74-19d6-3217-d235-954317885bfa]"
    );
}

#[test]
fn pointers_differ_by_mutability() {
    let pointee = u8::type_id();
    let mutable = TypeId::Pointer(PointerTypeId {
        pointee: &pointee,
        mutable: true,
    });
    let constant = TypeId::Pointer(PointerTypeId {
        pointee: &pointee,
        mutable: false,
    });
    assert!(mutable != constant);
    assert!(mutable == mutable.clone());
}

#[test]
fn arrays_differ_by_element() {
    let a = u8::type_id();
    let b = u16::type_id();
    let array_of_a = TypeId::Array(ArrayTypeId { element: &a });
    let array_of_b = TypeId::Array(ArrayTypeId { element: &b });
    assert!(array_of_a != array_of_b);
    assert!(array_of_a == TypeId::Array(ArrayTypeId { element: &a }));
    assert!(ArrayTypeId { element: &a } != ArrayTypeId { element: &b });
}

#[test]
fn equal_trees_are_equal_wherever_they_are_stored() {
    let leaf_one = Box::new(i64::type_id());
    let leaf_two = Box::new(TypeId::Concrete(Guid::from_str("core::i64")));
    let inner_one = Box::new(TypeId::Pointer(PointerTypeId {
        pointee: &leaf_one,
        mutable: false,
    }));
    let inner_two = Box::new(TypeId::Pointer(PointerTypeId {
        pointee: &leaf_two,
        mutable: false,
    }));
    let one = TypeId::Array(ArrayTypeId { element: &inner_one });
    let two = TypeId::Array(ArrayTypeId { element: &inner_two });
    assert!(!std::ptr::eq(&*inner_one, &*inner_two));
    assert!(one == two);

    let other_leaf = Box::new(i32::type_id());
    let other_inner = Box::new(TypeId::Pointer(PointerTypeId {
        pointee: &other_leaf,
        mutable: false,
    }));
    assert!(one != TypeId::Array(ArrayTypeId { element: &other_inner }));
}

#[test]
fn shapes_are_never_equal_to_each_other() {
    let leaf = bool::type_id();
    let pointer = TypeId::Pointer(PointerTypeId {
        pointee: &leaf,
        mutable: false,
    });
    let array = TypeId::Array(ArrayTypeId { element: &leaf });
    assert!(leaf != pointer);
    assert!(leaf != array);
    assert!(pointer != array);
}

#[test]
fn conversions_into_type_id() {
    let guid = Guid::from_str("core::u128");
    let leaf: TypeId = guid.into();
    assert!(leaf == TypeId::Concrete(guid));
    let pointer = PointerTypeId {
        pointee: &leaf,
        mutable: true,
    };
    assert!(TypeId::from(pointer) == TypeId::Pointer(pointer));
    let array = ArrayTypeId { element: &leaf };
    assert!(TypeId::from(array) == TypeId::Array(array));
}

#[test]
fn primitive_names() {
    assert_eq!(i8::name(), "core::i8");
    assert_eq!(i16::name(), "core::i16");
    assert_eq!(i32::name(), "core::i32");
    assert_eq!(i64::name(), "core::i64");
    assert_eq!(i128::name(), "core::i128");
    assert_eq!(u8::name(), "core::u8");
    assert_eq!(u16::name(), "core::u16");
    assert_eq!(u32::name(), "core::u32");
    assert_eq!(u64::name(), "core::u64");
    assert_eq!(u128::name(), "core::u128");
    assert_eq!(bool::name(), "core::bool");
    assert_eq!(<()>::name(), "core::empty");
}

#[test]
fn primitive_identities_are_those_of_their_names() {
    assert_eq!(i32::guid().to_string(), "17797a74-19d6-3217-d235-954317885bfa");
    assert_eq!(<()>::guid().to_string(), "981a7737-bd82-145a-d4a9-2efa4642c5ff");
    assert_eq!(u64::guid(), Guid::from_str("core::u64"));
    assert!(u8::type_id() == TypeId::Concrete(u8::guid()));
    assert!(bool::type_id() == TypeId::Concrete(Guid::from_str("core::bool")));
    assert!(i32::type_id() != u32::type_id());
}

#[test]
fn pointer_sized_integers_share_the_identity_of_their_width() {
    if usize::BITS == 64 {
        assert!(usize::type_id() == u64::type_id());
        assert!(isize::type_id() == i64::type_id());
        assert_eq!(usize::name(), "core::u64");
        assert_eq!(isize::guid(), i64::guid());
    } else {
        assert!(usize::type_id() == u32::type_id());
        assert!(isize::type_id() == i32::type_id());
        assert_eq!(usize::name(), "core::u32");
        assert_eq!(isize::guid(), i32::guid());
    }
}

#[test]
fn only_the_exact_version_is_compatible() {
    assert_eq!(ABI_VERSION, 300);
    assert!(is_compatible(300));
    assert!(!is_compatible(299));
    assert!(!is_compatible(301));
    assert!(!is_compatible(0));
    assert_eq!(GET_INFO_FN_NAME, "get_info");
    assert_eq!(GET_VERSION_FN_NAME, "get_version");
    assert_eq!(SET_ALLOCATOR_HANDLE_FN_NAME, "set_allocator_handle");
}

struct Vector3;

impl HasStaticTypeId for Vector3 {
    fn type_id() -> TypeId<'static> {
        TypeId::Concrete(Guid::from_str("game::Vector3"))
    }
}

impl HasStaticTypeName for Vector3 {
    fn static_type_name() -> &'static str {
        "game::Vector3"
    }
}

#[test]
fn user_types_can_have_identities() {
    assert!(Vector3::type_id() == TypeId::Concrete(Guid::from_str(Vector3::static_type_name())));
    assert!(Vector3::type_id() != i32::type_id());
    let mut ids = DerivedTypeIds::new();
    let pointer = ids.pointer_to_type::<Vector3>(true);
    assert_eq!(
        pointer.to_string(),
        format!("*mut {}", Guid::from_str("game::Vector3").to_string())
    );
}
