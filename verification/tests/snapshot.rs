use mun_abi::{
    AssemblyInfo, ArrayTypeId, DispatchTable, FunctionDefinition, FunctionPrototype,
    FunctionSignature, Guid, HasStaticTypeId, ModuleInfo, PointerTypeId, Privacy, Snapshot,
    StructDefinition, StructMemoryType, TypeDefinition, TypeDefinitionData, TypeId, TypeLut,
};

const I32_TEXT: &str = "17797a74-19d6-3217-d235-954317885bfa";
const U8_TEXT: &str = "a079a753-b628-6ef7-6626-48e1f9ad043e";

fn text(s: &str) -> Snapshot {
    Snapshot::Text(String::from(s))
}

fn concrete(s: &str) -> Snapshot {
    Snapshot::Variant("TypeId", 0, "Concrete", Box::new(text(s)))
}

#[test]
fn identity_is_projected_as_its_canonical_text() {
    assert_eq!(Guid::from_str("core::i32").snapshot(), text(I32_TEXT));
    assert_eq!(i32::type_id().snapshot(), concrete(I32_TEXT));
}

#[test]
fn tags_are_single_bytes() {
    assert_eq!(Privacy::Public.snapshot(), Snapshot::U8(0));
    assert_eq!(Privacy::Private.snapshot(), Snapshot::U8(1));
    assert_eq!(StructMemoryType::Gc.snapshot(), Snapshot::U8(0));
    assert_eq!(StructMemoryType::Value.snapshot(), Snapshot::U8(1));
}

#[test]
fn pointer_and_array_identities_are_projected_by_structure() {
    let leaf = i32::type_id();
    let pointer = PointerTypeId {
        pointee: &leaf,
        mutable: true,
    };
    let pointer_record = Snapshot::Record(
        "PointerTypeId",
        vec![
            ("pointee", concrete(I32_TEXT)),
            ("mutable", Snapshot::Flag(true)),
        ],
    );
    assert_eq!(pointer.snapshot(), pointer_record);
    let pointer_id = TypeId::Pointer(pointer);
    assert_eq!(
        pointer_id.snapshot(),
        Snapshot::Variant("TypeId", 1, "Pointer", Box::new(pointer.snapshot()))
    );

    let array = ArrayTypeId {
        element: &pointer_id,
    };
    assert_eq!(
        array.snapshot(),
        Snapshot::Record("ArrayTypeId", vec![("element", pointer_id.snapshot())])
    );
    assert_eq!(
        TypeId::Array(array).snapshot(),
        Snapshot::Variant("TypeId", 2, "Array", Box::new(array.snapshot()))
    );
}

#[test]
fn signature_projects_an_absent_return_type() {
    let arg_types = [i32::type_id(), u8::type_id()];
    let with_result = FunctionSignature::new(&arg_types, u8::type_id()).unwrap();
    assert_eq!(
        with_result.snapshot(),
        Snapshot::Record(
            "FunctionSignature",
            vec![
                (
                    "arg_types",
                    Snapshot::List(vec![concrete(I32_TEXT), concrete(U8_TEXT)])
                ),
                ("return_type", Snapshot::Present(Box::new(concrete(U8_TEXT)))),
            ]
        )
    );

    let without_result = FunctionSignature::new(&[], <()>::type_id()).unwrap();
    assert_eq!(
        without_result.snapshot(),
        Snapshot::Record(
            "FunctionSignature",
            vec![
                ("arg_types", Snapshot::List(vec![])),
                ("return_type", Snapshot::Absent),
            ]
        )
    );
}

#[test]
fn function_definition_leaves_out_the_address_of_the_code() {
    let signature = FunctionSignature::new(&[], <()>::type_id()).unwrap();
    let prototype = FunctionPrototype {
        name: "main",
        signature,
    };
    let definition = FunctionDefinition {
        prototype,
        fn_ptr: 0xdead_beef,
    };
    let expected_prototype = Snapshot::Record(
        "FunctionPrototype",
        vec![("name", text("main")), ("signature", signature.snapshot())],
    );
    assert_eq!(prototype.snapshot(), expected_prototype);
    assert_eq!(
        definition.snapshot(),
        Snapshot::Record("FunctionDefinition", vec![("prototype", expected_prototype)])
    );
    let other_address = FunctionDefinition {
        fn_ptr: 1,
        ..definition
    };
    assert_eq!(definition.snapshot(), other_address.snapshot());
}

fn point<'a>(types: &'a [TypeId<'a>]) -> StructDefinition<'a> {
    StructDefinition::new(
        Guid::from_str("core::i32"),
        &["x", "y"],
        types,
        &[0, 4],
        StructMemoryType::Value,
    )
    .unwrap()
}

#[test]
fn struct_projects_its_fields_in_order() {
    let types = [i32::type_id(), u8::type_id()];
    let definition = point(&types);
    let field = |name: &str, type_text: &str, offset: u16| {
        Snapshot::Record(
            "Field",
            vec![
                ("name", text(name)),
                ("type", concrete(type_text)),
                ("offset", Snapshot::U16(offset)),
            ],
        )
    };
    let expected = Snapshot::Record(
        "StructInfo",
        vec![
            ("guid", text(I32_TEXT)),
            (
                "fields",
                Snapshot::List(vec![field("x", I32_TEXT, 0), field("y", U8_TEXT, 4)]),
            ),
            ("memory_type", Snapshot::U8(1)),
        ],
    );
    assert_eq!(definition.snapshot(), expected);
    assert_eq!(definition.fields()[1].snapshot(), field("y", U8_TEXT, 4));

    let data = TypeDefinitionData::Struct(definition);
    let expected_data = Snapshot::Variant(
        "TypeDefinitionData",
        0,
        "Struct",
        Box::new(definition.snapshot()),
    );
    assert_eq!(data.snapshot(), expected_data);

    let type_definition = TypeDefinition {
        name: "Point",
        size: 40,
        alignment: 4,
        data,
    };
    assert_eq!(
        type_definition.snapshot(),
        Snapshot::Record(
            "TypeDefinition",
            vec![
                ("name", text("Point")),
                ("size", Snapshot::U32(40)),
                ("alignment", Snapshot::U8(4)),
                ("data", data.snapshot()),
            ]
        )
    );
}

#[test]
fn tables_leave_out_what_their_slots_hold() {
    let signature = FunctionSignature::new(&[], <()>::type_id()).unwrap();
    let prototypes = [
        FunctionPrototype {
            name: "one",
            signature,
        },
        FunctionPrototype {
            name: "two",
            signature,
        },
    ];
    let table = DispatchTable::new(&prototypes, vec![5, 6]).unwrap();
    let expected = Snapshot::Record(
        "DispatchTable",
        vec![(
            "prototypes",
            Snapshot::List(vec![prototypes[0].snapshot(), prototypes[1].snapshot()]),
        )],
    );
    assert_eq!(table.snapshot(), expected);
    let rebound = DispatchTable::new(&prototypes, vec![7, 8]).unwrap();
    assert_eq!(rebound.snapshot(), expected);

    let ids = [i32::type_id(), u8::type_id()];
    let names = ["core::i32", "core::u8"];
    let lut = TypeLut::new(&ids, vec![9, 10], &names).unwrap();
    let elem = |name: &str, type_text: &str| {
        Snapshot::Record(
            "Elem",
            vec![("name", text(name)), ("type", concrete(type_text))],
        )
    };
    assert_eq!(
        lut.snapshot(),
        Snapshot::List(vec![elem("core::i32", I32_TEXT), elem("core::u8", U8_TEXT)])
    );
}

#[test]
fn assembly_projects_everything_it_holds() {
    let signature = FunctionSignature::new(&[], <()>::type_id()).unwrap();
    let prototype = FunctionPrototype {
        name: "exported",
        signature,
    };
    let functions = [FunctionDefinition {
        prototype,
        fn_ptr: 64,
    }];
    let field_types = [i32::type_id(), u8::type_id()];
    let types = [TypeDefinition {
        name: "Point",
        size: 40,
        alignment: 4,
        data: TypeDefinitionData::Struct(point(&field_types)),
    }];
    let module = ModuleInfo::new("some/module", &functions, &types).unwrap();
    let expected_module = Snapshot::Record(
        "ModuleInfo",
        vec![
            ("path", text("some/module")),
            ("functions", Snapshot::List(vec![functions[0].snapshot()])),
            ("types", Snapshot::List(vec![types[0].snapshot()])),
        ],
    );
    assert_eq!(module.snapshot(), expected_module);

    let required = [prototype];
    let dispatch_table = DispatchTable::new(&required, vec![0]).unwrap();
    let expected_dispatch_table = dispatch_table.snapshot();
    let type_lut = TypeLut::new(&[], Vec::new(), &[]).unwrap();
    let assembly =
        AssemblyInfo::new(module, dispatch_table, type_lut, &["second", "first"]).unwrap();
    assert!(assembly.is_valid());
    assert_eq!(
        assembly.snapshot(),
        Snapshot::Record(
            "AssemblyInfo",
            vec![
                ("symbols", expected_module),
                ("dispatch_table", expected_dispatch_table),
                ("type_lut", Snapshot::List(vec![])),
                (
                    "dependencies",
                    Snapshot::List(vec![text("second"), text("first")])
                ),
            ]
        )
    );
}
