//! Structural snapshots of descriptors, for diagnostics. A snapshot goes one
//! way only: nothing is read back from it. Identities appear as their
//! canonical text, names as text, and the addresses of code and the contents
//! of slots do not appear at all.

use crate::assembly_info::AssemblyInfo;
use crate::dispatch_table::DispatchTable;
use crate::function_info::{
    void_type_id, FunctionDefinition, FunctionPrototype, FunctionSignature,
};
use crate::guid::{hyphenated, Guid};
use crate::module_info::ModuleInfo;
use crate::struct_info::{Field, StructDefinition, StructMemoryType};
use crate::type_id::{ArrayTypeId, PointerTypeId, TypeId};
use crate::type_info::{TypeDefinition, TypeDefinitionData};
use crate::type_lut::TypeLut;
use crate::Privacy;
use vstd::prelude::*;
use vstd::string::StringExecFns;

verus! {

/// The mathematical form of a snapshot.
pub enum SnapshotView {
    Absent,
    Present(Box<SnapshotView>),
    U8(u8),
    U16(u16),
    U32(u32),
    Flag(bool),
    Text(Seq<char>),
    List(Seq<SnapshotView>),
    Record(Seq<char>, Seq<(Seq<char>, SnapshotView)>),
    Variant(Seq<char>, u32, Seq<char>, Box<SnapshotView>),
}

/// A structural snapshot of a descriptor: a tree of records, lists, texts and
/// numbers that any writer can walk.
#[derive(Debug, PartialEq, Eq)]
pub enum Snapshot {
    /// The place of a value that is absent.
    Absent,
    /// A value that could have been absent.
    Present(Box<Snapshot>),
    U8(u8),
    U16(u16),
    U32(u32),
    Flag(bool),
    Text(String),
    /// Items in order.
    List(Vec<Snapshot>),
    /// A record: its name, and its fields in order, each under its name.
    Record(&'static str, Vec<(&'static str, Snapshot)>),
    /// One case of several: the name of the type, the position and the name
    /// of the case, and what the case holds.
    Variant(&'static str, u32, &'static str, Box<Snapshot>),
}

impl Snapshot {
    /// The mathematical form of the snapshot.
    pub open spec fn tree(&self) -> SnapshotView
        decreases self,
    {
        match self {
            Snapshot::Absent => SnapshotView::Absent,
            Snapshot::Present(value) => SnapshotView::Present(Box::new(value.tree())),
            Snapshot::U8(n) => SnapshotView::U8(*n),
            Snapshot::U16(n) => SnapshotView::U16(*n),
            Snapshot::U32(n) => SnapshotView::U32(*n),
            Snapshot::Flag(b) => SnapshotView::Flag(*b),
            Snapshot::Text(text) => SnapshotView::Text(text@),
            Snapshot::List(items) => SnapshotView::List(
                Seq::new(
                    items@.len(),
                    |i: int|
                        if 0 <= i < items@.len() {
                            items@[i].tree()
                        } else {
                            SnapshotView::Absent
                        },
                ),
            ),
            Snapshot::Record(name, fields) => SnapshotView::Record(
                name@,
                Seq::new(
                    fields@.len(),
                    |i: int|
                        if 0 <= i < fields@.len() {
                            (fields@[i].0@, fields@[i].1.tree())
                        } else {
                            (Seq::empty(), SnapshotView::Absent)
                        },
                ),
            ),
            Snapshot::Variant(of, index, name, value) => SnapshotView::Variant(
                of@,
                *index,
                name@,
                Box::new(value.tree()),
            ),
        }
    }
}

impl View for Snapshot {
    type V = SnapshotView;

    open spec fn view(&self) -> SnapshotView {
        self.tree()
    }
}

/// The snapshot of a text.
fn text(s: &str) -> (snapshot: Snapshot)
    ensures
        snapshot@ == SnapshotView::Text(s@),
{
    Snapshot::Text(String::from_str(s))
}

/// A list of snapshots, given the snapshots of its items.
fn list(items: Vec<Snapshot>, Ghost(shapes): Ghost<Seq<SnapshotView>>) -> (snapshot: Snapshot)
    requires
        items@.len() == shapes.len(),
        forall|i: int| 0 <= i < shapes.len() ==> (#[trigger] items@[i])@ == shapes[i],
    ensures
        snapshot@ == SnapshotView::List(shapes),
{
    let snapshot = Snapshot::List(items);
    assert(snapshot@->List_0 =~= shapes);
    snapshot
}

/// A record, given its fields.
fn record(
    name: &'static str,
    fields: Vec<(&'static str, Snapshot)>,
    Ghost(shapes): Ghost<Seq<(Seq<char>, SnapshotView)>>,
) -> (snapshot: Snapshot)
    requires
        fields@.len() == shapes.len(),
        forall|i: int|
            0 <= i < shapes.len() ==> ((#[trigger] fields@[i]).0@, fields@[i].1@) == shapes[i],
    ensures
        snapshot@ == SnapshotView::Record(name@, shapes),
{
    let snapshot = Snapshot::Record(name, fields);
    assert(snapshot@->Record_1 =~= shapes);
    snapshot
}

impl Guid {
    /// The snapshot of an identity: its canonical text.
    pub open spec fn shape(&self) -> SnapshotView {
        SnapshotView::Text(hyphenated(self@))
    }

    /// Takes the snapshot of the identity.
    pub fn snapshot(&self) -> (snapshot: Snapshot)
        ensures
            snapshot@ == self.shape(),
    {
        Snapshot::Text(self.to_string())
    }
}

impl Privacy {
    /// The single byte that stands for the case.
    pub open spec fn tag(&self) -> u8 {
        match self {
            Privacy::Public => 0,
            Privacy::Private => 1,
        }
    }

    /// The snapshot of a privacy: its tag.
    pub open spec fn shape(&self) -> SnapshotView {
        SnapshotView::U8(self.tag())
    }

    /// Takes the snapshot of the privacy.
    pub fn snapshot(&self) -> (snapshot: Snapshot)
        ensures
            snapshot@ == self.shape(),
    {
        match self {
            Privacy::Public => Snapshot::U8(0),
            Privacy::Private => Snapshot::U8(1),
        }
    }
}

impl StructMemoryType {
    /// The single byte that stands for the case.
    pub open spec fn tag(&self) -> u8 {
        match self {
            StructMemoryType::Gc => 0,
            StructMemoryType::Value => 1,
        }
    }

    /// The snapshot of a memory type: its tag.
    pub open spec fn shape(&self) -> SnapshotView {
        SnapshotView::U8(self.tag())
    }

    /// Takes the snapshot of the memory type.
    pub fn snapshot(&self) -> (snapshot: Snapshot)
        ensures
            snapshot@ == self.shape(),
    {
        match self {
            StructMemoryType::Gc => Snapshot::U8(0),
            StructMemoryType::Value => Snapshot::U8(1),
        }
    }
}

impl<'a> PointerTypeId<'a> {
    /// The snapshot of a pointer identity: the record of its pointee and its
    /// mutability.
    pub open spec fn shape(&self) -> SnapshotView
        decreases *self,
    {
        SnapshotView::Record(
            "PointerTypeId"@,
            seq![
                ("pointee"@, self.pointee.shape()),
                ("mutable"@, SnapshotView::Flag(self.mutable)),
            ],
        )
    }

    /// Takes the snapshot of the pointer identity.
    pub fn snapshot(&self) -> (snapshot: Snapshot)
        ensures
            snapshot@ == self.shape(),
        decreases *self,
    {
        let mut fields: Vec<(&'static str, Snapshot)> = Vec::new();
        fields.push(("pointee", self.pointee.snapshot()));
        fields.push(("mutable", Snapshot::Flag(self.mutable)));
        let ghost shapes = seq![
            ("pointee"@, self.pointee.shape()),
            ("mutable"@, SnapshotView::Flag(self.mutable)),
        ];
        record("PointerTypeId", fields, Ghost(shapes))
    }
}

impl<'a> ArrayTypeId<'a> {
    /// The snapshot of an array identity: the record of its element.
    pub open spec fn shape(&self) -> SnapshotView
        decreases *self,
    {
        SnapshotView::Record("ArrayTypeId"@, seq![("element"@, self.element.shape())])
    }

    /// Takes the snapshot of the array identity.
    pub fn snapshot(&self) -> (snapshot: Snapshot)
        ensures
            snapshot@ == self.shape(),
        decreases *self,
    {
        let mut fields: Vec<(&'static str, Snapshot)> = Vec::new();
        fields.push(("element", self.element.snapshot()));
        let ghost shapes = seq![("element"@, self.element.shape())];
        record("ArrayTypeId", fields, Ghost(shapes))
    }
}

impl<'a> TypeId<'a> {
    /// The snapshot of a type identity: which of the three cases it is, with
    /// the canonical text of a concrete identity, or the record of a pointer
    /// or of an array.
    pub open spec fn shape(&self) -> SnapshotView
        decreases *self,
    {
        match *self {
            TypeId::Concrete(guid) => SnapshotView::Variant(
                "TypeId"@,
                0,
                "Concrete"@,
                Box::new(guid.shape()),
            ),
            TypeId::Pointer(pointer) => SnapshotView::Variant(
                "TypeId"@,
                1,
                "Pointer"@,
                Box::new(pointer.shape()),
            ),
            TypeId::Array(array) => SnapshotView::Variant(
                "TypeId"@,
                2,
                "Array"@,
                Box::new(array.shape()),
            ),
        }
    }

    /// Takes the snapshot of the type identity.
    pub fn snapshot(&self) -> (snapshot: Snapshot)
        ensures
            snapshot@ == self.shape(),
        decreases *self,
    {
        match self {
            TypeId::Concrete(guid) => Snapshot::Variant(
                "TypeId",
                0,
                "Concrete",
                Box::new(guid.snapshot()),
            ),
            TypeId::Pointer(pointer) => Snapshot::Variant(
                "TypeId",
                1,
                "Pointer",
                Box::new(pointer.snapshot()),
            ),
            TypeId::Array(array) => Snapshot::Variant(
                "TypeId",
                2,
                "Array",
                Box::new(array.snapshot()),
            ),
        }
    }
}

/// The snapshots of some type identities, in order.
pub open spec fn type_id_shapes(ids: Seq<TypeId<'_>>) -> Seq<SnapshotView> {
    Seq::new(ids.len(), |i: int| ids[i].shape())
}

/// The snapshots of some texts, in order.
pub open spec fn text_shapes(texts: Seq<&str>) -> Seq<SnapshotView> {
    Seq::new(texts.len(), |i: int| SnapshotView::Text(texts[i]@))
}

/// Takes the snapshots of some type identities, in order.
fn type_id_list(ids: &[TypeId<'_>]) -> (snapshot: Snapshot)
    ensures
        snapshot@ == SnapshotView::List(type_id_shapes(ids@)),
{
    let mut items: Vec<Snapshot> = Vec::new();
    let mut i: usize = 0;
    while i < ids.len()
        invariant
            i <= ids@.len(),
            items@.len() == i,
            forall|k: int| 0 <= k < i ==> (#[trigger] items@[k])@ == ids@[k].shape(),
        decreases ids@.len() - i,
    {
        items.push(ids[i].snapshot());
        i += 1;
    }
    list(items, Ghost(type_id_shapes(ids@)))
}

/// Takes the snapshots of some texts, in order.
fn text_list(texts: &[&str]) -> (snapshot: Snapshot)
    ensures
        snapshot@ == SnapshotView::List(text_shapes(texts@)),
{
    let mut items: Vec<Snapshot> = Vec::new();
    let mut i: usize = 0;
    while i < texts.len()
        invariant
            i <= texts@.len(),
            items@.len() == i,
            forall|k: int| 0 <= k < i ==> (#[trigger] items@[k])@ == SnapshotView::Text(texts@[k]@),
        decreases texts@.len() - i,
    {
        items.push(text(texts[i]));
        i += 1;
    }
    list(items, Ghost(text_shapes(texts@)))
}

impl<'a> Field<'a> {
    /// The snapshot of a field: the record of its name, type and offset.
    pub open spec fn shape(&self) -> SnapshotView {
        SnapshotView::Record(
            "Field"@,
            seq![
                ("name"@, SnapshotView::Text(self.name@)),
                ("type"@, self.type_id.shape()),
                ("offset"@, SnapshotView::U16(self.offset)),
            ],
        )
    }

    /// Takes the snapshot of the field.
    pub fn snapshot(&self) -> (snapshot: Snapshot)
        ensures
            snapshot@ == self.shape(),
    {
        let mut fields: Vec<(&'static str, Snapshot)> = Vec::new();
        fields.push(("name", text(self.name)));
        fields.push(("type", self.type_id.snapshot()));
        fields.push(("offset", Snapshot::U16(self.offset)));
        let ghost shapes = seq![
            ("name"@, SnapshotView::Text(self.name@)),
            ("type"@, self.type_id.shape()),
            ("offset"@, SnapshotView::U16(self.offset)),
        ];
        record("Field", fields, Ghost(shapes))
    }
}

impl<'a> StructDefinition<'a> {
    /// The snapshot of a layout: the record of its identity, of its fields
    /// in order and of its memory type.
    pub open spec fn shape(&self) -> SnapshotView {
        SnapshotView::Record(
            "StructInfo"@,
            seq![
                ("guid"@, self.guid.shape()),
                (
                    "fields"@,
                    SnapshotView::List(
                        Seq::new(self.num_fields as nat, |i: int| self.field(i).shape()),
                    ),
                ),
                ("memory_type"@, self.memory_type.shape()),
            ],
        )
    }

    /// Takes the snapshot of the layout.
    pub fn snapshot(&self) -> (snapshot: Snapshot)
        requires
            self.wf(),
        ensures
            snapshot@ == self.shape(),
    {
        let layout = self.fields();
        let mut items: Vec<Snapshot> = Vec::new();
        let mut i: usize = 0;
        while i < layout.len()
            invariant
                i <= layout@.len(),
                layout@.len() == self.num_fields,
                forall|k: int| 0 <= k < layout@.len() ==> #[trigger] layout@[k] == self.field(k),
                items@.len() == i,
                forall|k: int| 0 <= k < i ==> (#[trigger] items@[k])@ == self.field(k).shape(),
            decreases layout@.len() - i,
        {
            items.push(layout[i].snapshot());
            i += 1;
        }
        let ghost item_shapes = Seq::new(self.num_fields as nat, |i: int| self.field(i).shape());
        let mut fields: Vec<(&'static str, Snapshot)> = Vec::new();
        fields.push(("guid", self.guid.snapshot()));
        fields.push(("fields", list(items, Ghost(item_shapes))));
        fields.push(("memory_type", self.memory_type.snapshot()));
        let ghost shapes = seq![
            ("guid"@, self.guid.shape()),
            ("fields"@, SnapshotView::List(item_shapes)),
            ("memory_type"@, self.memory_type.shape()),
        ];
        record("StructInfo", fields, Ghost(shapes))
    }
}

impl<'a> TypeDefinitionData<'a> {
    /// The snapshot of a kind: which case it is, with the snapshot of what
    /// is known of it.
    pub open spec fn shape(&self) -> SnapshotView {
        SnapshotView::Variant(
            "TypeDefinitionData"@,
            0,
            "Struct"@,
            Box::new(self->Struct_0.shape()),
        )
    }

    /// Takes the snapshot of the kind.
    pub fn snapshot(&self) -> (snapshot: Snapshot)
        requires
            self->Struct_0.wf(),
        ensures
            snapshot@ == self.shape(),
    {
        match self {
            TypeDefinitionData::Struct(s) => Snapshot::Variant(
                "TypeDefinitionData",
                0,
                "Struct",
                Box::new(s.snapshot()),
            ),
        }
    }
}

impl<'a> TypeDefinition<'a> {
    /// The snapshot of a type definition: the record of its name, size,
    /// alignment and kind.
    pub open spec fn shape(&self) -> SnapshotView {
        SnapshotView::Record(
            "TypeDefinition"@,
            seq![
                ("name"@, SnapshotView::Text(self.name@)),
                ("size"@, SnapshotView::U32(self.size)),
                ("alignment"@, SnapshotView::U8(self.alignment)),
                ("data"@, self.data.shape()),
            ],
        )
    }

    /// Takes the snapshot of the type definition.
    pub fn snapshot(&self) -> (snapshot: Snapshot)
        requires
            self.wf(),
        ensures
            snapshot@ == self.shape(),
    {
        let mut fields: Vec<(&'static str, Snapshot)> = Vec::new();
        fields.push(("name", text(self.name)));
        fields.push(("size", Snapshot::U32(self.size)));
        fields.push(("alignment", Snapshot::U8(self.alignment)));
        fields.push(("data", self.data.snapshot()));
        let ghost shapes = seq![
            ("name"@, SnapshotView::Text(self.name@)),
            ("size"@, SnapshotView::U32(self.size)),
            ("alignment"@, SnapshotView::U8(self.alignment)),
            ("data"@, self.data.shape()),
        ];
        record("TypeDefinition", fields, Ghost(shapes))
    }
}

/// The snapshot of a type identity that may be absent.
pub open spec fn optional_shape(id: Option<TypeId<'_>>) -> SnapshotView {
    match id {
        Some(id) => SnapshotView::Present(Box::new(id.shape())),
        None => SnapshotView::Absent,
    }
}

impl<'a> FunctionSignature<'a> {
    /// The snapshot of a signature: the record of its argument types in
    /// order and of its return type, which is absent for a function that
    /// returns nothing.
    pub open spec fn shape(&self) -> SnapshotView {
        SnapshotView::Record(
            "FunctionSignature"@,
            seq![
                ("arg_types"@, SnapshotView::List(type_id_shapes(self.args()))),
                ("return_type"@, optional_shape(self.returns_unless(void_type_id()))),
            ],
        )
    }

    /// Takes the snapshot of the signature.
    pub fn snapshot(&self) -> (snapshot: Snapshot)
        requires
            self.wf(),
        ensures
            snapshot@ == self.shape(),
    {
        let returned = match self.return_type() {
            Some(id) => Snapshot::Present(Box::new(id.snapshot())),
            None => Snapshot::Absent,
        };
        assert(returned@ == optional_shape(self.returns_unless(void_type_id())));
        let mut fields: Vec<(&'static str, Snapshot)> = Vec::new();
        fields.push(("arg_types", type_id_list(self.arg_types())));
        fields.push(("return_type", returned));
        let ghost shapes = seq![
            ("arg_types"@, SnapshotView::List(type_id_shapes(self.args()))),
            ("return_type"@, optional_shape(self.returns_unless(void_type_id()))),
        ];
        record("FunctionSignature", fields, Ghost(shapes))
    }
}

impl<'a> FunctionPrototype<'a> {
    /// The snapshot of a prototype: the record of its name and signature.
    pub open spec fn shape(&self) -> SnapshotView {
        SnapshotView::Record(
            "FunctionPrototype"@,
            seq![("name"@, SnapshotView::Text(self.name@)), ("signature"@, self.signature.shape())],
        )
    }

    /// Takes the snapshot of the prototype.
    pub fn snapshot(&self) -> (snapshot: Snapshot)
        requires
            self.wf(),
        ensures
            snapshot@ == self.shape(),
    {
        let mut fields: Vec<(&'static str, Snapshot)> = Vec::new();
        fields.push(("name", text(self.name)));
        fields.push(("signature", self.signature.snapshot()));
        let ghost shapes = seq![
            ("name"@, SnapshotView::Text(self.name@)),
            ("signature"@, self.signature.shape()),
        ];
        record("FunctionPrototype", fields, Ghost(shapes))
    }
}

impl<'a> FunctionDefinition<'a> {
    /// The snapshot of a function definition: the record of its prototype.
    /// The address of the code is left out.
    pub open spec fn shape(&self) -> SnapshotView {
        SnapshotView::Record("FunctionDefinition"@, seq![("prototype"@, self.prototype.shape())])
    }

    /// Takes the snapshot of the function definition.
    pub fn snapshot(&self) -> (snapshot: Snapshot)
        requires
            self.wf(),
        ensures
            snapshot@ == self.shape(),
    {
        let mut fields: Vec<(&'static str, Snapshot)> = Vec::new();
        fields.push(("prototype", self.prototype.snapshot()));
        let ghost shapes = seq![("prototype"@, self.prototype.shape())];
        record("FunctionDefinition", fields, Ghost(shapes))
    }
}

impl<'a> DispatchTable<'a> {
    /// The snapshots of the prototypes of the table's entries, in order.
    pub open spec fn prototype_shapes(&self) -> Seq<SnapshotView> {
        Seq::new(self.num_entries as nat, |i: int| self.prototypes@[i].shape())
    }

    /// The snapshot of a dispatch table: the record of the prototypes of its
    /// entries in order. What the slots hold is left out.
    pub open spec fn shape(&self) -> SnapshotView {
        SnapshotView::Record(
            "DispatchTable"@,
            seq![("prototypes"@, SnapshotView::List(self.prototype_shapes()))],
        )
    }

    /// Takes the snapshot of the dispatch table.
    pub fn snapshot(&self) -> (snapshot: Snapshot)
        requires
            self.valid(),
        ensures
            snapshot@ == self.shape(),
    {
        let prototypes = self.prototypes();
        let mut items: Vec<Snapshot> = Vec::new();
        let mut i: usize = 0;
        while i < prototypes.len()
            invariant
                self.valid(),
                prototypes@ == self.required(),
                i <= prototypes@.len(),
                items@.len() == i,
                forall|k: int|
                    0 <= k < i ==> (#[trigger] items@[k])@ == self.prototypes@[k].shape(),
            decreases prototypes@.len() - i,
        {
            assert(prototypes@[i as int] == self.prototypes@[i as int]);
            items.push(prototypes[i].snapshot());
            i += 1;
        }
        let mut fields: Vec<(&'static str, Snapshot)> = Vec::new();
        fields.push(("prototypes", list(items, Ghost(self.prototype_shapes()))));
        let ghost shapes = seq![("prototypes"@, SnapshotView::List(self.prototype_shapes()))];
        record("DispatchTable", fields, Ghost(shapes))
    }
}

impl<'a> TypeLut<'a> {
    /// The snapshot of entry `i`: the record of its name and identity.
    pub open spec fn entry_shape(&self, i: int) -> SnapshotView {
        SnapshotView::Record(
            "Elem"@,
            seq![
                ("name"@, SnapshotView::Text(self.type_names@[i]@)),
                ("type"@, self.type_ids@[i].shape()),
            ],
        )
    }

    /// The snapshots of the table's entries, in order.
    pub open spec fn entry_shapes(&self) -> Seq<SnapshotView> {
        Seq::new(self.num_entries as nat, |i: int| self.entry_shape(i))
    }

    /// The snapshot of a type lookup table: its entries in order, each with
    /// its name and identity. What the slots hold is left out.
    pub open spec fn shape(&self) -> SnapshotView {
        SnapshotView::List(self.entry_shapes())
    }

    /// Takes the snapshot of the type lookup table.
    pub fn snapshot(&self) -> (snapshot: Snapshot)
        requires
            self.wf(),
        ensures
            snapshot@ == self.shape(),
    {
        let n = self.num_entries as usize;
        let mut items: Vec<Snapshot> = Vec::new();
        let mut i: usize = 0;
        while i < n
            invariant
                self.wf(),
                n == self.num_entries,
                i <= n,
                items@.len() == i,
                forall|k: int| 0 <= k < i ==> (#[trigger] items@[k])@ == self.entry_shape(k),
            decreases n - i,
        {
            let mut fields: Vec<(&'static str, Snapshot)> = Vec::new();
            fields.push(("name", text(self.type_names[i])));
            fields.push(("type", self.type_ids[i].snapshot()));
            let ghost shapes = seq![
                ("name"@, SnapshotView::Text(self.type_names@[i as int]@)),
                ("type"@, self.type_ids@[i as int].shape()),
            ];
            items.push(record("Elem", fields, Ghost(shapes)));
            i += 1;
        }
        list(items, Ghost(self.entry_shapes()))
    }
}

impl<'a> ModuleInfo<'a> {
    /// The snapshots of the exported functions, in order.
    pub open spec fn function_shapes(&self) -> Seq<SnapshotView> {
        Seq::new(self.num_functions as nat, |i: int| self.functions@[i].shape())
    }

    /// The snapshots of the exported types, in order.
    pub open spec fn type_shapes(&self) -> Seq<SnapshotView> {
        Seq::new(self.num_types as nat, |i: int| self.types@[i].shape())
    }

    /// The snapshot of what a unit exports: the record of its path, of its
    /// functions in order and of its types in order.
    pub open spec fn shape(&self) -> SnapshotView {
        SnapshotView::Record(
            "ModuleInfo"@,
            seq![
                ("path"@, SnapshotView::Text(self.path@)),
                ("functions"@, SnapshotView::List(self.function_shapes())),
                ("types"@, SnapshotView::List(self.type_shapes())),
            ],
        )
    }

    /// Takes the snapshot of what the unit exports.
    pub fn snapshot(&self) -> (snapshot: Snapshot)
        requires
            self.valid(),
        ensures
            snapshot@ == self.shape(),
    {
        let functions = self.functions();
        let mut function_items: Vec<Snapshot> = Vec::new();
        let mut i: usize = 0;
        while i < functions.len()
            invariant
                self.valid(),
                functions@ == self.exported_functions(),
                i <= functions@.len(),
                function_items@.len() == i,
                forall|k: int|
                    0 <= k < i ==> (#[trigger] function_items@[k])@ == self.functions@[k].shape(),
            decreases functions@.len() - i,
        {
            assert(functions@[i as int] == self.functions@[i as int]);
            function_items.push(functions[i].snapshot());
            i += 1;
        }
        let types = self.types();
        let mut type_items: Vec<Snapshot> = Vec::new();
        let mut j: usize = 0;
        while j < types.len()
            invariant
                self.valid(),
                types@ == self.exported_types(),
                j <= types@.len(),
                type_items@.len() == j,
                forall|k: int|
                    0 <= k < j ==> (#[trigger] type_items@[k])@ == self.types@[k].shape(),
            decreases types@.len() - j,
        {
            assert(types@[j as int] == self.types@[j as int]);
            type_items.push(types[j].snapshot());
            j += 1;
        }
        let mut fields: Vec<(&'static str, Snapshot)> = Vec::new();
        fields.push(("path", text(self.path)));
        fields.push(("functions", list(function_items, Ghost(self.function_shapes()))));
        fields.push(("types", list(type_items, Ghost(self.type_shapes()))));
        let ghost shapes = seq![
            ("path"@, SnapshotView::Text(self.path@)),
            ("functions"@, SnapshotView::List(self.function_shapes())),
            ("types"@, SnapshotView::List(self.type_shapes())),
        ];
        record("ModuleInfo", fields, Ghost(shapes))
    }
}

impl<'a> AssemblyInfo<'a> {
    /// The snapshot of a unit: the record of what it exports, of its two
    /// tables and of the names of the units it depends on, in order.
    pub open spec fn shape(&self) -> SnapshotView {
        SnapshotView::Record(
            "AssemblyInfo"@,
            seq![
                ("symbols"@, self.symbols.shape()),
                ("dispatch_table"@, self.dispatch_table.shape()),
                ("type_lut"@, self.type_lut.shape()),
                ("dependencies"@, SnapshotView::List(text_shapes(self.depends_on()))),
            ],
        )
    }

    /// Takes the snapshot of the unit.
    pub fn snapshot(&self) -> (snapshot: Snapshot)
        requires
            self.valid(),
        ensures
            snapshot@ == self.shape(),
    {
        let mut fields: Vec<(&'static str, Snapshot)> = Vec::new();
        fields.push(("symbols", self.symbols.snapshot()));
        fields.push(("dispatch_table", self.dispatch_table.snapshot()));
        fields.push(("type_lut", self.type_lut.snapshot()));
        fields.push(("dependencies", text_list(self.dependencies())));
        let ghost shapes = seq![
            ("symbols"@, self.symbols.shape()),
            ("dispatch_table"@, self.dispatch_table.shape()),
            ("type_lut"@, self.type_lut.shape()),
            ("dependencies"@, SnapshotView::List(text_shapes(self.depends_on()))),
        ];
        record("AssemblyInfo", fields, Ghost(shapes))
    }
}

/// The snapshot of a function definition does not tell where its code lies:
/// definitions with one prototype have one snapshot.
pub proof fn lemma_snapshot_leaves_out_addresses(
    a: FunctionDefinition<'_>,
    b: FunctionDefinition<'_>,
)
    requires
        a.prototype == b.prototype,
    ensures
        a.shape() == b.shape(),
{
}

/// The snapshot of a dispatch table does not tell what its slots hold:
/// tables with the same prototypes and count have one snapshot.
pub proof fn lemma_snapshot_leaves_out_bound_functions(
    a: DispatchTable<'_>,
    b: DispatchTable<'_>,
)
    requires
        a.prototypes == b.prototypes,
        a.num_entries == b.num_entries,
    ensures
        a.shape() == b.shape(),
{
    assert(a.prototype_shapes() =~= b.prototype_shapes());
}

/// The snapshot of a type lookup table does not tell what its slots hold:
/// tables with the same identities, names and count have one snapshot.
pub proof fn lemma_snapshot_leaves_out_bound_types(a: TypeLut<'_>, b: TypeLut<'_>)
    requires
        a.type_ids == b.type_ids,
        a.type_names == b.type_names,
        a.num_entries == b.num_entries,
    ensures
        a.shape() == b.shape(),
{
    assert(a.entry_shapes() =~= b.entry_shapes());
}

/// The snapshot of a unit lists the units it depends on as texts, in the
/// order of the descriptor.
pub proof fn lemma_snapshot_keeps_dependencies_in_order(assembly: AssemblyInfo<'_>, i: int)
    requires
        assembly.wf(),
        0 <= i < assembly.num_dependencies,
    ensures
        assembly.shape()->Record_1.len() == 4,
        assembly.shape()->Record_1[3].0 == "dependencies"@,
        assembly.shape()->Record_1[3].1->List_0.len() == assembly.num_dependencies,
        assembly.shape()->Record_1[3].1->List_0[i] == SnapshotView::Text(
            assembly.dependencies@[i]@,
        ),
{
}

} // verus!
