//! The layout of a struct: its fields, their types and where each one lies.

use crate::guid::Guid;
use crate::type_id::TypeId;
use vstd::prelude::*;
use vstd::std_specs::cmp::PartialEqSpecImpl;

verus! {

/// How the memory of a struct is managed: the collector traces the fields of
/// the one and leaves the other alone.
#[derive(Clone, Copy, Debug, PartialEq, Eq, Structural)]
pub enum StructMemoryType {
    /// Allocated on the collector's heap; the collector traces its fields.
    Gc,
    /// A plain value, stored in place.
    Value,
}

impl Default for StructMemoryType {
    fn default() -> (memory_type: StructMemoryType)
        ensures
            memory_type == StructMemoryType::Gc,
    {
        StructMemoryType::Gc
    }
}

/// One field of a struct: its name, its type and its offset in bytes from
/// the start of the struct.
#[derive(Clone, Copy, Debug)]
pub struct Field<'a> {
    pub name: &'a str,
    pub type_id: TypeId<'a>,
    pub offset: u16,
}

/// The layout of a struct. The names, types and offsets of its fields stand
/// in three arrays of the same order.
#[derive(Clone, Copy, Debug, Eq)]
pub struct StructDefinition<'a> {
    /// The identity of the struct.
    pub guid: Guid,
    /// Where the field names start.
    pub field_names: &'a [&'a str],
    /// Where the field types start.
    pub field_types: &'a [TypeId<'a>],
    /// Where the field offsets start.
    pub field_offsets: &'a [u16],
    /// How many fields the struct has.
    pub num_fields: u16,
    /// How the memory of the struct is managed.
    pub memory_type: StructMemoryType,
}

impl<'a> StructDefinition<'a> {
    /// Whether each of the three arrays holds as many fields as the count
    /// says.
    pub open spec fn wf(&self) -> bool {
        &&& self.num_fields as int <= self.field_names@.len()
        &&& self.num_fields as int <= self.field_types@.len()
        &&& self.num_fields as int <= self.field_offsets@.len()
    }

    /// Tests whether the layout is well formed.
    pub fn is_wf(&self) -> (ok: bool)
        ensures
            ok == self.wf(),
    {
        let n = self.num_fields as usize;
        n <= self.field_names.len() && n <= self.field_types.len() && n
            <= self.field_offsets.len()
    }

    /// The names of the fields, in order.
    pub open spec fn names(&self) -> Seq<&'a str> {
        self.field_names@.take(self.num_fields as int)
    }

    /// The types of the fields, in order.
    pub open spec fn types(&self) -> Seq<TypeId<'a>> {
        self.field_types@.take(self.num_fields as int)
    }

    /// The offsets of the fields, in order.
    pub open spec fn offsets(&self) -> Seq<u16> {
        self.field_offsets@.take(self.num_fields as int)
    }

    /// Field `i`: the entries at `i` of the three arrays.
    pub open spec fn field(&self, i: int) -> Field<'a> {
        Field {
            name: self.field_names@[i],
            type_id: self.field_types@[i],
            offset: self.field_offsets@[i],
        }
    }

    /// A layout over all of the three arrays, if they have the same length
    /// and the fields can be counted in 16 bits.
    pub fn new(
        guid: Guid,
        field_names: &'a [&'a str],
        field_types: &'a [TypeId<'a>],
        field_offsets: &'a [u16],
        memory_type: StructMemoryType,
    ) -> (definition: Option<Self>)
        ensures
            definition is Some <==> field_names@.len() == field_types@.len() && field_types@.len()
                == field_offsets@.len() && field_names@.len() <= u16::MAX,
            definition is Some ==> {
                let definition = definition.unwrap();
                &&& definition == (StructDefinition {
                    guid,
                    field_names,
                    field_types,
                    field_offsets,
                    num_fields: field_names@.len() as u16,
                    memory_type,
                })
                &&& definition.wf()
                &&& definition.names() == field_names@
                &&& definition.types() == field_types@
                &&& definition.offsets() == field_offsets@
            },
    {
        if field_names.len() == field_types.len() && field_types.len() == field_offsets.len()
            && field_names.len() <= u16::MAX as usize {
            let num_fields = field_names.len() as u16;
            Some(
                StructDefinition {
                    guid,
                    field_names,
                    field_types,
                    field_offsets,
                    num_fields,
                    memory_type,
                },
            )
        } else {
            None
        }
    }

    /// The names of the fields, in order. A count of zero gives an empty
    /// slice.
    pub fn field_names(&self) -> (names: &'a [&'a str])
        requires
            self.wf(),
        ensures
            names@ == self.names(),
    {
        vstd::slice::slice_subrange(self.field_names, 0, self.num_fields as usize)
    }

    /// The types of the fields, in order. A count of zero gives an empty
    /// slice.
    pub fn field_types(&self) -> (types: &'a [TypeId<'a>])
        requires
            self.wf(),
        ensures
            types@ == self.types(),
    {
        vstd::slice::slice_subrange(self.field_types, 0, self.num_fields as usize)
    }

    /// The offsets of the fields, in order. A count of zero gives an empty
    /// slice.
    pub fn field_offsets(&self) -> (offsets: &'a [u16])
        requires
            self.wf(),
        ensures
            offsets@ == self.offsets(),
    {
        vstd::slice::slice_subrange(self.field_offsets, 0, self.num_fields as usize)
    }

    /// How many fields the struct has.
    pub fn num_fields(&self) -> (count: usize)
        ensures
            count == self.num_fields,
    {
        self.num_fields as usize
    }

    /// The fields in order, each with its name, type and offset.
    pub fn fields(&self) -> (fields: Vec<Field<'a>>)
        requires
            self.wf(),
        ensures
            fields@.len() == self.num_fields,
            forall|i: int| 0 <= i < fields@.len() ==> #[trigger] fields@[i] == self.field(i),
    {
        let n = self.num_fields as usize;
        let mut fields: Vec<Field<'a>> = Vec::new();
        let mut i: usize = 0;
        while i < n
            invariant
                self.wf(),
                n == self.num_fields,
                i <= n,
                fields@.len() == i,
                forall|k: int| 0 <= k < i ==> #[trigger] fields@[k] == self.field(k),
            decreases n - i,
        {
            fields.push(
                Field {
                    name: self.field_names[i],
                    type_id: self.field_types[i],
                    offset: self.field_offsets[i],
                },
            );
            i += 1;
        }
        fields
    }
}

/// Two layouts are the same struct when they carry the same identity.
impl<'a> PartialEq for StructDefinition<'a> {
    fn eq(&self, other: &StructDefinition<'a>) -> (equal: bool) {
        self.guid == other.guid
    }
}

impl<'a> PartialEqSpecImpl for StructDefinition<'a> {
    open spec fn obeys_eq_spec() -> bool {
        true
    }

    open spec fn eq_spec(&self, other: &StructDefinition<'a>) -> bool {
        self.guid == other.guid
    }
}

} // verus!
