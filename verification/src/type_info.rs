//! What a unit says of a type: its name, size and alignment, and what kind
//! of type it is.

use crate::guid::Guid;
use crate::struct_info::StructDefinition;
use crate::type_id::TypeId;
use vstd::prelude::*;
use vstd::std_specs::cmp::PartialEqSpecImpl;

verus! {

/// The least number of bytes that hold the given number of bits.
pub open spec fn bytes_for_bits(bits: nat) -> nat {
    (bits + 7) / 8
}

/// The number of bytes for a number of bits is the least whose eightfold
/// reaches it: none for no bits, one for up to 8 bits, two for up to 16.
pub proof fn lemma_bytes_for_bits(bits: nat)
    ensures
        bits <= 8 * bytes_for_bits(bits),
        bits > 0 ==> 8 * (bytes_for_bits(bits) - 1) < bits,
        bits == 0 ==> bytes_for_bits(bits) == 0,
        1 <= bits <= 8 ==> bytes_for_bits(bits) == 1,
        9 <= bits <= 16 ==> bytes_for_bits(bits) == 2,
{
}

/// The kind of a type, with what is known of that kind.
#[derive(Clone, Copy, Debug, Eq)]
pub enum TypeDefinitionData<'a> {
    /// A struct, with its layout.
    Struct(StructDefinition<'a>),
}

impl<'a> TypeDefinitionData<'a> {
    /// Whether the type is a struct.
    pub fn is_struct(&self) -> (is_struct: bool)
        ensures
            is_struct == (self is Struct),
    {
        match self {
            TypeDefinitionData::Struct(_) => true,
        }
    }
}

impl<'a> PartialEq for TypeDefinitionData<'a> {
    fn eq(&self, other: &TypeDefinitionData<'a>) -> (equal: bool) {
        match (self, other) {
            (TypeDefinitionData::Struct(a), TypeDefinitionData::Struct(b)) => a == b,
        }
    }
}

impl<'a> PartialEqSpecImpl for TypeDefinitionData<'a> {
    open spec fn obeys_eq_spec() -> bool {
        true
    }

    open spec fn eq_spec(&self, other: &TypeDefinitionData<'a>) -> bool {
        self->Struct_0.guid == other->Struct_0.guid
    }
}

/// A type that a unit defines.
#[derive(Clone, Copy, Debug, Eq)]
pub struct TypeDefinition<'a> {
    /// The name of the type.
    pub name: &'a str,
    /// The size of the type in bits.
    pub size: u32,
    /// The alignment of the type in bytes.
    pub alignment: u8,
    /// The kind of the type.
    pub data: TypeDefinitionData<'a>,
}

impl<'a> TypeDefinition<'a> {
    /// Whether what is known of the type's kind is well formed.
    pub open spec fn wf(&self) -> bool {
        self.data->Struct_0.wf()
    }

    /// Tests whether the definition is well formed.
    pub fn is_wf(&self) -> (ok: bool)
        ensures
            ok == self.wf(),
    {
        match &self.data {
            TypeDefinitionData::Struct(s) => s.is_wf(),
        }
    }

    /// The concrete identity of the type.
    pub open spec fn concrete(&self) -> Guid {
        self.data->Struct_0.guid
    }

    /// Whether `type_id` is the concrete identity of this type. The identity
    /// of a pointer or of an array is never that of a defined type.
    pub fn is_instance_of(&self, type_id: &TypeId<'a>) -> (is_instance: bool)
        ensures
            is_instance == (*type_id == TypeId::Concrete(self.concrete())),
    {
        match (&self.data, type_id) {
            (TypeDefinitionData::Struct(s), TypeId::Concrete(guid)) => s.guid == *guid,
            _ => false,
        }
    }

    /// The name of the type.
    pub fn name(&self) -> (name: &'a str)
        ensures
            name@ == self.name@,
    {
        self.name
    }

    /// The concrete identity of the type.
    pub fn as_concrete(&self) -> (guid: &Guid)
        ensures
            *guid == self.concrete(),
    {
        match &self.data {
            TypeDefinitionData::Struct(s) => &s.guid,
        }
    }

    /// The layout of the type, if it is a struct.
    pub fn as_struct(&self) -> (definition: Option<&StructDefinition<'a>>)
        ensures
            self.data is Struct ==> definition == Some(&self.data->Struct_0),
            !(self.data is Struct) ==> definition is None,
    {
        match &self.data {
            TypeDefinitionData::Struct(s) => Some(s),
        }
    }

    /// The size of the type in bits.
    pub fn size(&self) -> (bits: usize)
        ensures
            bits == self.size,
    {
        self.size as usize
    }

    /// The size of the type in bytes: the least number of bytes that hold
    /// its bits.
    pub fn size_in_bytes(&self) -> (bytes: usize)
        ensures
            bytes == bytes_for_bits(self.size as nat),
    {
        let bits = self.size as usize;
        if bits % 8 == 0 {
            bits / 8
        } else {
            bits / 8 + 1
        }
    }

    /// The alignment of the type in bytes.
    pub fn alignment(&self) -> (bytes: usize)
        ensures
            bytes == self.alignment,
    {
        self.alignment as usize
    }
}

/// Two definitions are equal when they agree in size, alignment and kind;
/// the name does not count.
impl<'a> PartialEq for TypeDefinition<'a> {
    fn eq(&self, other: &TypeDefinition<'a>) -> (equal: bool) {
        self.size == other.size && self.alignment == other.alignment && self.data == other.data
    }
}

impl<'a> PartialEqSpecImpl for TypeDefinition<'a> {
    open spec fn obeys_eq_spec() -> bool {
        true
    }

    open spec fn eq_spec(&self, other: &TypeDefinition<'a>) -> bool {
        &&& self.size == other.size
        &&& self.alignment == other.alignment
        &&& self.concrete() == other.concrete()
    }
}

/// A type whose name is fixed when it is compiled.
pub trait HasStaticTypeName {
    /// The name of the implementing type.
    fn static_type_name() -> &'static str;
}

} // verus!
