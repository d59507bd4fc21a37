//! The identities of the primitive types.

use crate::guid::{md5_digest, Guid};
use crate::type_id::{HasStaticTypeId, TypeId};
use vstd::prelude::*;
use vstd::utf8::encode_utf8;

verus! {

/// A primitive type: its identity is concrete and derived from its name.
pub trait PrimitiveType: HasStaticTypeId {
    /// The canonical name of the type.
    fn name() -> &'static str;

    /// The concrete identity of the type: the identity of its name.
    fn guid() -> Guid;
}

/// The identity of the primitive type with the given name.
pub open spec fn primitive_type_id(name: Seq<char>) -> TypeId<'static> {
    TypeId::Concrete(Guid::of_name(name))
}

impl HasStaticTypeId for i8 {
    fn type_id() -> (id: TypeId<'static>)
        ensures
            id == primitive_type_id("core::i8"@),
    {
        TypeId::Concrete(Guid::from_str("core::i8"))
    }
}

impl PrimitiveType for i8 {
    fn name() -> (name: &'static str)
        ensures
            name@ == "core::i8"@,
    {
        "core::i8"
    }

    fn guid() -> (guid: Guid)
        ensures
            guid == Guid::of_name("core::i8"@),
            guid@ == md5_digest(encode_utf8("core::i8"@)),
    {
        Guid::from_str("core::i8")
    }
}

impl HasStaticTypeId for i16 {
    fn type_id() -> (id: TypeId<'static>)
        ensures
            id == primitive_type_id("core::i16"@),
    {
        TypeId::Concrete(Guid::from_str("core::i16"))
    }
}

impl PrimitiveType for i16 {
    fn name() -> (name: &'static str)
        ensures
            name@ == "core::i16"@,
    {
        "core::i16"
    }

    fn guid() -> (guid: Guid)
        ensures
            guid == Guid::of_name("core::i16"@),
            guid@ == md5_digest(encode_utf8("core::i16"@)),
    {
        Guid::from_str("core::i16")
    }
}

impl HasStaticTypeId for i32 {
    fn type_id() -> (id: TypeId<'static>)
        ensures
            id == primitive_type_id("core::i32"@),
    {
        TypeId::Concrete(Guid::from_str("core::i32"))
    }
}

impl PrimitiveType for i32 {
    fn name() -> (name: &'static str)
        ensures
            name@ == "core::i32"@,
    {
        "core::i32"
    }

    fn guid() -> (guid: Guid)
        ensures
            guid == Guid::of_name("core::i32"@),
            guid@ == md5_digest(encode_utf8("core::i32"@)),
    {
        Guid::from_str("core::i32")
    }
}

impl HasStaticTypeId for i64 {
    fn type_id() -> (id: TypeId<'static>)
        ensures
            id == primitive_type_id("core::i64"@),
    {
        TypeId::Concrete(Guid::from_str("core::i64"))
    }
}

impl PrimitiveType for i64 {
    fn name() -> (name: &'static str)
        ensures
            name@ == "core::i64"@,
    {
        "core::i64"
    }

    fn guid() -> (guid: Guid)
        ensures
            guid == Guid::of_name("core::i64"@),
            guid@ == md5_digest(encode_utf8("core::i64"@)),
    {
        Guid::from_str("core::i64")
    }
}

impl HasStaticTypeId for i128 {
    fn type_id() -> (id: TypeId<'static>)
        ensures
            id == primitive_type_id("core::i128"@),
    {
        TypeId::Concrete(Guid::from_str("core::i128"))
    }
}

impl PrimitiveType for i128 {
    fn name() -> (name: &'static str)
        ensures
            name@ == "core::i128"@,
    {
        "core::i128"
    }

    fn guid() -> (guid: Guid)
        ensures
            guid == Guid::of_name("core::i128"@),
            guid@ == md5_digest(encode_utf8("core::i128"@)),
    {
        Guid::from_str("core::i128")
    }
}

impl HasStaticTypeId for u8 {
    fn type_id() -> (id: TypeId<'static>)
        ensures
            id == primitive_type_id("core::u8"@),
    {
        TypeId::Concrete(Guid::from_str("core::u8"))
    }
}

impl PrimitiveType for u8 {
    fn name() -> (name: &'static str)
        ensures
            name@ == "core::u8"@,
    {
        "core::u8"
    }

    fn guid() -> (guid: Guid)
        ensures
            guid == Guid::of_name("core::u8"@),
            guid@ == md5_digest(encode_utf8("core::u8"@)),
    {
        Guid::from_str("core::u8")
    }
}

impl HasStaticTypeId for u16 {
    fn type_id() -> (id: TypeId<'static>)
        ensures
            id == primitive_type_id("core::u16"@),
    {
        TypeId::Concrete(Guid::from_str("core::u16"))
    }
}

impl PrimitiveType for u16 {
    fn name() -> (name: &'static str)
        ensures
            name@ == "core::u16"@,
    {
        "core::u16"
    }

    fn guid() -> (guid: Guid)
        ensures
            guid == Guid::of_name("core::u16"@),
            guid@ == md5_digest(encode_utf8("core::u16"@)),
    {
        Guid::from_str("core::u16")
    }
}

impl HasStaticTypeId for u32 {
    fn type_id() -> (id: TypeId<'static>)
        ensures
            id == primitive_type_id("core::u32"@),
    {
        TypeId::Concrete(Guid::from_str("core::u32"))
    }
}

impl PrimitiveType for u32 {
    fn name() -> (name: &'static str)
        ensures
            name@ == "core::u32"@,
    {
        "core::u32"
    }

    fn guid() -> (guid: Guid)
        ensures
            guid == Guid::of_name("core::u32"@),
            guid@ == md5_digest(encode_utf8("core::u32"@)),
    {
        Guid::from_str("core::u32")
    }
}

impl HasStaticTypeId for u64 {
    fn type_id() -> (id: TypeId<'static>)
        ensures
            id == primitive_type_id("core::u64"@),
    {
        TypeId::Concrete(Guid::from_str("core::u64"))
    }
}

impl PrimitiveType for u64 {
    fn name() -> (name: &'static str)
        ensures
            name@ == "core::u64"@,
    {
        "core::u64"
    }

    fn guid() -> (guid: Guid)
        ensures
            guid == Guid::of_name("core::u64"@),
            guid@ == md5_digest(encode_utf8("core::u64"@)),
    {
        Guid::from_str("core::u64")
    }
}

impl HasStaticTypeId for u128 {
    fn type_id() -> (id: TypeId<'static>)
        ensures
            id == primitive_type_id("core::u128"@),
    {
        TypeId::Concrete(Guid::from_str("core::u128"))
    }
}

impl PrimitiveType for u128 {
    fn name() -> (name: &'static str)
        ensures
            name@ == "core::u128"@,
    {
        "core::u128"
    }

    fn guid() -> (guid: Guid)
        ensures
            guid == Guid::of_name("core::u128"@),
            guid@ == md5_digest(encode_utf8("core::u128"@)),
    {
        Guid::from_str("core::u128")
    }
}

impl HasStaticTypeId for bool {
    fn type_id() -> (id: TypeId<'static>)
        ensures
            id == primitive_type_id("core::bool"@),
    {
        TypeId::Concrete(Guid::from_str("core::bool"))
    }
}

impl PrimitiveType for bool {
    fn name() -> (name: &'static str)
        ensures
            name@ == "core::bool"@,
    {
        "core::bool"
    }

    fn guid() -> (guid: Guid)
        ensures
            guid == Guid::of_name("core::bool"@),
            guid@ == md5_digest(encode_utf8("core::bool"@)),
    {
        Guid::from_str("core::bool")
    }
}

impl HasStaticTypeId for () {
    fn type_id() -> (id: TypeId<'static>)
        ensures
            id == primitive_type_id("core::empty"@),
    {
        TypeId::Concrete(Guid::from_str("core::empty"))
    }
}

impl PrimitiveType for () {
    fn name() -> (name: &'static str)
        ensures
            name@ == "core::empty"@,
    {
        "core::empty"
    }

    fn guid() -> (guid: Guid)
        ensures
            guid == Guid::of_name("core::empty"@),
            guid@ == md5_digest(encode_utf8("core::empty"@)),
    {
        Guid::from_str("core::empty")
    }
}

/// A pointer-sized unsigned integer has the identity of the fixed-width integer
/// of the same size.
impl HasStaticTypeId for usize {
    fn type_id() -> (id: TypeId<'static>)
        ensures
            id == primitive_type_id(
                if usize::BITS == 64 {
                    "core::u64"@
                } else {
                    "core::u32"@
                },
            ),
    {
        if usize::BITS == 64 {
            <u64 as HasStaticTypeId>::type_id()
        } else {
            <u32 as HasStaticTypeId>::type_id()
        }
    }
}

impl PrimitiveType for usize {
    fn name() -> (name: &'static str)
        ensures
            name@ == (if usize::BITS == 64 {
                "core::u64"@
            } else {
                "core::u32"@
            }),
    {
        if usize::BITS == 64 {
            <u64 as PrimitiveType>::name()
        } else {
            <u32 as PrimitiveType>::name()
        }
    }

    fn guid() -> (guid: Guid)
        ensures
            guid == Guid::of_name(
                if usize::BITS == 64 {
                    "core::u64"@
                } else {
                    "core::u32"@
                },
            ),
    {
        if usize::BITS == 64 {
            <u64 as PrimitiveType>::guid()
        } else {
            <u32 as PrimitiveType>::guid()
        }
    }
}

/// A pointer-sized signed integer has the identity of the fixed-width integer
/// of the same size.
impl HasStaticTypeId for isize {
    fn type_id() -> (id: TypeId<'static>)
        ensures
            id == primitive_type_id(
                if isize::BITS == 64 {
                    "core::i64"@
                } else {
                    "core::i32"@
                },
            ),
    {
        if isize::BITS == 64 {
            <i64 as HasStaticTypeId>::type_id()
        } else {
            <i32 as HasStaticTypeId>::type_id()
        }
    }
}

impl PrimitiveType for isize {
    fn name() -> (name: &'static str)
        ensures
            name@ == (if isize::BITS == 64 {
                "core::i64"@
            } else {
                "core::i32"@
            }),
    {
        if isize::BITS == 64 {
            <i64 as PrimitiveType>::name()
        } else {
            <i32 as PrimitiveType>::name()
        }
    }

    fn guid() -> (guid: Guid)
        ensures
            guid == Guid::of_name(
                if isize::BITS == 64 {
                    "core::i64"@
                } else {
                    "core::i32"@
                },
            ),
    {
        if isize::BITS == 64 {
            <i64 as PrimitiveType>::guid()
        } else {
            <i32 as PrimitiveType>::guid()
        }
    }
}

} // verus!
