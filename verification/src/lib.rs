//! Binary contract between a loadable unit of compiled code and the host that
//! binds it: content-addressed type identities, the structural identities of
//! pointer and array types, and the descriptors a unit uses to advertise its
//! functions, types and late-bound tables.

pub mod assembly_info;
pub mod derived;
pub mod dispatch_table;
pub mod function_info;
pub mod guid;
pub mod module_info;
pub mod primitive;
pub mod snapshot;
pub mod static_type_map;
pub mod struct_info;
pub mod type_id;
pub mod type_info;
pub mod type_lut;

use vstd::prelude::*;

pub use crate::assembly_info::AssemblyInfo;
pub use crate::derived::DerivedTypeIds;
pub use crate::dispatch_table::DispatchTable;
pub use crate::function_info::{FunctionDefinition, FunctionPrototype, FunctionSignature};
pub use crate::guid::Guid;
pub use crate::module_info::ModuleInfo;
pub use crate::primitive::PrimitiveType;
pub use crate::static_type_map::{Reinitialized, StaticTypeMap};
pub use crate::snapshot::Snapshot;
pub use crate::struct_info::{Field, StructDefinition, StructMemoryType};
pub use crate::type_id::{ArrayTypeId, HasStaticTypeId, PointerTypeId, TypeId};
pub use crate::type_info::{HasStaticTypeName, TypeDefinition, TypeDefinitionData};
pub use crate::type_lut::TypeLut;

verus! {

/// The version of this contract. A unit is loaded only if the version it was
/// built for is exactly this one.
pub const ABI_VERSION: u32 = 300;

/// Whether a unit built for `version` may be loaded. Versions are not
/// negotiated: only the exact version of this contract is accepted.
pub fn is_compatible(version: u32) -> (compatible: bool)
    ensures
        compatible == (version == ABI_VERSION),
{
    version == ABI_VERSION
}

/// The name of the entry point that returns a unit's `AssemblyInfo`.
pub const GET_INFO_FN_NAME: &'static str = "get_info";

/// The name of the entry point that returns the version a unit was built for.
pub const GET_VERSION_FN_NAME: &'static str = "get_version";

/// The name of the entry point through which the host hands a unit its
/// allocator.
pub const SET_ALLOCATOR_HANDLE_FN_NAME: &'static str = "set_allocator_handle";

/// Whether an item can be reached from outside the unit that defines it.
#[derive(Clone, Copy, Debug, PartialEq, Eq, Structural)]
pub enum Privacy {
    /// Reachable from every unit.
    Public,
    /// Reachable only from the unit that defines it.
    Private,
}

} // verus!
