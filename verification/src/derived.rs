//! The identities of pointer and array types. Such a type has no identity of
//! its own when it is compiled: its identity is derived from the type it
//! points to or holds, on first request, and is the same value ever after.

use crate::static_type_map::{leak, StaticTypeMap};
use crate::type_id::{ArrayTypeId, HasStaticTypeId, PointerTypeId, TypeId};
use vstd::prelude::*;

verus! {

/// The identity of the pointer type with the given pointee and mutability.
pub open spec fn pointer_to(pointee: TypeId<'static>, mutable: bool) -> TypeId<'static> {
    TypeId::Pointer(PointerTypeId { pointee: &pointee, mutable })
}

/// The identity of the array type with the given element.
pub open spec fn array_of(element: TypeId<'static>) -> TypeId<'static> {
    TypeId::Array(ArrayTypeId { element: &element })
}

/// The derived identities that have been requested so far: one cache for
/// each way of deriving, so that no request for one kind can meet the value
/// of another.
pub struct DerivedTypeIds {
    const_pointers: StaticTypeMap<TypeId<'static>>,
    mut_pointers: StaticTypeMap<TypeId<'static>>,
    arrays: StaticTypeMap<TypeId<'static>>,
}

impl DerivedTypeIds {
    #[verifier::type_invariant]
    spec fn derived(&self) -> bool {
        &&& forall|pointee: TypeId<'static>| #[trigger]
            self.const_pointers@.contains_key(pointee) ==> self.const_pointers@[pointee]
                == pointer_to(pointee, false)
        &&& forall|pointee: TypeId<'static>| #[trigger]
            self.mut_pointers@.contains_key(pointee) ==> self.mut_pointers@[pointee] == pointer_to(
                pointee,
                true,
            )
        &&& forall|element: TypeId<'static>| #[trigger]
            self.arrays@.contains_key(element) ==> self.arrays@[element] == array_of(element)
    }

    /// The pointees for which the identity of a pointer of the given
    /// mutability has been derived.
    pub closed spec fn pointees(&self, mutable: bool) -> Set<TypeId<'static>> {
        if mutable {
            self.mut_pointers@.dom()
        } else {
            self.const_pointers@.dom()
        }
    }

    /// The elements for which the identity of an array has been derived.
    pub closed spec fn elements(&self) -> Set<TypeId<'static>> {
        self.arrays@.dom()
    }

    /// A cache in which nothing has been derived.
    pub fn new() -> (ids: Self)
        ensures
            ids.pointees(true) == Set::<TypeId<'static>>::empty(),
            ids.pointees(false) == Set::<TypeId<'static>>::empty(),
            ids.elements() == Set::<TypeId<'static>>::empty(),
    {
        DerivedTypeIds {
            const_pointers: StaticTypeMap::new(),
            mut_pointers: StaticTypeMap::new(),
            arrays: StaticTypeMap::new(),
        }
    }

    /// The identity of the pointer type with the given pointee and
    /// mutability. The first request for a pair derives the identity and
    /// installs it; every request returns what the first one installed.
    pub fn pointer(&mut self, pointee: TypeId<'static>, mutable: bool) -> (id: &'static TypeId<
        'static,
    >)
        ensures
            *id == pointer_to(pointee, mutable),
            final(self).pointees(mutable) == old(self).pointees(mutable).insert(pointee),
            final(self).pointees(!mutable) == old(self).pointees(!mutable),
            final(self).elements() == old(self).elements(),
    {
        proof {
            use_type_invariant(&*self);
        }
        let derive = move || -> (derived: TypeId<'static>)
            ensures
                derived == pointer_to(pointee, mutable),
            {
                let pointee = leak(Box::new(pointee));
                TypeId::Pointer(PointerTypeId { pointee, mutable })
            };
        let mut map = StaticTypeMap::new();
        if mutable {
            core::mem::swap(&mut map, &mut self.mut_pointers);
        } else {
            core::mem::swap(&mut map, &mut self.const_pointers);
        }
        let ghost before = map@;
        let id = map.call_once(pointee, derive);
        assert(map@.dom() =~= before.dom().insert(pointee));
        if mutable {
            self.mut_pointers = map;
        } else {
            self.const_pointers = map;
        }
        id
    }

    /// The identity of the array type with the given element. The first
    /// request for an element derives the identity and installs it; every
    /// request returns what the first one installed.
    pub fn array(&mut self, element: TypeId<'static>) -> (id: &'static TypeId<'static>)
        ensures
            *id == array_of(element),
            final(self).elements() == old(self).elements().insert(element),
            final(self).pointees(true) == old(self).pointees(true),
            final(self).pointees(false) == old(self).pointees(false),
    {
        proof {
            use_type_invariant(&*self);
        }
        let derive = move || -> (derived: TypeId<'static>)
            ensures
                derived == array_of(element),
            {
                let element = leak(Box::new(element));
                TypeId::Array(ArrayTypeId { element })
            };
        let mut map = StaticTypeMap::new();
        core::mem::swap(&mut map, &mut self.arrays);
        let ghost before = map@;
        let id = map.call_once(element, derive);
        assert(map@.dom() =~= before.dom().insert(element));
        self.arrays = map;
        id
    }

    /// The identity of the pointer type whose pointee is `T`: what
    /// `pointer` gives for the identity of `T`.
    pub fn pointer_to_type<T: HasStaticTypeId>(&mut self, mutable: bool) -> (id: &'static TypeId<
        'static,
    >)
        ensures
            exists|pointee: TypeId<'static>|
                {
                    &&& #[trigger] call_ensures(T::type_id, (), pointee)
                    &&& *id == pointer_to(pointee, mutable)
                    &&& final(self).pointees(mutable) == old(self).pointees(mutable).insert(
                        pointee,
                    )
                },
            final(self).pointees(!mutable) == old(self).pointees(!mutable),
            final(self).elements() == old(self).elements(),
    {
        self.pointer(T::type_id(), mutable)
    }

    /// The identity of the array type whose element is `T`: what `array`
    /// gives for the identity of `T`.
    pub fn array_of_type<T: HasStaticTypeId>(&mut self) -> (id: &'static TypeId<'static>)
        ensures
            exists|element: TypeId<'static>|
                {
                    &&& #[trigger] call_ensures(T::type_id, (), element)
                    &&& *id == array_of(element)
                    &&& final(self).elements() == old(self).elements().insert(element)
                },
            final(self).pointees(true) == old(self).pointees(true),
            final(self).pointees(false) == old(self).pointees(false),
    {
        self.array(T::type_id())
    }
}

impl Default for DerivedTypeIds {
    fn default() -> (ids: Self)
        ensures
            ids.pointees(true) == Set::<TypeId<'static>>::empty(),
            ids.pointees(false) == Set::<TypeId<'static>>::empty(),
            ids.elements() == Set::<TypeId<'static>>::empty(),
    {
        DerivedTypeIds::new()
    }
}

} // verus!
