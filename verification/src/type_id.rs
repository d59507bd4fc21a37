//! The identity of every representable type: a concrete identity, a pointer
//! to another type, or an array of another type.

use crate::guid::{hyphenated, lemma_guid_equal_by_bytes, Guid};
use vstd::prelude::*;
use vstd::std_specs::cmp::PartialEqSpecImpl;
use vstd::std_specs::convert::FromSpecImpl;
use vstd::string::StringExecFns;

verus! {

/// The identity of a pointer type: what it points to, and whether it may be
/// written through.
#[derive(Clone, Copy, Debug, Eq, Hash)]
pub struct PointerTypeId<'a> {
    pub pointee: &'a TypeId<'a>,
    pub mutable: bool,
}

/// The identity of an array type: the type of its elements.
#[derive(Clone, Copy, Debug, Eq, Hash)]
pub struct ArrayTypeId<'a> {
    pub element: &'a TypeId<'a>,
}

/// The identity of a type. Two identities are equal when they have the same
/// shape and the same concrete identities at the leaves, wherever they are
/// stored.
#[derive(Clone, Copy, Debug, Eq, Hash)]
pub enum TypeId<'a> {
    Concrete(Guid),
    Pointer(PointerTypeId<'a>),
    Array(ArrayTypeId<'a>),
}

/// Structural comparison of two type identities.
fn same_type_id(a: &TypeId<'_>, b: &TypeId<'_>) -> (equal: bool)
    ensures
        equal == (*a == *b),
    decreases *a,
{
    match a {
        TypeId::Concrete(x) => match b {
            TypeId::Concrete(y) => x == y,
            _ => false,
        },
        TypeId::Pointer(x) => match b {
            TypeId::Pointer(y) => x.mutable == y.mutable && same_type_id(x.pointee, y.pointee),
            _ => false,
        },
        TypeId::Array(x) => match b {
            TypeId::Array(y) => same_type_id(x.element, y.element),
            _ => false,
        },
    }
}

impl<'a> PartialEq for TypeId<'a> {
    fn eq(&self, other: &TypeId<'a>) -> (equal: bool) {
        same_type_id(self, other)
    }
}

impl<'a> PartialEqSpecImpl for TypeId<'a> {
    open spec fn obeys_eq_spec() -> bool {
        true
    }

    open spec fn eq_spec(&self, other: &TypeId<'a>) -> bool {
        *self == *other
    }
}

impl<'a> PartialEq for PointerTypeId<'a> {
    fn eq(&self, other: &PointerTypeId<'a>) -> (equal: bool) {
        self.mutable == other.mutable && same_type_id(self.pointee, other.pointee)
    }
}

impl<'a> PartialEqSpecImpl for PointerTypeId<'a> {
    open spec fn obeys_eq_spec() -> bool {
        true
    }

    open spec fn eq_spec(&self, other: &PointerTypeId<'a>) -> bool {
        *self == *other
    }
}

impl<'a> PartialEq for ArrayTypeId<'a> {
    fn eq(&self, other: &ArrayTypeId<'a>) -> (equal: bool) {
        same_type_id(self.element, other.element)
    }
}

impl<'a> PartialEqSpecImpl for ArrayTypeId<'a> {
    open spec fn obeys_eq_spec() -> bool {
        true
    }

    open spec fn eq_spec(&self, other: &ArrayTypeId<'a>) -> bool {
        *self == *other
    }
}

impl<'a> PointerTypeId<'a> {
    /// The text form: `*mut ` or `*const `, then the text of the pointee.
    pub open spec fn text(&self) -> Seq<char>
        decreases *self,
    {
        (if self.mutable {
            "*mut "@
        } else {
            "*const "@
        }) + self.pointee.text()
    }

    /// Renders the identity as text.
    pub fn to_string(&self) -> (text: String)
        ensures
            text@ == self.text(),
        decreases *self,
    {
        let mut text = String::new();
        text.append(if self.mutable { "*mut " } else { "*const " });
        let pointee = self.pointee.to_string();
        text.append(pointee.as_str());
        assert(text@ =~= self.text());
        text
    }
}

impl<'a> ArrayTypeId<'a> {
    /// The text form: the text of the element between square brackets.
    pub open spec fn text(&self) -> Seq<char>
        decreases *self,
    {
        "["@ + self.element.text() + "]"@
    }

    /// Renders the identity as text.
    pub fn to_string(&self) -> (text: String)
        ensures
            text@ == self.text(),
        decreases *self,
    {
        let mut text = String::new();
        text.append("[");
        let element = self.element.to_string();
        text.append(element.as_str());
        text.append("]");
        assert(text@ =~= self.text());
        text
    }
}

impl<'a> TypeId<'a> {
    /// The text form: the canonical text of a concrete identity, or the text
    /// form of a pointer or of an array.
    pub open spec fn text(&self) -> Seq<char>
        decreases *self,
    {
        match *self {
            TypeId::Concrete(guid) => hyphenated(guid@),
            TypeId::Pointer(pointer) => pointer.text(),
            TypeId::Array(array) => array.text(),
        }
    }

    /// Renders the identity as text.
    pub fn to_string(&self) -> (text: String)
        ensures
            text@ == self.text(),
        decreases *self,
    {
        match self {
            TypeId::Concrete(guid) => guid.to_string(),
            TypeId::Pointer(pointer) => pointer.to_string(),
            TypeId::Array(array) => array.to_string(),
        }
    }
}

impl<'a> From<Guid> for TypeId<'a> {
    fn from(value: Guid) -> (id: TypeId<'a>) {
        TypeId::Concrete(value)
    }
}

impl<'a> FromSpecImpl<Guid> for TypeId<'a> {
    open spec fn obeys_from_spec() -> bool {
        true
    }

    open spec fn from_spec(value: Guid) -> TypeId<'a> {
        TypeId::Concrete(value)
    }
}

impl<'a> From<PointerTypeId<'a>> for TypeId<'a> {
    fn from(value: PointerTypeId<'a>) -> (id: TypeId<'a>) {
        TypeId::Pointer(value)
    }
}

impl<'a> FromSpecImpl<PointerTypeId<'a>> for TypeId<'a> {
    open spec fn obeys_from_spec() -> bool {
        true
    }

    open spec fn from_spec(value: PointerTypeId<'a>) -> TypeId<'a> {
        TypeId::Pointer(value)
    }
}

impl<'a> From<ArrayTypeId<'a>> for TypeId<'a> {
    fn from(value: ArrayTypeId<'a>) -> (id: TypeId<'a>) {
        TypeId::Array(value)
    }
}

impl<'a> FromSpecImpl<ArrayTypeId<'a>> for TypeId<'a> {
    open spec fn obeys_from_spec() -> bool {
        true
    }

    open spec fn from_spec(value: ArrayTypeId<'a>) -> TypeId<'a> {
        TypeId::Array(value)
    }
}

/// A type whose identity is fixed when it is compiled.
pub trait HasStaticTypeId {
    /// The identity of the implementing type.
    fn type_id() -> TypeId<'static>;
}

/// Whether two identities have the same shape, with the same mutability at
/// every pointer and the same bytes at every concrete identity.
pub open spec fn same_structure(a: TypeId<'_>, b: TypeId<'_>) -> bool
    decreases a,
{
    match (a, b) {
        (TypeId::Concrete(x), TypeId::Concrete(y)) => x@ == y@,
        (TypeId::Pointer(x), TypeId::Pointer(y)) => x.mutable == y.mutable && same_structure(
            *x.pointee,
            *y.pointee,
        ),
        (TypeId::Array(x), TypeId::Array(y)) => same_structure(*x.element, *y.element),
        _ => false,
    }
}

/// Two identities are equal exactly when they have the same structure: where
/// each of them, or what it points to or holds, is stored makes no
/// difference.
pub proof fn lemma_equal_by_structure(a: TypeId<'_>, b: TypeId<'_>)
    ensures
        (a == b) <==> same_structure(a, b),
    decreases a,
{
    match (a, b) {
        (TypeId::Concrete(x), TypeId::Concrete(y)) => {
            lemma_guid_equal_by_bytes(x, y);
        },
        (TypeId::Pointer(x), TypeId::Pointer(y)) => {
            lemma_equal_by_structure(*x.pointee, *y.pointee);
        },
        (TypeId::Array(x), TypeId::Array(y)) => {
            lemma_equal_by_structure(*x.element, *y.element);
        },
        _ => {},
    }
}

/// Pointers to one type that differ in mutability have different identities.
pub proof fn lemma_pointer_mutability_distinguishes(pointee: TypeId<'_>)
    ensures
        TypeId::Pointer(PointerTypeId { pointee: &pointee, mutable: true }) != TypeId::Pointer(
            PointerTypeId { pointee: &pointee, mutable: false },
        ),
{
}

/// Two pointer identities are equal exactly when their mutability matches and
/// their pointees are equal.
pub proof fn lemma_pointers_equal_by_parts(a: PointerTypeId<'_>, b: PointerTypeId<'_>)
    ensures
        (TypeId::Pointer(a) == TypeId::Pointer(b)) <==> (a.mutable == b.mutable && *a.pointee
            == *b.pointee),
{
}

/// Two array identities are equal exactly when their elements are equal.
pub proof fn lemma_arrays_equal_by_element(a: TypeId<'_>, b: TypeId<'_>)
    ensures
        (TypeId::Array(ArrayTypeId { element: &a }) == TypeId::Array(ArrayTypeId { element: &b }))
            <==> a == b,
{
}

/// Identities of different shapes are never equal.
pub proof fn lemma_shapes_distinguish(
    guid: Guid,
    pointer: PointerTypeId<'_>,
    array: ArrayTypeId<'_>,
)
    ensures
        TypeId::Concrete(guid) != TypeId::Pointer(pointer),
        TypeId::Concrete(guid) != TypeId::Array(array),
        TypeId::Pointer(pointer) != TypeId::Array(array),
{
}

} // verus!
