//! Runtime identity of a type.

use std::any::TypeId;
use vstd::prelude::*;

verus! {

/// `std::any::TypeId`, carried as an opaque value: nothing is known of it but
/// whether two of them are equal.
#[verifier::external_type_specification]
#[verifier::external_body]
pub struct ExTypeId(TypeId);

/// Calls `TypeId::of::<T>()`. Nothing is claimed of the identifier it returns.
#[verifier::external_body]
fn type_id_of<T: 'static>() -> (id: TypeId) {
    TypeId::of::<T>()
}

/// Compares two identifiers with `TypeId`'s `==`, which holds exactly when
/// both are the same identifier.
#[verifier::external_body]
fn type_id_eq(a: &TypeId, b: &TypeId) -> (same: bool)
    ensures
        same == (*a == *b),
{
    *a == *b
}

/// The runtime identity of a type, as recorded when a handler is bound or a
/// value is erased, and compared when the two sides of a channel meet.
#[derive(Clone, Copy, Debug, PartialEq, Eq, Hash)]
pub struct TypeTag {
    id: TypeId,
}

impl TypeTag {
    /// The identifier behind the tag.
    pub closed spec fn id(&self) -> TypeId {
        self.id
    }

    /// The tag that stands for `id`.
    pub(crate) fn from_id(id: TypeId) -> (tag: TypeTag)
        ensures
            tag.id() == id,
    {
        TypeTag { id }
    }

    /// The tag of `T`.
    pub fn of<T: 'static>() -> (tag: TypeTag) {
        TypeTag { id: type_id_of::<T>() }
    }

    /// Whether both tags stand for the same type.
    pub fn same(&self, other: &TypeTag) -> (r: bool)
        ensures
            r == (*self == *other),
    {
        type_id_eq(&self.id, &other.id)
    }
}

} // verus!
