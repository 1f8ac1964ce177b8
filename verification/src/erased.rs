//! Values whose type is hidden until it is recovered.

use crate::tag::TypeTag;
use std::any::Any;
use std::any::TypeId;
use vstd::prelude::*;

verus! {

/// A boxed value of some `'static` type that can cross threads, as
/// `Box<dyn Any + Send + Sync>` holds it. Its contents are never inspected in
/// place: the only way back to the value is to take it out under its type.
#[verifier::external_body]
#[derive(Debug)]
pub struct Payload {
    boxed: Box<dyn Any + Send + Sync>,
}

/// The identifier of the type of the value a box holds.
pub uninterp spec fn held_type(payload: Payload) -> TypeId;

/// Calls `Any::type_id` on the value in the box: the identifier of the type
/// of that value.
#[verifier::external_body]
fn payload_type_id(payload: &Payload) -> (id: TypeId)
    ensures
        id == held_type(*payload),
{
    (*payload.boxed).type_id()
}

/// Boxes `value` with `Box::new` and forgets its type. Nothing is claimed of
/// the box that comes back.
#[verifier::external_body]
fn seal<T: Send + Sync + 'static>(value: T) -> (payload: Payload) {
    Payload { boxed: Box::new(value) }
}

/// Calls `Box<dyn Any + Send + Sync>::downcast::<T>()`: the value if the box
/// holds a `T`, and otherwise the box again, as it went in. Which of the two
/// happens is decided by the type the box was made from, of which nothing is
/// claimed.
#[verifier::external_body]
fn unseal<T: Send + Sync + 'static>(payload: Payload) -> (r: Result<T, Payload>)
    ensures
        r matches Err(refused) ==> refused == payload,
{
    match payload.boxed.downcast::<T>() {
        Ok(value) => Ok(*value),
        Err(boxed) => Err(Payload { boxed }),
    }
}

/// One value of a type known where it was erased, together with the tag of
/// that type. The value is moved in once and moved out once.
#[derive(Debug)]
pub struct Erased {
    tag: TypeTag,
    payload: Payload,
}

impl Erased {
    /// The tag recorded when the value was erased.
    pub closed spec fn tag(&self) -> TypeTag {
        self.tag
    }

    /// Whether the recorded tag is the identity of the type of the value
    /// held.
    pub closed spec fn well_tagged(&self) -> bool {
        self.tag.id() == held_type(self.payload)
    }

    /// Erases `value`, recording beside it the identity of its type as the
    /// box reports it.
    pub fn new<T: Send + Sync + 'static>(value: T) -> (e: Erased)
        ensures
            e.well_tagged(),
    {
        let payload = seal(value);
        let tag = TypeTag::from_id(payload_type_id(&payload));
        Erased { tag, payload }
    }

    /// The recorded tag.
    pub fn type_tag(&self) -> (t: TypeTag)
        ensures
            t == self.tag(),
    {
        self.tag
    }

    /// Takes the value out as a `T`, where `wanted` is the tag of `T`. A
    /// value recorded under another tag is refused unopened. Under `wanted`
    /// itself the box is opened. Whatever is refused comes back as it was.
    pub fn recover_as<T: Send + Sync + 'static>(self, wanted: &TypeTag) -> (r: Result<T, Erased>)
        ensures
            self.tag() != *wanted ==> r is Err,
            r matches Err(e) ==> e == self,
    {
        if !self.tag.same(wanted) {
            return Err(self);
        }
        let tag = self.tag;
        match unseal::<T>(self.payload) {
            Ok(value) => Ok(value),
            Err(payload) => Err(Erased { tag, payload }),
        }
    }

    /// Takes the value out as a `T`. The recorded tag is compared with the tag
    /// of `T` before the box is opened; where either step fails the erased
    /// value comes back as it was.
    pub fn recover<T: Send + Sync + 'static>(self) -> (r: Result<T, Erased>)
        ensures
            r matches Err(e) ==> e == self,
    {
        let wanted = TypeTag::of::<T>();
        self.recover_as::<T>(&wanted)
    }
}

} // verus!
