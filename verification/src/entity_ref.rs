//! The opaque object-identity type of the surrounding scene store.
//!
//! Animations refer to other drawable objects by their `bevy_ecs` entity
//! identifier.  The identifier is carried through unchanged; the only
//! operation the library needs on it is equality.

use vstd::prelude::*;
use bevy_ecs::entity::Entity;

verus! {

#[verifier::external_type_specification]
#[verifier::external_body]
pub struct ExEntity(Entity);

/// Relies on bevy_ecs's derived `Entity::clone`, which returns the value
/// itself: `Entity` is a plain copyable identifier.
pub assume_specification[ <Entity as Clone>::clone ](e: &Entity) -> (r: Entity)
    ensures
        r == *e,
;

/// Relies on bevy_ecs's `Entity::eq`, which compares the packed bit form of
/// the index and generation fields.  The packing is injective, so the call
/// returns true exactly when the two identifiers are the same value.
#[verifier::external_body]
pub(crate) fn entity_eq(a: &Entity, b: &Entity) -> (r: bool)
    ensures
        r == (a == b),
{
    a == b
}

/// Implemented by drawable objects that know their own identity in the
/// surrounding scene store.
pub trait WithId {
    /// The object's identity.
    fn id(&self) -> Entity;
}

} // verus!
