//! Identities of game objects.

use vstd::prelude::*;

verus! {

/// The identity of one game object, as a plain number.
#[derive(Clone, Copy, Debug, PartialEq, Eq, Structural, Hash)]
pub struct EntityId(pub u64);

/// Whether two optional identities name the same object, or are both absent.
pub open spec fn same_entity(a: Option<EntityId>, b: Option<EntityId>) -> bool {
    a == b
}

/// Compares two optional identities.
pub fn is_same_entity(a: Option<EntityId>, b: Option<EntityId>) -> (same: bool)
    ensures
        same == same_entity(a, b),
{
    match (a, b) {
        (Some(x), Some(y)) => x == y,
        (None, None) => true,
        _ => false,
    }
}

} // verus!
