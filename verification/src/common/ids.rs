use vstd::prelude::*;

verus! {

/// An identifier: the 128 bits of a UUID.
pub type EntityId = u128;

/// Calls `uuid::Uuid::new_v4` and returns its bits. The identifier is
/// random, so nothing is claimed of it.
#[verifier::external_body]
pub(crate) fn new_id() -> (res: EntityId) {
    uuid::Uuid::new_v4().as_u128()
}

} // verus!
