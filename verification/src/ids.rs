//! Identifiers: `uuid::Uuid` values are carried through the library unchanged.
use vstd::prelude::*;

verus! {

#[verifier::external_type_specification]
#[verifier::external_body]
pub struct ExUuid(uuid::Uuid);

/// `uuid::Uuid::new_v4`: a random identifier. Nothing is promised of the value,
/// so two calls may give anything.
#[verifier::external_body]
pub(crate) fn new_uuid() -> (id: uuid::Uuid) {
    uuid::Uuid::new_v4()
}

} // verus!
