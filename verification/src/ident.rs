//! Identifiers under which the platform keeps the textures of an object.
use vstd::prelude::*;
use uuid::Uuid;

verus! {

#[verifier::external_type_specification]
#[verifier::external_body]
pub struct ExUuid(uuid::Uuid);

/// Calls `uuid::Uuid::new_v4`, which draws sixteen random bytes from the
/// operating system and stamps them as a version 4 identifier. Nothing is
/// claimed of the value. The call panics where the operating system has no
/// source of random bytes.
#[verifier::external_body]
pub(crate) fn fresh_id() -> (id: Uuid) {
    Uuid::new_v4()
}

} // verus!
