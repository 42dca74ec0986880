//! Fresh identifiers for sources and entries.

use vstd::prelude::*;

verus! {

/// Relies on `uuid::Uuid::new_v4`: a random version 4 UUID, as its 128-bit
/// value. Nothing is known of it but its type.
#[verifier::external_body]
pub(crate) fn new_id() -> u128 {
    uuid::Uuid::new_v4().as_u128()
}

} // verus!
