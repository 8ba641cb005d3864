//! Generation of fresh record identifiers.

use vstd::prelude::*;

verus! {

/// Relies on uuid::Uuid::new_v4 and uuid::Uuid::as_u128: a random 128-bit
/// identifier with the version nibble forced to 4 and the variant bits to
/// binary 10; nothing else can be promised of a random value. Like an
/// allocation failure, an operating-system random source that fails aborts
/// the call — an environmental condition no precondition can exclude.
#[verifier::external_body]
pub(crate) fn fresh_id() -> (r: u128)
    ensures
        (r >> 76) & 0xf == 4,
        (r >> 62) & 0x3 == 2,
{
    uuid::Uuid::new_v4().as_u128()
}

} // verus!
