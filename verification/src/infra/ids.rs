//! Names that nothing else has.

use vstd::prelude::*;

verus! {

/// Calls `uuid::Uuid::new_v4` and writes the result as text: 36 characters,
/// other ones each time. Nothing is claimed of which.
#[verifier::external_body]
fn random_id() -> (r: String)
    ensures
        r@.len() == 36,
{
    uuid::Uuid::new_v4().to_string()
}

/// A new name.
pub fn new_id() -> (r: String)
    ensures
        r@.len() == 36,
{
    random_id()
}

} // verus!
