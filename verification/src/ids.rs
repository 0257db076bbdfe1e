//! Server-side identifier generation.

use vstd::prelude::*;

verus! {

/// Relies on uuid's `Uuid::new_v4`, rendered through `to_string` in the
/// hyphenated form, which is always 36 characters. The value is random;
/// nothing else is promised of it.
#[verifier::external_body]
pub(crate) fn fresh_id() -> (r: String)
    ensures
        r@.len() == 36,
{
    uuid::Uuid::new_v4().to_string()
}

} // verus!
