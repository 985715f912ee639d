//! Fresh identifiers, drawn from the `uuid` crate.

use vstd::prelude::*;

verus! {

/// Calls `Uuid::new_v4` and writes the identifier with `to_string`, which
/// gives its hyphenated lower-case form: 36 characters. The identifier is
/// random, so nothing else is said of it, and two calls need not agree.
#[verifier::external_body]
pub(crate) fn fresh_uuid() -> (id: String)
    ensures
        id@.len() == 36,
{
    uuid::Uuid::new_v4().to_string()
}

} // verus!
