//! Identifiers of topics and users.

use vstd::prelude::*;

verus! {

/// `uuid::Uuid`, carried through as an opaque value: the library compares
/// identifiers and hands them on, and never looks inside one.
#[verifier::external_type_specification]
#[verifier::external_body]
pub struct ExUuid(uuid::Uuid);

/// `uuid::Uuid::new_v4` draws a random identifier from the operating system's
/// generator. Nothing is claimed of the value that comes back. The call
/// panics only where the operating system cannot supply random bytes.
pub assume_specification[ uuid::Uuid::new_v4 ]() -> (id: uuid::Uuid);

/// Compares two identifiers with `Uuid`'s derived `==`, which compares the
/// sixteen bytes of each: the result is `true` exactly when the two are the
/// same identifier.
#[verifier::external_body]
pub(crate) fn same_id(a: &uuid::Uuid, b: &uuid::Uuid) -> (same: bool)
    ensures
        same == (*a == *b),
{
    a == b
}

} // verus!
