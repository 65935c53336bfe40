//! The two things that the engine takes from outside: the time and fresh
//! identities.

use vstd::prelude::*;
use crate::model::{Id, Millis};

verus! {

/// Whether `id` has the version and variant bits of a random (version 4)
/// UUID.
pub open spec fn is_random_uuid(id: Id) -> bool {
    id & 0x0000_0000_0000_F000_C000_0000_0000_0000u128
        == 0x0000_0000_0000_4000_8000_0000_0000_0000u128
}

/// chrono's `Local::now`, read through `DateTime::timestamp_millis`: the
/// current time in milliseconds since the Unix epoch. Nothing is claimed of
/// the value: two calls may even go backwards when the clock is set. chrono
/// panics where the system clock stands before 1970 or beyond its calendar;
/// no argument of this function can rule that out.
#[verifier::external_body]
pub(crate) fn current_millis() -> (now: Millis) {
    chrono::Local::now().timestamp_millis()
}

/// uuid's `Uuid::new_v4`, read through `Uuid::as_u128`: 122 random bits,
/// with the version set to 4 and the variant to RFC 9562's. Only those six
/// fixed bits are claimed. uuid panics where the operating system gives no
/// random bytes; no argument of this function can rule that out.
#[verifier::external_body]
pub(crate) fn fresh_id() -> (id: Id)
    ensures
        is_random_uuid(id),
{
    uuid::Uuid::new_v4().as_u128()
}

} // verus!
