//! The wall clock, read through the chrono crate.

use vstd::prelude::*;

verus! {

/// Relies on chrono::Local::now and chrono::DateTime::timestamp: the
/// current wall-clock time as whole seconds since the Unix epoch. Nothing
/// is assumed of the value — the clock may even move backwards — so every
/// caller states what holds whatever time comes back.
#[verifier::external_body]
pub(crate) fn now_seconds() -> (t: i64) {
    chrono::Local::now().timestamp()
}

} // verus!
