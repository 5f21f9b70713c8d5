//! The wall clock.

use vstd::prelude::*;

verus! {

/// Relies on chrono's `Local::now` and `DateTime::timestamp`: the current
/// time in whole seconds since the Unix epoch. Nothing is promised of the
/// value, which changes from call to call.
#[verifier::external_body]
pub(crate) fn current_timestamp() -> (r: i64) {
    chrono::Local::now().timestamp()
}

} // verus!
