//! The one source of wall-clock time.

use vstd::prelude::*;

verus! {

/// Relies on chrono's `Utc::now` (and `DateTime::timestamp_micros`): the
/// current UTC time as microseconds since the epoch. Nothing is assumed of
/// the value — it depends on the machine's clock — so the store clamps it
/// against its own clock to keep timestamps monotone.
#[verifier::external_body]
pub(crate) fn now_micros() -> i64 {
    chrono::Utc::now().timestamp_micros()
}

} // verus!
