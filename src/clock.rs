//! Readings of the wall clock. A reading depends on when it is taken, so
//! nothing is promised of it beyond its range.
use vstd::prelude::*;

verus! {

/// Relies on `chrono::Utc::now` and `DateTime::timestamp_millis`: the
/// milliseconds since the Unix epoch.
#[verifier::external_body]
pub(crate) fn unix_millis() -> (r: i64) {
    chrono::Utc::now().timestamp_millis()
}

/// Relies on `chrono::Local::now` and `Timelike::hour`, documented to return
/// an hour from 0 to 23.
#[verifier::external_body]
pub(crate) fn local_hour() -> (r: u32)
    ensures
        r < 24,
{
    chrono::Timelike::hour(&chrono::Local::now())
}

} // verus!
