//! Instants of the wall clock, as plain values.

use vstd::prelude::*;

verus! {

/// A UTC instant: seconds since the Unix epoch and the nanoseconds past that
/// second (above one billion only within a leap second).
#[derive(Debug, Clone, Copy, PartialEq, Eq)]
pub struct Timestamp {
    pub secs: i64,
    pub nanos: u32,
}

impl Timestamp {
    /// Whether the nanoseconds are in the range that a UTC clock reports.
    pub open spec fn valid(&self) -> bool {
        self.nanos < 2_000_000_000
    }
}

/// Relies on `chrono::Utc::now`: the current UTC time, split by
/// `DateTime::timestamp` and `DateTime::timestamp_subsec_nanos`. The
/// nanoseconds are those of a `NaiveTime`, which chrono never builds with
/// two billion or more.
#[verifier::external_body]
pub(crate) fn utc_now() -> (r: Timestamp)
    ensures
        r.valid(),
{
    let now = chrono::Utc::now();
    Timestamp { secs: now.timestamp(), nanos: now.timestamp_subsec_nanos() }
}

/// Relies on `time::OffsetDateTime::now_utc` and `unix_timestamp`: the
/// current time in whole seconds since the Unix epoch.
#[verifier::external_body]
pub(crate) fn unix_now() -> (r: i64) {
    time::OffsetDateTime::now_utc().unix_timestamp()
}

} // verus!
