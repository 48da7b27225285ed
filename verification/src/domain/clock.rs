//! The clock that stamps a recipe when it is made.

use vstd::prelude::*;

verus! {

/// A point in time as a local clock gives it: the instant, counted from the
/// start of 1970 in UTC, and the distance of the local time from UTC at that
/// instant.
#[derive(Debug, Clone, Copy, PartialEq, Eq, Structural)]
pub struct Timestamp {
    /// Whole seconds since 1970-01-01 00:00:00 UTC, leap seconds not counted.
    pub seconds: i64,
    /// Nanoseconds since the last whole second.
    pub nanoseconds: u32,
    /// Seconds to add to UTC to get the local time.
    pub offset: i32,
}

/// Reads the machine's clock with `chrono::Local::now` and takes the result
/// apart with `DateTime::timestamp`, `DateTime::timestamp_subsec_nanos` and
/// `FixedOffset::local_minus_utc`. Nothing is promised of the result: it is
/// whatever the clock and the time zone say at the moment of the call, and two
/// calls may differ. `chrono` stops the program where the machine's clock
/// stands before 1970.
#[verifier::external_body]
pub(crate) fn now() -> Timestamp {
    let read = chrono::Local::now();
    Timestamp {
        seconds: read.timestamp(),
        nanoseconds: read.timestamp_subsec_nanos(),
        offset: read.offset().local_minus_utc(),
    }
}

} // verus!
