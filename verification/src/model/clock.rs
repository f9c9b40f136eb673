//! Moments of local wall-clock time, held as plain numbers.

use vstd::prelude::*;

verus! {

/// One moment as the local clock shows it.
///
/// `secs` and `nanos` fix the instant: whole seconds since the Unix epoch
/// (leap seconds not counted) and the nanoseconds into that second. `offset`
/// says how the local zone stood at that instant, in seconds east of UTC.
#[derive(Clone, Copy, Debug, PartialEq, Eq, Structural)]
pub struct Timestamp {
    pub secs: i64,
    pub nanos: u32,
    pub offset: i32,
}

impl Timestamp {
    /// The ranges that a moment read from a clock keeps: the nanoseconds
    /// stay under two seconds (the second half is a leap second), and the
    /// zone is less than one day away from UTC.
    pub open spec fn is_valid(&self) -> bool {
        &&& self.nanos < 2_000_000_000
        &&& -86_400 < self.offset < 86_400
    }
}

/// The current moment in the local time zone, from `chrono::Local::now`,
/// taken apart by `DateTime::timestamp`, `DateTime::timestamp_subsec_nanos`
/// and `FixedOffset::local_minus_utc`.
///
/// Believed, not proved: the ranges of `Timestamp::is_valid`. Which moment
/// comes back depends on the clock and on the zone of the machine, so no
/// more is said of it. `chrono` panics where the system clock stands before
/// the Unix epoch.
#[verifier::external_body]
pub(crate) fn local_now() -> (now: Timestamp)
    ensures
        now.is_valid(),
{
    let t = chrono::Local::now();
    Timestamp {
        secs: t.timestamp(),
        nanos: t.timestamp_subsec_nanos(),
        offset: t.offset().local_minus_utc(),
    }
}

} // verus!
