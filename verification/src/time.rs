//! Points in time, as the engine compares them.

use vstd::prelude::*;

verus! {

/// Nanoseconds in one second.
pub const NANOS_PER_SECOND: i128 = 1_000_000_000;

/// Nanoseconds in one day of 86 400 seconds.
pub const NANOS_PER_DAY: i128 = 86_400_000_000_000;

/// The earliest second that a UTC date and time can hold: the first second
/// of the year -262143.
pub const MIN_UTC_SECONDS: i64 = -8_334_601_228_800;

/// The latest second that a UTC date and time can hold: the last second of
/// the year 262142.
pub const MAX_UTC_SECONDS: i64 = 8_210_266_876_799;

/// A point in time: whole seconds since 1970-01-01T00:00:00Z, and the
/// nanoseconds that have passed since that second began.
///
/// Two values denote the same point in time when their [`Timestamp::instant`]
/// is the same; all comparisons go by it.
#[derive(Clone, Copy, Debug, PartialEq, Eq, Structural)]
pub struct Timestamp {
    pub secs: i64,
    pub nanos: u32,
}

impl Timestamp {
    /// Nanoseconds since 1970-01-01T00:00:00Z.
    pub open spec fn instant(self) -> int {
        self.secs * NANOS_PER_SECOND + self.nanos
    }

    /// The time elapsed from `earlier` to `self` is strictly more than
    /// `days` days.
    pub open spec fn spec_exceeds_days(self, earlier: Timestamp, days: u64) -> bool {
        self.instant() - earlier.instant() > days * NANOS_PER_DAY
    }

    /// The point in time `nanos` nanoseconds after the second `secs`.
    pub fn new(secs: i64, nanos: u32) -> (t: Timestamp)
        ensures
            t.secs == secs,
            t.nanos == nanos,
    {
        Timestamp { secs, nanos }
    }

    /// The same point in time as a machine integer.
    fn nanoseconds(&self) -> (n: i128)
        ensures
            n == self.instant(),
    {
        let secs: i128 = self.secs as i128;
        let nanos: i128 = self.nanos as i128;
        secs * NANOS_PER_SECOND + nanos
    }

    /// Whether `self` is strictly later than `other`.
    pub fn is_after(&self, other: &Timestamp) -> (r: bool)
        ensures
            r == (self.instant() > other.instant()),
    {
        self.nanoseconds() > other.nanoseconds()
    }

    /// Whether more than `days` whole days lie between `earlier` and `self`.
    /// Exactly `days` days is not more: the comparison is strict. An `earlier`
    /// that lies in the future never exceeds any number of days.
    pub fn exceeds_days(&self, earlier: &Timestamp, days: u64) -> (r: bool)
        ensures
            r == self.spec_exceeds_days(*earlier, days),
    {
        let elapsed: i128 = self.nanoseconds() - earlier.nanoseconds();
        let days_wide: i128 = days as i128;
        let limit: i128 = days_wide * NANOS_PER_DAY;
        elapsed > limit
    }

    /// The point in time `secs` seconds after 1970-01-01T00:00:00Z, where a
    /// UTC calendar date exists for it; `None` for a second outside
    /// [`MIN_UTC_SECONDS`]`..=`[`MAX_UTC_SECONDS`].
    pub fn from_unix_seconds(secs: i64) -> (r: Option<Timestamp>)
        ensures
            r == Self::spec_from_unix_seconds(secs),
    {
        utc_from_seconds(secs)
    }

    /// The point in time `secs` seconds after 1970-01-01T00:00:00Z, for a
    /// second that has a UTC calendar date.
    pub open spec fn spec_from_unix_seconds(secs: i64) -> Option<Timestamp> {
        if MIN_UTC_SECONDS <= secs <= MAX_UTC_SECONDS {
            Some(Timestamp { secs, nanos: 0 })
        } else {
            None
        }
    }
}

/// `chrono::DateTime::from_timestamp(secs, 0)`, read back through
/// `DateTime::timestamp` and `DateTime::timestamp_subsec_nanos`.
///
/// Trusted: chrono accepts exactly the seconds from that of
/// `DateTime::<Utc>::MIN_UTC` to that of `DateTime::<Utc>::MAX_UTC`, which
/// are midnight before the first day of the year -262143 and the last second
/// of the year 262142 (`NaiveDate::MIN`, `NaiveDate::MAX`); and what it
/// accepts reads back as the same second with no nanoseconds, as its
/// documentation promises of the round trip.
#[verifier::external_body]
fn utc_from_seconds(secs: i64) -> (r: Option<Timestamp>)
    ensures
        r == Timestamp::spec_from_unix_seconds(secs),
{
    match chrono::DateTime::from_timestamp(secs, 0) {
        Some(dt) => Some(Timestamp { secs: dt.timestamp(), nanos: dt.timestamp_subsec_nanos() }),
        None => None,
    }
}

/// `chrono::Utc::now()`, read through `DateTime::timestamp` and
/// `DateTime::timestamp_subsec_nanos`.
///
/// Trusted, and nothing is claimed of the value: it is whatever the system
/// clock says. chrono does not return, but panics, where the clock stands
/// before 1970 or beyond the last UTC date.
#[verifier::external_body]
pub(crate) fn utc_now() -> (t: Timestamp) {
    let dt = chrono::Utc::now();
    Timestamp { secs: dt.timestamp(), nanos: dt.timestamp_subsec_nanos() }
}

} // verus!
