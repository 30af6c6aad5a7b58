//! Points in time as plain numbers, and the two things that only the clock
//! and the calendar can tell: what time it is, and what date lies a number
//! of days ahead.

use vstd::prelude::*;

verus! {

/// A point in time, in UTC: whole seconds since 1970-01-01 00:00:00, leap
/// seconds not counted, and the nanoseconds since that second began.
#[derive(Debug, Clone, Copy, PartialEq, Eq, Structural)]
pub struct Timestamp {
    pub secs: i64,
    pub nanos: u32,
}

/// The seconds of a day.
pub const SECONDS_PER_DAY: i64 = 86_400;

/// The nanoseconds of a second.
pub const NANOS_PER_SECOND: u32 = 1_000_000_000;

impl Timestamp {
    /// Whether the nanoseconds stay within their second. (A calendar may
    /// write a leap second as a 60th second with more.)
    pub open spec fn well_formed(self) -> bool {
        self.nanos < NANOS_PER_SECOND
    }

    /// The nanoseconds since 1970-01-01 00:00:00.
    pub open spec fn instant(self) -> int {
        self.secs * NANOS_PER_SECOND + self.nanos
    }

    /// Whether this point in time lies before `other`: by the seconds, and
    /// within one second by the nanoseconds.
    pub open spec fn spec_before(self, other: Timestamp) -> bool {
        self.secs < other.secs || (self.secs == other.secs && self.nanos < other.nanos)
    }

    /// This point in time moved by a number of whole days.
    pub open spec fn spec_plus_days(self, days: int) -> (int, int) {
        (self.secs + days * SECONDS_PER_DAY, self.nanos as int)
    }

    /// The point in time with the given seconds and nanoseconds.
    pub fn new(secs: i64, nanos: u32) -> (t: Timestamp)
        ensures
            t.secs == secs,
            t.nanos == nanos,
    {
        Timestamp { secs, nanos }
    }

    /// Whether this point in time lies before `other`.
    pub fn before(&self, other: &Timestamp) -> (b: bool)
        ensures
            b == self.spec_before(*other),
    {
        self.secs < other.secs || (self.secs == other.secs && self.nanos < other.nanos)
    }

    /// Whether the system clock can read this point in time: it is well
    /// formed and does not lie before 1970.
    pub open spec fn clock_reading(self) -> bool {
        self.well_formed() && 0 <= self.secs
    }

    /// The current time, read off the system clock.
    pub fn now() -> (now: Timestamp)
        ensures
            now.clock_reading(),
    {
        utc_now()
    }

    /// This point in time moved by a number of whole days, if the calendar
    /// reaches that far.
    pub fn plus_days(&self, days: i64) -> (sum: Option<Timestamp>)
        ensures
            sum == spec_timestamp(chrono_add_days(self.secs, self.nanos, days)),
            self.well_formed() ==> (sum matches Some(t) ==> (t.secs as int, t.nanos as int)
                == self.spec_plus_days(days as int)),
    {
        checked_add_days(*self, days)
    }
}

/// Among well-formed points in time, the earlier one is the one with fewer
/// nanoseconds since 1970.
pub proof fn lemma_before_is_earlier(a: Timestamp, b: Timestamp)
    requires
        a.well_formed(),
        b.well_formed(),
    ensures
        a.spec_before(b) <==> a.instant() < b.instant(),
{
    assert(a.secs < b.secs ==> a.secs * NANOS_PER_SECOND + NANOS_PER_SECOND <= b.secs
        * NANOS_PER_SECOND) by (nonlinear_arith);
    assert(b.secs < a.secs ==> b.secs * NANOS_PER_SECOND + NANOS_PER_SECOND <= a.secs
        * NANOS_PER_SECOND) by (nonlinear_arith);
}

/// What chrono's `checked_add_signed` gives for the date and time with the
/// given seconds and nanoseconds and a number of whole days: the seconds and
/// nanoseconds of the sum, or nothing where the calendar does not reach.
pub uninterp spec fn chrono_add_days(secs: i64, nanos: u32, days: i64) -> Option<(i64, u32)>;

/// Seconds and nanoseconds as a point in time.
pub open spec fn spec_timestamp(pair: Option<(i64, u32)>) -> Option<Timestamp> {
    match pair {
        Some((secs, nanos)) => Some(Timestamp { secs, nanos }),
        None => None,
    }
}

/// `Utc::now` of chrono, which reads the time that has passed since 1970
/// off the system clock: the seconds are not negative, and the nanoseconds
/// stay below a second. Nothing else is known of the time. (chrono gives up
/// on a system clock that is set before 1970.)
#[verifier::external_body]
fn utc_now() -> (now: Timestamp)
    ensures
        0 <= now.secs,
        now.nanos < NANOS_PER_SECOND,
{
    let now = chrono::Utc::now();
    Timestamp { secs: now.timestamp(), nanos: now.timestamp_subsec_nanos() }
}

/// `DateTime::checked_add_signed` of chrono, on the date and time that
/// `DateTime::from_timestamp` makes of `t` and the span that
/// `TimeDelta::try_days` makes of `days`. Nothing comes back where one of
/// the three is out of the calendar's range. A sum comes back by its
/// `timestamp` and `timestamp_subsec_nanos`; unless `t` writes a leap second,
/// it is `t` with 86 400 seconds more for each day.
#[verifier::external_body]
fn checked_add_days(t: Timestamp, days: i64) -> (sum: Option<Timestamp>)
    ensures
        sum == spec_timestamp(chrono_add_days(t.secs, t.nanos, days)),
        t.nanos < NANOS_PER_SECOND ==> (sum matches Some(s) ==> s.secs == t.secs + days
            * SECONDS_PER_DAY && s.nanos == t.nanos),
{
    let start = chrono::DateTime::from_timestamp(t.secs, t.nanos)?;
    let sum = start.checked_add_signed(chrono::TimeDelta::try_days(days)?)?;
    Some(Timestamp { secs: sum.timestamp(), nanos: sum.timestamp_subsec_nanos() })
}

} // verus!
