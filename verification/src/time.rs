//! Points in time, as the library compares and stores them.

use vstd::prelude::*;

verus! {

/// The last second that a clock can show: the end of the year 262142.
pub const LAST_CLOCK_SECOND: i64 = 8_210_266_876_799;

/// A point in UTC time: whole seconds since the Unix epoch, and the
/// nanoseconds since the last whole second. In a leap second `nanos` goes
/// on counting above 999,999,999.
#[derive(Debug, Clone, Copy, PartialEq, Eq, Structural)]
pub struct Timestamp {
    pub secs: i64,
    pub nanos: u32,
}

impl DeepView for Timestamp {
    type V = Timestamp;

    open spec fn deep_view(&self) -> Timestamp {
        *self
    }
}

impl Timestamp {
    /// Whether `self` lies before `other`.
    pub open spec fn earlier_than(self, other: Timestamp) -> bool {
        self.secs < other.secs || (self.secs == other.secs && self.nanos < other.nanos)
    }

    /// Whether `self` lies before `other`.
    pub fn is_earlier_than(&self, other: &Timestamp) -> (earlier: bool)
        ensures
            earlier == self.earlier_than(*other),
    {
        self.secs < other.secs || (self.secs == other.secs && self.nanos < other.nanos)
    }

    /// Whether a system clock can show this time: not before the Unix epoch,
    /// not after the last second of the calendar, and outside leap seconds.
    pub open spec fn is_clock_reading(self) -> bool {
        0 <= self.secs <= LAST_CLOCK_SECOND && self.nanos < 1_000_000_000
    }

    /// The time `days` days before `self`.
    pub open spec fn minus_days(self, days: int) -> Timestamp {
        Timestamp { secs: (self.secs - days * 86_400) as i64, nanos: self.nanos }
    }
}

/// `chrono`'s `DateTime<Utc> - TimeDelta` for a whole number of days: from a
/// clock reading it goes back 86,400 seconds for each day and keeps the
/// nanoseconds. The conversions are `DateTime::from_timestamp`, `timestamp`
/// and `timestamp_subsec_nanos`, which `chrono` documents to round-trip.
#[verifier::external_body]
pub(crate) fn days_before(at: Timestamp, days: i64) -> (before: Timestamp)
    requires
        at.is_clock_reading(),
        0 <= days <= 100_000,
    ensures
        before == at.minus_days(days as int),
{
    let at = chrono::DateTime::<chrono::Utc>::from_timestamp(at.secs, at.nanos).unwrap();
    let before = at - chrono::TimeDelta::days(days);
    Timestamp { secs: before.timestamp(), nanos: before.timestamp_subsec_nanos() }
}

/// Outside leap seconds, a time lies before another if fewer nanoseconds have
/// passed up to it.
pub proof fn earlier_times_have_fewer_nanoseconds(a: Timestamp, b: Timestamp)
    requires
        a.nanos < 1_000_000_000,
        b.nanos < 1_000_000_000,
    ensures
        a.earlier_than(b) <==> a.secs * 1_000_000_000 + a.nanos < b.secs * 1_000_000_000 + b.nanos,
{
}

/// Of two different times, in leap seconds too, exactly one lies before the
/// other, and what lies before a time lies before all that come after it.
pub proof fn times_are_in_order(a: Timestamp, b: Timestamp, c: Timestamp)
    ensures
        a == b <==> !a.earlier_than(b) && !b.earlier_than(a),
        !(a.earlier_than(b) && b.earlier_than(a)),
        a.earlier_than(b) && b.earlier_than(c) ==> a.earlier_than(c),
        a.secs < b.secs ==> a.earlier_than(b),
        a.secs == b.secs && a.nanos < b.nanos ==> a.earlier_than(b),
{
}

/// Going some days back and as many forward again leads to the same time: a
/// day has 24 hours of 3600 seconds.
pub proof fn days_back_are_days_forward(at: Timestamp, days: int)
    requires
        at.is_clock_reading(),
        0 <= days <= 100_000,
    ensures
        at.minus_days(days).secs + days * 24 * 3600 == at.secs,
        at.minus_days(days).nanos == at.nanos,
{
}

} // verus!
