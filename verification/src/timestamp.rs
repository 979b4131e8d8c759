//! Points in time, as nanoseconds since the Unix epoch, each with the offset from UTC in which it
//! is told.

use vstd::prelude::*;

verus! {

/// Nanoseconds in a second.
pub const NANOS_PER_SECOND: i128 = 1_000_000_000;

/// First second of the year -9999.
pub const FIRST_SECOND: i128 = -377_705_116_800;

/// Last second of the year 9999.
pub const LAST_SECOND: i128 = 253_402_300_799;

/// Largest offset from UTC in seconds, to either side: 25 hours, 59 minutes and 59 seconds.
pub const LARGEST_OFFSET: i32 = 93_599;

/// The dates that a calendar can tell: the years -9999 to 9999.
pub open spec fn in_calendar(nanos: int) -> bool {
    FIRST_SECOND * NANOS_PER_SECOND <= nanos < (LAST_SECOND + 1) * NANOS_PER_SECOND
}

/// The offsets from UTC that a calendar can tell a date in.
pub open spec fn is_offset(seconds: int) -> bool {
    -LARGEST_OFFSET <= seconds <= LARGEST_OFFSET
}

/// A point in time whose date, told at its offset from UTC, lies in the years -9999 to 9999.
#[derive(Clone, Copy, Eq)]
pub struct Timestamp {
    unix_nanos: i128,
    offset_seconds: i32,
}

impl View for Timestamp {
    type V = int;

    closed spec fn view(&self) -> int {
        self.unix_nanos as int
    }
}

/// Two timestamps are equal when they name the same point, whatever their offsets.
impl PartialEq for Timestamp {
    fn eq(&self, other: &Timestamp) -> (equal: bool) {
        self.unix_nanos == other.unix_nanos
    }
}

impl vstd::std_specs::cmp::PartialEqSpecImpl for Timestamp {
    open spec fn obeys_eq_spec() -> bool {
        true
    }

    open spec fn eq_spec(&self, other: &Timestamp) -> bool {
        self@ == other@
    }
}

/// `time::OffsetDateTime::from_unix_timestamp` with `unix_timestamp_nanos`. Claimed: a second
/// within the years -9999 to 9999 comes back in nanoseconds, any other is refused.
#[verifier::external_body]
fn nanos_of_unix_second(second: i64) -> (nanos: Option<i128>)
    ensures
        nanos == (if FIRST_SECOND <= second <= LAST_SECOND {
            Some((second * NANOS_PER_SECOND) as i128)
        } else {
            None
        }),
{
    time::OffsetDateTime::from_unix_timestamp(second).ok().map(|at| at.unix_timestamp_nanos())
}

/// `at` is the point `unix_nanos` nanoseconds after the Unix epoch, told at an offset from UTC, if
/// there is such an offset and the calendar reaches the date there.
pub open spec fn is_told_at(unix_nanos: int, offset: int, at: Option<Timestamp>) -> bool {
    &&& at is Some == (is_offset(offset) && in_calendar(unix_nanos + offset * NANOS_PER_SECOND))
    &&& at matches Some(at) ==> at@ == unix_nanos && at.offset() == offset
}

/// `later` is the point `seconds` seconds after `at`, told at the same offset.
pub open spec fn is_later_by(at: Timestamp, seconds: int, later: Timestamp) -> bool {
    &&& later@ == at@ + seconds * NANOS_PER_SECOND
    &&& later.offset() == at.offset()
}

impl Timestamp {
    #[verifier::type_invariant]
    closed spec fn in_range(self) -> bool {
        is_offset(self.offset()) && in_calendar(self.local())
    }

    /// Offset from UTC, in seconds.
    pub closed spec fn offset(self) -> int {
        self.offset_seconds as int
    }

    /// The date and time at the offset, in nanoseconds since 1970 began there.
    pub open spec fn local(self) -> int {
        self@ + self.offset() * NANOS_PER_SECOND
    }

    /// The point `unix_nanos` nanoseconds after the Unix epoch, told in UTC, if the calendar
    /// reaches it.
    pub fn from_unix_nanos(unix_nanos: i128) -> (at: Option<Timestamp>)
        ensures
            is_told_at(unix_nanos as int, 0, at),
    {
        Timestamp::from_unix_nanos_at_offset(unix_nanos, 0)
    }

    /// The point `unix_nanos` nanoseconds after the Unix epoch, told at an offset from UTC, if
    /// there is such an offset and the calendar reaches the date there.
    pub fn from_unix_nanos_at_offset(unix_nanos: i128, offset_seconds: i32) -> (at: Option<
        Timestamp,
    >)
        ensures
            is_told_at(unix_nanos as int, offset_seconds as int, at),
    {
        if offset_seconds < -LARGEST_OFFSET || LARGEST_OFFSET < offset_seconds {
            return None;
        }
        let shift: i128 = offset_seconds as i128 * NANOS_PER_SECOND;
        let first: i128 = FIRST_SECOND * NANOS_PER_SECOND - shift;
        let end: i128 = (LAST_SECOND + 1) * NANOS_PER_SECOND - shift;
        if first <= unix_nanos && unix_nanos < end {
            Some(Timestamp { unix_nanos, offset_seconds })
        } else {
            None
        }
    }

    /// The point `second` seconds after the Unix epoch, told in UTC, if the calendar reaches it.
    pub fn from_unix_timestamp(second: i64) -> (at: Option<Timestamp>)
        ensures
            is_told_at(second * NANOS_PER_SECOND, 0, at),
    {
        match nanos_of_unix_second(second) {
            Some(unix_nanos) => Some(Timestamp { unix_nanos, offset_seconds: 0 }),
            None => None,
        }
    }

    /// Nanoseconds since the Unix epoch.
    pub fn unix_nanos(self) -> (unix_nanos: i128)
        ensures
            unix_nanos == self@,
    {
        self.unix_nanos
    }

    /// Offset from UTC, in seconds.
    pub fn offset_seconds(self) -> (seconds: i32)
        ensures
            seconds == self.offset(),
            is_offset(self.offset()),
    {
        proof {
            use_type_invariant(&self);
        }
        self.offset_seconds
    }

    /// The date and time at the offset, in nanoseconds since 1970 began there.
    pub fn local_nanos(self) -> (local_nanos: i128)
        ensures
            local_nanos == self.local(),
            in_calendar(self.local()),
    {
        proof {
            use_type_invariant(&self);
        }
        let shift: i128 = self.offset_seconds as i128 * NANOS_PER_SECOND;
        self.unix_nanos + shift
    }

    /// Whether this point comes after `other`.
    pub fn is_after(self, other: Timestamp) -> (after: bool)
        ensures
            after == (self@ > other@),
    {
        self.unix_nanos > other.unix_nanos
    }

    /// The point `seconds` seconds later, told at the same offset.
    pub fn plus_seconds(self, seconds: u32) -> (later: Timestamp)
        requires
            in_calendar(self.local() + seconds * NANOS_PER_SECOND),
        ensures
            is_later_by(self, seconds as int, later),
    {
        proof {
            use_type_invariant(&self);
        }
        let step: i128 = seconds as i128 * NANOS_PER_SECOND;
        Timestamp { unix_nanos: self.unix_nanos + step, offset_seconds: self.offset_seconds }
    }
}

/// The calendar reaches from the beginning of the year -9999 to the end of the year 9999, to the
/// nanosecond, an offset to less than 26 hours on either side, and the local date lies as far from
/// the point itself as the offset says.
pub proof fn law_calendar_reaches_ten_thousand_years(nanos: int, at: Timestamp)
    ensures
        in_calendar(nanos) <==> -377_705_116_800_000_000_000 <= nanos < 253_402_300_800_000_000_000,
        is_offset(at.offset()) <==> -26 * 3_600 < at.offset() < 26 * 3_600,
        at.local() - at@ == at.offset() * 1_000_000_000,
{
}

/// A point is told exactly when its offset is less than 26 hours and its local date lies in the
/// calendar; what is told is the very point and the very offset.
pub proof fn law_told_point_is_the_point_itself(
    unix_nanos: int,
    offset: int,
    at: Option<Timestamp>,
)
    requires
        is_told_at(unix_nanos, offset, at),
    ensures
        at is Some <==> -93_600 < offset < 93_600 && -377_705_116_800_000_000_000 <= unix_nanos
            + offset * 1_000_000_000 < 253_402_300_800_000_000_000,
        at is Some ==> at->0@ == unix_nanos && at->0.offset() == offset,
{
}

/// A point some seconds later lies that many seconds after the point, local date and all, and is
/// told at the same offset; going on from there adds up.
pub proof fn law_later_points_add_up(
    at: Timestamp,
    seconds: int,
    later: Timestamp,
    more: int,
    latest: Timestamp,
)
    requires
        is_later_by(at, seconds, later),
        is_later_by(later, more, latest),
    ensures
        later@ - at@ == seconds * 1_000_000_000,
        later.local() - at.local() == seconds * 1_000_000_000,
        later.offset() == at.offset(),
        is_later_by(at, seconds + more, latest),
{
}

} // verus!
