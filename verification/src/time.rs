//! Points in time.
use chrono::{DateTime, Duration, Timelike, Utc};
use vstd::prelude::*;

verus! {

/// The first second that a timestamp can hold: the start of the year -262143.
pub const MIN_SECONDS: i64 = -8_334_601_228_800;

/// The last second that a timestamp can hold: the end of the year 262142.
pub const MAX_SECONDS: i64 = 8_210_266_876_799;

/// Whether the calendar holds a second with a fraction. Fractions of one second
/// and more belong to a leap second, which follows the second that it is
/// counted from; the last second of the calendar has none.
pub open spec fn is_in_calendar(seconds: int, nanos: int) -> bool {
    &&& MIN_SECONDS <= seconds <= MAX_SECONDS
    &&& 0 <= nanos < 2_000_000_000
    &&& seconds == MAX_SECONDS ==> nanos < 1_000_000_000
}

/// The nanoseconds from an earlier to a later point in time. Of leap seconds,
/// only those of the two points are known. The leap second of the earlier point
/// has passed at a later time of day, and that of the later point has not come
/// at an earlier time of day.
pub open spec fn nanoseconds_between(
    earlier_seconds: int,
    earlier_nanos: int,
    seconds: int,
    nanos: int,
) -> int {
    let time_of_day = seconds % 86_400;
    let earlier_time_of_day = earlier_seconds % 86_400;
    let leap: int = if time_of_day > earlier_time_of_day && earlier_nanos >= 1_000_000_000 {
        1
    } else if time_of_day < earlier_time_of_day && nanos >= 1_000_000_000 {
        -1
    } else {
        0
    };
    (seconds - earlier_seconds + leap) * 1_000_000_000 + (nanos - earlier_nanos)
}

/// A point in time, counted from the start of 1970 in UTC.
#[derive(Clone, Copy, Debug)]
pub struct Timestamp {
    seconds: i64,
    nanos: u32,
}

impl Timestamp {
    /// The calendar range.
    #[verifier::type_invariant]
    closed spec fn in_range(self) -> bool {
        is_in_calendar(self.seconds as int, self.nanos as int)
    }

    /// Whole seconds since the start of 1970, without leap seconds.
    pub closed spec fn whole_seconds(self) -> int {
        self.seconds as int
    }

    /// Nanoseconds since the whole second.
    pub closed spec fn subsec_nanoseconds(self) -> int {
        self.nanos as int
    }

    /// Whether the point in time is in a leap second.
    pub open spec fn is_leap(self) -> bool {
        self.subsec_nanoseconds() >= 1_000_000_000
    }

    /// Nanoseconds since the start of 1970, without leap seconds before this
    /// one.
    pub open spec fn nanoseconds(self) -> int {
        self.whole_seconds() * 1_000_000_000 + self.subsec_nanoseconds()
    }

    /// The nanoseconds from an earlier point in time to this one.
    pub open spec fn nanoseconds_since(self, earlier: Timestamp) -> int {
        nanoseconds_between(
            earlier.whole_seconds(),
            earlier.subsec_nanoseconds(),
            self.whole_seconds(),
            self.subsec_nanoseconds(),
        )
    }

    /// The timestamp of a number of seconds and a fraction in nanoseconds, if
    /// the calendar holds it.
    pub fn new(seconds: i64, nanos: u32) -> (timestamp: Option<Timestamp>)
        ensures
            timestamp is Some <==> is_in_calendar(seconds as int, nanos as int),
            timestamp matches Some(t) ==> {
                &&& t.whole_seconds() == seconds
                &&& t.subsec_nanoseconds() == nanos
            },
    {
        if MIN_SECONDS <= seconds && seconds <= MAX_SECONDS && nanos < 2_000_000_000 && !(seconds
            == MAX_SECONDS && nanos >= 1_000_000_000) {
            Some(Timestamp { seconds, nanos })
        } else {
            None
        }
    }

    /// Whether more than the given number of hours lie between `earlier` and
    /// this point in time.
    pub fn is_later_by_more_than_hours(&self, earlier: &Timestamp, hours: u32) -> (later: bool)
        ensures
            later == (self.nanoseconds_since(*earlier) > hours * 3_600_000_000_000),
    {
        proof {
            use_type_invariant(self);
            use_type_invariant(earlier);
        }
        duration_exceeds(self.seconds, self.nanos, earlier.seconds, earlier.nanos, hours)
    }
}

/// Subtracts two `chrono::DateTime<Utc>` and compares the difference with
/// `chrono::Duration::hours`. Within the calendar range the difference is
/// exact to the nanosecond, and takes leap seconds into account as
/// [`nanoseconds_between`] says.
#[verifier::external_body]
fn duration_exceeds(
    seconds: i64,
    nanos: u32,
    earlier_seconds: i64,
    earlier_nanos: u32,
    hours: u32,
) -> (exceeds: bool)
    requires
        is_in_calendar(seconds as int, nanos as int),
        is_in_calendar(earlier_seconds as int, earlier_nanos as int),
    ensures
        exceeds == (nanoseconds_between(
            earlier_seconds as int,
            earlier_nanos as int,
            seconds as int,
            nanos as int,
        ) > hours * 3_600_000_000_000),
{
    let now = DateTime::<Utc>::from_timestamp(seconds, 0).unwrap();
    let earlier = DateTime::<Utc>::from_timestamp(earlier_seconds, 0).unwrap();
    let (now, earlier) = (now.with_nanosecond(nanos), earlier.with_nanosecond(earlier_nanos));
    now.unwrap() - earlier.unwrap() > Duration::hours(hours.into())
}

/// Away from leap seconds, the time between two points is the difference of
/// the two.
pub proof fn time_between_is_the_difference(earlier: Timestamp, later: Timestamp)
    requires
        !earlier.is_leap(),
        !later.is_leap(),
    ensures
        later.nanoseconds_since(earlier) == later.nanoseconds() - earlier.nanoseconds(),
{
}

/// The calendar holds every second of its years, with every fraction and, but for
/// the very last one, with a leap second after it.
pub proof fn calendar_holds_its_years(seconds: int, nanos: int)
    ensures
        -8_334_601_228_800 <= seconds < 8_210_266_876_799 && 0 <= nanos < 2_000_000_000
            ==> is_in_calendar(seconds, nanos),
        seconds == 8_210_266_876_799 ==> (is_in_calendar(seconds, nanos) <==> 0 <= nanos
            < 1_000_000_000),
        !(-8_334_601_228_800 <= seconds <= 8_210_266_876_799) || !(0 <= nanos < 2_000_000_000)
            ==> !is_in_calendar(seconds, nanos),
{
}

/// The time from one point to another is the opposite of the time back. It is the
/// difference of the two but for the leap seconds that they are in, each of which
/// counts as one second at most.
pub proof fn time_between_goes_both_ways(first: Timestamp, second: Timestamp)
    ensures
        second.nanoseconds_since(first) == -first.nanoseconds_since(second),
        ({
            let difference = second.nanoseconds() - first.nanoseconds();
            let time = second.nanoseconds_since(first);
            &&& time == difference || first.is_leap() && time == difference + 1_000_000_000
                || second.is_leap() && time == difference - 1_000_000_000
        }),
        first.whole_seconds() == second.whole_seconds() ==> second.nanoseconds_since(first)
            == second.subsec_nanoseconds() - first.subsec_nanoseconds(),
        first.is_leap() && first.whole_seconds() % 86_400 < second.whole_seconds() % 86_400
            ==> second.nanoseconds_since(first) == second.nanoseconds() - first.nanoseconds()
            + 1_000_000_000,
{
}

} // verus!
