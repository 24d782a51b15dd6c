//! Calendar dates, times of day and signed spans of time, held as plain
//! integers so that the trigger logic can reason about them.

use vstd::prelude::*;

verus! {

/// Nanoseconds in one second.
pub const NANOS_PER_SECOND: i128 = 1_000_000_000;

/// Nanoseconds in one day.
pub const NANOS_PER_DAY: i128 = 86_400_000_000_000;

/// A signed span of time with nanosecond resolution.
///
/// Its view is the number of nanoseconds.
#[derive(Clone, Copy, Debug, PartialEq, Eq, Structural)]
pub struct Span {
    pub nanos: i128,
}

impl View for Span {
    type V = int;

    open spec fn view(&self) -> int {
        self.nanos as int
    }
}

impl Span {
    /// The empty span.
    pub fn zero() -> (r: Span)
        ensures
            r@ == 0,
    {
        Span { nanos: 0 }
    }

    /// A span of `nanos` nanoseconds.
    pub fn from_nanos(nanos: i128) -> (r: Span)
        ensures
            r@ == nanos,
    {
        Span { nanos }
    }

    /// A span of `seconds` whole seconds.
    pub fn seconds(seconds: i64) -> (r: Span)
        ensures
            r@ == seconds * NANOS_PER_SECOND,
    {
        Span { nanos: (seconds as i128) * NANOS_PER_SECOND }
    }

    /// A span of `days` whole days of 86 400 seconds.
    pub fn days(days: i64) -> (r: Span)
        ensures
            r@ == days * NANOS_PER_DAY,
    {
        Span { nanos: (days as i128) * NANOS_PER_DAY }
    }

    /// A span of `seconds` seconds and `nanos` further nanoseconds, as an
    /// unsigned duration counts them.
    pub fn from_secs_nanos(seconds: u64, nanos: u32) -> (r: Span)
        ensures
            r@ == seconds * NANOS_PER_SECOND + nanos,
    {
        Span { nanos: (seconds as i128) * NANOS_PER_SECOND + (nanos as i128) }
    }

    /// The number of nanoseconds in the span.
    pub fn as_nanos(&self) -> (r: i128)
        ensures
            r == self@,
    {
        self.nanos
    }

    /// The span turned around: what led forward now leads back. The one span
    /// without a counterpart, the most negative, turns into the longest
    /// positive one.
    pub fn negated(&self) -> (r: Span)
        ensures
            self@ > i128::MIN ==> r@ == -self@,
            self@ == i128::MIN ==> r@ == i128::MAX,
    {
        if self.nanos == i128::MIN {
            Span { nanos: i128::MAX }
        } else {
            Span { nanos: -self.nanos }
        }
    }

    /// The sum of two spans, held at the ends of the representable range.
    pub fn saturating_plus(&self, other: Span) -> (r: Span)
        ensures
            r@ == clamp_nanos(self@ + other@),
    {
        if other.nanos >= 0 {
            if self.nanos > i128::MAX - other.nanos {
                Span { nanos: i128::MAX }
            } else {
                Span { nanos: self.nanos + other.nanos }
            }
        } else {
            if self.nanos < i128::MIN - other.nanos {
                Span { nanos: i128::MIN }
            } else {
                Span { nanos: self.nanos + other.nanos }
            }
        }
    }

    /// Whether this span is strictly shorter than `other`.
    pub fn is_less_than(&self, other: Span) -> (r: bool)
        ensures
            r == (self@ < other@),
    {
        self.nanos < other.nanos
    }

    /// Whether this span is at most as long as `other`.
    pub fn is_at_most(&self, other: Span) -> (r: bool)
        ensures
            r == (self@ <= other@),
    {
        self.nanos <= other.nanos
    }
}

/// A number of nanoseconds held at the ends of what a [`Span`] can hold.
pub open spec fn clamp_nanos(n: int) -> int {
    if n > i128::MAX {
        i128::MAX as int
    } else if n < i128::MIN {
        i128::MIN as int
    } else {
        n
    }
}

/// A calendar date, identified by its Julian day number.
///
/// Its view is that day number, so the distance between two dates is the
/// difference of their views, in days.
#[derive(Clone, Copy, Debug, PartialEq, Eq, Structural)]
pub struct Date {
    pub julian_day: i32,
}

impl View for Date {
    type V = int;

    open spec fn view(&self) -> int {
        self.julian_day as int
    }
}

impl Date {
    /// The date with the given Julian day number.
    pub fn from_julian_day(julian_day: i32) -> (r: Date)
        ensures
            r@ == julian_day,
    {
        Date { julian_day }
    }

    /// The Julian day number of the date.
    pub fn to_julian_day(&self) -> (r: i32)
        ensures
            r == self@,
    {
        self.julian_day
    }

    /// The span that leads from `earlier` to this date: one day for each
    /// day between them, negative where `earlier` is the later one.
    pub fn since(&self, earlier: Date) -> (r: Span)
        ensures
            r@ == (self@ - earlier@) * NANOS_PER_DAY,
    {
        let days: i128 = (self.julian_day as i128) - (earlier.julian_day as i128);
        Span { nanos: days * NANOS_PER_DAY }
    }
}

/// A time of day with nanosecond resolution.
///
/// Its view is the number of nanoseconds since midnight; times are ordered
/// by it.
#[derive(Clone, Copy, Debug, PartialEq, Eq, Structural)]
pub struct Time {
    hour: u8,
    minute: u8,
    second: u8,
    nanosecond: u32,
}

impl View for Time {
    type V = int;

    closed spec fn view(&self) -> int {
        ((self.hour as int * 60 + self.minute as int) * 60 + self.second as int)
            * NANOS_PER_SECOND as int + self.nanosecond as int
    }
}

/// The view of the time with the given components.
pub open spec fn nanos_of_day(hour: int, minute: int, second: int, nanosecond: int) -> int {
    ((hour * 60 + minute) * 60 + second) * NANOS_PER_SECOND as int + nanosecond
}

impl Time {
    #[verifier::type_invariant]
    closed spec fn well_formed(self) -> bool {
        &&& self.hour < 24
        &&& self.minute < 60
        &&& self.second < 60
        &&& self.nanosecond < 1_000_000_000
    }

    /// The hour of the day, for use in contracts.
    pub closed spec fn spec_hour(&self) -> int {
        self.hour as int
    }

    /// The minute of the hour, for use in contracts.
    pub closed spec fn spec_minute(&self) -> int {
        self.minute as int
    }

    /// The second of the minute, for use in contracts.
    pub closed spec fn spec_second(&self) -> int {
        self.second as int
    }

    /// The nanosecond of the second, for use in contracts.
    pub closed spec fn spec_nanosecond(&self) -> int {
        self.nanosecond as int
    }

    /// The first moment of the day.
    pub fn midnight() -> (r: Time)
        ensures
            r@ == 0,
    {
        Time { hour: 0, minute: 0, second: 0, nanosecond: 0 }
    }

    /// The time with the given hour, minute and second, or nothing where
    /// one of them does not exist on a clock face.
    pub fn from_hms(hour: u8, minute: u8, second: u8) -> (r: Option<Time>)
        ensures
            r.is_some() <==> (hour < 24 && minute < 60 && second < 60),
            r matches Some(t) ==> {
                &&& t@ == nanos_of_day(hour as int, minute as int, second as int, 0)
                &&& t.spec_hour() == hour
                &&& t.spec_minute() == minute
                &&& t.spec_second() == second
                &&& t.spec_nanosecond() == 0
            },
    {
        Time::from_hms_nano(hour, minute, second, 0)
    }

    /// The time with the given components, or nothing where one of them is
    /// out of its range.
    pub fn from_hms_nano(hour: u8, minute: u8, second: u8, nanosecond: u32) -> (r: Option<Time>)
        ensures
            r.is_some() <==> (hour < 24 && minute < 60 && second < 60 && nanosecond
                < 1_000_000_000),
            r matches Some(t) ==> {
                &&& t@ == nanos_of_day(hour as int, minute as int, second as int, nanosecond as int)
                &&& t.spec_hour() == hour
                &&& t.spec_minute() == minute
                &&& t.spec_second() == second
                &&& t.spec_nanosecond() == nanosecond
            },
    {
        if hour < 24 && minute < 60 && second < 60 && nanosecond < 1_000_000_000 {
            Some(Time { hour, minute, second, nanosecond })
        } else {
            None
        }
    }

    /// The hour of the day.
    pub fn hour(&self) -> (r: u8)
        ensures
            r == self.spec_hour(),
            r < 24,
    {
        proof {
            use_type_invariant(self);
        }
        self.hour
    }

    /// The minute of the hour.
    pub fn minute(&self) -> (r: u8)
        ensures
            r == self.spec_minute(),
            r < 60,
    {
        proof {
            use_type_invariant(self);
        }
        self.minute
    }

    /// The second of the minute.
    pub fn second(&self) -> (r: u8)
        ensures
            r == self.spec_second(),
            r < 60,
    {
        proof {
            use_type_invariant(self);
        }
        self.second
    }

    /// The nanosecond of the second.
    pub fn nanosecond(&self) -> (r: u32)
        ensures
            r == self.spec_nanosecond(),
            r < 1_000_000_000,
    {
        proof {
            use_type_invariant(self);
        }
        self.nanosecond
    }

    /// The number of nanoseconds since midnight.
    pub fn nanos_since_midnight(&self) -> (r: i128)
        ensures
            r == self@,
            0 <= r < NANOS_PER_DAY,
            self@ == nanos_of_day(
                self.spec_hour(),
                self.spec_minute(),
                self.spec_second(),
                self.spec_nanosecond(),
            ),
    {
        proof {
            use_type_invariant(self);
        }
        let seconds: i128 = ((self.hour as i128) * 60 + (self.minute as i128)) * 60 + (
        self.second as i128);
        seconds * NANOS_PER_SECOND + (self.nanosecond as i128)
    }

    /// The span that leads from `earlier` to this time, within one day;
    /// negative where `earlier` is the later one.
    pub fn since(&self, earlier: Time) -> (r: Span)
        ensures
            r@ == self@ - earlier@,
            -NANOS_PER_DAY < r@ < NANOS_PER_DAY,
    {
        let a: i128 = self.nanos_since_midnight();
        let b: i128 = earlier.nanos_since_midnight();
        Span { nanos: a - b }
    }

    /// Whether this time is not later than `other`.
    pub fn is_at_most(&self, other: Time) -> (r: bool)
        ensures
            r == (self@ <= other@),
    {
        let a: i128 = self.nanos_since_midnight();
        let b: i128 = other.nanos_since_midnight();
        a <= b
    }
}

/// A moment as the time since an epoch, in whole seconds and the
/// nanoseconds of the second begun.
#[derive(Clone, Copy, Debug, PartialEq, Eq, Structural)]
pub struct Timestamp {
    secs: u64,
    subsec_nanos: u32,
}

impl Timestamp {
    #[verifier::type_invariant]
    closed spec fn well_formed(self) -> bool {
        self.subsec_nanos < 1_000_000_000
    }

    /// The whole seconds, for use in contracts.
    pub closed spec fn spec_secs(&self) -> int {
        self.secs as int
    }

    /// The nanoseconds of the second begun, for use in contracts.
    pub closed spec fn spec_subsec_nanos(&self) -> int {
        self.subsec_nanos as int
    }

    /// The epoch itself.
    pub fn zero() -> (r: Timestamp)
        ensures
            r.spec_secs() == 0,
            r.spec_subsec_nanos() == 0,
    {
        Timestamp { secs: 0, subsec_nanos: 0 }
    }

    /// The moment `secs` seconds and `subsec_nanos` nanoseconds after the
    /// epoch, or nothing where the nanoseconds make up a second or more.
    pub fn new(secs: u64, subsec_nanos: u32) -> (r: Option<Timestamp>)
        ensures
            r.is_some() <==> subsec_nanos < 1_000_000_000,
            r matches Some(t) ==> t.spec_secs() == secs && t.spec_subsec_nanos() == subsec_nanos,
    {
        if subsec_nanos < 1_000_000_000 {
            Some(Timestamp { secs, subsec_nanos })
        } else {
            None
        }
    }

    /// The whole seconds since the epoch.
    pub fn as_secs(&self) -> (r: u64)
        ensures
            r == self.spec_secs(),
    {
        self.secs
    }

    /// The nanoseconds of the second begun.
    pub fn subsec_nanos(&self) -> (r: u32)
        ensures
            r == self.spec_subsec_nanos(),
            r < 1_000_000_000,
    {
        proof {
            use_type_invariant(self);
        }
        self.subsec_nanos
    }

    /// The whole microseconds of the second begun.
    pub fn subsec_micros(&self) -> (r: u32)
        ensures
            r == self.spec_subsec_nanos() / 1000,
            r < 1_000_000,
    {
        proof {
            use_type_invariant(self);
        }
        self.subsec_nanos / 1000
    }
}

} // verus!
