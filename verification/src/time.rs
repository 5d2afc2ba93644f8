//! Instants on the UTC time line and the calendar fields read off them.
//!
//! Calendar arithmetic is left to `chrono`. The three functions that call it
//! (`read_utc_fields`, `parse_naive_time` and `read_system_clock`) are the
//! only trusted code of this module: Verus takes their contracts as given.

use chrono::{DateTime, Datelike, NaiveTime, Timelike, Utc};
use vstd::prelude::*;

verus! {

/// Nanoseconds in one second.
pub const NANOS_PER_SECOND: u32 = 1_000_000_000;

/// A date of the proleptic Gregorian calendar.
#[derive(Clone, Copy, Debug, PartialEq, Eq, Structural)]
pub struct CalendarDate {
    pub year: i32,
    pub month: u32,
    pub day: u32,
}

/// A day of the week.
#[derive(Clone, Copy, Debug, PartialEq, Eq, Structural)]
pub enum DayOfWeek {
    Sunday,
    Monday,
    Tuesday,
    Wednesday,
    Thursday,
    Friday,
    Saturday,
}

impl DayOfWeek {
    /// The number of days since the last Sunday: 0 for Sunday, 6 for Saturday.
    pub open spec fn index(self) -> int {
        match self {
            DayOfWeek::Sunday => 0,
            DayOfWeek::Monday => 1,
            DayOfWeek::Tuesday => 2,
            DayOfWeek::Wednesday => 3,
            DayOfWeek::Thursday => 4,
            DayOfWeek::Friday => 5,
            DayOfWeek::Saturday => 6,
        }
    }

    /// The day that lies `index` days after a Sunday, for `index` below 7.
    pub open spec fn spec_from_index(index: int) -> Option<DayOfWeek> {
        if index == 0 {
            Some(DayOfWeek::Sunday)
        } else if index == 1 {
            Some(DayOfWeek::Monday)
        } else if index == 2 {
            Some(DayOfWeek::Tuesday)
        } else if index == 3 {
            Some(DayOfWeek::Wednesday)
        } else if index == 4 {
            Some(DayOfWeek::Thursday)
        } else if index == 5 {
            Some(DayOfWeek::Friday)
        } else if index == 6 {
            Some(DayOfWeek::Saturday)
        } else {
            None
        }
    }

    /// The day that lies `index` days after a Sunday; `None` from 7 on.
    pub fn from_index(index: u32) -> (day: Option<DayOfWeek>)
        ensures
            day == Self::spec_from_index(index as int),
            day matches Some(d) ==> d.index() == index,
            day is Some <==> index < 7,
    {
        if index == 0 {
            Some(DayOfWeek::Sunday)
        } else if index == 1 {
            Some(DayOfWeek::Monday)
        } else if index == 2 {
            Some(DayOfWeek::Tuesday)
        } else if index == 3 {
            Some(DayOfWeek::Wednesday)
        } else if index == 4 {
            Some(DayOfWeek::Thursday)
        } else if index == 5 {
            Some(DayOfWeek::Friday)
        } else if index == 6 {
            Some(DayOfWeek::Saturday)
        } else {
            None
        }
    }

    /// The number of days since the last Sunday.
    pub fn to_index(&self) -> (index: u32)
        ensures
            index == self.index(),
            Self::spec_from_index(index as int) == Some(*self),
    {
        match self {
            DayOfWeek::Sunday => 0,
            DayOfWeek::Monday => 1,
            DayOfWeek::Tuesday => 2,
            DayOfWeek::Wednesday => 3,
            DayOfWeek::Thursday => 4,
            DayOfWeek::Friday => 5,
            DayOfWeek::Saturday => 6,
        }
    }

    /// The English name of the day.
    pub open spec fn spec_name(self) -> Seq<char> {
        match self {
            DayOfWeek::Sunday => "Sunday"@,
            DayOfWeek::Monday => "Monday"@,
            DayOfWeek::Tuesday => "Tuesday"@,
            DayOfWeek::Wednesday => "Wednesday"@,
            DayOfWeek::Thursday => "Thursday"@,
            DayOfWeek::Friday => "Friday"@,
            DayOfWeek::Saturday => "Saturday"@,
        }
    }

    /// The English name of the day.
    pub fn name(&self) -> (name: &'static str)
        ensures
            name@ == self.spec_name(),
    {
        match self {
            DayOfWeek::Sunday => "Sunday",
            DayOfWeek::Monday => "Monday",
            DayOfWeek::Tuesday => "Tuesday",
            DayOfWeek::Wednesday => "Wednesday",
            DayOfWeek::Thursday => "Thursday",
            DayOfWeek::Friday => "Friday",
            DayOfWeek::Saturday => "Saturday",
        }
    }
}

/// A wall-clock time to the minute, on a 24-hour clock.
#[derive(Clone, Copy, Debug, PartialEq, Eq, Structural)]
pub struct TimeOfDay {
    pub hour: u32,
    pub minute: u32,
}

impl TimeOfDay {
    /// The time exists on a clock: the hour is below 24, the minute below 60.
    pub open spec fn wf(self) -> bool {
        self.hour < 24 && self.minute < 60
    }

    /// Minutes since midnight.
    pub open spec fn minutes(self) -> int {
        self.hour * 60 + self.minute
    }

    /// Nanoseconds since midnight.
    pub open spec fn nanos_of_day(self) -> int {
        self.minutes() * 60_000_000_000
    }

    /// The time `hour:minute`, if there is such a time on the clock.
    pub fn new(hour: u32, minute: u32) -> (time: Option<TimeOfDay>)
        ensures
            time == if hour < 24 && minute < 60 {
                Some(TimeOfDay { hour, minute })
            } else {
                None::<TimeOfDay>
            },
    {
        if hour < 24 && minute < 60 {
            Some(TimeOfDay { hour, minute })
        } else {
            None
        }
    }

    /// Minutes since midnight.
    pub fn minutes_since_midnight(&self) -> (minutes: u64)
        ensures
            minutes == self.minutes(),
    {
        self.hour as u64 * 60 + self.minute as u64
    }

    /// Nanoseconds since midnight.
    pub fn nanos_since_midnight(&self) -> (nanos: i128)
        ensures
            nanos == self.nanos_of_day(),
    {
        let minutes = self.minutes_since_midnight() as i128;
        minutes * 60_000_000_000
    }
}

/// What a clock shows: hour, minute, second, and the nanoseconds into the
/// second.
#[derive(Clone, Copy, Debug, PartialEq, Eq, Structural)]
pub struct ClockReading {
    pub hour: u32,
    pub minute: u32,
    pub second: u32,
    pub nanosecond: u32,
}

/// The calendar fields of an instant as `chrono` reports them for UTC, with
/// the day of the week as the number of days since Sunday.
#[derive(Clone, Copy, Debug, PartialEq, Eq, Structural)]
pub struct UtcFields {
    pub date: CalendarDate,
    pub weekday: u32,
    pub hour: u32,
    pub minute: u32,
    pub second: u32,
}

/// An instant as a calendar and a clock show it in UTC.
#[derive(Clone, Copy, Debug, PartialEq, Eq, Structural)]
pub struct CivilTime {
    pub date: CalendarDate,
    pub day_of_week: DayOfWeek,
    pub hour: u32,
    pub minute: u32,
    pub second: u32,
    /// Nanoseconds into the second, carried over from the instant.
    pub nanos: u32,
}

impl CivilTime {
    /// The civil time that calendar fields and the nanoseconds of the
    /// instant stand for, or `None` where the fields name no day of the
    /// week.
    pub open spec fn spec_from_fields(fields: UtcFields, nanos: u32) -> Option<CivilTime> {
        match DayOfWeek::spec_from_index(fields.weekday as int) {
            Some(day) => Some(
                CivilTime {
                    date: fields.date,
                    day_of_week: day,
                    hour: fields.hour,
                    minute: fields.minute,
                    second: fields.second,
                    nanos,
                },
            ),
            None => None,
        }
    }

    /// The civil time that calendar fields and the nanoseconds of the
    /// instant stand for; `None` where the fields name no day of the week.
    pub fn from_fields(fields: UtcFields, nanos: u32) -> (civil: Option<CivilTime>)
        ensures
            civil == Self::spec_from_fields(fields, nanos),
    {
        match DayOfWeek::from_index(fields.weekday) {
            Some(day) => Some(
                CivilTime {
                    date: fields.date,
                    day_of_week: day,
                    hour: fields.hour,
                    minute: fields.minute,
                    second: fields.second,
                    nanos,
                },
            ),
            None => None,
        }
    }

    /// The time of day to the minute.
    pub open spec fn time_of_day(self) -> TimeOfDay {
        TimeOfDay { hour: self.hour, minute: self.minute }
    }

    /// Nanoseconds since midnight.
    pub open spec fn nanos_of_day(self) -> int {
        ((self.hour * 60 + self.minute) * 60 + self.second) * 1_000_000_000 + self.nanos
    }

    /// The time of day to the minute.
    pub fn clock(&self) -> (time: TimeOfDay)
        ensures
            time == self.time_of_day(),
    {
        TimeOfDay { hour: self.hour, minute: self.minute }
    }

    /// Nanoseconds since midnight.
    pub fn nanos_since_midnight(&self) -> (nanos: i128)
        ensures
            nanos == self.nanos_of_day(),
    {
        let minutes = self.hour as i128 * 60 + self.minute as i128;
        let seconds = minutes * 60 + self.second as i128;
        seconds * 1_000_000_000 + self.nanos as i128
    }
}

/// The calendar fields that `chrono` assigns to the instant `seconds` and
/// `nanos` after the epoch, or `None` where `chrono` cannot represent the
/// instant.
pub uninterp spec fn utc_fields(seconds: i64, nanos: u32) -> Option<UtcFields>;

/// What `chrono` reads from `text` under the `strftime` pattern `format`, or
/// `None` where the text does not match the pattern.
pub uninterp spec fn naive_time_parsed(text: Seq<char>, format: Seq<char>) -> Option<ClockReading>;

/// Reads the calendar fields of an instant.
///
/// Trusted: calls `chrono::DateTime::from_timestamp` and reads the fields of
/// the result with `Datelike` and `Timelike`. The contract names the outcome
/// and claims one thing about it: the day of the week, counted in days since
/// Sunday as `Weekday::num_days_from_sunday` does, is below 7.
#[verifier::external_body]
fn read_utc_fields(seconds: i64, nanos: u32) -> (fields: Option<UtcFields>)
    ensures
        fields == utc_fields(seconds, nanos),
        fields matches Some(f) ==> f.weekday < 7,
{
    match DateTime::<Utc>::from_timestamp(seconds, nanos) {
        Some(t) => Some(
            UtcFields {
                date: CalendarDate { year: t.year(), month: t.month(), day: t.day() },
                weekday: t.weekday().num_days_from_sunday(),
                hour: t.hour(),
                minute: t.minute(),
                second: t.second(),
            },
        ),
        None => None,
    }
}

/// Parses a time of day.
///
/// Trusted: calls `chrono::NaiveTime::parse_from_str`. The contract names the
/// time that was read; of a failure it keeps the text with which `chrono`
/// describes it, and says nothing about that text.
#[verifier::external_body]
fn parse_naive_time(text: &str, format: &str) -> (parsed: Result<ClockReading, String>)
    ensures
        parsed matches Ok(reading) ==> naive_time_parsed(text@, format@) == Some(reading),
        parsed is Err ==> naive_time_parsed(text@, format@) is None,
{
    match NaiveTime::parse_from_str(text, format) {
        Ok(t) => Ok(
            ClockReading {
                hour: t.hour(),
                minute: t.minute(),
                second: t.second(),
                nanosecond: t.nanosecond(),
            },
        ),
        Err(e) => Err(e.to_string()),
    }
}

/// Reads the system clock.
///
/// Trusted: calls `chrono::Utc::now`, which builds its result from a
/// `std::time::Duration` since the epoch, so the nanoseconds stay below one
/// second. Nothing else is claimed: two calls may return different instants.
#[verifier::external_body]
fn read_system_clock() -> (now: Timestamp)
    ensures
        now.wf(),
{
    let now = Utc::now();
    Timestamp { seconds: now.timestamp(), nanos: now.timestamp_subsec_nanos() }
}

/// The pattern of a time of day written as hour and minute, such as `09:30`.
pub open spec fn hour_minute_format() -> Seq<char> {
    "%H:%M"@
}

/// The time of day that a clock reading stands for, to the minute, or `None`
/// where the reading is not on the clock or does not fall on a full minute.
pub open spec fn spec_minute_of(reading: ClockReading) -> Option<TimeOfDay> {
    if reading.second == 0 && reading.nanosecond == 0 && reading.hour < 24 && reading.minute
        < 60 {
        Some(TimeOfDay { hour: reading.hour, minute: reading.minute })
    } else {
        None
    }
}

/// The time of day that `text` denotes when read as hour and minute, or
/// `None` where it denotes none, or one that is not on the clock or does not
/// fall on a full minute.
pub open spec fn spec_parse_hour_minute(text: Seq<char>) -> Option<TimeOfDay> {
    match naive_time_parsed(text, hour_minute_format()) {
        Some(reading) => spec_minute_of(reading),
        None => None,
    }
}

/// The time of day that a clock reading stands for, to the minute.
///
/// Fails with the reason as text where the reading is not on the clock or
/// does not fall on a full minute.
pub fn minute_of(reading: ClockReading) -> (time: Result<TimeOfDay, String>)
    ensures
        match time {
            Ok(t) => spec_minute_of(reading) == Some(t) && t.wf(),
            Err(_) => spec_minute_of(reading) is None,
        },
{
    if reading.second == 0 && reading.nanosecond == 0 && reading.hour < 24 && reading.minute
        < 60 {
        Ok(TimeOfDay { hour: reading.hour, minute: reading.minute })
    } else {
        Err("time is not a full minute of the day".to_owned())
    }
}

/// Reads a time of day written as hour and minute, such as `09:30`.
///
/// Fails with the reason as text where `text` is no such time.
pub fn parse_hour_minute(text: &str) -> (parsed: Result<TimeOfDay, String>)
    ensures
        parsed matches Ok(time) ==> spec_parse_hour_minute(text@) == Some(time) && time.wf(),
        parsed is Err ==> spec_parse_hour_minute(text@) is None,
{
    match parse_naive_time(text, "%H:%M") {
        Ok(reading) => minute_of(reading),
        Err(reason) => Err(reason),
    }
}

/// An instant on the UTC time line: the whole seconds since
/// 1970-01-01T00:00:00Z and the nanoseconds into the running second.
#[derive(Clone, Copy, Debug, PartialEq, Eq, Structural)]
pub struct Timestamp {
    pub seconds: i64,
    pub nanos: u32,
}

impl Timestamp {
    /// The nanoseconds stay within the running second.
    pub open spec fn wf(self) -> bool {
        self.nanos < NANOS_PER_SECOND
    }

    /// `self` is strictly earlier than `other`.
    pub open spec fn precedes(self, other: Timestamp) -> bool {
        self.seconds < other.seconds || (self.seconds == other.seconds && self.nanos
            < other.nanos)
    }

    /// `self` is `other` or earlier.
    pub open spec fn not_after(self, other: Timestamp) -> bool {
        self == other || self.precedes(other)
    }

    /// The instant `delta` seconds later, clamped to the first and the last
    /// second that can be represented.
    pub open spec fn spec_plus_saturating(self, delta: int) -> Timestamp {
        let sum = self.seconds + delta;
        Timestamp {
            seconds: if sum > i64::MAX {
                i64::MAX
            } else if sum < i64::MIN {
                i64::MIN
            } else {
                sum as i64
            },
            nanos: self.nanos,
        }
    }

    /// The instant `delta` seconds later, if its seconds can be represented.
    pub open spec fn spec_plus_seconds(self, delta: int) -> Option<Timestamp> {
        let sum = self.seconds + delta;
        if i64::MIN <= sum <= i64::MAX {
            Some(Timestamp { seconds: sum as i64, nanos: self.nanos })
        } else {
            None
        }
    }

    /// The instant as the calendar and the clock show it in UTC, or `None`
    /// where the calendar does not reach that far.
    pub open spec fn spec_civil(self) -> Option<CivilTime> {
        match utc_fields(self.seconds, self.nanos) {
            Some(fields) => CivilTime::spec_from_fields(fields, self.nanos),
            None => None,
        }
    }

    /// The instant `seconds` and `nanos` after the epoch; `None` unless
    /// `nanos` is less than a second.
    pub fn new(seconds: i64, nanos: u32) -> (made: Option<Timestamp>)
        ensures
            made == if nanos < NANOS_PER_SECOND {
                Some(Timestamp { seconds, nanos })
            } else {
                None::<Timestamp>
            },
            made matches Some(t) ==> t.wf(),
    {
        if nanos < NANOS_PER_SECOND {
            Some(Timestamp { seconds, nanos })
        } else {
            None
        }
    }

    /// The instant a whole number of seconds after the epoch.
    pub fn from_seconds(seconds: i64) -> (made: Timestamp)
        ensures
            made == (Timestamp { seconds, nanos: 0 }),
            made.wf(),
    {
        Timestamp { seconds, nanos: 0 }
    }

    /// The current time according to the system clock.
    pub fn now() -> (now: Timestamp)
        ensures
            now.wf(),
    {
        read_system_clock()
    }

    /// Whether `self` is strictly earlier than `other`.
    pub fn is_before(&self, other: &Timestamp) -> (earlier: bool)
        ensures
            earlier == self.precedes(*other),
    {
        self.seconds < other.seconds || (self.seconds == other.seconds && self.nanos
            < other.nanos)
    }

    /// Whether `self` is `other` or earlier.
    pub fn is_at_or_before(&self, other: &Timestamp) -> (earlier: bool)
        ensures
            earlier == self.not_after(*other),
    {
        self.seconds < other.seconds || (self.seconds == other.seconds && self.nanos
            <= other.nanos)
    }

    /// The instant `delta` seconds later; `None` where the seconds leave the
    /// range of `i64`.
    pub fn plus_seconds(&self, delta: i64) -> (later: Option<Timestamp>)
        ensures
            later == self.spec_plus_seconds(delta as int),
    {
        match self.seconds.checked_add(delta) {
            Some(seconds) => Some(Timestamp { seconds, nanos: self.nanos }),
            None => None,
        }
    }

    /// The instant `delta` seconds later, clamped to the range of `i64`.
    pub fn plus_seconds_saturating(&self, delta: i64) -> (later: Timestamp)
        ensures
            later == self.spec_plus_saturating(delta as int),
    {
        match self.seconds.checked_add(delta) {
            Some(seconds) => Timestamp { seconds, nanos: self.nanos },
            None => if delta > 0 {
                Timestamp { seconds: i64::MAX, nanos: self.nanos }
            } else {
                Timestamp { seconds: i64::MIN, nanos: self.nanos }
            },
        }
    }

    /// The instant as the calendar and the clock show it in UTC; `None`
    /// where the calendar does not reach that far.
    pub fn civil(&self) -> (civil: Option<CivilTime>)
        ensures
            civil == self.spec_civil(),
    {
        match read_utc_fields(self.seconds, self.nanos) {
            Some(fields) => CivilTime::from_fields(fields, self.nanos),
            None => None,
        }
    }
}

/// The order of instants is strict: no instant precedes itself, and of two
/// different instants exactly one precedes the other.
pub proof fn lemma_precedes_is_strict_total(a: Timestamp, b: Timestamp)
    ensures
        !a.precedes(a),
        a != b ==> (a.precedes(b) <==> !b.precedes(a)),
        a.not_after(b) <==> !b.precedes(a),
{
}

/// The order of instants is transitive.
pub proof fn lemma_precedes_is_transitive(a: Timestamp, b: Timestamp, c: Timestamp)
    ensures
        a.precedes(b) && b.precedes(c) ==> a.precedes(c),
        a.not_after(b) && b.precedes(c) ==> a.precedes(c),
        a.precedes(b) && b.not_after(c) ==> a.precedes(c),
        a.not_after(b) && b.not_after(c) ==> a.not_after(c),
{
}

} // verus!
