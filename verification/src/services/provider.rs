//! Working hours of a provider and the rules that decide whether the
//! provider is open at an instant or for a span of time.

use crate::models::provider::{Category, Provider};
use crate::services::error::ServiceError;
use crate::storage::{any, lists, Storage, StoreView};
use crate::text::{join2, lemma_filter_empty, lemma_filter_push, owned, to_uppercase, uppercased};
use crate::time::{
    parse_hour_minute, spec_parse_hour_minute, CalendarDate, CivilTime, DayOfWeek, TimeOfDay,
    Timestamp,
};
use vstd::prelude::*;

verus! {

/// Whether the span from `a_start` to `a_end` conflicts with the span from
/// `b_start` to `b_end`, both half-open: the first begins inside the second,
/// or ends inside it, or encloses it. A span that ends where the other begins
/// does not conflict with it.
pub open spec fn spans_conflict(a_start: int, a_end: int, b_start: int, b_end: int) -> bool {
    ||| b_start <= a_start < b_end
    ||| b_start < a_end <= b_end
    ||| (a_start <= b_start && b_end <= a_end)
}

/// A span of a day, from `start` up to but not including `end`.
#[derive(Clone, Copy, Debug, PartialEq, Eq, Structural)]
pub struct TimeRange {
    /// The first minute of the range.
    pub start: TimeOfDay,
    /// The minute at which the range is over.
    pub end: TimeOfDay,
}

impl TimeRange {
    /// Both ends are times on the clock and the start lies before the end:
    /// no range is empty and none crosses midnight.
    pub open spec fn wf(self) -> bool {
        self.start.wf() && self.end.wf() && self.start.minutes() < self.end.minutes()
    }

    /// The instant `time` lies in the range.
    pub open spec fn contains(self, time: TimeOfDay) -> bool {
        self.start.minutes() <= time.minutes() < self.end.minutes()
    }

    /// The span from `from` to `to`, in nanoseconds since midnight, lies
    /// entirely within the range: it begins inside the range and ends inside
    /// it or where the range ends.
    pub open spec fn holds(self, from: int, to: int) -> bool {
        &&& self.start.nanos_of_day() <= from < self.end.nanos_of_day()
        &&& self.start.nanos_of_day() <= to <= self.end.nanos_of_day()
    }

    /// The span from `from` to `to`, in nanoseconds since midnight, conflicts
    /// with the range.
    pub open spec fn conflicts(self, from: int, to: int) -> bool {
        spans_conflict(from, to, self.start.nanos_of_day(), self.end.nanos_of_day())
    }

    /// The range that the texts `start` and `end` denote, each read as hour
    /// and minute; `None` unless both are times and the first is the earlier.
    pub open spec fn spec_parse_times(start: Seq<char>, end: Seq<char>) -> Option<TimeRange> {
        match (spec_parse_hour_minute(start), spec_parse_hour_minute(end)) {
            (Some(s), Some(e)) => if s.minutes() < e.minutes() {
                Some(TimeRange { start: s, end: e })
            } else {
                None
            },
            _ => None,
        }
    }

    /// The range from `start` to `end`; a validation error unless `start`
    /// lies before `end`.
    pub fn new(start: TimeOfDay, end: TimeOfDay) -> (made: Result<TimeRange, ServiceError>)
        ensures
            match made {
                Ok(range) => range == (TimeRange { start, end }) && start.minutes()
                    < end.minutes(),
                Err(e) => e is Validation && start.minutes() >= end.minutes(),
            },
    {
        if start.minutes_since_midnight() < end.minutes_since_midnight() {
            Ok(TimeRange { start, end })
        } else {
            Err(ServiceError::Validation(owned("Time range must start before it ends")))
        }
    }

    /// Reads a range from its two ends written as hour and minute, such as
    /// `09:00` and `17:00`.
    ///
    /// Fails with a validation error where either text is no time of day or
    /// the start does not lie before the end.
    pub fn parse_times(start: &str, end: &str) -> (parsed: Result<TimeRange, ServiceError>)
        ensures
            match parsed {
                Ok(range) => Self::spec_parse_times(start@, end@) == Some(range) && range.wf(),
                Err(e) => e is Validation && Self::spec_parse_times(start@, end@) is None,
            },
    {
        let start_time = match parse_hour_minute(start) {
            Ok(time) => time,
            Err(reason) => {
                return Err(
                    ServiceError::Validation(
                        join2("Invalid start time format: ", reason.as_str()),
                    ),
                );
            },
        };
        let end_time = match parse_hour_minute(end) {
            Ok(time) => time,
            Err(reason) => {
                return Err(
                    ServiceError::Validation(join2("Invalid end time format: ", reason.as_str())),
                );
            },
        };
        TimeRange::new(start_time, end_time)
    }

    /// Whether `hour:minute` lies in the range.
    ///
    /// Fails with a validation error where `hour:minute` is no time on the
    /// clock.
    pub fn contains_time(&self, hour: u32, minute: u32) -> (inside: Result<bool, ServiceError>)
        ensures
            match inside {
                Ok(b) => hour < 24 && minute < 60 && b == self.contains(TimeOfDay { hour, minute }),
                Err(e) => e is Validation && !(hour < 24 && minute < 60),
            },
    {
        match TimeOfDay::new(hour, minute) {
            Some(time) => Ok(self.contains_instant(time)),
            None => Err(ServiceError::Validation(owned("Invalid time"))),
        }
    }

    /// Whether `time` lies in the range.
    pub fn contains_instant(&self, time: TimeOfDay) -> (inside: bool)
        ensures
            inside == self.contains(time),
    {
        let at = time.minutes_since_midnight();
        self.start.minutes_since_midnight() <= at && at < self.end.minutes_since_midnight()
    }

    /// Whether the span from `from` to `to`, in nanoseconds since midnight,
    /// lies entirely within the range.
    pub fn holds_span(&self, from: i128, to: i128) -> (inside: bool)
        ensures
            inside == self.holds(from as int, to as int),
    {
        let opens = self.start.nanos_since_midnight();
        let closes = self.end.nanos_since_midnight();
        opens <= from && from < closes && opens <= to && to <= closes
    }

    /// Whether the span from `from` to `to`, in nanoseconds since midnight,
    /// conflicts with the range.
    pub fn conflicts_with_span(&self, from: i128, to: i128) -> (conflict: bool)
        ensures
            conflict == self.conflicts(from as int, to as int),
    {
        let opens = self.start.nanos_since_midnight();
        let closes = self.end.nanos_since_midnight();
        (opens <= from && from < closes) || (opens < to && to <= closes) || (from <= opens
            && closes <= to)
    }
}

/// Some range of `ranges` contains the instant `time`.
pub open spec fn any_contains(ranges: Seq<TimeRange>, time: TimeOfDay) -> bool {
    exists|i: int| 0 <= i < ranges.len() && (#[trigger] ranges[i]).contains(time)
}

/// Some range of `ranges` holds the whole span from `from` to `to`.
pub open spec fn any_holds(ranges: Seq<TimeRange>, from: int, to: int) -> bool {
    exists|i: int| 0 <= i < ranges.len() && (#[trigger] ranges[i]).holds(from, to)
}

/// Some range of `ranges` conflicts with the span from `from` to `to`.
pub open spec fn any_conflicts(ranges: Seq<TimeRange>, from: int, to: int) -> bool {
    exists|i: int| 0 <= i < ranges.len() && (#[trigger] ranges[i]).conflicts(from, to)
}

/// Whether some range of `ranges` contains the instant `time`.
pub fn some_range_contains(ranges: &Vec<TimeRange>, time: TimeOfDay) -> (found: bool)
    ensures
        found == any_contains(ranges@, time),
{
    let mut i: usize = 0;
    while i < ranges.len()
        invariant
            i <= ranges.len(),
            forall|j: int| 0 <= j < i ==> !(#[trigger] ranges@[j]).contains(time),
        decreases ranges.len() - i,
    {
        if ranges[i].contains_instant(time) {
            return true;
        }
        i += 1;
    }
    false
}

/// Whether some range of `ranges` holds the whole span from `from` to `to`,
/// in nanoseconds since midnight.
pub fn some_range_holds(ranges: &Vec<TimeRange>, from: i128, to: i128) -> (found: bool)
    ensures
        found == any_holds(ranges@, from as int, to as int),
{
    let mut i: usize = 0;
    while i < ranges.len()
        invariant
            i <= ranges.len(),
            forall|j: int| 0 <= j < i ==> !(#[trigger] ranges@[j]).holds(from as int, to as int),
        decreases ranges.len() - i,
    {
        if ranges[i].holds_span(from, to) {
            return true;
        }
        i += 1;
    }
    false
}

/// Whether some range of `ranges` conflicts with the span from `from` to
/// `to`, in nanoseconds since midnight.
pub fn some_range_conflicts(ranges: &Vec<TimeRange>, from: i128, to: i128) -> (found: bool)
    ensures
        found == any_conflicts(ranges@, from as int, to as int),
{
    let mut i: usize = 0;
    while i < ranges.len()
        invariant
            i <= ranges.len(),
            forall|j: int|
                0 <= j < i ==> !(#[trigger] ranges@[j]).conflicts(from as int, to as int),
        decreases ranges.len() - i,
    {
        if ranges[i].conflicts_with_span(from, to) {
            return true;
        }
        i += 1;
    }
    false
}

/// The ranges of each day of a week. A day without ranges is a day off.
#[derive(Debug, Clone)]
pub struct WeekSchedule {
    pub sunday: Vec<TimeRange>,
    pub monday: Vec<TimeRange>,
    pub tuesday: Vec<TimeRange>,
    pub wednesday: Vec<TimeRange>,
    pub thursday: Vec<TimeRange>,
    pub friday: Vec<TimeRange>,
    pub saturday: Vec<TimeRange>,
}

impl WeekSchedule {
    /// The ranges of `day`.
    pub open spec fn on(self, day: DayOfWeek) -> Seq<TimeRange> {
        match day {
            DayOfWeek::Sunday => self.sunday@,
            DayOfWeek::Monday => self.monday@,
            DayOfWeek::Tuesday => self.tuesday@,
            DayOfWeek::Wednesday => self.wednesday@,
            DayOfWeek::Thursday => self.thursday@,
            DayOfWeek::Friday => self.friday@,
            DayOfWeek::Saturday => self.saturday@,
        }
    }

    /// A week in which every day is a day off.
    pub fn new() -> (week: WeekSchedule)
        ensures
            forall|day: DayOfWeek| (#[trigger] week.on(day)).len() == 0,
    {
        WeekSchedule {
            sunday: Vec::new(),
            monday: Vec::new(),
            tuesday: Vec::new(),
            wednesday: Vec::new(),
            thursday: Vec::new(),
            friday: Vec::new(),
            saturday: Vec::new(),
        }
    }

    /// The ranges of `day`.
    pub fn ranges(&self, day: DayOfWeek) -> (ranges: &Vec<TimeRange>)
        ensures
            ranges@ == self.on(day),
    {
        match day {
            DayOfWeek::Sunday => &self.sunday,
            DayOfWeek::Monday => &self.monday,
            DayOfWeek::Tuesday => &self.tuesday,
            DayOfWeek::Wednesday => &self.wednesday,
            DayOfWeek::Thursday => &self.thursday,
            DayOfWeek::Friday => &self.friday,
            DayOfWeek::Saturday => &self.saturday,
        }
    }

    /// Replaces the ranges of `day`; the other days stay as they are.
    pub fn set(&mut self, day: DayOfWeek, ranges: Vec<TimeRange>)
        ensures
            final(self).on(day) == ranges@,
            forall|other: DayOfWeek| other != day ==> final(self).on(other) == old(self).on(other),
    {
        match day {
            DayOfWeek::Sunday => { self.sunday = ranges; },
            DayOfWeek::Monday => { self.monday = ranges; },
            DayOfWeek::Tuesday => { self.tuesday = ranges; },
            DayOfWeek::Wednesday => { self.wednesday = ranges; },
            DayOfWeek::Thursday => { self.thursday = ranges; },
            DayOfWeek::Friday => { self.friday = ranges; },
            DayOfWeek::Saturday => { self.saturday = ranges; },
        }
    }
}

/// The hours of one calendar date that replace the regular hours of its day
/// of the week: a holiday, or a day with special hours.
#[derive(Debug, Clone)]
pub struct ExceptionDay {
    /// The date that the exception is for.
    pub date: CalendarDate,
    /// The hours of that date; none at all on a holiday.
    pub ranges: Vec<TimeRange>,
}

/// The ranges of the first entry of `days` that is for `date`, if there is
/// one.
pub open spec fn find_exception(days: Seq<ExceptionDay>, date: CalendarDate) -> Option<
    Seq<TimeRange>,
>
    decreases days.len(),
{
    if days.len() == 0 {
        None
    } else if days[0].date == date {
        Some(days[0].ranges@)
    } else {
        find_exception(days.drop_first(), date)
    }
}

/// No two entries of `days` are for the same date.
pub open spec fn dates_distinct(days: Seq<ExceptionDay>) -> bool {
    forall|a: int, b: int|
        0 <= a < b < days.len() ==> (#[trigger] days[a]).date != (#[trigger] days[b]).date
}

/// Entries that are not for `date` do not matter to what is found for it:
/// the search may begin behind them.
pub proof fn lemma_find_exception_behind(days: Seq<ExceptionDay>, date: CalendarDate, from: int)
    requires
        0 <= from <= days.len(),
        forall|j: int| 0 <= j < from ==> (#[trigger] days[j]).date != date,
    ensures
        find_exception(days, date) == find_exception(days.skip(from), date),
    decreases from,
{
    if from == 0 {
        assert(days.skip(0) =~= days);
    } else {
        lemma_find_exception_behind(days, date, from - 1);
        let rest = days.skip(from - 1);
        assert(rest[0] == days[from - 1]);
        assert(rest.drop_first() =~= days.skip(from));
    }
}

/// Two lists of entries that agree in their dates, and in the hours of the
/// entries for `date`, give the same hours for `date`.
pub proof fn lemma_find_exception_alike(
    days: Seq<ExceptionDay>,
    others: Seq<ExceptionDay>,
    date: CalendarDate,
)
    requires
        days.len() == others.len(),
        forall|j: int|
            0 <= j < days.len() ==> (#[trigger] days[j]).date == others[j].date && (days[j].date
                == date ==> days[j].ranges@ == others[j].ranges@),
    ensures
        find_exception(days, date) == find_exception(others, date),
    decreases days.len(),
{
    if days.len() > 0 {
        assert(days[0].date == others[0].date);
        if days[0].date != date {
            assert forall|j: int| 0 <= j < days.drop_first().len() implies (
            #[trigger] days.drop_first()[j]).date == others.drop_first()[j].date && (
            days.drop_first()[j].date == date ==> days.drop_first()[j].ranges@
                == others.drop_first()[j].ranges@) by {
                assert(days.drop_first()[j] == days[j + 1]);
                assert(others.drop_first()[j] == others[j + 1]);
            }
            lemma_find_exception_alike(days.drop_first(), others.drop_first(), date);
        }
    }
}

/// An entry that is added at the end is found for its date where no
/// earlier entry is for that date, and changes nothing for another date.
pub proof fn lemma_find_exception_added(
    days: Seq<ExceptionDay>,
    entry: ExceptionDay,
    date: CalendarDate,
)
    ensures
        entry.date != date ==> find_exception(days.push(entry), date) == find_exception(
            days,
            date,
        ),
        entry.date == date && find_exception(days, date) is None ==> find_exception(
            days.push(entry),
            date,
        ) == Some(entry.ranges@),
    decreases days.len(),
{
    let grown = days.push(entry);
    if days.len() == 0 {
        assert(grown.drop_first() =~= days);
    } else {
        assert(grown[0] == days[0]);
        assert(grown.drop_first() =~= days.drop_first().push(entry));
        lemma_find_exception_added(days.drop_first(), entry, date);
    }
}

/// Where no date occurs twice, every entry is found for its date.
pub proof fn lemma_every_exception_counts(days: Seq<ExceptionDay>, k: int)
    requires
        dates_distinct(days),
        0 <= k < days.len(),
    ensures
        find_exception(days, days[k].date) == Some(days[k].ranges@),
{
    lemma_find_exception_behind(days, days[k].date, k);
    assert(days.skip(k)[0] == days[k]);
}

/// The working hours of a provider.
#[derive(Debug, Clone)]
pub struct WorkingHours {
    /// Identifier of the provider.
    pub provider_id: String,
    /// The hours of each day of the week.
    pub regular_hours: WeekSchedule,
    /// Dates with hours of their own, which replace the regular hours of the
    /// date and its breaks.
    pub exceptions: Vec<ExceptionDay>,
    /// Breaks within the regular hours, by day of the week.
    pub breaks: Option<WeekSchedule>,
}

impl WorkingHours {
    /// Every range of the schedule is well formed, and no date has two
    /// exceptions.
    pub open spec fn wf(self) -> bool {
        &&& dates_distinct(self.exceptions@)
        &&& forall|day: DayOfWeek, i: int|
            0 <= i < self.regular_hours.on(day).len() ==> (#[trigger] self.regular_hours.on(
                day,
            )[i]).wf()
        &&& forall|k: int, i: int|
            0 <= k < self.exceptions.len() && 0 <= i < self.exceptions[k].ranges.len()
                ==> (#[trigger] self.exceptions[k].ranges[i]).wf()
        &&& self.breaks matches Some(breaks) ==> forall|day: DayOfWeek, i: int|
            0 <= i < breaks.on(day).len() ==> (#[trigger] breaks.on(day)[i]).wf()
    }

    /// The hours that replace the regular ones on `date`, if the date is an
    /// exception.
    pub open spec fn exception_for(self, date: CalendarDate) -> Option<Seq<TimeRange>> {
        find_exception(self.exceptions@, date)
    }

    /// The breaks of `day`; none where no breaks are configured.
    pub open spec fn breaks_on(self, day: DayOfWeek) -> Seq<TimeRange> {
        match self.breaks {
            Some(breaks) => breaks.on(day),
            None => Seq::empty(),
        }
    }

    /// The hours that apply at `when`: those of the exception for the date
    /// where there is one, else the regular hours of the day of the week.
    /// An exception replaces the regular hours; the two are never merged.
    pub open spec fn spec_resolve(self, when: CivilTime) -> Seq<TimeRange> {
        match self.exception_for(when.date) {
            Some(ranges) => ranges,
            None => self.regular_hours.on(when.day_of_week),
        }
    }

    /// The instant `when` falls into a break. Breaks are not consulted on the
    /// date of an exception.
    pub open spec fn within_break(self, when: CivilTime) -> bool {
        self.exception_for(when.date) is None && any_contains(
            self.breaks_on(when.day_of_week),
            when.time_of_day(),
        )
    }

    /// The provider is open at the instant `when`: some range of the hours
    /// that apply contains it, and it does not fall into a break.
    pub open spec fn open_at(self, when: CivilTime) -> bool {
        any_contains(self.spec_resolve(when), when.time_of_day()) && !self.within_break(when)
    }

    /// The provider can take a booking that begins at `when` and lasts
    /// `duration` seconds: the whole span lies within one range of the hours
    /// that apply and, unless the date is an exception, no break of the day
    /// conflicts with it.
    pub open spec fn admits(self, when: CivilTime, duration: int) -> bool {
        let from = when.nanos_of_day();
        let to = from + duration * 1_000_000_000;
        &&& any_holds(self.spec_resolve(when), from, to)
        &&& self.exception_for(when.date) is None ==> !any_conflicts(
            self.breaks_on(when.day_of_week),
            from,
            to,
        )
    }

    /// The hours that replace the regular ones on `date`, if the date is an
    /// exception.
    pub fn exception(&self, date: &CalendarDate) -> (found: Option<&Vec<TimeRange>>)
        ensures
            match found {
                Some(ranges) => self.exception_for(*date) == Some(ranges@),
                None => self.exception_for(*date) is None,
            },
    {
        let mut i: usize = 0;
        assert(self.exceptions@.skip(0) =~= self.exceptions@);
        while i < self.exceptions.len()
            invariant
                i <= self.exceptions.len(),
                find_exception(self.exceptions@, *date) == find_exception(
                    self.exceptions@.skip(i as int),
                    *date,
                ),
            decreases self.exceptions.len() - i,
        {
            let ghost rest = self.exceptions@.skip(i as int);
            assert(rest[0] == self.exceptions@[i as int]);
            assert(rest.drop_first() =~= self.exceptions@.skip(i + 1));
            if self.exceptions[i].date == *date {
                return Some(&self.exceptions[i].ranges);
            }
            i += 1;
        }
        None
    }

    /// Makes `date` an exception with the hours `ranges`, in place of the
    /// exception that the date had before, if it had one. The other dates,
    /// the regular hours and the breaks stay as they are, and a schedule
    /// that was well formed stays so where the new ranges are.
    pub fn set_exception(&mut self, date: CalendarDate, ranges: Vec<TimeRange>)
        ensures
            final(self).exception_for(date) == Some(ranges@),
            forall|other: CalendarDate|
                other != date ==> final(self).exception_for(other) == old(self).exception_for(
                    other,
                ),
            final(self).provider_id == old(self).provider_id,
            final(self).regular_hours == old(self).regular_hours,
            final(self).breaks == old(self).breaks,
            old(self).wf() && (forall|i: int| 0 <= i < ranges@.len() ==> (#[trigger] ranges@[i]).wf())
                ==> final(self).wf(),
    {
        let ghost before = self.exceptions@;
        let entry = ExceptionDay { date, ranges };
        let mut i: usize = 0;
        while i < self.exceptions.len()
            invariant
                i <= self.exceptions.len(),
                self.exceptions@ == before,
                before == old(self).exceptions@,
                self.provider_id == old(self).provider_id,
                self.regular_hours == old(self).regular_hours,
                self.breaks == old(self).breaks,
                entry == (ExceptionDay { date, ranges }),
                forall|j: int| 0 <= j < i ==> (#[trigger] before[j]).date != date,
            decreases self.exceptions.len() - i,
        {
            if self.exceptions[i].date == date {
                self.exceptions.set(i, entry);
                proof {
                    let after = self.exceptions@;
                    assert(after == before.update(i as int, entry));
                    assert(before[i as int].date == date);
                    lemma_find_exception_behind(after, date, i as int);
                    assert(after.skip(i as int)[0] == entry);
                    assert forall|other: CalendarDate| other != date implies find_exception(
                        after,
                        other,
                    ) == find_exception(before, other) by {
                        assert forall|j: int| 0 <= j < after.len() implies (#[trigger] after[j]).date
                            == before[j].date && (after[j].date == other ==> after[j].ranges@
                            == before[j].ranges@) by {
                            if j != i {
                                assert(after[j] == before[j]);
                            }
                        }
                        lemma_find_exception_alike(after, before, other);
                    }
                    assert(dates_distinct(before) ==> dates_distinct(after)) by {
                        if dates_distinct(before) {
                            assert forall|a: int, b: int| 0 <= a < b < after.len() implies (
                            #[trigger] after[a]).date != (#[trigger] after[b]).date by {
                                assert(after[a].date == before[a].date) by {
                                    if a != i {
                                        assert(after[a] == before[a]);
                                    }
                                }
                                assert(after[b].date == before[b].date) by {
                                    if b != i {
                                        assert(after[b] == before[b]);
                                    }
                                }
                            }
                        }
                    }
                }
                return ;
            }
            i += 1;
        }
        self.exceptions.push(entry);
        proof {
            let after = self.exceptions@;
            lemma_find_exception_behind(before, date, before.len() as int);
            assert forall|other: CalendarDate| true implies (other != date ==> find_exception(
                after,
                other,
            ) == find_exception(before, other)) && (other == date ==> find_exception(after, other)
                == Some(entry.ranges@)) by {
                lemma_find_exception_added(before, entry, other);
            }
        }
    }

    /// The hours that apply at `when`.
    pub fn resolve(&self, when: &CivilTime) -> (ranges: &Vec<TimeRange>)
        ensures
            ranges@ == self.spec_resolve(*when),
    {
        match self.exception(&when.date) {
            Some(ranges) => ranges,
            None => self.regular_hours.ranges(when.day_of_week),
        }
    }

    /// Whether the instant `when` falls into a break.
    pub fn is_within_break(&self, when: &CivilTime) -> (inside: bool)
        ensures
            inside == self.within_break(*when),
    {
        if self.exception(&when.date).is_some() {
            return false;
        }
        match &self.breaks {
            Some(breaks) => some_range_contains(breaks.ranges(when.day_of_week), when.clock()),
            None => false,
        }
    }

    /// Whether the provider is open at the instant `when`.
    pub fn is_open_at(&self, when: &CivilTime) -> (open: bool)
        ensures
            open == self.open_at(*when),
    {
        some_range_contains(self.resolve(when), when.clock()) && !self.is_within_break(when)
    }

    /// Whether the provider can take a booking that begins at `when` and
    /// lasts `duration_seconds`.
    pub fn can_take(&self, when: &CivilTime, duration_seconds: i64) -> (free: bool)
        ensures
            free == self.admits(*when, duration_seconds as int),
    {
        let from = when.nanos_since_midnight();
        let to = from + duration_seconds as i128 * 1_000_000_000;
        if !some_range_holds(self.resolve(when), from, to) {
            return false;
        }
        if self.exception(&when.date).is_some() {
            return true;
        }
        match &self.breaks {
            Some(breaks) => !some_range_conflicts(breaks.ranges(when.day_of_week), from, to),
            None => true,
        }
    }
}

/// A list with the single range from `start_hour:00` to `end_hour:00`.
fn whole_hours(start_hour: u32, end_hour: u32) -> (ranges: Vec<TimeRange>)
    ensures
        ranges@ == seq![
            TimeRange {
                start: TimeOfDay { hour: start_hour, minute: 0 },
                end: TimeOfDay { hour: end_hour, minute: 0 },
            },
        ],
{
    let mut ranges: Vec<TimeRange> = Vec::new();
    ranges.push(
        TimeRange {
            start: TimeOfDay { hour: start_hour, minute: 0 },
            end: TimeOfDay { hour: end_hour, minute: 0 },
        },
    );
    assert(ranges@ =~= seq![
        TimeRange {
            start: TimeOfDay { hour: start_hour, minute: 0 },
            end: TimeOfDay { hour: end_hour, minute: 0 },
        },
    ]);
    ranges
}

/// A week with the single range from `start_hour:00` to `end_hour:00` on each
/// day from Monday to Friday and nothing on Saturday and Sunday.
fn working_week(start_hour: u32, end_hour: u32) -> (week: WeekSchedule)
    ensures
        forall|day: DayOfWeek| #[trigger]
            week.on(day) == ProviderService::weekdays_only(
                seq![
                    TimeRange {
                        start: TimeOfDay { hour: start_hour, minute: 0 },
                        end: TimeOfDay { hour: end_hour, minute: 0 },
                    },
                ],
                day,
            ),
{
    WeekSchedule {
        sunday: Vec::new(),
        monday: whole_hours(start_hour, end_hour),
        tuesday: whole_hours(start_hour, end_hour),
        wednesday: whole_hours(start_hour, end_hour),
        thursday: whole_hours(start_hour, end_hour),
        friday: whole_hours(start_hour, end_hour),
        saturday: Vec::new(),
    }
}

/// The rules of the provider service: the schedule that applies to a
/// provider, and whether the provider is open.
pub struct ProviderService {}

impl ProviderService {
    /// The ranges of `day` in a week that has `ranges` from Monday to Friday
    /// and nothing on Saturday and Sunday.
    pub open spec fn weekdays_only(ranges: Seq<TimeRange>, day: DayOfWeek) -> Seq<TimeRange> {
        match day {
            DayOfWeek::Sunday => Seq::empty(),
            DayOfWeek::Saturday => Seq::empty(),
            _ => ranges,
        }
    }

    /// The hours of a working day in the default schedule: 09:00 to 17:00.
    pub open spec fn default_hours() -> Seq<TimeRange> {
        seq![
            TimeRange {
                start: TimeOfDay { hour: 9, minute: 0 },
                end: TimeOfDay { hour: 17, minute: 0 },
            },
        ]
    }

    /// The break of a working day in the default schedule: 12:00 to 13:00.
    pub open spec fn default_breaks() -> Seq<TimeRange> {
        seq![
            TimeRange {
                start: TimeOfDay { hour: 12, minute: 0 },
                end: TimeOfDay { hour: 13, minute: 0 },
            },
        ]
    }

    /// `hours` is the default schedule of the provider `provider_id`: open
    /// from Monday to Friday, 09:00 to 17:00, with a break from 12:00 to
    /// 13:00, closed on Saturday and Sunday, and without exceptions.
    pub open spec fn is_default_schedule(hours: WorkingHours, provider_id: Seq<char>) -> bool {
        &&& hours.provider_id@ == provider_id
        &&& forall|day: DayOfWeek| #[trigger]
            hours.regular_hours.on(day) == Self::weekdays_only(Self::default_hours(), day)
        &&& hours.exceptions@.len() == 0
        &&& hours.breaks is Some
        &&& forall|day: DayOfWeek| #[trigger]
            hours.breaks_on(day) == Self::weekdays_only(Self::default_breaks(), day)
    }

    /// Whether the provider with the hours `hours` can take a booking that
    /// begins at `start` and lasts `duration` seconds; `None` where the start
    /// or the end of the booking is no instant of the calendar.
    pub open spec fn spec_is_available(hours: WorkingHours, start: Timestamp, duration: int) -> Option<
        bool,
    > {
        match (start.spec_civil(), start.spec_plus_seconds(duration)) {
            (Some(when), Some(end)) => if end.spec_civil() is Some {
                Some(hours.admits(when, duration))
            } else {
                None
            },
            _ => None,
        }
    }

    /// The default schedule admits a booking that begins at `when` and
    /// lasts `duration` seconds.
    pub open spec fn default_admits(when: CivilTime, duration: int) -> bool {
        let from = when.nanos_of_day();
        let to = from + duration * 1_000_000_000;
        &&& any_holds(Self::weekdays_only(Self::default_hours(), when.day_of_week), from, to)
        &&& !any_conflicts(
            Self::weekdays_only(Self::default_breaks(), when.day_of_week),
            from,
            to,
        )
    }

    /// Whether a provider with the default schedule can take a booking that
    /// begins at `start` and lasts `duration` seconds; `None` where the start
    /// or the end of the booking is no instant of the calendar.
    pub open spec fn spec_default_available(start: Timestamp, duration: int) -> Option<bool> {
        match (start.spec_civil(), start.spec_plus_seconds(duration)) {
            (Some(when), Some(end)) => if end.spec_civil() is Some {
                Some(Self::default_admits(when, duration))
            } else {
                None
            },
            _ => None,
        }
    }

    /// Every default schedule decides alike, whoever the provider is.
    pub proof fn lemma_default_schedule_decides(
        hours: WorkingHours,
        provider_id: Seq<char>,
        start: Timestamp,
        duration: int,
    )
        requires
            Self::is_default_schedule(hours, provider_id),
        ensures
            Self::spec_is_available(hours, start, duration) == Self::spec_default_available(
                start,
                duration,
            ),
    {
        if start.spec_civil() is Some {
            let when = start.spec_civil()->0;
            assert(hours.exception_for(when.date) is None);
            assert(hours.regular_hours.on(when.day_of_week) == Self::weekdays_only(
                Self::default_hours(),
                when.day_of_week,
            ));
            assert(hours.breaks_on(when.day_of_week) == Self::weekdays_only(
                Self::default_breaks(),
                when.day_of_week,
            ));
        }
    }

    /// The category carries the specialty code `specialty`, in whatever
    /// case: its tag `code` and `specialty` agree once both are in upper
    /// case.
    pub open spec fn category_has_code(category: Category, specialty: Seq<char>) -> bool {
        match category.tags {
            Some(tags) => tags@.contains_key("code"@) && uppercased(tags@["code"@]) == uppercased(
                specialty,
            ),
            None => false,
        }
    }

    /// Some category of the provider carries the specialty code
    /// `specialty`.
    pub open spec fn has_specialty(provider: Provider, specialty: Seq<char>) -> bool {
        exists|i: int|
            0 <= i < provider.categories@.len() && Self::category_has_code(
                #[trigger] provider.categories@[i],
                specialty,
            )
    }

    /// The test that `find_providers_by_specialty` applies to a provider.
    pub open spec fn specialty_filter(specialty: Seq<char>) -> spec_fn(Provider) -> bool {
        |provider: Provider| Self::has_specialty(provider, specialty)
    }

    /// Whether some category of the provider carries the specialty code
    /// `specialty`.
    pub fn provider_has_specialty(provider: &Provider, specialty: &str) -> (found: bool)
        ensures
            found == Self::has_specialty(*provider, specialty@),
    {
        let wanted = to_uppercase(specialty);
        let mut i: usize = 0;
        while i < provider.categories.len()
            invariant
                i <= provider.categories.len(),
                wanted@ == uppercased(specialty@),
                forall|j: int|
                    0 <= j < i ==> !Self::category_has_code(
                        #[trigger] provider.categories@[j],
                        specialty@,
                    ),
            decreases provider.categories.len() - i,
        {
            let carries = match &provider.categories[i].tags {
                Some(tags) => match tags.get("code") {
                    Some(code) => to_uppercase(code.as_str()) == wanted,
                    None => false,
                },
                None => false,
            };
            if carries {
                return true;
            }
            i += 1;
        }
        false
    }

    /// The providers of `all_providers` that offer the specialty
    /// `specialty`, in their order.
    pub fn find_providers_by_specialty(all_providers: Vec<Provider>, specialty: &str) -> (found:
        Vec<Provider>)
        ensures
            found@ == all_providers@.filter(Self::specialty_filter(specialty@)),
    {
        let ghost all = all_providers@;
        let ghost pred = Self::specialty_filter(specialty@);
        let mut found: Vec<Provider> = Vec::new();
        proof {
            lemma_filter_empty(pred);
            assert(all.subrange(0, 0) =~= Seq::<Provider>::empty());
        }
        for provider in iter: all_providers
            invariant
                iter.seq() == all,
                pred == Self::specialty_filter(specialty@),
                found@ == all.subrange(0, iter.index() as int).filter(pred),
        {
            proof {
                lemma_filter_push(all.subrange(0, iter.index() as int), provider, pred);
                assert(all.subrange(0, iter.index() + 1) =~= all.subrange(
                    0,
                    iter.index() as int,
                ).push(provider));
            }
            if Self::provider_has_specialty(&provider, specialty) {
                found.push(provider);
            }
        }
        assert(all.subrange(0, all.len() as int) =~= all);
        found
    }

    /// Registers a new provider with the store.
    ///
    /// Fails, and changes nothing, exactly where a provider with the same
    /// identifier is stored already.
    pub fn register_provider<S: Storage>(store: &mut S, provider: Provider) -> (registered: Result<
        (),
        ServiceError,
    >)
        ensures
            match registered {
                Ok(_) => !old(store)@.providers.contains_key(provider.id@) && final(store)@ == (
                StoreView {
                    providers: old(store)@.providers.insert(provider.id@, provider),
                    ..old(store)@
                }),
                Err(e) => e is Storage && old(store)@.providers.contains_key(provider.id@)
                    && final(store)@ == old(store)@,
            },
    {
        match store.create_provider(provider) {
            Ok(_) => Ok(()),
            Err(e) => Err(ServiceError::from_storage(e)),
        }
    }

    /// The provider that the store keeps under the identifier `id`.
    ///
    /// Fails with a not-found error exactly where there is none.
    pub fn get_provider<'a, S: Storage>(store: &'a S, id: &str) -> (found: Result<
        &'a Provider,
        ServiceError,
    >)
        ensures
            match found {
                Ok(provider) => store@.providers.contains_key(id@) && *provider
                    == store@.providers[id@],
                Err(e) => e is NotFound && !store@.providers.contains_key(id@),
            },
    {
        match store.get_provider(id) {
            Ok(provider) => Ok(provider),
            Err(e) => Err(ServiceError::from_storage(e)),
        }
    }

    /// Replaces the provider that the store keeps under the identifier of
    /// `provider`.
    ///
    /// Fails with a not-found error, and changes nothing, exactly where
    /// there is none.
    pub fn update_provider<S: Storage>(store: &mut S, provider: Provider) -> (updated: Result<
        (),
        ServiceError,
    >)
        ensures
            match updated {
                Ok(_) => old(store)@.providers.contains_key(provider.id@) && final(store)@ == (
                StoreView {
                    providers: old(store)@.providers.insert(provider.id@, provider),
                    ..old(store)@
                }),
                Err(e) => e is NotFound && !old(store)@.providers.contains_key(provider.id@)
                    && final(store)@ == old(store)@,
            },
    {
        match store.update_provider(provider) {
            Ok(_) => Ok(()),
            Err(e) => Err(ServiceError::from_storage(e)),
        }
    }

    /// Deletes the provider that the store keeps under the identifier `id`.
    ///
    /// Fails with a not-found error, and changes nothing, exactly where
    /// there is none.
    pub fn delete_provider<S: Storage>(store: &mut S, id: &str) -> (deleted: Result<
        (),
        ServiceError,
    >)
        ensures
            match deleted {
                Ok(_) => old(store)@.providers.contains_key(id@) && final(store)@ == (StoreView {
                    providers: old(store)@.providers.remove(id@),
                    ..old(store)@
                }),
                Err(e) => e is NotFound && !old(store)@.providers.contains_key(id@) && final(store)@ == old(store)@,
            },
    {
        match store.delete_provider(id) {
            Ok(_) => Ok(()),
            Err(e) => Err(ServiceError::from_storage(e)),
        }
    }

    /// All providers that the store keeps, in no particular order.
    pub fn list_providers<'a, S: Storage>(store: &'a S) -> (list: Vec<&'a Provider>)
        ensures
            lists(list@, store@.providers, any()),
    {
        store.list_providers()
    }

    /// The schedule of the provider `provider_id`, who must be known to the
    /// store: no schedule is stored with a provider, so it is the default
    /// one.
    ///
    /// Fails with a not-found error exactly where the provider is not
    /// stored.
    pub fn working_hours_of<S: Storage>(store: &S, provider_id: &str) -> (hours: Result<
        WorkingHours,
        ServiceError,
    >)
        ensures
            match hours {
                Ok(schedule) => store@.providers.contains_key(provider_id@)
                    && Self::is_default_schedule(schedule, provider_id@) && schedule.wf(),
                Err(e) => e is NotFound && !store@.providers.contains_key(provider_id@),
            },
    {
        match store.get_provider(provider_id) {
            Ok(_) => Ok(Self::get_working_hours(provider_id, None)),
            Err(e) => Err(ServiceError::from_storage(e)),
        }
    }

    /// The schedule that applies to a provider for whom none is stored.
    pub fn get_default_working_hours(provider_id: &str) -> (hours: WorkingHours)
        ensures
            Self::is_default_schedule(hours, provider_id@),
            hours.wf(),
    {
        let hours = WorkingHours {
            provider_id: owned(provider_id),
            regular_hours: working_week(9, 17),
            exceptions: Vec::new(),
            breaks: Some(working_week(12, 13)),
        };
        assert forall|day: DayOfWeek| #[trigger]
            hours.regular_hours.on(day) == Self::weekdays_only(Self::default_hours(), day) by {
            assert(hours.regular_hours.on(day) =~= Self::weekdays_only(Self::default_hours(), day));
        }
        assert forall|day: DayOfWeek| #[trigger]
            hours.breaks_on(day) == Self::weekdays_only(Self::default_breaks(), day) by {
            assert(hours.breaks_on(day) =~= Self::weekdays_only(Self::default_breaks(), day));
        }
        hours
    }

    /// The schedule that applies to the provider `provider_id`: the stored
    /// one where there is one, else the default schedule.
    pub fn get_working_hours(provider_id: &str, stored: Option<WorkingHours>) -> (hours:
        WorkingHours)
        ensures
            match stored {
                Some(schedule) => hours == schedule,
                None => Self::is_default_schedule(hours, provider_id@) && hours.wf(),
            },
    {
        match stored {
            Some(schedule) => schedule,
            None => Self::get_default_working_hours(provider_id),
        }
    }

    /// Whether the provider is open at the instant `requested_time`.
    ///
    /// Fails with a validation error where the instant lies beyond the
    /// calendar.
    pub fn check_provider_availability(
        working_hours: &WorkingHours,
        requested_time: &Timestamp,
    ) -> (open: Result<bool, ServiceError>)
        ensures
            match open {
                Ok(b) => requested_time.spec_civil() matches Some(when) && b
                    == working_hours.open_at(when),
                Err(e) => e is Validation && requested_time.spec_civil() is None,
            },
    {
        match requested_time.civil() {
            Some(when) => Ok(working_hours.is_open_at(&when)),
            None => Err(ServiceError::Validation(owned("Invalid time"))),
        }
    }

    /// Whether the provider can take a booking that begins at
    /// `requested_start` and lasts `duration_seconds`: the whole span must
    /// lie within one range of the hours that apply on the date, and no break
    /// may conflict with it unless the date is an exception.
    ///
    /// Fails with a validation error where the start or the end of the span
    /// lies beyond the calendar.
    pub fn is_available(
        working_hours: &WorkingHours,
        requested_start: &Timestamp,
        duration_seconds: i64,
    ) -> (available: Result<bool, ServiceError>)
        ensures
            match available {
                Ok(b) => Self::spec_is_available(
                    *working_hours,
                    *requested_start,
                    duration_seconds as int,
                ) == Some(b),
                Err(e) => e is Validation && Self::spec_is_available(
                    *working_hours,
                    *requested_start,
                    duration_seconds as int,
                ) is None,
            },
    {
        let when = match requested_start.civil() {
            Some(when) => when,
            None => { return Err(ServiceError::Validation(owned("Invalid start time"))); },
        };
        let end = match requested_start.plus_seconds(duration_seconds) {
            Some(end) => end,
            None => { return Err(ServiceError::Validation(owned("Invalid end time"))); },
        };
        if end.civil().is_none() {
            return Err(ServiceError::Validation(owned("Invalid end time")));
        }
        Ok(working_hours.can_take(&when, duration_seconds))
    }
}

/// A provider without hours on a day of the week is unavailable at every time
/// of a date that falls on that day and has no exception: the instant is
/// closed, and no booking that begins there is taken, however long it lasts.
pub proof fn lemma_day_off_is_unavailable(hours: WorkingHours, start: Timestamp, duration: int)
    requires
        start.spec_civil() matches Some(when) && hours.regular_hours.on(when.day_of_week).len()
            == 0 && hours.exception_for(when.date) is None,
    ensures
        !hours.open_at(start.spec_civil()->0),
        ProviderService::spec_is_available(hours, start, duration) != Some(true),
        ProviderService::spec_is_available(hours, start, duration) is Some
            ==> ProviderService::spec_is_available(hours, start, duration) == Some(false),
{
}

/// A booking whose span lies fully inside a break is not taken, though the
/// day has open hours, unless the date is an exception.
pub proof fn lemma_span_inside_break_is_unavailable(
    hours: WorkingHours,
    start: Timestamp,
    duration: int,
    k: int,
)
    requires
        duration >= 0,
        start.spec_civil() matches Some(when) && hours.exception_for(when.date) is None && 0 <= k
            < hours.breaks_on(when.day_of_week).len() && hours.breaks_on(
            when.day_of_week,
        )[k].start.nanos_of_day() <= when.nanos_of_day() && when.nanos_of_day() + duration
            * 1_000_000_000 <= hours.breaks_on(when.day_of_week)[k].end.nanos_of_day(),
    ensures
        ProviderService::spec_is_available(hours, start, duration) != Some(true),
        ProviderService::spec_is_available(hours, start, duration) is Some
            ==> ProviderService::spec_is_available(hours, start, duration) == Some(false),
{
    let when = start.spec_civil()->0;
    let from = when.nanos_of_day();
    let to = from + duration * 1_000_000_000;
    let pause = hours.breaks_on(when.day_of_week)[k];
    assert(pause.conflicts(from, to));
}

/// An instant that falls into a break is closed, though the day has open
/// hours.
pub proof fn lemma_instant_inside_break_is_closed(hours: WorkingHours, when: CivilTime)
    requires
        hours.within_break(when),
    ensures
        !hours.open_at(when),
{
}

} // verus!
