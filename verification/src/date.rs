//! Calendar days in UTC and the label that a timestamp gets relative to today.

use chrono::{DateTime, Datelike, Local, NaiveDate, Utc};
use vstd::prelude::*;

verus! {

/// Day number of 1 January 1970, counting 1 January of year 1 as day 1.
pub const EPOCH_DAY: i32 = 719_163;

/// Day number of the first day that the calendar can hold: 1 January -262143.
pub const MIN_DAY: i32 = -95_746_129;

/// Day number of the last day that the calendar can hold: 31 December 262142.
pub const MAX_DAY: i32 = 95_745_399;

/// First second of `MIN_DAY`, in seconds since the epoch.
pub const MIN_TIMESTAMP: i64 = -8_334_601_228_800;

/// Last second of `MAX_DAY`, in seconds since the epoch.
pub const MAX_TIMESTAMP: i64 = 8_210_266_876_799;

/// Day number of 1 January of year 0, the first day whose year is written with four digits.
pub const FIRST_PLAIN_DAY: i32 = -365;

/// Day number of 31 December 9999, the last day whose year is written with four digits.
pub const LAST_PLAIN_DAY: i32 = 3_652_059;

/// A day of the proleptic Gregorian calendar, held as its day number: 1 January
/// of year 1 is day 1. Every value lies between `MIN_DAY` and `MAX_DAY`.
#[derive(Clone, Copy, Debug, PartialEq, Eq)]
pub struct CalendarDate {
    days: i32,
}

impl View for CalendarDate {
    type V = int;

    closed spec fn view(&self) -> int {
        self.days as int
    }
}

impl CalendarDate {
    #[verifier::type_invariant]
    spec fn in_calendar(self) -> bool {
        MIN_DAY <= self.days <= MAX_DAY
    }

    /// The date with the given day number, if the calendar holds it.
    pub fn from_days(days: i32) -> (date: Option<CalendarDate>)
        ensures
            date.is_some() == (MIN_DAY <= days <= MAX_DAY),
            date matches Some(d) ==> d@ == days,
    {
        if MIN_DAY <= days && days <= MAX_DAY {
            Some(CalendarDate { days })
        } else {
            None
        }
    }

    /// The day number of this date.
    pub fn days(&self) -> (days: i32)
        ensures
            days == self@,
            MIN_DAY <= days <= MAX_DAY,
    {
        proof {
            use_type_invariant(self);
        }
        self.days
    }
}

/// Whether `ts`, in seconds since the epoch, falls on a day that the calendar holds.
pub open spec fn timestamp_in_calendar(ts: int) -> bool {
    MIN_TIMESTAMP <= ts <= MAX_TIMESTAMP
}

/// Day number of the UTC day on which the second `ts` falls.
pub open spec fn day_of_timestamp(ts: int) -> int {
    ts / 86_400 + EPOCH_DAY
}

/// Whether the year of the day `days` is written with four digits and no sign.
pub open spec fn has_plain_year(days: int) -> bool {
    FIRST_PLAIN_DAY <= days <= LAST_PLAIN_DAY
}

/// Whether `c` is one of the ten digits.
pub open spec fn is_digit(c: char) -> bool {
    '0' <= c && c <= '9'
}

/// Two digits, a slash, two digits, a slash and four digits.
pub open spec fn is_day_month_year(s: Seq<char>) -> bool {
    &&& s.len() == 10
    &&& s[2] == '/'
    &&& s[5] == '/'
    &&& forall|i: int| 0 <= i < 10 && i != 2 && i != 5 ==> is_digit(#[trigger] s[i])
}

// The text that chrono writes for the day with the given day number under the
// pattern `%d/%m/%Y`: day of the month, month and year, the first two padded
// with a zero to two digits, the year to four.
pub uninterp spec fn date_text(days: int) -> Seq<char>;

/// `DateTime::from_timestamp` with no nanoseconds, then `date_naive` and
/// `num_days_from_ce`: the UTC day of a timestamp. Claimed: the call gives a date
/// exactly for the timestamps between `MIN_TIMESTAMP` and `MAX_TIMESTAMP`, and the
/// date's day number is the floored quotient of the timestamp by 86400, moved by
/// the epoch's day number.
#[verifier::external_body]
fn utc_date(ts: i64) -> (date: Option<CalendarDate>)
    ensures
        date.is_some() == timestamp_in_calendar(ts as int),
        date matches Some(d) ==> d@ == day_of_timestamp(ts as int),
{
    DateTime::from_timestamp(ts, 0).map(|t| CalendarDate { days: t.date_naive().num_days_from_ce() })
}

/// `Utc::now`, then `date_naive` and `num_days_from_ce`: the current day in UTC.
/// It depends on the clock, so all that is claimed is that the day is one of the
/// calendar.
#[verifier::external_body]
pub(crate) fn utc_today() -> (today: CalendarDate)
    ensures
        MIN_DAY <= today@ <= MAX_DAY,
{
    CalendarDate { days: Utc::now().date_naive().num_days_from_ce() }
}

/// `Local::now`, then of that moment `timestamp`, and `date_naive` with
/// `num_days_from_ce`: the seconds since the epoch on the machine's clock, and
/// the current day in the machine's time zone. Both depend on the clock, the
/// day on the zone too, so all that is claimed is what holds of every moment
/// that chrono can hold: the seconds fall on a day of the calendar, and the day
/// is one of the calendar.
#[verifier::external_body]
pub(crate) fn local_now() -> (now: (i64, CalendarDate))
    ensures
        timestamp_in_calendar(now.0 as int),
        MIN_DAY <= now.1@ <= MAX_DAY,
{
    let now = Local::now();
    (now.timestamp(), CalendarDate { days: now.date_naive().num_days_from_ce() })
}

/// `NaiveDate::from_num_days_from_ce_opt`, then `format` with the pattern
/// `%d/%m/%Y` and `to_string`. Claimed: a text comes back exactly for the day
/// numbers of the calendar; it depends on the day number alone; and for the years
/// 0 to 9999 it is two digits, a slash, two digits, a slash and four digits.
#[verifier::external_body]
fn format_day(days: i32) -> (text: Option<String>)
    ensures
        text.is_some() == (MIN_DAY <= days <= MAX_DAY),
        text matches Some(s) ==> s@ == date_text(days as int),
        text matches Some(s) ==> (has_plain_year(days as int) ==> is_day_month_year(s@)),
{
    NaiveDate::from_num_days_from_ce_opt(days).map(|d| d.format("%d/%m/%Y").to_string())
}

impl CalendarDate {
    /// The UTC day on which the second `ts` since the epoch falls, if the calendar
    /// holds it.
    pub fn of_timestamp(ts: i64) -> (date: Option<CalendarDate>)
        ensures
            date.is_some() == timestamp_in_calendar(ts as int),
            date matches Some(d) ==> d@ == day_of_timestamp(ts as int),
    {
        utc_date(ts)
    }

    /// The date written as day, month and year with slashes between them.
    pub fn text(&self) -> (text: String)
        ensures
            text@ == date_text(self@),
            has_plain_year(self@) ==> is_day_month_year(text@),
    {
        proof {
            use_type_invariant(self);
        }
        format_day(self.days).unwrap()
    }
}

/// Where a day stands relative to today.
#[derive(Clone, Copy, Debug, PartialEq, Eq)]
pub enum TimestampCategory {
    Today,
    Yesterday,
    Other(CalendarDate),
}

/// The model of a `TimestampCategory`: the date is its day number.
pub enum CategoryView {
    Today,
    Yesterday,
    Other(int),
}

impl View for TimestampCategory {
    type V = CategoryView;

    open spec fn view(&self) -> CategoryView {
        match *self {
            TimestampCategory::Today => CategoryView::Today,
            TimestampCategory::Yesterday => CategoryView::Yesterday,
            TimestampCategory::Other(date) => CategoryView::Other(date@),
        }
    }
}

/// The category of the day `day` when today is the day `today`: today itself,
/// the day before it, or any other day, which is then kept.
pub open spec fn categorize(day: int, today: int) -> CategoryView {
    if day == today {
        CategoryView::Today
    } else if day == today - 1 {
        CategoryView::Yesterday
    } else {
        CategoryView::Other(day)
    }
}

/// The text that stands for a category in a listing.
pub open spec fn label_text(category: CategoryView) -> Seq<char> {
    match category {
        CategoryView::Today => "Today"@,
        CategoryView::Yesterday => "Yesterday"@,
        CategoryView::Other(day) => date_text(day),
    }
}

impl TimestampCategory {
    /// The category of `date` when today is `today`.
    pub fn of_date(date: CalendarDate, today: CalendarDate) -> (category: TimestampCategory)
        ensures
            category@ == categorize(date@, today@),
    {
        let day: i32 = date.days();
        let now: i32 = today.days();
        if day == now {
            TimestampCategory::Today
        } else if day == now - 1 {
            TimestampCategory::Yesterday
        } else {
            TimestampCategory::Other(date)
        }
    }

    /// Whether the category is today or yesterday.
    pub fn is_recent(&self) -> (recent: bool)
        ensures
            recent == !(self@ is Other),
    {
        match self {
            TimestampCategory::Other(_) => false,
            _ => true,
        }
    }

    /// The text that stands for the category in a listing.
    pub fn label(&self) -> (text: String)
        ensures
            text@ == label_text(self@),
            self@ matches CategoryView::Other(day) ==> (has_plain_year(day) ==> is_day_month_year(text@)),
    {
        match self {
            TimestampCategory::Today => String::from_str("Today"),
            TimestampCategory::Yesterday => String::from_str("Yesterday"),
            TimestampCategory::Other(date) => date.text(),
        }
    }
}

/// A timestamp, in seconds since the epoch, that is to be placed relative to today.
pub struct TimestampAnalyzer {
    pub timestamp: i64,
}

/// What places a timestamp relative to the current day.
pub trait Analyzer: Sized {
    /// The timestamp that the analyzer holds.
    spec fn instant(&self) -> int;

    /// An analyzer of the given timestamp.
    fn new(timestamp: i64) -> (analyzer: Self)
        ensures
            analyzer.instant() == timestamp,
    ;

    /// The category of the held timestamp relative to the current day in UTC,
    /// which is read from the clock at each call.
    fn categorize_timestamp(&self) -> (category: TimestampCategory)
        requires
            timestamp_in_calendar(self.instant()),
        ensures
            exists|today: int|
                MIN_DAY <= today <= MAX_DAY && category@ == #[trigger] categorize(
                    day_of_timestamp(self.instant()),
                    today,
                ),
    ;
}

impl Analyzer for TimestampAnalyzer {
    open spec fn instant(&self) -> int {
        self.timestamp as int
    }

    fn new(timestamp: i64) -> (analyzer: Self) {
        TimestampAnalyzer { timestamp }
    }

    fn categorize_timestamp(&self) -> (category: TimestampCategory) {
        let today: CalendarDate = utc_today();
        self.categorize_on(today)
    }
}

impl TimestampAnalyzer {
    /// The category of the held timestamp when today is `today`.
    pub fn categorize_on(&self, today: CalendarDate) -> (category: TimestampCategory)
        requires
            timestamp_in_calendar(self.timestamp as int),
        ensures
            category@ == categorize(day_of_timestamp(self.timestamp as int), today@),
    {
        let date: CalendarDate = utc_date(self.timestamp).unwrap();
        TimestampCategory::of_date(date, today)
    }

    /// The label of the held timestamp when today is `today`: `Today`,
    /// `Yesterday`, or the date as day, month and year.
    pub fn label_on(&self, today: CalendarDate) -> (text: String)
        requires
            timestamp_in_calendar(self.timestamp as int),
        ensures
            text@ == label_text(categorize(day_of_timestamp(self.timestamp as int), today@)),
            categorize(day_of_timestamp(self.timestamp as int), today@) is Other && has_plain_year(
                day_of_timestamp(self.timestamp as int),
            ) ==> is_day_month_year(text@),
    {
        self.categorize_on(today).label()
    }

    /// The label of the held timestamp relative to the current day in UTC, which
    /// is read from the clock at each call.
    pub fn label(&self) -> (text: String)
        requires
            timestamp_in_calendar(self.timestamp as int),
        ensures
            exists|today: int|
                MIN_DAY <= today <= MAX_DAY && text@ == label_text(
                    #[trigger] categorize(day_of_timestamp(self.timestamp as int), today),
                ),
    {
        let today: CalendarDate = utc_today();
        self.label_on(today)
    }
}

/// The second at which the UTC day of the second `now` began.
pub open spec fn start_of_day(now: int) -> int {
    now - now % 86_400
}

/// A timestamp that falls on the current day is of today.
pub proof fn lemma_same_day_is_today(ts: int, now: int)
    requires
        day_of_timestamp(ts) == day_of_timestamp(now),
    ensures
        categorize(day_of_timestamp(ts), day_of_timestamp(now)) == CategoryView::Today,
{
}

/// The midnight at which the current day began is of today, and so is the
/// current second itself.
pub proof fn lemma_start_of_day_is_today(now: int)
    ensures
        day_of_timestamp(start_of_day(now)) == day_of_timestamp(now),
        categorize(day_of_timestamp(start_of_day(now)), day_of_timestamp(now)) == CategoryView::Today,
        categorize(day_of_timestamp(now), day_of_timestamp(now)) == CategoryView::Today,
{
    assert(start_of_day(now) / 86_400 == now / 86_400);
}

/// A timestamp that falls on the day before the current one is of yesterday.
pub proof fn lemma_day_before_is_yesterday(ts: int, now: int)
    requires
        day_of_timestamp(ts) == day_of_timestamp(now) - 1,
    ensures
        categorize(day_of_timestamp(ts), day_of_timestamp(now)) == CategoryView::Yesterday,
{
}

/// The second that lies a whole day before the current one is of yesterday.
pub proof fn lemma_a_day_ago_is_yesterday(now: int)
    ensures
        day_of_timestamp(now - 86_400) == day_of_timestamp(now) - 1,
        categorize(day_of_timestamp(now - 86_400), day_of_timestamp(now))
            == CategoryView::Yesterday,
{
}

/// A timestamp that falls neither on the current day nor on the day before it
/// is of its own day, which the category keeps. Such are all the timestamps
/// whose day is more than one day away from the current one, earlier or later,
/// and those of the day after the current one.
pub proof fn lemma_other_day_keeps_its_date(ts: int, now: int)
    requires
        day_of_timestamp(ts) != day_of_timestamp(now),
        day_of_timestamp(ts) != day_of_timestamp(now) - 1,
    ensures
        categorize(day_of_timestamp(ts), day_of_timestamp(now)) == CategoryView::Other(
            day_of_timestamp(ts),
        ),
{
}

} // verus!
