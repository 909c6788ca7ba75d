//! Local calendar date-times: the plain values the watcher reads from a
//! timestamp, and what the `chrono` crate computes from them.

use chrono::{Datelike, NaiveDate};
use vstd::prelude::*;

verus! {

/// The earliest year `chrono` can represent in a date.
pub const MIN_YEAR: i32 = -262143;

/// The latest year `chrono` can represent in a date.
pub const MAX_YEAR: i32 = 262142;

/// The `strftime` pattern of the dates shown in a notification.
pub const DATE_PATTERN: &'static str = "%Y年%-m月%-d日";

/// A day of the week.
#[derive(Clone, Copy, Debug, PartialEq, Eq, Structural)]
pub enum Weekday {
    Mon,
    Tue,
    Wed,
    Thu,
    Fri,
    Sat,
    Sun,
}

/// Leap years of the proleptic Gregorian calendar.
pub open spec fn is_leap_year(year: int) -> bool {
    year % 4 == 0 && (year % 100 != 0 || year % 400 == 0)
}

/// The number of days in a month of a given year.
pub open spec fn days_in_month(year: int, month: int) -> int {
    if month == 2 {
        if is_leap_year(year) {
            29
        } else {
            28
        }
    } else if month == 4 || month == 6 || month == 9 || month == 11 {
        30
    } else {
        31
    }
}

/// The day exists in the proleptic Gregorian calendar and its year is one
/// that `chrono` can represent.
pub open spec fn is_calendar_date(year: int, month: int, day: int) -> bool {
    &&& MIN_YEAR <= year <= MAX_YEAR
    &&& 1 <= month <= 12
    &&& 1 <= day <= days_in_month(year, month)
}

/// The day of the week on which a calendar date falls, as
/// `chrono::NaiveDate::weekday` reports it.
pub uninterp spec fn weekday_of(year: int, month: int, day: int) -> Weekday;

/// The character of a decimal digit.
pub open spec fn digit_char(digit: int) -> char {
    seq!['0', '1', '2', '3', '4', '5', '6', '7', '8', '9'][digit]
}

/// A natural number in decimal, without padding.
pub open spec fn decimal(n: nat) -> Seq<char>
    decreases n,
{
    if n < 10 {
        seq![digit_char(n as int)]
    } else {
        decimal(n / 10).push(digit_char((n % 10) as int))
    }
}

/// `digits`, preceded by as many zeroes as it takes to reach `width`.
pub open spec fn zero_padded(digits: Seq<char>, width: nat) -> Seq<char> {
    if digits.len() >= width {
        digits
    } else {
        Seq::new((width - digits.len()) as nat, |i: int| '0') + digits
    }
}

/// A year as `%Y` writes it: at least four digits, with a sign in front
/// unless the year lies in `0..=9999`.
pub open spec fn year_text(year: int) -> Seq<char> {
    if year < 0 {
        seq!['-'] + zero_padded(decimal((-year) as nat), 4)
    } else if year >= 10000 {
        seq!['+'] + zero_padded(decimal(year as nat), 4)
    } else {
        zero_padded(decimal(year as nat), 4)
    }
}

/// A calendar date as [`DATE_PATTERN`] writes it: the year, `年`, the month,
/// `月`, the day, `日`, month and day without padding.
pub open spec fn date_text(year: int, month: int, day: int) -> Seq<char> {
    year_text(year) + "年"@ + decimal(month as nat) + "月"@ + decimal(day as nat) + "日"@
}

/// Calls `chrono::NaiveDate::from_ymd_opt` and `chrono::Datelike::weekday`.
///
/// Trusted: for a date that exists, `chrono` builds the date and reports its
/// day of the week; the result is a function of the date alone, which the
/// contract names [`weekday_of`].
#[verifier::external_body]
fn chrono_weekday(year: i32, month: u32, day: u32) -> (w: Weekday)
    requires
        is_calendar_date(year as int, month as int, day as int),
    ensures
        w == weekday_of(year as int, month as int, day as int),
{
    match NaiveDate::from_ymd_opt(year, month, day).unwrap().weekday() {
        chrono::Weekday::Mon => Weekday::Mon,
        chrono::Weekday::Tue => Weekday::Tue,
        chrono::Weekday::Wed => Weekday::Wed,
        chrono::Weekday::Thu => Weekday::Thu,
        chrono::Weekday::Fri => Weekday::Fri,
        chrono::Weekday::Sat => Weekday::Sat,
        chrono::Weekday::Sun => Weekday::Sun,
    }
}

/// Calls `chrono::NaiveDate::from_ymd_opt` and `chrono::NaiveDate::format`.
///
/// Trusted: for a date that exists and the pattern [`DATE_PATTERN`], `chrono`
/// writes `%Y` as the year in at least four digits (signed outside
/// `0..=9999`), `%-m` and `%-d` as the month and the day without padding,
/// and every other character of the pattern as it stands.
#[verifier::external_body]
fn chrono_format_date(year: i32, month: u32, day: u32, pattern: &str) -> (text: String)
    requires
        is_calendar_date(year as int, month as int, day as int),
        pattern@ == DATE_PATTERN@,
    ensures
        text@ == date_text(year as int, month as int, day as int),
{
    NaiveDate::from_ymd_opt(year, month, day).unwrap().format(pattern).to_string()
}

/// What a [`LocalDateTime`] stands for: a date and a time of day on the
/// local clock.
pub struct LocalDateTimeView {
    pub year: int,
    pub month: int,
    pub day: int,
    pub hour: int,
    pub minute: int,
    pub second: int,
}

impl LocalDateTimeView {
    /// The date exists and the time of day is on the 24-hour clock.
    pub open spec fn is_valid(self) -> bool {
        &&& is_calendar_date(self.year, self.month, self.day)
        &&& 0 <= self.hour < 24
        &&& 0 <= self.minute < 60
        &&& 0 <= self.second < 60
    }

    /// The day of the week of the date.
    pub open spec fn weekday(self) -> Weekday {
        weekday_of(self.year, self.month, self.day)
    }

    /// The date as a notification shows it.
    pub open spec fn date_text(self) -> Seq<char> {
        date_text(self.year, self.month, self.day)
    }
}

/// A date and time of day on the local clock. Every value is a moment that
/// exists in the calendar.
#[derive(Clone, Copy, Debug, PartialEq, Eq)]
pub struct LocalDateTime {
    year: i32,
    month: u32,
    day: u32,
    hour: u32,
    minute: u32,
    second: u32,
}

impl View for LocalDateTime {
    type V = LocalDateTimeView;

    closed spec fn view(&self) -> LocalDateTimeView {
        LocalDateTimeView {
            year: self.year as int,
            month: self.month as int,
            day: self.day as int,
            hour: self.hour as int,
            minute: self.minute as int,
            second: self.second as int,
        }
    }
}

/// Whether `year` is a leap year.
fn leap_year(year: i32) -> (r: bool)
    requires
        MIN_YEAR <= year <= MAX_YEAR,
    ensures
        r == is_leap_year(year as int),
{
    // 262400 is a multiple of 400, so the shifted year is positive and has
    // the remainders of `year`.
    let shifted: i32 = year + 262400;
    shifted % 4 == 0 && (shifted % 100 != 0 || shifted % 400 == 0)
}

/// Whether the calendar has the day `year`-`month`-`day`.
pub fn calendar_date_exists(year: i32, month: u32, day: u32) -> (r: bool)
    ensures
        r == is_calendar_date(year as int, month as int, day as int),
{
    if year < MIN_YEAR || year > MAX_YEAR || month < 1 || month > 12 || day < 1 {
        return false;
    }
    let days: u32 = if month == 2 {
        if leap_year(year) {
            29
        } else {
            28
        }
    } else if month == 4 || month == 6 || month == 9 || month == 11 {
        30
    } else {
        31
    };
    day <= days
}

impl LocalDateTime {
    #[verifier::type_invariant]
    spec fn well_formed(self) -> bool {
        self@.is_valid()
    }

    /// The moment with the given date and time of day, if it exists.
    pub fn new(year: i32, month: u32, day: u32, hour: u32, minute: u32, second: u32) -> (r: Option<
        LocalDateTime,
    >)
        ensures
            r is Some <==> (LocalDateTimeView {
                year: year as int,
                month: month as int,
                day: day as int,
                hour: hour as int,
                minute: minute as int,
                second: second as int,
            }).is_valid(),
            r matches Some(t) ==> t@ == (LocalDateTimeView {
                year: year as int,
                month: month as int,
                day: day as int,
                hour: hour as int,
                minute: minute as int,
                second: second as int,
            }),
    {
        if calendar_date_exists(year, month, day) && hour < 24 && minute < 60 && second < 60 {
            Some(LocalDateTime { year, month, day, hour, minute, second })
        } else {
            None
        }
    }

    /// The year, from [`MIN_YEAR`] to [`MAX_YEAR`]; zero is 1 BCE.
    pub fn year(&self) -> (r: i32)
        ensures
            r == self@.year,
            MIN_YEAR <= r <= MAX_YEAR,
    {
        proof {
            use_type_invariant(self);
        }
        self.year
    }

    /// The month, from 1 to 12.
    pub fn month(&self) -> (r: u32)
        ensures
            r == self@.month,
            1 <= r <= 12,
    {
        proof {
            use_type_invariant(self);
        }
        self.month
    }

    /// The day of the month, from 1 to the length of the month.
    pub fn day(&self) -> (r: u32)
        ensures
            r == self@.day,
            1 <= r <= days_in_month(self@.year, self@.month),
    {
        proof {
            use_type_invariant(self);
        }
        self.day
    }

    /// The hour, from 0 to 23.
    pub fn hour(&self) -> (r: u32)
        ensures
            r == self@.hour,
            r < 24,
    {
        proof {
            use_type_invariant(self);
        }
        self.hour
    }

    /// The minute, from 0 to 59.
    pub fn minute(&self) -> (r: u32)
        ensures
            r == self@.minute,
            r < 60,
    {
        proof {
            use_type_invariant(self);
        }
        self.minute
    }

    /// The second, from 0 to 59.
    pub fn second(&self) -> (r: u32)
        ensures
            r == self@.second,
            r < 60,
    {
        proof {
            use_type_invariant(self);
        }
        self.second
    }

    /// The day of the week of the date.
    pub fn weekday(&self) -> (w: Weekday)
        ensures
            w == self@.weekday(),
    {
        proof {
            use_type_invariant(self);
        }
        chrono_weekday(self.year, self.month, self.day)
    }

    /// The date as a notification shows it, such as `2024年3月4日`.
    pub fn date_text(&self) -> (text: String)
        ensures
            text@ == self@.date_text(),
    {
        proof {
            use_type_invariant(self);
        }
        chrono_format_date(self.year, self.month, self.day, DATE_PATTERN)
    }
}

} // verus!
