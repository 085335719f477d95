//! The calendar panel: a date, or today, written with the weekday, and the
//! day of the year.

use vstd::prelude::*;

use crate::dates::{
    chrono_format, chrono_local_now, clock_epoch_eve, date_from_parts, is_known_pattern, is_valid_date,
    pattern_text, CalDate,
};

verus! {

/// How the calendar writes a date, such as `Sat, 2015-09-05`.
pub const DATE_FORMAT: &'static str = "%a, %Y-%m-%d";

/// How the calendar writes the day of the year.
pub const DAY_OF_YEAR_FORMAT: &'static str = "Today is the %jth Day";

/// The answer to a date that the calendar does not have.
pub open spec fn date_error_msg() -> Seq<char> {
    "error year, month, day"@
}

/// What the calendar shows for a year, month and day that are not all zero.
pub open spec fn given_date_text(year: int, month: int, day: int, pattern: Seq<char>) -> Seq<
    char,
> {
    if is_valid_date(year, month, day) {
        pattern_text(CalDate { year: year as i32, month: month as u32, day: day as u32 }, pattern)
    } else {
        date_error_msg()
    }
}

/// What the calendar shows: all zeros ask for `today`.
pub open spec fn date_label(
    year: int,
    month: int,
    day: int,
    today: CalDate,
    pattern: Seq<char>,
) -> Seq<char> {
    if year == 0 && month == 0 && day == 0 {
        pattern_text(today, pattern)
    } else {
        given_date_text(year, month, day, pattern)
    }
}

/// The calendar panel.
pub struct CalendarTracker;

impl CalendarTracker {
    pub fn new() -> (res: Self) {
        CalendarTracker
    }

    /// The date written as `%a, %Y-%m-%d`; year, month and day all zero
    /// stand for the clock's current date.
    pub fn get_date(&self, year: i32, month: i32, day: i32) -> (res: String)
        ensures
            exists|today: CalDate|
                today.valid() && today.number() >= clock_epoch_eve().number() && res@ == date_label(
                    year as int,
                    month as int,
                    day as int,
                    today,
                    DATE_FORMAT@,
                ),
            !(year == 0 && month == 0 && day == 0) ==> res@ == given_date_text(
                year as int,
                month as int,
                day as int,
                DATE_FORMAT@,
            ),
    {
        Self::show(year, month, day, DATE_FORMAT)
    }

    /// `Today is the %jth Day` for the date; year, month and day all zero
    /// stand for the clock's current date.
    pub fn day_of_year(&self, year: i32, month: i32, day: i32) -> (res: String)
        ensures
            exists|today: CalDate|
                today.valid() && today.number() >= clock_epoch_eve().number() && res@ == date_label(
                    year as int,
                    month as int,
                    day as int,
                    today,
                    DAY_OF_YEAR_FORMAT@,
                ),
            !(year == 0 && month == 0 && day == 0) ==> res@ == given_date_text(
                year as int,
                month as int,
                day as int,
                DAY_OF_YEAR_FORMAT@,
            ),
    {
        Self::show(year, month, day, DAY_OF_YEAR_FORMAT)
    }

    /// Reads the clock only where all three parts are zero.
    fn show(year: i32, month: i32, day: i32, pattern: &str) -> (res: String)
        requires
            is_known_pattern(pattern@),
        ensures
            exists|today: CalDate|
                today.valid() && today.number() >= clock_epoch_eve().number() && res@ == date_label(
                    year as int,
                    month as int,
                    day as int,
                    today,
                    pattern@,
                ),
            !(year == 0 && month == 0 && day == 0) ==> res@ == given_date_text(
                year as int,
                month as int,
                day as int,
                pattern@,
            ),
    {
        if year == 0 && month == 0 && day == 0 {
            let (today, _) = chrono_local_now();
            let res = Self::describe_date(year, month, day, today, pattern);
            assert(today.valid() && today.number() >= clock_epoch_eve().number() && res@ == date_label(
                year as int,
                month as int,
                day as int,
                today,
                pattern@,
            ));
            res
        } else {
            let res = Self::given_date(year, month, day, pattern);
            let witness = CalDate { year: 1969, month: 12, day: 31 };
            assert(witness.valid() && witness.number() >= clock_epoch_eve().number() && res@ == date_label(
                year as int,
                month as int,
                day as int,
                witness,
                pattern@,
            ));
            res
        }
    }

    /// What the calendar shows for the parts, when the clock's current date is `today`.
    pub fn describe_date(year: i32, month: i32, day: i32, today: CalDate, pattern: &str) -> (res:
        String)
        requires
            today.valid(),
            is_known_pattern(pattern@),
        ensures
            res@ == date_label(year as int, month as int, day as int, today, pattern@),
    {
        if year == 0 && month == 0 && day == 0 {
            chrono_format(today, pattern)
        } else {
            Self::given_date(year, month, day, pattern)
        }
    }

    fn given_date(year: i32, month: i32, day: i32, pattern: &str) -> (res: String)
        requires
            is_known_pattern(pattern@),
        ensures
            res@ == given_date_text(year as int, month as int, day as int, pattern@),
    {
        if month < 0 || day < 0 {
            return String::from_str("error year, month, day");
        }
        match date_from_parts(year, month as u32, day as u32) {
            Some(date) => chrono_format(date, pattern),
            None => String::from_str("error year, month, day"),
        }
    }
}

} // verus!
