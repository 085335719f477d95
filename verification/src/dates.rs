//! Calendar dates of the proleptic Gregorian calendar, their day numbers and
//! their written forms, and the calls into `chrono` that the notebook makes.

use chrono::{Datelike, NaiveDate, Timelike};
use vstd::arithmetic::div_mod::{
    lemma_fundamental_div_mod, lemma_fundamental_div_mod_converse_div,
    lemma_fundamental_div_mod_converse_mod, lemma_mod_bound,
};
use vstd::prelude::*;

verus! {

/// The earliest year that `chrono` can represent in a date.
pub const MIN_YEAR: i32 = -262143;

/// The latest year that `chrono` can represent in a date.
pub const MAX_YEAR: i32 = 262142;

/// A calendar date: year, month (1 to 12) and day of the month.
#[derive(Clone, Copy, Debug, PartialEq, Eq)]
pub struct CalDate {
    pub year: i32,
    pub month: u32,
    pub day: u32,
}

pub open spec fn is_leap_year(y: int) -> bool {
    y % 4 == 0 && (y % 100 != 0 || y % 400 == 0)
}

pub open spec fn leap_days(y: int) -> int {
    if is_leap_year(y) {
        1
    } else {
        0
    }
}

pub open spec fn days_in_month(y: int, m: int) -> int {
    if m == 2 {
        28 + leap_days(y)
    } else if m == 4 || m == 6 || m == 9 || m == 11 {
        30
    } else {
        31
    }
}

/// A date that exists in the calendar and lies in the range that `chrono` represents.
pub open spec fn is_valid_date(y: int, m: int, d: int) -> bool {
    &&& MIN_YEAR <= y <= MAX_YEAR
    &&& 1 <= m <= 12
    &&& 1 <= d <= days_in_month(y, m)
}

/// The days of the years before year `y`, counted from 1 January of year 1.
pub open spec fn days_before_year(y: int) -> int {
    let p = y - 1;
    365 * p + p / 4 - p / 100 + p / 400
}

/// The days of the months of year `y` before month `m`.
pub open spec fn days_before_month(y: int, m: int) -> int {
    let base: int = if m <= 1 {
        0
    } else if m == 2 {
        31
    } else if m == 3 {
        59
    } else if m == 4 {
        90
    } else if m == 5 {
        120
    } else if m == 6 {
        151
    } else if m == 7 {
        181
    } else if m == 8 {
        212
    } else if m == 9 {
        243
    } else if m == 10 {
        273
    } else if m == 11 {
        304
    } else {
        334
    };
    if m > 2 {
        base + leap_days(y)
    } else {
        base
    }
}

/// The day of the year: 1 for 1 January.
pub open spec fn ordinal(y: int, m: int, d: int) -> int {
    days_before_month(y, m) + d
}

/// The number of a day: 1 for 1 January of year 1, one more for each later day.
pub open spec fn day_number(y: int, m: int, d: int) -> int {
    days_before_year(y) + ordinal(y, m, d)
}

impl CalDate {
    pub open spec fn valid(self) -> bool {
        is_valid_date(self.year as int, self.month as int, self.day as int)
    }

    pub open spec fn number(self) -> int {
        day_number(self.year as int, self.month as int, self.day as int)
    }
}

/// The earliest date that `chrono` represents.
pub open spec fn min_date() -> CalDate {
    CalDate { year: MIN_YEAR, month: 1, day: 1 }
}

/// The last day before the Unix epoch: no local clock reads an earlier date.
pub open spec fn clock_epoch_eve() -> CalDate {
    CalDate { year: 1969, month: 12, day: 31 }
}

/// The date `k` days before `d`.
pub open spec fn date_before(d: CalDate, k: int) -> CalDate {
    choose|e: CalDate| e.valid() && e.number() == d.number() - k
}

// ---------------------------------------------------------------------------
// Written forms
// ---------------------------------------------------------------------------

pub open spec fn digit_char(n: int) -> char {
    if n == 0 {
        '0'
    } else if n == 1 {
        '1'
    } else if n == 2 {
        '2'
    } else if n == 3 {
        '3'
    } else if n == 4 {
        '4'
    } else if n == 5 {
        '5'
    } else if n == 6 {
        '6'
    } else if n == 7 {
        '7'
    } else if n == 8 {
        '8'
    } else {
        '9'
    }
}

/// The decimal digits of `n`, without leading zeros.
pub open spec fn decimal(n: nat) -> Seq<char>
    decreases n,
{
    if n < 10 {
        seq![digit_char(n as int)]
    } else {
        decimal(n / 10).push(digit_char((n % 10) as int))
    }
}

/// `s` preceded by as many zeros as make it `width` long.
pub open spec fn zero_padded(s: Seq<char>, width: nat) -> Seq<char> {
    if s.len() >= width {
        s
    } else {
        Seq::new((width - s.len()) as nat, |i: int| '0') + s
    }
}

/// A year as `chrono` writes it: four digits, with a sign before years
/// outside 0 to 9999.
pub open spec fn year_text(y: int) -> Seq<char> {
    if 0 <= y <= 9999 {
        zero_padded(decimal(y as nat), 4)
    } else if y < 0 {
        seq!['-'] + zero_padded(decimal((-y) as nat), 4)
    } else {
        seq!['+'] + zero_padded(decimal(y as nat), 4)
    }
}

/// `YYYY-MM-DD`: how `chrono` displays a date.
pub open spec fn iso_text(d: CalDate) -> Seq<char> {
    year_text(d.year as int) + seq!['-'] + zero_padded(decimal(d.month as nat), 2) + seq!['-']
        + zero_padded(decimal(d.day as nat), 2)
}

/// The abbreviated name of a weekday, counted from Sunday.
pub open spec fn weekday_abbrev(n: int) -> Seq<char> {
    if n == 0 {
        seq!['S', 'u', 'n']
    } else if n == 1 {
        seq!['M', 'o', 'n']
    } else if n == 2 {
        seq!['T', 'u', 'e']
    } else if n == 3 {
        seq!['W', 'e', 'd']
    } else if n == 4 {
        seq!['T', 'h', 'u']
    } else if n == 5 {
        seq!['F', 'r', 'i']
    } else {
        seq!['S', 'a', 't']
    }
}

/// The weekday of a date, counted from Sunday (1 January of year 1 was a Monday).
pub open spec fn weekday_from_sunday(d: CalDate) -> int {
    d.number() % 7
}

/// What the pattern `%a, %Y-%m-%d` writes for a date.
pub open spec fn weekday_date_text(d: CalDate) -> Seq<char> {
    weekday_abbrev(weekday_from_sunday(d)) + seq![',', ' '] + iso_text(d)
}

/// What the pattern `Today is the %jth Day` writes for a date.
pub open spec fn day_of_year_text(d: CalDate) -> Seq<char> {
    "Today is the "@ + zero_padded(
        decimal(ordinal(d.year as int, d.month as int, d.day as int) as nat),
        3,
    ) + "th Day"@
}

/// The patterns that the notebook hands to `chrono` for writing dates.
pub open spec fn is_known_pattern(pattern: Seq<char>) -> bool {
    pattern == "%a, %Y-%m-%d"@ || pattern == "Today is the %jth Day"@
}

/// What a known pattern writes for a date.
pub open spec fn pattern_text(d: CalDate, pattern: Seq<char>) -> Seq<char> {
    if pattern == "%a, %Y-%m-%d"@ {
        weekday_date_text(d)
    } else {
        day_of_year_text(d)
    }
}

// ---------------------------------------------------------------------------
// Facts about day numbers
// ---------------------------------------------------------------------------

/// Stepping from `y - 1` to `y` raises `y / k` exactly when `k` divides `y`.
proof fn lemma_div_step(y: int, k: int)
    requires
        k > 0,
    ensures
        y / k - (y - 1) / k == (if y % k == 0 {
            1int
        } else {
            0
        }),
{
    let q = y / k;
    let r = y % k;
    lemma_fundamental_div_mod(y, k);
    lemma_mod_bound(y, k);
    if r == 0 {
        assert((q - 1) * k + (k - 1) == y - 1) by (nonlinear_arith)
            requires
                y == k * q + r,
                r == 0,
        ;
        lemma_fundamental_div_mod_converse_div(y - 1, k, q - 1, k - 1);
    } else {
        assert(q * k + (r - 1) == y - 1) by (nonlinear_arith)
            requires
                y == k * q + r,
        ;
        lemma_fundamental_div_mod_converse_div(y - 1, k, q, r - 1);
    }
}

/// A multiple of `a * b` is a multiple of `b`.
proof fn lemma_multiple_of_factor(y: int, a: int, b: int)
    requires
        a > 0,
        b > 0,
        y % (a * b) == 0,
    ensures
        y % b == 0,
{
    let q = y / (a * b);
    assert(a * b > 0) by (nonlinear_arith)
        requires
            a > 0,
            b > 0,
    ;
    lemma_fundamental_div_mod(y, a * b);
    assert((q * a) * b + 0 == y) by (nonlinear_arith)
        requires
            y == (a * b) * q + 0,
    ;
    lemma_fundamental_div_mod_converse_mod(y, b, q * a, 0);
}

/// A year has 365 days, and one more in a leap year.
pub proof fn lemma_year_length(y: int)
    ensures
        days_before_year(y + 1) == days_before_year(y) + 365 + leap_days(y),
{
    lemma_div_step(y, 4);
    lemma_div_step(y, 100);
    lemma_div_step(y, 400);
    if y % 400 == 0 {
        lemma_multiple_of_factor(y, 4, 100);
    }
    if y % 100 == 0 {
        lemma_multiple_of_factor(y, 25, 4);
    }
}

/// Every day of year `y1` comes before every day of a later year `y2`.
pub proof fn lemma_years_ordered(y1: int, y2: int)
    requires
        y1 < y2,
    ensures
        days_before_year(y1) + 365 + leap_days(y1) <= days_before_year(y2),
    decreases y2 - y1,
{
    lemma_year_length(y1);
    if y1 + 1 < y2 {
        lemma_years_ordered(y1 + 1, y2);
    }
}

/// The day of the year of a valid date lies within its year.
pub proof fn lemma_ordinal_bounds(y: int, m: int, d: int)
    requires
        1 <= m <= 12,
        1 <= d <= days_in_month(y, m),
    ensures
        1 <= ordinal(y, m, d) <= 365 + leap_days(y),
{
}

/// Within a year, every day of month `m1` comes before every day of a later month.
pub proof fn lemma_months_ordered(y: int, m1: int, d1: int, m2: int, d2: int)
    requires
        1 <= m1 < m2 <= 12,
        1 <= d1 <= days_in_month(y, m1),
        1 <= d2 <= days_in_month(y, m2),
    ensures
        ordinal(y, m1, d1) < ordinal(y, m2, d2),
{
}

/// Two valid dates with the same day number are the same date.
pub proof fn lemma_day_number_injective(a: CalDate, b: CalDate)
    requires
        a.valid(),
        b.valid(),
        a.number() == b.number(),
    ensures
        a == b,
{
    let (ya, ma, da) = (a.year as int, a.month as int, a.day as int);
    let (yb, mb, db) = (b.year as int, b.month as int, b.day as int);
    lemma_ordinal_bounds(ya, ma, da);
    lemma_ordinal_bounds(yb, mb, db);
    if ya < yb {
        lemma_years_ordered(ya, yb);
    } else if yb < ya {
        lemma_years_ordered(yb, ya);
    } else if ma < mb {
        lemma_months_ordered(ya, ma, da, mb, db);
    } else if mb < ma {
        lemma_months_ordered(ya, mb, db, ma, da);
    }
}

/// The day before a valid date that is not chrono's earliest one.
pub proof fn lemma_previous_day(d: CalDate) -> (e: CalDate)
    requires
        d.valid(),
        d.number() - 1 >= min_date().number(),
    ensures
        e.valid(),
        e.number() == d.number() - 1,
{
    let (y, m, day) = (d.year as int, d.month as int, d.day as int);
    if day > 1 {
        CalDate { year: d.year, month: d.month, day: (d.day - 1) as u32 }
    } else if m > 1 {
        let pm = (d.month - 1) as u32;
        let last = days_in_month(y, m - 1);
        CalDate { year: d.year, month: pm, day: last as u32 }
    } else {
        if y == MIN_YEAR {
            assert(d == min_date());
        }
        lemma_year_length(y - 1);
        CalDate { year: (d.year - 1) as i32, month: 12, day: 31 }
    }
}

/// Every day from a valid date back to chrono's earliest one is a valid date.
pub proof fn lemma_days_back(d: CalDate, k: nat) -> (e: CalDate)
    requires
        d.valid(),
        d.number() - k >= min_date().number(),
    ensures
        e.valid(),
        e.number() == d.number() - k,
    decreases k,
{
    if k == 0 {
        d
    } else {
        let e1 = lemma_days_back(d, (k - 1) as nat);
        lemma_previous_day(e1)
    }
}

/// The date `k` days before `d` exists while it is not before chrono's
/// earliest date.
pub proof fn lemma_date_before_exists(d: CalDate, k: nat)
    requires
        d.valid(),
        d.number() - k >= min_date().number(),
    ensures
        date_before(d, k as int).valid(),
        date_before(d, k as int).number() == d.number() - k,
{
    let e = lemma_days_back(d, k);
    lemma_date_before(d, k as int, e);
}

/// `date_before` names the one valid date with the given day number.
pub proof fn lemma_date_before(d: CalDate, k: int, e: CalDate)
    requires
        e.valid(),
        e.number() == d.number() - k,
    ensures
        date_before(d, k) == e,
{
    let c = date_before(d, k);
    assert(c.valid() && c.number() == d.number() - k);
    lemma_day_number_injective(c, e);
}

// ---------------------------------------------------------------------------
// Calls into chrono
// ---------------------------------------------------------------------------

/// `NaiveDate::from_ymd_opt(year, month, day).is_some()`: by chrono's
/// documentation the date exists exactly when the calendar has that day and
/// the year lies in chrono's range.
#[verifier::external_body]
fn chrono_date_exists(year: i32, month: u32, day: u32) -> (res: bool)
    ensures
        res == is_valid_date(year as int, month as int, day as int),
{
    NaiveDate::from_ymd_opt(year, month, day).is_some()
}

/// `NaiveDate`'s `to_string`: chrono documents it as `%Y-%m-%d`, four digits
/// for the year with a sign outside 0 to 9999, two for month and day.
#[verifier::external_body]
pub(crate) fn chrono_date_text(date: CalDate) -> (res: String)
    requires
        date.valid(),
    ensures
        res@ == iso_text(date),
{
    NaiveDate::from_ymd_opt(date.year, date.month, date.day).unwrap().to_string()
}

/// `NaiveDate::format(pattern).to_string()` for the two patterns the notebook
/// uses: `%a` is the abbreviated weekday, `%Y` the year as in `Display`, `%m`
/// and `%d` two digits, `%j` the day of the year in three digits.
#[verifier::external_body]
pub(crate) fn chrono_format(date: CalDate, pattern: &str) -> (res: String)
    requires
        date.valid(),
        is_known_pattern(pattern@),
    ensures
        res@ == pattern_text(date, pattern@),
{
    NaiveDate::from_ymd_opt(date.year, date.month, date.day).unwrap().format(pattern).to_string()
}

/// What `NaiveDate::parse_from_str(text, pattern)` reads: year, month and day
/// of the date it returns, or `None` where it returns an error.
pub uninterp spec fn chrono_parsed(text: Seq<char>, pattern: Seq<char>) -> Option<(int, int, int)>;

pub open spec fn parsed_triple(res: Option<CalDate>) -> Option<(int, int, int)> {
    match res {
        Some(d) => Some((d.year as int, d.month as int, d.day as int)),
        None => None,
    }
}

/// `NaiveDate::parse_from_str(text, pattern).ok()`: the date read is named
/// by `chrono_parsed`; a date that chrono returns is always a valid one.
#[verifier::external_body]
pub(crate) fn chrono_parse(text: &str, pattern: &str) -> (res: Option<CalDate>)
    ensures
        parsed_triple(res) == chrono_parsed(text@, pattern@),
        res matches Some(d) ==> d.valid(),
{
    match NaiveDate::parse_from_str(text, pattern) {
        Ok(d) => Some(CalDate { year: d.year(), month: d.month(), day: d.day() }),
        Err(_) => None,
    }
}

/// `date.checked_sub_signed(TimeDelta::days(days))`: the date `days` days
/// earlier, or `None` when it would fall before chrono's earliest date
/// (any `u32` count of days is far inside what `TimeDelta::days` accepts).
#[verifier::external_body]
fn chrono_days_before(date: CalDate, days: u32) -> (res: Option<CalDate>)
    requires
        date.valid(),
    ensures
        res is Some <==> date.number() - days >= min_date().number(),
        res matches Some(e) ==> e.valid() && e.number() == date.number() - days,
{
    let d = NaiveDate::from_ymd_opt(date.year, date.month, date.day).unwrap();
    match d.checked_sub_signed(chrono::TimeDelta::days(days as i64)) {
        Some(e) => Some(CalDate { year: e.year(), month: e.month(), day: e.day() }),
        None => None,
    }
}

/// `chrono::Local::now()`: its date and the seconds since its local midnight.
/// It depends on the clock and the time zone. Promised is only that the date
/// is valid and not before 1969-12-31 (`Utc::now` panics on a clock before
/// the Unix epoch, and a local offset is less than a day), and that the
/// seconds lie within a day.
#[verifier::external_body]
pub(crate) fn chrono_local_now() -> (res: (CalDate, u32))
    ensures
        res.0.valid(),
        res.0.number() >= clock_epoch_eve().number(),
        res.1 < 86400,
{
    let now = chrono::Local::now();
    let d = now.date_naive();
    (CalDate { year: d.year(), month: d.month(), day: d.day() }, now.time().num_seconds_from_midnight())
}

// ---------------------------------------------------------------------------
// Date operations of the notebook
// ---------------------------------------------------------------------------

/// The date that `year`, `month` and `day` name, if the calendar has it.
pub fn date_from_parts(year: i32, month: u32, day: u32) -> (res: Option<CalDate>)
    ensures
        res is Some <==> is_valid_date(year as int, month as int, day as int),
        res matches Some(d) ==> d == (CalDate { year, month, day }),
{
    if chrono_date_exists(year, month, day) {
        Some(CalDate { year, month, day })
    } else {
        None
    }
}

/// The date `days` days before `date`; `None` when that is before the
/// earliest date.
pub fn days_before(date: CalDate, days: u32) -> (res: Option<CalDate>)
    requires
        date.valid(),
    ensures
        res is Some <==> date.number() - days >= min_date().number(),
        res matches Some(e) ==> e.valid() && e.number() == date.number() - days && e
            == date_before(date, days as int),
{
    let res = chrono_days_before(date, days);
    proof {
        if let Some(e) = res {
            lemma_date_before(date, days as int, e);
        }
    }
    res
}

} // verus!
