//! Calendar dates held by date buffers, with the day arithmetic that the
//! `time` crate performs on them.

use vstd::prelude::*;

verus! {

/// Smallest year that a date may carry.
pub const MIN_YEAR: i32 = -9999;

/// Largest year that a date may carry.
pub const MAX_YEAR: i32 = 9999;

/// A day of the proleptic Gregorian calendar.
#[derive(Clone, Copy, Debug, PartialEq, Eq, Structural)]
pub struct CalendarDate {
    pub year: i32,
    pub month: u8,
    pub day: u8,
}

pub open spec fn is_leap_year(y: int) -> bool {
    (y % 4 == 0 && y % 100 != 0) || y % 400 == 0
}

pub open spec fn days_in_month(y: int, m: int) -> int {
    if m == 2 {
        if is_leap_year(y) { 29 } else { 28 }
    } else if m == 4 || m == 6 || m == 9 || m == 11 {
        30
    } else {
        31
    }
}

/// Days from 0001-01-01 to the first day of year `y` (negative before it).
pub open spec fn days_before_year(y: int) -> int {
    let p = y - 1;
    365 * p + p / 4 - p / 100 + p / 400
}

/// Days from the first of the year to the first of month `m`.
pub open spec fn days_before_month(y: int, m: int) -> int {
    let common: int = if m <= 1 { 0 } else if m == 2 { 31 } else if m == 3 { 59 } else if m == 4 {
        90
    } else if m == 5 { 120 } else if m == 6 { 151 } else if m == 7 { 181 } else if m == 8 {
        212
    } else if m == 9 { 243 } else if m == 10 { 273 } else if m == 11 { 304 } else { 334 };
    if m > 2 && is_leap_year(y) { common + 1 } else { common }
}

/// Position of a date on the line of days; consecutive days differ by one.
pub open spec fn day_number(d: CalendarDate) -> int {
    days_before_year(d.year as int) + days_before_month(d.year as int, d.month as int) + d.day - 1
}

pub open spec fn first_day() -> CalendarDate {
    CalendarDate { year: MIN_YEAR, month: 1, day: 1 }
}

pub open spec fn last_day() -> CalendarDate {
    CalendarDate { year: MAX_YEAR, month: 12, day: 31 }
}

pub open spec fn digit(n: int) -> char {
    seq!['0', '1', '2', '3', '4', '5', '6', '7', '8', '9'][n]
}

pub open spec fn two_digits(n: int) -> Seq<char> {
    seq![digit(n / 10 % 10), digit(n % 10)]
}

pub open spec fn four_digits(n: int) -> Seq<char> {
    seq![digit(n / 1000 % 10), digit(n / 100 % 10), digit(n / 10 % 10), digit(n % 10)]
}

/// The `YYYY-MM-DD` text of a date, with a leading `-` before years BC.
pub open spec fn iso_text(d: CalendarDate) -> Seq<char> {
    let sign = if d.year < 0 { seq!['-'] } else { Seq::<char>::empty() };
    let y: int = if d.year < 0 { -d.year } else { d.year as int };
    sign + four_digits(y) + seq!['-'] + two_digits(d.month as int) + seq!['-'] + two_digits(
        d.day as int,
    )
}

pub open spec fn month_after(m: int) -> int {
    if m >= 12 { 1 } else { m + 1 }
}

pub open spec fn month_before(m: int) -> int {
    if m <= 1 { 12 } else { m - 1 }
}

impl CalendarDate {
    /// The date names a day that exists and lies in the supported years.
    pub open spec fn wf(self) -> bool {
        &&& MIN_YEAR <= self.year <= MAX_YEAR
        &&& 1 <= self.month <= 12
        &&& 1 <= self.day <= days_in_month(self.year as int, self.month as int)
    }

    pub fn days_in_month(year: i32, month: u8) -> (r: u8)
        requires
            1 <= month <= 12,
        ensures
            r == days_in_month(year as int, month as int),
    {
        if month == 2 {
            if (year % 4 == 0 && year % 100 != 0) || year % 400 == 0 {
                29
            } else {
                28
            }
        } else if month == 4 || month == 6 || month == 9 || month == 11 {
            30
        } else {
            31
        }
    }

    pub fn is_valid(&self) -> (r: bool)
        ensures
            r == self.wf(),
    {
        MIN_YEAR <= self.year && self.year <= MAX_YEAR && 1 <= self.month && self.month <= 12
            && 1 <= self.day && self.day <= CalendarDate::days_in_month(self.year, self.month)
    }

    /// The date of the given year, month and day, if that day exists.
    pub fn new(year: i32, month: u8, day: u8) -> (r: Option<CalendarDate>)
        ensures
            r == (if (CalendarDate { year, month, day }).wf() {
                Some(CalendarDate { year, month, day })
            } else {
                None
            }),
    {
        let d = CalendarDate { year, month, day };
        if d.is_valid() {
            Some(d)
        } else {
            None
        }
    }

    /// The date `n` days later (earlier for negative `n`); `None` when that day
    /// lies outside the supported years.
    pub fn plus_days(&self, n: i64) -> (r: Option<CalendarDate>)
        requires
            self.wf(),
        ensures
            r is Some <==> day_number(first_day()) <= day_number(*self) + n <= day_number(
                last_day(),
            ),
            r matches Some(e) ==> e.wf() && day_number(e) == day_number(*self) + n,
    {
        if n < -8_000_000 || n > 8_000_000 {
            proof {
                lemma_day_number_bounds(*self);
            }
            None
        } else {
            add_days(*self, n)
        }
    }

    /// The same day in month `m`; `None` when month `m` has no such day.
    pub fn with_month(&self, m: u8) -> (r: Option<CalendarDate>)
        requires
            self.wf(),
            1 <= m <= 12,
        ensures
            r == (if self.day <= days_in_month(self.year as int, m as int) {
                Some(CalendarDate { year: self.year, month: m, day: self.day })
            } else {
                None
            }),
    {
        replace_month(*self, m)
    }

    /// The same month and day in year `y`; `None` when `y` is out of range or
    /// has no such day (February 29 of a common year).
    pub fn with_year(&self, y: i32) -> (r: Option<CalendarDate>)
        requires
            self.wf(),
        ensures
            r == (if MIN_YEAR <= y <= MAX_YEAR && self.day <= days_in_month(
                y as int,
                self.month as int,
            ) {
                Some(CalendarDate { year: y, month: self.month, day: self.day })
            } else {
                None
            }),
    {
        replace_year(*self, y)
    }

    pub fn next_month(&self) -> (r: u8)
        ensures
            r == month_after(self.month as int),
    {
        if self.month >= 12 {
            1
        } else {
            self.month + 1
        }
    }

    pub fn previous_month(&self) -> (r: u8)
        ensures
            r == month_before(self.month as int),
    {
        if self.month <= 1 {
            12
        } else {
            self.month - 1
        }
    }
}

/// Every supported date lies within the range spanned by the first and last day.
pub proof fn lemma_day_number_bounds(d: CalendarDate)
    requires
        d.wf(),
    ensures
        day_number(first_day()) <= day_number(d) <= day_number(last_day()),
        day_number(last_day()) - day_number(first_day()) < 8_000_000,
{
    let y = d.year as int;
    assert(days_before_year(-9999) <= days_before_year(y) <= days_before_year(9999)) by {
        lemma_days_before_year_monotonic(-9999, y);
        lemma_days_before_year_monotonic(y, 9999);
    }
}

proof fn lemma_days_before_year_monotonic(a: int, b: int)
    requires
        a <= b,
    ensures
        days_before_year(a) + 365 * (b - a) <= days_before_year(b),
{
    let p = a - 1;
    let q = b - 1;
    assert(p / 4 <= q / 4 && p / 100 <= q / 100 && p / 400 <= q / 400) by {
        vstd::arithmetic::div_mod::lemma_div_is_ordered(p, q, 4);
        vstd::arithmetic::div_mod::lemma_div_is_ordered(p, q, 400);
    }
    assert(q / 100 - p / 100 <= q / 4 - p / 4) by {
        vstd::arithmetic::div_mod::lemma_fundamental_div_mod(p, 100);
        vstd::arithmetic::div_mod::lemma_fundamental_div_mod(q, 100);
        vstd::arithmetic::div_mod::lemma_fundamental_div_mod(p, 4);
        vstd::arithmetic::div_mod::lemma_fundamental_div_mod(q, 4);
    }
}

/// Relies on `time::Date::checked_add`: the date a whole number of days away,
/// or `None` outside the years -9999 to 9999.
#[verifier::external_body]
fn add_days(d: CalendarDate, n: i64) -> (r: Option<CalendarDate>)
    requires
        d.wf(),
        -8_000_000 <= n <= 8_000_000,
    ensures
        r is Some <==> day_number(first_day()) <= day_number(d) + n <= day_number(last_day()),
        r matches Some(e) ==> e.wf() && day_number(e) == day_number(d) + n,
{
    let month = time::Month::try_from(d.month).unwrap();
    let date = time::Date::from_calendar_date(d.year, month, d.day).unwrap();
    date.checked_add(time::Duration::days(n)).map(
        |e| CalendarDate { year: e.year(), month: u8::from(e.month()), day: e.day() },
    )
}

/// Relies on `time::Date::replace_month`: the same day in another month, or an
/// error when that month is too short.
#[verifier::external_body]
fn replace_month(d: CalendarDate, m: u8) -> (r: Option<CalendarDate>)
    requires
        d.wf(),
        1 <= m <= 12,
    ensures
        r == (if d.day <= days_in_month(d.year as int, m as int) {
            Some(CalendarDate { year: d.year, month: m, day: d.day })
        } else {
            None
        }),
{
    let month = time::Month::try_from(d.month).unwrap();
    let date = time::Date::from_calendar_date(d.year, month, d.day).unwrap();
    let e = date.replace_month(time::Month::try_from(m).unwrap()).ok()?;
    Some(CalendarDate { year: e.year(), month: u8::from(e.month()), day: e.day() })
}

/// Relies on `time::Date::replace_year`: the same month and day in another year,
/// or an error for a year out of range or a February 29 that the year lacks.
#[verifier::external_body]
fn replace_year(d: CalendarDate, y: i32) -> (r: Option<CalendarDate>)
    requires
        d.wf(),
    ensures
        r == (if MIN_YEAR <= y <= MAX_YEAR && d.day <= days_in_month(y as int, d.month as int) {
            Some(CalendarDate { year: y, month: d.month, day: d.day })
        } else {
            None
        }),
{
    let month = time::Month::try_from(d.month).unwrap();
    let date = time::Date::from_calendar_date(d.year, month, d.day).unwrap();
    let e = date.replace_year(y).ok()?;
    Some(CalendarDate { year: e.year(), month: u8::from(e.month()), day: e.day() })
}

/// Relies on `time::Date::parse` with the description `[year]-[month]-[day]`:
/// the canonical text of every date parses back to that date, and what is
/// parsed is a date that exists.
#[verifier::external_body]
fn parse_iso(s: &str) -> (r: Option<CalendarDate>)
    ensures
        r matches Some(e) ==> e.wf(),
        forall|e: CalendarDate|
            e.wf() && 0 <= e.year && #[trigger] iso_text(e) == s@ ==> r == Some(e),
{
    let format = time::format_description::parse("[year]-[month]-[day]").ok()?;
    let e = time::Date::parse(s, &format).ok()?;
    Some(CalendarDate { year: e.year(), month: u8::from(e.month()), day: e.day() })
}

/// Relies on `time::Date::format` with the description `[year]-[month]-[day]`:
/// a sign for years BC, four digits of year, two of month and two of day.
#[verifier::external_body]
fn format_iso(d: CalendarDate) -> (r: String)
    requires
        d.wf(),
    ensures
        r@ == iso_text(d),
{
    let month = time::Month::try_from(d.month).unwrap();
    let date = time::Date::from_calendar_date(d.year, month, d.day).unwrap();
    let format = time::format_description::parse("[year]-[month]-[day]").unwrap();
    date.format(&format).unwrap()
}

impl CalendarDate {
    /// Reads a date written `YYYY-MM-DD`.
    pub fn parse(s: &str) -> (r: Option<CalendarDate>)
        ensures
            r matches Some(e) ==> e.wf(),
            forall|e: CalendarDate|
                e.wf() && 0 <= e.year && #[trigger] iso_text(e) == s@ ==> r == Some(e),
    {
        parse_iso(s)
    }

    /// The date written `YYYY-MM-DD`.
    pub fn to_iso_string(&self) -> (r: String)
        requires
            self.wf(),
        ensures
            r@ == iso_text(*self),
    {
        format_iso(*self)
    }
}

} // verus!
