//! Calendar dates and timestamps as plain values, and their text forms.
use vstd::prelude::*;
use crate::text::{nat_text, zero_pad, zero_padded, push_char};

verus! {

/// A calendar date (proleptic Gregorian), as the database stores it.
#[derive(Debug, Clone, Copy, PartialEq, Eq, Structural)]
pub struct Date {
    pub year: i32,
    pub month: u32,
    pub day: u32,
}

/// A date with a time of day, without time zone.
#[derive(Debug, Clone, Copy, PartialEq, Eq, Structural)]
pub struct DateTime {
    pub date: Date,
    pub hour: u32,
    pub minute: u32,
    pub second: u32,
}

pub open spec fn is_leap_year(y: int) -> bool {
    (y % 4 == 0 && y % 100 != 0) || y % 400 == 0
}

pub open spec fn days_in_month(y: int, m: int) -> int {
    if m == 2 {
        if is_leap_year(y) {
            29
        } else {
            28
        }
    } else if m == 4 || m == 6 || m == 9 || m == 11 {
        30
    } else {
        31
    }
}

impl Date {
    /// The date exists in the calendar (and in the range of years the dates come from).
    pub open spec fn wf(self) -> bool {
        &&& -262143 <= self.year <= 262142
        &&& 1 <= self.month <= 12
        &&& 1 <= self.day <= days_in_month(self.year as int, self.month as int)
    }
}

impl DateTime {
    pub open spec fn wf(self) -> bool {
        &&& self.date.wf()
        &&& self.hour < 24
        &&& self.minute < 60
        &&& self.second < 60
    }
}

/// The year as the `%Y` field prints it: four digits at least, and a sign
/// outside the years 0 to 9999.
pub open spec fn year_text(y: int) -> Seq<char> {
    if 0 <= y <= 9999 {
        zero_pad(nat_text(y as nat), 4)
    } else if y < 0 {
        seq!['-'] + zero_pad(nat_text((-y) as nat), 4)
    } else {
        seq!['+'] + zero_pad(nat_text(y as nat), 4)
    }
}

/// The date in the pattern `%d-%m-%Y` (day-month-year).
pub open spec fn dmy_text(d: Date) -> Seq<char> {
    zero_pad(nat_text(d.day as nat), 2) + seq!['-'] + zero_pad(nat_text(d.month as nat), 2)
        + seq!['-'] + year_text(d.year as int)
}

/// The date in the pattern `%Y-%m-%d` (year-month-day).
pub open spec fn ymd_text(d: Date) -> Seq<char> {
    year_text(d.year as int) + seq!['-'] + zero_pad(nat_text(d.month as nat), 2) + seq!['-']
        + zero_pad(nat_text(d.day as nat), 2)
}

/// The year as `%Y` prints it.
pub fn format_year(y: i32) -> (r: String)
    ensures
        r@ == year_text(y as int),
{
    if 0 <= y && y <= 9999 {
        zero_padded(y as u64, 4)
    } else if y < 0 {
        let m: i64 = 0i64 - (y as i64);
        let mut s = String::new();
        push_char(&mut s, '-');
        let digits = zero_padded(m as u64, 4);
        s.append(digits.as_str());
        s
    } else {
        let mut s = String::new();
        push_char(&mut s, '+');
        let digits = zero_padded(y as u64, 4);
        s.append(digits.as_str());
        s
    }
}

/// The date as `%d-%m-%Y` prints it.
pub fn format_dmy(d: &Date) -> (r: String)
    ensures
        r@ == dmy_text(*d),
{
    let mut s = zero_padded(d.day as u64, 2);
    push_char(&mut s, '-');
    let month = zero_padded(d.month as u64, 2);
    s.append(month.as_str());
    push_char(&mut s, '-');
    let year = format_year(d.year);
    s.append(year.as_str());
    s
}

/// The date as `%Y-%m-%d` prints it (the value of a date input field).
pub fn format_ymd(d: &Date) -> (r: String)
    ensures
        r@ == ymd_text(*d),
{
    let mut s = format_year(d.year);
    push_char(&mut s, '-');
    let month = zero_padded(d.month as u64, 2);
    s.append(month.as_str());
    push_char(&mut s, '-');
    let day = zero_padded(d.day as u64, 2);
    s.append(day.as_str());
    s
}

/// The text shown for a date that may be missing: `%d-%m-%Y`, or `N/A`.
pub open spec fn optional_dmy_text(d: Option<Date>) -> Seq<char> {
    match d {
        Some(x) => dmy_text(x),
        None => seq!['N', '/', 'A'],
    }
}

/// `%d-%m-%Y` of the date, or `N/A` when there is none.
pub fn format_optional_dmy(d: &Option<Date>) -> (r: String)
    ensures
        r@ == optional_dmy_text(*d),
{
    match d {
        Some(x) => format_dmy(x),
        None => {
            let mut s = String::new();
            push_char(&mut s, 'N');
            push_char(&mut s, '/');
            push_char(&mut s, 'A');
            assert(s@ =~= seq!['N', '/', 'A']);
            s
        },
    }
}

/// The date part of an optional timestamp.
pub open spec fn date_of(t: Option<DateTime>) -> Option<Date> {
    match t {
        Some(x) => Some(x.date),
        None => None,
    }
}

/// `%d-%m-%Y` of the timestamp's date, or `N/A` when there is none.
pub fn format_optional_datetime_dmy(t: &Option<DateTime>) -> (r: String)
    ensures
        r@ == optional_dmy_text(date_of(*t)),
{
    match t {
        Some(x) => format_dmy(&x.date),
        None => format_optional_dmy(&None),
    }
}

} // verus!
