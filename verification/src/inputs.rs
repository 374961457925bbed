//! Reading the values typed or picked in form fields: dates from date
//! inputs and ids from choice lists.
use vstd::prelude::*;
use chrono::Datelike;
use crate::dates::Date;
use crate::gender::{Gender, gender_of_id};

verus! {

/// A decimal digit.
pub open spec fn is_digit(c: char) -> bool {
    '0' <= c && c <= '9'
}

/// The value of a run of decimal digits.
pub open spec fn digits_value(s: Seq<char>) -> int
    decreases s.len(),
{
    if s.len() == 0 {
        0
    } else {
        digits_value(s.drop_last()) * 10 + (s.last() as int - '0' as int)
    }
}

/// The integer a text spells: an optional `+` or `-` followed by one or
/// more decimal digits, and nothing else.
pub open spec fn decimal_int(s: Seq<char>) -> Option<int> {
    let signed = s.len() > 0 && (s[0] == '-' || s[0] == '+');
    let body = if signed {
        s.skip(1)
    } else {
        s
    };
    if body.len() > 0 && forall|i: int| 0 <= i < body.len() ==> is_digit(#[trigger] body[i]) {
        Some(
            if s[0] == '-' {
                -digits_value(body)
            } else {
                digits_value(body)
            },
        )
    } else {
        None
    }
}

/// What `str::parse::<i32>` reads: the integer the text spells, when it fits.
pub open spec fn i32_parse(s: Seq<char>) -> Option<i32> {
    match decimal_int(s) {
        Some(v) => if i32::MIN <= v <= i32::MAX {
            Some(v as i32)
        } else {
            None
        },
        None => None,
    }
}

/// Calls `str::parse::<i32>`. Claims what its documentation says: an
/// optional sign followed by digits, nothing else, whose value fits.
#[verifier::external_body]
fn parse_i32(s: &str) -> (r: Option<i32>)
    ensures
        r == i32_parse(s@),
{
    s.parse::<i32>().ok()
}

/// The date `chrono::NaiveDate::parse_from_str` reads from a text with a
/// format, as a plain date.
pub uninterp spec fn chrono_date_parse(s: Seq<char>, fmt: Seq<char>) -> Option<Date>;

/// Calls `chrono::NaiveDate::parse_from_str` and gives the date as a plain
/// date. Claims: the result is the one named `chrono_date_parse`, and a
/// date it reads exists in the calendar (as every `NaiveDate` does).
#[verifier::external_body]
fn parse_date(s: &str, fmt: &str) -> (r: Option<Date>)
    ensures
        r == chrono_date_parse(s@, fmt@),
        r matches Some(d) ==> d.wf(),
{
    match chrono::NaiveDate::parse_from_str(s, fmt) {
        Ok(d) => Some(Date { year: d.year(), month: d.month(), day: d.day() }),
        Err(_) => None,
    }
}

/// The date a date input holds (`%Y-%m-%d`), or none when it holds none.
pub fn parse_date_input(value: &str) -> (r: Option<Date>)
    ensures
        r == chrono_date_parse(value@, "%Y-%m-%d"@),
        r matches Some(d) ==> d.wf(),
{
    parse_date(value, "%Y-%m-%d")
}

/// What a date input sets: no date when it is empty, else the date it holds
/// (`%Y-%m-%d`), if any.
pub open spec fn date_input_value(value: Seq<char>) -> Option<Date> {
    if value.len() == 0 {
        None
    } else {
        chrono_date_parse(value, "%Y-%m-%d"@)
    }
}

/// The date set by editing a date input: none for an empty input, else the
/// date the text holds.
pub fn date_input(value: &str) -> (r: Option<Date>)
    ensures
        r == date_input_value(value@),
        r matches Some(d) ==> d.wf(),
{
    if value.is_empty() {
        None
    } else {
        parse_date_input(value)
    }
}

/// The id a choice list holds, or none when its value is not a number.
pub fn parse_id_input(value: &str) -> (r: Option<i32>)
    ensures
        r == i32_parse(value@),
{
    parse_i32(value)
}

/// The gender after picking `value` in the gender list: the gender with
/// that id (the default gender for an unknown id); a value that is not a
/// number leaves the gender as it was.
pub fn gender_choice(current: Gender, value: &str) -> (r: Gender)
    ensures
        i32_parse(value@) is None ==> r == current,
        i32_parse(value@) matches Some(v) ==> r == (match gender_of_id(v as int) {
            Some(g) => g,
            None => Gender::Male,
        }),
{
    match parse_i32(value) {
        Some(v) => match Gender::from_id(v) {
            Some(g) => g,
            None => Gender::Male,
        },
        None => current,
    }
}

/// The id after picking `value` in a list of ids: that id, or the current
/// one when the value is not a number.
pub fn id_choice(current: i32, value: &str) -> (r: i32)
    ensures
        r == match i32_parse(value@) {
            Some(v) => v,
            None => current,
        },
{
    match parse_i32(value) {
        Some(v) => v,
        None => current,
    }
}

} // verus!
