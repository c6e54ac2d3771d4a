//! Calendar dates written as `YYYY-MM-DD`, and the compact `YYYYMMDD` key
//! an attendance record derives from its date. The key is computed from
//! the date alone, so the same date always addresses the same record.

use vstd::prelude::*;
use vstd::string::StrSliceExecFns;
use vstd::string::StringExecFns;

use crate::response::AppError;

verus! {

/// A calendar date, already checked against the Gregorian calendar.
#[derive(Clone, Copy, Debug, PartialEq, Eq, Structural)]
pub struct DateYmd {
    pub year: u32,
    pub month: u32,
    pub day: u32,
}

/// A decimal digit.
pub open spec fn is_digit(c: char) -> bool {
    48 <= c as u32 <= 57
}

/// The value of a decimal digit.
pub open spec fn digit_val(c: char) -> int {
    c as u32 - 48
}

/// Gregorian leap years.
pub open spec fn is_leap_year(y: int) -> bool {
    y % 4 == 0 && (y % 100 != 0 || y % 400 == 0)
}

/// Days in a month of the Gregorian calendar.
pub open spec fn days_in_month(y: int, m: int) -> int {
    if m == 2 {
        if is_leap_year(y) {
            29
        } else {
            28
        }
    } else if m == 4 || m == 6 || m == 9 || m == 11 {
        30
    } else {
        31
    }
}

/// The string has the exact shape `DDDD-DD-DD` with decimal digits.
pub open spec fn date_string_shape_ok(s: Seq<char>) -> bool {
    &&& s.len() == 10
    &&& is_digit(s[0])
    &&& is_digit(s[1])
    &&& is_digit(s[2])
    &&& is_digit(s[3])
    &&& s[4] == '-'
    &&& is_digit(s[5])
    &&& is_digit(s[6])
    &&& s[7] == '-'
    &&& is_digit(s[8])
    &&& is_digit(s[9])
}

/// The year the string writes.
pub open spec fn year_of(s: Seq<char>) -> int {
    digit_val(s[0]) * 1000 + digit_val(s[1]) * 100 + digit_val(s[2]) * 10 + digit_val(s[3])
}

/// The month the string writes.
pub open spec fn month_of(s: Seq<char>) -> int {
    digit_val(s[5]) * 10 + digit_val(s[6])
}

/// The day the string writes.
pub open spec fn day_of(s: Seq<char>) -> int {
    digit_val(s[8]) * 10 + digit_val(s[9])
}

/// A well-shaped date string naming a real calendar date.
pub open spec fn valid_date_string(s: Seq<char>) -> bool {
    &&& date_string_shape_ok(s)
    &&& 1 <= month_of(s) <= 12
    &&& 1 <= day_of(s) <= days_in_month(year_of(s), month_of(s))
}

/// The derived record key: the date's eight digits without separators.
pub open spec fn date_key(s: Seq<char>) -> Seq<char> {
    s.subrange(0, 4) + s.subrange(5, 7) + s.subrange(8, 10)
}

/// The date value a valid date string names.
pub open spec fn date_of(s: Seq<char>) -> DateYmd {
    DateYmd { year: year_of(s) as u32, month: month_of(s) as u32, day: day_of(s) as u32 }
}

/// Decide whether a character is a decimal digit.
fn check_digit(c: char) -> (r: bool)
    ensures
        r == is_digit(c),
{
    let d = c as u32;
    48 <= d && d <= 57
}

/// The value of a decimal digit character.
fn digit_value(c: char) -> (r: u32)
    requires
        is_digit(c),
    ensures
        r == digit_val(c),
        r <= 9,
{
    (c as u32) - 48
}

/// Decide Gregorian leap years.
pub fn leap_year(y: u32) -> (r: bool)
    ensures
        r == is_leap_year(y as int),
{
    y % 4 == 0 && (y % 100 != 0 || y % 400 == 0)
}

/// Days in a month of the Gregorian calendar.
pub fn month_length(y: u32, m: u32) -> (r: u32)
    ensures
        r == days_in_month(y as int, m as int),
{
    if m == 2 {
        if leap_year(y) {
            29
        } else {
            28
        }
    } else if m == 4 || m == 6 || m == 9 || m == 11 {
        30
    } else {
        31
    }
}

/// Parse a `YYYY-MM-DD` date string, checking it names a real calendar
/// date, and derive the compact `YYYYMMDD` record key. Anything else is a
/// validation failure.
pub fn parse_date(date: &str) -> (r: Result<(DateYmd, String), AppError>)
    ensures
        r is Ok <==> valid_date_string(date@),
        r matches Ok(p) ==> p.0 == date_of(date@) && p.1@ == date_key(date@),
        r is Err ==> r == Err::<(DateYmd, String), AppError>(AppError::Validation),
{
    if date.unicode_len() != 10 {
        return Err(AppError::Validation);
    }
    let c0 = date.get_char(0);
    let c1 = date.get_char(1);
    let c2 = date.get_char(2);
    let c3 = date.get_char(3);
    let c4 = date.get_char(4);
    let c5 = date.get_char(5);
    let c6 = date.get_char(6);
    let c7 = date.get_char(7);
    let c8 = date.get_char(8);
    let c9 = date.get_char(9);
    if !(check_digit(c0) && check_digit(c1) && check_digit(c2) && check_digit(c3) && c4 == '-'
        && check_digit(c5) && check_digit(c6) && c7 == '-' && check_digit(c8) && check_digit(c9)) {
        return Err(AppError::Validation);
    }
    let year = digit_value(c0) * 1000 + digit_value(c1) * 100 + digit_value(c2) * 10 + digit_value(
        c3,
    );
    let month = digit_value(c5) * 10 + digit_value(c6);
    let day = digit_value(c8) * 10 + digit_value(c9);
    if month < 1 || month > 12 {
        return Err(AppError::Validation);
    }
    if day < 1 || day > month_length(year, month) {
        return Err(AppError::Validation);
    }
    let mut key = date.substring_char(0, 4).to_owned();
    key.append(date.substring_char(5, 7));
    key.append(date.substring_char(8, 10));
    Ok((DateYmd { year, month, day }, key))
}

} // verus!
