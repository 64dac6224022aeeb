//! A proleptic-Gregorian calendar model: naive wall-clock date-times, their
//! distance in seconds from the Unix epoch, and the parser for the fixed
//! `YYYY-MM-DDTHH:MM` local-time literal that forecast file names carry.

use vstd::prelude::*;

verus! {

/// A naive wall-clock date-time: calendar fields with no offset attached.
/// Years run from 0 to 9999, as the four-digit literal allows.
#[derive(Clone, Copy, Debug, PartialEq, Eq, Structural)]
pub struct NaiveDateTime {
    pub year: u16,
    pub month: u8,
    pub day: u8,
    pub hour: u8,
    pub minute: u8,
}

/// A year is a leap year when divisible by 4, except centuries not divisible
/// by 400.
pub open spec fn is_leap_year(y: int) -> bool {
    y % 4 == 0 && (y % 100 != 0 || y % 400 == 0)
}

pub open spec fn days_in_year(y: int) -> int {
    if is_leap_year(y) {
        366
    } else {
        365
    }
}

pub open spec fn days_in_month(y: int, m: int) -> int {
    if m == 1 {
        31
    } else if m == 2 {
        if is_leap_year(y) {
            29
        } else {
            28
        }
    } else if m == 3 {
        31
    } else if m == 4 {
        30
    } else if m == 5 {
        31
    } else if m == 6 {
        30
    } else if m == 7 {
        31
    } else if m == 8 {
        31
    } else if m == 9 {
        30
    } else if m == 10 {
        31
    } else if m == 11 {
        30
    } else if m == 12 {
        31
    } else {
        0
    }
}

/// Days in all years before year `y`, counted from year 0.
pub open spec fn days_before_year(y: int) -> int
    decreases y,
    when y >= 0
{
    if y <= 0 {
        0
    } else {
        days_before_year(y - 1) + days_in_year(y - 1)
    }
}

/// Days in all months of year `y` before month `m`.
pub open spec fn days_before_month(y: int, m: int) -> int
    decreases m,
    when m >= 1
{
    if m <= 1 {
        0
    } else {
        days_before_month(y, m - 1) + days_in_month(y, m - 1)
    }
}

/// Days from 1970-01-01 to the given calendar date (negative for earlier
/// dates).
pub open spec fn civil_days(y: int, m: int, d: int) -> int {
    days_before_year(y) + days_before_month(y, m) + (d - 1) - days_before_year(1970)
}

impl NaiveDateTime {
    /// The fields name a real wall-clock moment: a day that exists in its
    /// month and year, and an hour and minute on the clock.
    pub open spec fn valid(self) -> bool {
        &&& self.year <= 9999
        &&& 1 <= self.month <= 12
        &&& 1 <= self.day <= days_in_month(self.year as int, self.month as int)
        &&& self.hour <= 23
        &&& self.minute <= 59
    }

    /// Seconds from 1970-01-01T00:00:00 to this wall-clock moment, read as if
    /// it lay at UTC.
    pub open spec fn civil_seconds(self) -> int {
        civil_days(self.year as int, self.month as int, self.day as int) * 86400
            + (self.hour as int) * 3600 + (self.minute as int) * 60
    }
}

pub fn leap_year(year: u16) -> (r: bool)
    ensures
        r == is_leap_year(year as int),
{
    year % 4 == 0 && (year % 100 != 0 || year % 400 == 0)
}

pub fn month_length(year: u16, month: u8) -> (r: u8)
    requires
        1 <= month <= 12,
    ensures
        r == days_in_month(year as int, month as int),
        28 <= r <= 31,
{
    if month == 2 {
        if leap_year(year) {
            29
        } else {
            28
        }
    } else if month == 4 || month == 6 || month == 9 || month == 11 {
        30
    } else {
        31
    }
}

/// Counts the days in all years before `year`, walking year by year as the
/// recursive definition does.
pub fn count_days_before_year(year: u16) -> (r: u32)
    requires
        year <= 9999,
    ensures
        r == days_before_year(year as int),
        365 * year <= r <= 366 * year,
{
    let mut total: u32 = 0;
    let mut y: u16 = 0;
    while y < year
        invariant
            y <= year,
            year <= 9999,
            total == days_before_year(y as int),
            365 * y <= total <= 366 * y,
        decreases year - y,
    {
        if leap_year(y) {
            total += 366;
        } else {
            total += 365;
        }
        y += 1;
    }
    total
}

/// Counts the days in all months of `year` before `month`.
pub fn count_days_before_month(year: u16, month: u8) -> (r: u32)
    requires
        1 <= month <= 12,
    ensures
        r == days_before_month(year as int, month as int),
        r <= 366,
{
    let mut total: u32 = 0;
    let mut m: u8 = 1;
    while m < month
        invariant
            1 <= m <= month,
            month <= 12,
            total == days_before_month(year as int, m as int),
            total <= 31 * (m - 1),
        decreases month - m,
    {
        total += month_length(year, m) as u32;
        m += 1;
    }
    total
}

/// Seconds from the Unix epoch to the wall-clock moment, read as if it lay at
/// UTC.
pub fn civil_seconds_of(dt: &NaiveDateTime) -> (r: i64)
    requires
        dt.valid(),
    ensures
        r == dt.civil_seconds(),
        -63_000_000_000 <= r <= 255_000_000_000,
{
    let days_y = count_days_before_year(dt.year);
    let days_m = count_days_before_month(dt.year, dt.month);
    let epoch_days = count_days_before_year(1970);
    let days: i64 = days_y as i64 + days_m as i64 + (dt.day as i64 - 1) - epoch_days as i64;
    days * 86400 + (dt.hour as i64) * 3600 + (dt.minute as i64) * 60
}

/// A decimal digit character.
pub open spec fn is_digit(c: char) -> bool {
    48 <= c as int <= 57
}

pub open spec fn digit_value(c: char) -> int {
    c as int - 48
}

fn parse_digit(c: char) -> (r: Option<u8>)
    ensures
        r is Some <==> is_digit(c),
        r matches Some(v) ==> v == digit_value(c) && v <= 9,
{
    let v = c as u32;
    if 48 <= v && v <= 57 {
        Some((v - 48) as u8)
    } else {
        None
    }
}

/// The literal has the shape `YYYY-MM-DDTHH:MM`: sixteen characters, digits
/// and the three fixed separators in their places.
pub open spec fn literal_shape_ok(s: Seq<char>) -> bool {
    &&& s.len() == 16
    &&& is_digit(s[0]) && is_digit(s[1]) && is_digit(s[2]) && is_digit(s[3])
    &&& s[4] == '-'
    &&& is_digit(s[5]) && is_digit(s[6])
    &&& s[7] == '-'
    &&& is_digit(s[8]) && is_digit(s[9])
    &&& s[10] == 'T'
    &&& is_digit(s[11]) && is_digit(s[12])
    &&& s[13] == ':'
    &&& is_digit(s[14]) && is_digit(s[15])
}

pub open spec fn literal_year(s: Seq<char>) -> int {
    1000 * digit_value(s[0]) + 100 * digit_value(s[1]) + 10 * digit_value(s[2]) + digit_value(s[3])
}

pub open spec fn literal_month(s: Seq<char>) -> int {
    10 * digit_value(s[5]) + digit_value(s[6])
}

pub open spec fn literal_day(s: Seq<char>) -> int {
    10 * digit_value(s[8]) + digit_value(s[9])
}

pub open spec fn literal_hour(s: Seq<char>) -> int {
    10 * digit_value(s[11]) + digit_value(s[12])
}

pub open spec fn literal_minute(s: Seq<char>) -> int {
    10 * digit_value(s[14]) + digit_value(s[15])
}

/// The literal names a real wall-clock moment: right shape, a month from 1 to
/// 12, a day that exists in that month and year, and an hour and minute on
/// the clock.
pub open spec fn valid_time_literal(s: Seq<char>) -> bool {
    &&& literal_shape_ok(s)
    &&& 1 <= literal_month(s) <= 12
    &&& 1 <= literal_day(s) <= days_in_month(literal_year(s), literal_month(s))
    &&& literal_hour(s) <= 23
    &&& literal_minute(s) <= 59
}

pub open spec fn spec_parse_time_literal(s: Seq<char>) -> Option<NaiveDateTime> {
    if valid_time_literal(s) {
        Some(
            NaiveDateTime {
                year: literal_year(s) as u16,
                month: literal_month(s) as u8,
                day: literal_day(s) as u8,
                hour: literal_hour(s) as u8,
                minute: literal_minute(s) as u8,
            },
        )
    } else {
        None
    }
}

/// Parses the fixed `YYYY-MM-DDTHH:MM` local-time literal; rejects anything
/// of another shape and any fields that name no real wall-clock moment.
pub fn parse_time_literal(s: &str) -> (r: Option<NaiveDateTime>)
    ensures
        r == spec_parse_time_literal(s@),
        r matches Some(dt) ==> dt.valid(),
{
    if s.unicode_len() != 16 {
        return None;
    }
    let d0 = parse_digit(s.get_char(0));
    let d1 = parse_digit(s.get_char(1));
    let d2 = parse_digit(s.get_char(2));
    let d3 = parse_digit(s.get_char(3));
    let m0 = parse_digit(s.get_char(5));
    let m1 = parse_digit(s.get_char(6));
    let day0 = parse_digit(s.get_char(8));
    let day1 = parse_digit(s.get_char(9));
    let h0 = parse_digit(s.get_char(11));
    let h1 = parse_digit(s.get_char(12));
    let min0 = parse_digit(s.get_char(14));
    let min1 = parse_digit(s.get_char(15));
    if s.get_char(4) != '-' || s.get_char(7) != '-' || s.get_char(10) != 'T' || s.get_char(13)
        != ':' {
        return None;
    }
    match (d0, d1, d2, d3, m0, m1, day0, day1, h0, h1, min0, min1) {
        (
            Some(d0),
            Some(d1),
            Some(d2),
            Some(d3),
            Some(m0),
            Some(m1),
            Some(day0),
            Some(day1),
            Some(h0),
            Some(h1),
            Some(min0),
            Some(min1),
        ) => {
            let year: u16 = 1000 * (d0 as u16) + 100 * (d1 as u16) + 10 * (d2 as u16) + (d3 as u16);
            let month: u8 = 10 * m0 + m1;
            let day: u8 = 10 * day0 + day1;
            let hour: u8 = 10 * h0 + h1;
            let minute: u8 = 10 * min0 + min1;
            if month < 1 || month > 12 {
                return None;
            }
            if day < 1 || day > month_length(year, month) {
                return None;
            }
            if hour > 23 {
                return None;
            }
            if minute > 59 {
                return None;
            }
            Some(NaiveDateTime { year, month, day, hour, minute })
        },
        _ => None,
    }
}

} // verus!
