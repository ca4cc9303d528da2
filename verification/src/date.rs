//! Date-time literal syntax.
//!
//! A lexeme is a date-time literal when the whole slice matches one of three
//! accepted formats, tried in this order: `YYYY-MM-DD HH:MM am/pm` (12-hour
//! clock, lowercase meridiem), the same with an uppercase `AM/PM`, and
//! `YYYY-MM-DD HH:MM` (24-hour clock). All fields are zero-padded, the
//! calendar date must exist (leap years included), and the literal is
//! interpreted in the process's local time zone: its UTC offset at that
//! moment — looked up through chrono — completes the value.

use vstd::prelude::*;
use crate::numeric::is_digit;

verus! {

/// The calendar fields of a date-time literal, precise to the minute.
#[derive(Clone, Copy, Debug, PartialEq, Eq, Structural)]
pub struct DateParts {
    pub year: u16,
    pub month: u8,
    pub day: u8,
    pub hour: u8,
    pub minute: u8,
}

/// A date-time literal's value: calendar fields together with the local
/// time zone's UTC offset at that moment, in seconds.
#[derive(Clone, Copy, Debug, PartialEq, Eq, Structural)]
pub struct DateTime {
    pub parts: DateParts,
    pub offset_seconds: i32,
}

/// The numeric value of a decimal digit character.
pub open spec fn digit_val(c: char) -> int {
    (c as u32) - ('0' as u32)
}

/// The value of the two-digit field at positions `i`, `i + 1`.
pub open spec fn num2(s: Seq<char>, i: int) -> int {
    digit_val(s[i]) * 10 + digit_val(s[i + 1])
}

/// The common prefix of every accepted format: a four-digit year, `-`, a
/// two-digit month, `-`, a two-digit day, a space, a two-digit hour, `:`,
/// and a two-digit minute.
pub open spec fn skeleton16(s: Seq<char>) -> bool {
    &&& s.len() >= 16
    &&& is_digit(s[0]) && is_digit(s[1]) && is_digit(s[2]) && is_digit(s[3])
    &&& s[4] == '-'
    &&& is_digit(s[5]) && is_digit(s[6])
    &&& s[7] == '-'
    &&& is_digit(s[8]) && is_digit(s[9])
    &&& s[10] == ' '
    &&& is_digit(s[11]) && is_digit(s[12])
    &&& s[13] == ':'
    &&& is_digit(s[14]) && is_digit(s[15])
}

pub open spec fn year_of(s: Seq<char>) -> int {
    digit_val(s[0]) * 1000 + digit_val(s[1]) * 100 + digit_val(s[2]) * 10 + digit_val(s[3])
}

pub open spec fn month_of(s: Seq<char>) -> int {
    num2(s, 5)
}

pub open spec fn day_of(s: Seq<char>) -> int {
    num2(s, 8)
}

/// The hour field as written, before any 12-hour conversion.
pub open spec fn hour_field_of(s: Seq<char>) -> int {
    num2(s, 11)
}

pub open spec fn minute_of(s: Seq<char>) -> int {
    num2(s, 14)
}

pub open spec fn is_leap_year(y: int) -> bool {
    y % 4 == 0 && (y % 100 != 0 || y % 400 == 0)
}

pub open spec fn days_in_month(y: int, m: int) -> int {
    if m == 2 {
        if is_leap_year(y) {
            29
        } else {
            28
        }
    } else if m == 4 || m == 6 || m == 9 || m == 11 {
        30
    } else {
        31
    }
}

/// The written year, month and day name an existing calendar date.
pub open spec fn valid_ymd(s: Seq<char>) -> bool {
    &&& 1 <= month_of(s) <= 12
    &&& 1 <= day_of(s) <= days_in_month(year_of(s), month_of(s))
}

/// The whole slice matches the 24-hour format.
pub open spec fn matches_date24(s: Seq<char>) -> bool {
    &&& s.len() == 16
    &&& skeleton16(s)
    &&& valid_ymd(s)
    &&& hour_field_of(s) <= 23
    &&& minute_of(s) <= 59
}

/// The meridiem marker in the chosen case: `am`/`pm` or `AM`/`PM`.
pub open spec fn meridiem(s: Seq<char>, upper: bool) -> bool {
    if upper {
        (s[17] == 'A' || s[17] == 'P') && s[18] == 'M'
    } else {
        (s[17] == 'a' || s[17] == 'p') && s[18] == 'm'
    }
}

/// The whole slice matches the 12-hour format in the chosen meridiem case.
pub open spec fn matches_date12(s: Seq<char>, upper: bool) -> bool {
    &&& s.len() == 19
    &&& skeleton16(s)
    &&& s[16] == ' '
    &&& meridiem(s, upper)
    &&& valid_ymd(s)
    &&& 1 <= hour_field_of(s) <= 12
    &&& minute_of(s) <= 59
}

pub open spec fn is_pm(s: Seq<char>) -> bool {
    s[17] == 'p' || s[17] == 'P'
}

/// A 12-hour clock reading converted to the 24-hour clock.
pub open spec fn hour24_of(h: int, pm: bool) -> int {
    if pm {
        if h == 12 {
            12
        } else {
            h + 12
        }
    } else {
        if h == 12 {
            0
        } else {
            h
        }
    }
}

pub open spec fn parts_of(s: Seq<char>, hour: int) -> DateParts {
    DateParts {
        year: year_of(s) as u16,
        month: month_of(s) as u8,
        day: day_of(s) as u8,
        hour: hour as u8,
        minute: minute_of(s) as u8,
    }
}

/// The calendar fields a lexeme parses to, through the three accepted
/// formats in order: 12-hour lowercase, 12-hour uppercase, 24-hour.
pub open spec fn spec_date_parts(s: Seq<char>) -> Option<DateParts> {
    if matches_date12(s, false) {
        Some(parts_of(s, hour24_of(hour_field_of(s), is_pm(s))))
    } else if matches_date12(s, true) {
        Some(parts_of(s, hour24_of(hour_field_of(s), is_pm(s))))
    } else if matches_date24(s) {
        Some(parts_of(s, hour_field_of(s)))
    } else {
        None
    }
}

/// The digit value at position `i`, if position `i` holds a digit.
fn digit_at(s: &str, i: usize) -> (r: Option<u32>)
    requires
        (i as nat) < s@.len(),
    ensures
        match r {
            Some(v) => is_digit(s@[i as int]) && v == digit_val(s@[i as int]) && v <= 9,
            None => !is_digit(s@[i as int]),
        },
{
    let c = s.get_char(i);
    if c >= '0' && c <= '9' {
        Some(c as u32 - '0' as u32)
    } else {
        None
    }
}

/// Reads the shared sixteen-character prefix: on success, the year, month,
/// day, hour-field and minute values, in that order.
fn check_skeleton(s: &str) -> (r: Option<(u32, u32, u32, u32, u32)>)
    requires
        16 <= s@.len(),
    ensures
        match r {
            Some(v) => {
                &&& skeleton16(s@)
                &&& v.0 == year_of(s@) && v.0 <= 9999
                &&& v.1 == month_of(s@) && v.1 <= 99
                &&& v.2 == day_of(s@) && v.2 <= 99
                &&& v.3 == hour_field_of(s@) && v.3 <= 99
                &&& v.4 == minute_of(s@) && v.4 <= 99
            },
            None => !skeleton16(s@),
        },
{
    let y0 = match digit_at(s, 0) {
        Some(v) => v,
        None => return None,
    };
    let y1 = match digit_at(s, 1) {
        Some(v) => v,
        None => return None,
    };
    let y2 = match digit_at(s, 2) {
        Some(v) => v,
        None => return None,
    };
    let y3 = match digit_at(s, 3) {
        Some(v) => v,
        None => return None,
    };
    if s.get_char(4) != '-' {
        return None;
    }
    let mo0 = match digit_at(s, 5) {
        Some(v) => v,
        None => return None,
    };
    let mo1 = match digit_at(s, 6) {
        Some(v) => v,
        None => return None,
    };
    if s.get_char(7) != '-' {
        return None;
    }
    let d0 = match digit_at(s, 8) {
        Some(v) => v,
        None => return None,
    };
    let d1 = match digit_at(s, 9) {
        Some(v) => v,
        None => return None,
    };
    if s.get_char(10) != ' ' {
        return None;
    }
    let h0 = match digit_at(s, 11) {
        Some(v) => v,
        None => return None,
    };
    let h1 = match digit_at(s, 12) {
        Some(v) => v,
        None => return None,
    };
    if s.get_char(13) != ':' {
        return None;
    }
    let mi0 = match digit_at(s, 14) {
        Some(v) => v,
        None => return None,
    };
    let mi1 = match digit_at(s, 15) {
        Some(v) => v,
        None => return None,
    };
    Some((y0 * 1000 + y1 * 100 + y2 * 10 + y3, mo0 * 10 + mo1, d0 * 10 + d1, h0 * 10 + h1, mi0 * 10 + mi1))
}

fn is_leap_year_x(y: u32) -> (r: bool)
    ensures
        r == is_leap_year(y as int),
{
    y % 4 == 0 && (y % 100 != 0 || y % 400 == 0)
}

fn days_in_month_x(y: u32, m: u32) -> (r: u32)
    requires
        1 <= m <= 12,
    ensures
        r == days_in_month(y as int, m as int),
{
    if m == 2 {
        if is_leap_year_x(y) {
            29
        } else {
            28
        }
    } else if m == 4 || m == 6 || m == 9 || m == 11 {
        30
    } else {
        31
    }
}

/// Parses a whole lexeme through the three accepted formats in order,
/// per [`spec_date_parts`].
pub fn parse_date_parts(s: &str) -> (r: Option<DateParts>)
    ensures
        r == spec_date_parts(s@),
{
    let n = s.unicode_len();
    if n == 16 {
        match check_skeleton(s) {
            None => None,
            Some((y, mo, d, h, mi)) => {
                if 1 <= mo && mo <= 12 && 1 <= d && d <= days_in_month_x(y, mo) && h <= 23 && mi
                    <= 59 {
                    Some(
                        DateParts {
                            year: y as u16,
                            month: mo as u8,
                            day: d as u8,
                            hour: h as u8,
                            minute: mi as u8,
                        },
                    )
                } else {
                    None
                }
            },
        }
    } else if n == 19 {
        match check_skeleton(s) {
            None => None,
            Some((y, mo, d, h, mi)) => {
                let c16 = s.get_char(16);
                let c17 = s.get_char(17);
                let c18 = s.get_char(18);
                let lower_ok = c16 == ' ' && (c17 == 'a' || c17 == 'p') && c18 == 'm';
                let upper_ok = c16 == ' ' && (c17 == 'A' || c17 == 'P') && c18 == 'M';
                if (lower_ok || upper_ok) && 1 <= mo && mo <= 12 && 1 <= d && d <= days_in_month_x(
                    y,
                    mo,
                ) && 1 <= h && h <= 12 && mi <= 59 {
                    let pm = c17 == 'p' || c17 == 'P';
                    let h24: u32 = if pm {
                        if h == 12 {
                            12
                        } else {
                            h + 12
                        }
                    } else {
                        if h == 12 {
                            0
                        } else {
                            h
                        }
                    };
                    Some(
                        DateParts {
                            year: y as u16,
                            month: mo as u8,
                            day: d as u8,
                            hour: h24 as u8,
                            minute: mi as u8,
                        },
                    )
                } else {
                    None
                }
            },
        }
    } else {
        None
    }
}

/// Relies on chrono: `NaiveDate::from_ymd_opt` and `NaiveDate::and_hms_opt`
/// build the named local calendar time, and `offset_from_local_datetime` on
/// `Local`, with `MappedLocalTime::single` and
/// `FixedOffset::local_minus_utc`, yield the UTC offset the machine's local
/// time zone gives that moment, when it gives exactly one. chrono keeps every
/// `FixedOffset` strictly within one day of UTC. The result depends on the
/// machine's time zone, so nothing more is promised of it.
#[verifier::external_body]
pub(crate) fn local_offset_seconds(year: u16, month: u8, day: u8, hour: u8, minute: u8) -> (r: Option<
    i32,
>)
    ensures
        r is Some ==> -86400 < r.unwrap() < 86400,
{
    let date = match chrono::NaiveDate::from_ymd_opt(year as i32, month as u32, day as u32) {
        Some(d) => d,
        None => return None,
    };
    let at = match date.and_hms_opt(hour as u32, minute as u32, 0) {
        Some(t) => t,
        None => return None,
    };
    match chrono::TimeZone::offset_from_local_datetime(&chrono::Local, &at).single() {
        Some(off) => Some(off.local_minus_utc()),
        None => None,
    }
}

} // verus!
