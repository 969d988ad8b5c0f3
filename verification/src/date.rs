//! The calendar model: dates as plain year, month and day values, the
//! validity rules of the Gregorian calendar, and the meaning of a `DDMMYY`
//! digit string.

use vstd::prelude::*;
use crate::digits::{all_digits, digit_val};

verus! {

/// A calendar date held as plain year, month and day values.
#[derive(Clone, Copy, Debug, PartialEq, Eq, Structural)]
pub struct Date {
    pub year: u16,
    pub month: u8,
    pub day: u8,
}

pub open spec fn is_leap_year(y: int) -> bool {
    (y % 4 == 0 && y % 100 != 0) || y % 400 == 0
}

pub open spec fn days_in_month(y: int, m: int) -> int {
    if m == 2 {
        if is_leap_year(y) {
            29
        } else {
            28
        }
    } else if m == 4 || m == 6 || m == 9 || m == 11 {
        30
    } else {
        31
    }
}

/// True when year `y`, month `m`, day `d` name a real calendar date.
pub open spec fn valid_ymd(y: int, m: int, d: int) -> bool {
    &&& 1 <= m <= 12
    &&& 1 <= d <= days_in_month(y, m)
}

impl Date {
    /// A well-formed date names a real day of the calendar.
    pub open spec fn wf(self) -> bool {
        valid_ymd(self.year as int, self.month as int, self.day as int)
    }
}

/// Day part of a six-digit `DDMMYY` string.
pub open spec fn date_dd(s: Seq<char>) -> int {
    digit_val(s[0]) * 10 + digit_val(s[1])
}

/// Month part of a six-digit `DDMMYY` string.
pub open spec fn date_mm(s: Seq<char>) -> int {
    digit_val(s[2]) * 10 + digit_val(s[3])
}

/// Two-digit year part of a six-digit `DDMMYY` string.
pub open spec fn date_yy(s: Seq<char>) -> int {
    digit_val(s[4]) * 10 + digit_val(s[5])
}

/// The century rule for two-digit years: 69 to 99 lie in the 1900s, 00 to 68
/// in the 2000s.
pub open spec fn full_year(yy: int) -> int {
    if yy >= 69 {
        1900 + yy
    } else {
        2000 + yy
    }
}

/// True when `s` is exactly six digits naming a real calendar date `DDMMYY`.
pub open spec fn spec_date_ok(s: Seq<char>) -> bool {
    &&& s.len() == 6
    &&& all_digits(s)
    &&& valid_ymd(full_year(date_yy(s)), date_mm(s), date_dd(s))
}

/// The date a valid `DDMMYY` string names.
pub open spec fn spec_date_of(s: Seq<char>) -> Date {
    Date {
        year: full_year(date_yy(s)) as u16,
        month: date_mm(s) as u8,
        day: date_dd(s) as u8,
    }
}

} // verus!
