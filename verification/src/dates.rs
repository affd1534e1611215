//! The release-date rules: the textual year-month-day pattern checked while
//! decoding, and real calendar validity checked by the validator.

use vstd::prelude::*;
use crate::strutil::is_digit;

verus! {

/// The textual pattern `DDDD-DD-DD`: four digits, dash, two digits, dash,
/// two digits.
pub open spec fn date_pattern_ok(s: Seq<char>) -> bool {
    &&& s.len() == 10
    &&& is_digit(s[0]) && is_digit(s[1]) && is_digit(s[2]) && is_digit(s[3])
    &&& s[4] == '-'
    &&& is_digit(s[5]) && is_digit(s[6])
    &&& s[7] == '-'
    &&& is_digit(s[8]) && is_digit(s[9])
}

/// The numeric value of a decimal digit.
pub open spec fn digit_val(c: char) -> int
    recommends
        is_digit(c),
{
    c as int - '0' as int
}

/// The year encoded at positions 0..4 of a pattern-valid date text.
pub open spec fn spec_year(s: Seq<char>) -> int {
    digit_val(s[0]) * 1000 + digit_val(s[1]) * 100 + digit_val(s[2]) * 10 + digit_val(s[3])
}

/// The month encoded at positions 5..7.
pub open spec fn spec_month(s: Seq<char>) -> int {
    digit_val(s[5]) * 10 + digit_val(s[6])
}

/// The day encoded at positions 8..10.
pub open spec fn spec_day(s: Seq<char>) -> int {
    digit_val(s[8]) * 10 + digit_val(s[9])
}

/// Gregorian leap-year rule.
pub open spec fn is_leap_year(y: int) -> bool {
    y % 4 == 0 && (y % 100 != 0 || y % 400 == 0)
}

/// How many days the given month of the given year has.
pub open spec fn days_in_month(y: int, m: int) -> int
    recommends
        1 <= m <= 12,
{
    if m == 2 {
        if is_leap_year(y) {
            29
        } else {
            28
        }
    } else if m == 4 || m == 6 || m == 9 || m == 11 {
        30
    } else {
        31
    }
}

/// A real calendar date: the text matches the pattern and the encoded month
/// and day exist in the encoded year.
pub open spec fn date_valid(s: Seq<char>) -> bool {
    &&& date_pattern_ok(s)
    &&& 1 <= spec_month(s) <= 12
    &&& 1 <= spec_day(s) <= days_in_month(spec_year(s), spec_month(s))
}

/// Run-time digit test, matching `is_digit`.
pub fn is_digit_exec(c: char) -> (r: bool)
    ensures
        r == is_digit(c),
{
    '0' <= c && c <= '9'
}

/// Run-time value of a decimal digit, matching `digit_val`.
pub fn digit_val_exec(c: char) -> (r: u32)
    requires
        is_digit(c),
    ensures
        r == digit_val(c),
{
    c as u32 - '0' as u32
}

/// Checks the textual year-month-day pattern.
pub fn check_date_pattern(s: &str) -> (r: bool)
    ensures
        r == date_pattern_ok(s@),
{
    if s.unicode_len() != 10 {
        return false;
    }
    let mut i: usize = 0;
    while i < 10
        invariant
            s@.len() == 10,
            i <= 10,
            forall|j: int| 0 <= j < i ==> if j == 4 || j == 7 {
                s@[j] == '-'
            } else {
                is_digit(s@[j])
            },
        decreases 10 - i,
    {
        let c = s.get_char(i);
        if i == 4 || i == 7 {
            if c != '-' {
                return false;
            }
        } else {
            if !is_digit_exec(c) {
                return false;
            }
        }
        i += 1;
    }
    true
}

/// Checks real calendar validity of a date text.
pub fn check_date_valid(s: &str) -> (r: bool)
    ensures
        r == date_valid(s@),
{
    if !check_date_pattern(s) {
        return false;
    }
    let y: u32 = digit_val_exec(s.get_char(0)) * 1000 + digit_val_exec(s.get_char(1)) * 100
        + digit_val_exec(s.get_char(2)) * 10 + digit_val_exec(s.get_char(3));
    let m: u32 = digit_val_exec(s.get_char(5)) * 10 + digit_val_exec(s.get_char(6));
    let d: u32 = digit_val_exec(s.get_char(8)) * 10 + digit_val_exec(s.get_char(9));
    proof {
        assert(y == spec_year(s@));
        assert(m == spec_month(s@));
        assert(d == spec_day(s@));
    }
    if m < 1 || m > 12 {
        return false;
    }
    let max_day: u32 = if m == 2 {
        let leap = y % 4 == 0 && (y % 100 != 0 || y % 400 == 0);
        if leap {
            29
        } else {
            28
        }
    } else if m == 4 || m == 6 || m == 9 || m == 11 {
        30
    } else {
        31
    };
    proof {
        assert(max_day == days_in_month(spec_year(s@), spec_month(s@)));
    }
    1 <= d && d <= max_day
}

} // verus!
