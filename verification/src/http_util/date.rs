//! The date of an HTTP header, in the fixed form that HTTP prefers:
//! `Sun, 06 Nov 1994 08:49:37 GMT`.

use vstd::prelude::*;

use crate::http_util::number::all_digits;
use crate::http_util::number::digit_value;
use crate::http_util::number::digits_value;
use crate::http_util::number::is_digit;
use crate::text::chars_of;

verus! {

/// Whether `year` has a 29th of February.
pub open spec fn is_leap_year(year: int) -> bool {
    year % 4 == 0 && (year % 100 != 0 || year % 400 == 0)
}

/// The number of days of a month.
pub open spec fn days_in_month(year: int, month: int) -> int
    recommends
        1 <= month <= 12,
{
    if month == 2 {
        if is_leap_year(year) {
            29
        } else {
            28
        }
    } else if month == 4 || month == 6 || month == 9 || month == 11 {
        30
    } else {
        31
    }
}

/// The number of days of a year that lie before its month `month`.
pub open spec fn days_before_month(year: int, month: int) -> int
    recommends
        1 <= month <= 12,
    decreases month,
{
    if month <= 1 {
        0
    } else {
        days_before_month(year, month - 1) + days_in_month(year, month - 1)
    }
}

/// The number of days from the first day of the year 0 to the first day of
/// `year`: 365 for each year, and one more for each leap year among them.
pub open spec fn days_before_year(year: int) -> int
    recommends
        year >= 0,
{
    year * 365 + (year + 3) / 4 - (year + 99) / 100 + (year + 399) / 400
}

/// The number of days from the first of January 1970 to a day.
pub open spec fn days_since_epoch(year: int, month: int, day: int) -> int {
    days_before_year(year) + days_before_month(year, month) + (day - 1) - days_before_year(1970)
}

/// A point in time, as plain values. All are in UTC.
pub struct DateTime {
    pub year: int,
    pub month: int,
    pub day: int,
    pub hour: int,
    pub minute: int,
    pub second: int,
}

/// Whether the fields name a point in time: a day that the month has, and a
/// time of day. A leap second is none.
pub open spec fn is_date_time(t: DateTime) -> bool {
    &&& 0 <= t.year <= 9999
    &&& 1 <= t.month <= 12
    &&& 1 <= t.day <= days_in_month(t.year, t.month)
    &&& 0 <= t.hour < 24
    &&& 0 <= t.minute < 60
    &&& 0 <= t.second < 60
}

/// The seconds from the start of 1970 to a point in time.
pub open spec fn unix_seconds(t: DateTime) -> int {
    days_since_epoch(t.year, t.month, t.day) * 86400 + t.hour * 3600 + t.minute * 60 + t.second
}

/// The number of the month that three letters name.
pub open spec fn month_named(a: char, b: char, c: char) -> Option<int> {
    if a == 'J' && b == 'a' && c == 'n' {
        Some(1)
    } else if a == 'F' && b == 'e' && c == 'b' {
        Some(2)
    } else if a == 'M' && b == 'a' && c == 'r' {
        Some(3)
    } else if a == 'A' && b == 'p' && c == 'r' {
        Some(4)
    } else if a == 'M' && b == 'a' && c == 'y' {
        Some(5)
    } else if a == 'J' && b == 'u' && c == 'n' {
        Some(6)
    } else if a == 'J' && b == 'u' && c == 'l' {
        Some(7)
    } else if a == 'A' && b == 'u' && c == 'g' {
        Some(8)
    } else if a == 'S' && b == 'e' && c == 'p' {
        Some(9)
    } else if a == 'O' && b == 'c' && c == 't' {
        Some(10)
    } else if a == 'N' && b == 'o' && c == 'v' {
        Some(11)
    } else if a == 'D' && b == 'e' && c == 'c' {
        Some(12)
    } else {
        None
    }
}

/// Whether three letters name a day of the week.
pub open spec fn is_day_name(a: char, b: char, c: char) -> bool {
    (a == 'M' && b == 'o' && c == 'n') || (a == 'T' && b == 'u' && c == 'e') || (a == 'W' && b
        == 'e' && c == 'd') || (a == 'T' && b == 'h' && c == 'u') || (a == 'F' && b == 'r' && c
        == 'i') || (a == 'S' && b == 'a' && c == 't') || (a == 'S' && b == 'u' && c == 'n')
}

/// Whether `s` has the shape of a date: 29 characters, with the name of a
/// day, the name of a month, digits, and `GMT` where they belong.
pub open spec fn is_date_shaped(s: Seq<char>) -> bool {
    &&& s.len() == 29
    &&& is_day_name(s[0], s[1], s[2])
    &&& s[3] == ',' && s[4] == ' '
    &&& all_digits(s.subrange(5, 7))
    &&& s[7] == ' '
    &&& month_named(s[8], s[9], s[10]) is Some
    &&& s[11] == ' '
    &&& all_digits(s.subrange(12, 16))
    &&& s[16] == ' '
    &&& all_digits(s.subrange(17, 19))
    &&& s[19] == ':'
    &&& all_digits(s.subrange(20, 22))
    &&& s[22] == ':'
    &&& all_digits(s.subrange(23, 25))
    &&& s[25] == ' '
    &&& s[26] == 'G' && s[27] == 'M' && s[28] == 'T'
}

/// The fields that a text in the shape of a date spells.
pub open spec fn date_fields(s: Seq<char>) -> DateTime
    recommends
        is_date_shaped(s),
{
    DateTime {
        year: digits_value(s.subrange(12, 16)) as int,
        month: month_named(s[8], s[9], s[10])->Some_0,
        day: digits_value(s.subrange(5, 7)) as int,
        hour: digits_value(s.subrange(17, 19)) as int,
        minute: digits_value(s.subrange(20, 22)) as int,
        second: digits_value(s.subrange(23, 25)) as int,
    }
}

/// The seconds from the start of 1970 to the point in time that `s` names,
/// if `s` is a date such as `Sun, 06 Nov 1994 08:49:37 GMT`. Whether the day
/// of the week is the right one is not looked at.
pub open spec fn parsed_http_date(s: Seq<char>) -> Option<i64> {
    if is_date_shaped(s) && is_date_time(date_fields(s)) {
        Some(unix_seconds(date_fields(s)) as i64)
    } else {
        None
    }
}

/// The value of two digits.
proof fn lemma_two_digits(s: Seq<char>)
    requires
        s.len() == 2,
    ensures
        digits_value(s) == digit_value(s[0]) * 10 + digit_value(s[1]),
{
    reveal_with_fuel(digits_value, 3);
    assert(s.drop_last().drop_last().len() == 0);
    assert(s.drop_last().last() == s[0]);
}

/// The value of four digits.
proof fn lemma_four_digits(s: Seq<char>)
    requires
        s.len() == 4,
    ensures
        digits_value(s) == digit_value(s[0]) * 1000 + digit_value(s[1]) * 100 + digit_value(s[2])
            * 10 + digit_value(s[3]),
{
    reveal_with_fuel(digits_value, 5);
    let a = s.drop_last();
    let b = a.drop_last();
    let c = b.drop_last();
    assert(c.drop_last().len() == 0);
    assert(a.last() == s[2] && b.last() == s[1] && c.last() == s[0]);
}

/// The digit at `i`, if there is one.
fn digit_at(v: &Vec<char>, i: usize) -> (r: Option<u32>)
    requires
        i < v.len(),
    ensures
        r is Some == is_digit(v@[i as int]),
        r is Some ==> r->Some_0 == digit_value(v@[i as int]) && r->Some_0 <= 9,
{
    let c = v[i];
    if c >= '0' && c <= '9' {
        Some((c as u32) - ('0' as u32))
    } else {
        None
    }
}

/// The number that the two characters from `i` on spell, if they are digits.
fn two_digits_at(v: &Vec<char>, i: usize) -> (r: Option<u32>)
    requires
        i + 2 <= v.len(),
    ensures
        r is Some == all_digits(v@.subrange(i as int, i + 2)),
        r is Some ==> r->Some_0 == digits_value(v@.subrange(i as int, i + 2)) && r->Some_0 <= 99,
{
    let ghost s = v@.subrange(i as int, i + 2);
    proof {
        lemma_two_digits(s);
        assert(s[0] == v@[i as int] && s[1] == v@[i + 1]);
    }
    match (digit_at(v, i), digit_at(v, i + 1)) {
        (Some(a), Some(b)) => {
            assert(all_digits(s)) by {
                assert forall|k: int| 0 <= k < s.len() implies is_digit(#[trigger] s[k]) by {
                    assert(k == 0 || k == 1);
                }
            }
            Some(a * 10 + b)
        },
        _ => None,
    }
}

/// The number that the four characters from `i` on spell, if they are
/// digits.
fn four_digits_at(v: &Vec<char>, i: usize) -> (r: Option<u32>)
    requires
        i + 4 <= v.len(),
    ensures
        r is Some == all_digits(v@.subrange(i as int, i + 4)),
        r is Some ==> r->Some_0 == digits_value(v@.subrange(i as int, i + 4)) && r->Some_0
            <= 9999,
{
    let ghost s = v@.subrange(i as int, i + 4);
    proof {
        lemma_four_digits(s);
        assert(s[0] == v@[i as int] && s[1] == v@[i + 1] && s[2] == v@[i + 2] && s[3] == v@[i
            + 3]);
    }
    match (digit_at(v, i), digit_at(v, i + 1), digit_at(v, i + 2), digit_at(v, i + 3)) {
        (Some(a), Some(b), Some(c), Some(d)) => {
            assert(all_digits(s)) by {
                assert forall|k: int| 0 <= k < s.len() implies is_digit(#[trigger] s[k]) by {
                    assert(k == 0 || k == 1 || k == 2 || k == 3);
                }
            }
            Some(a * 1000 + b * 100 + c * 10 + d)
        },
        _ => None,
    }
}

fn month_of(a: char, b: char, c: char) -> (r: Option<u32>)
    ensures
        r is Some == month_named(a, b, c) is Some,
        r is Some ==> r->Some_0 == month_named(a, b, c)->Some_0 && 1 <= r->Some_0 <= 12,
{
    if a == 'J' && b == 'a' && c == 'n' {
        Some(1)
    } else if a == 'F' && b == 'e' && c == 'b' {
        Some(2)
    } else if a == 'M' && b == 'a' && c == 'r' {
        Some(3)
    } else if a == 'A' && b == 'p' && c == 'r' {
        Some(4)
    } else if a == 'M' && b == 'a' && c == 'y' {
        Some(5)
    } else if a == 'J' && b == 'u' && c == 'n' {
        Some(6)
    } else if a == 'J' && b == 'u' && c == 'l' {
        Some(7)
    } else if a == 'A' && b == 'u' && c == 'g' {
        Some(8)
    } else if a == 'S' && b == 'e' && c == 'p' {
        Some(9)
    } else if a == 'O' && b == 'c' && c == 't' {
        Some(10)
    } else if a == 'N' && b == 'o' && c == 'v' {
        Some(11)
    } else if a == 'D' && b == 'e' && c == 'c' {
        Some(12)
    } else {
        None
    }
}

fn day_named(a: char, b: char, c: char) -> (r: bool)
    ensures
        r == is_day_name(a, b, c),
{
    (a == 'M' && b == 'o' && c == 'n') || (a == 'T' && b == 'u' && c == 'e') || (a == 'W' && b
        == 'e' && c == 'd') || (a == 'T' && b == 'h' && c == 'u') || (a == 'F' && b == 'r' && c
        == 'i') || (a == 'S' && b == 'a' && c == 't') || (a == 'S' && b == 'u' && c == 'n')
}

fn leap_year(year: u32) -> (r: bool)
    ensures
        r == is_leap_year(year as int),
{
    year % 4 == 0 && (year % 100 != 0 || year % 400 == 0)
}

fn month_length(year: u32, month: u32) -> (n: u32)
    requires
        1 <= month <= 12,
    ensures
        n == days_in_month(year as int, month as int),
{
    if month == 2 {
        if leap_year(year) {
            29
        } else {
            28
        }
    } else if month == 4 || month == 6 || month == 9 || month == 11 {
        30
    } else {
        31
    }
}

fn month_start(year: u32, month: u32) -> (n: u32)
    requires
        1 <= month <= 12,
    ensures
        n == days_before_month(year as int, month as int),
        n <= 335,
{
    proof {
        reveal_with_fuel(days_before_month, 13);
    }
    let common: u32 = if month == 1 {
        0
    } else if month == 2 {
        31
    } else if month == 3 {
        59
    } else if month == 4 {
        90
    } else if month == 5 {
        120
    } else if month == 6 {
        151
    } else if month == 7 {
        181
    } else if month == 8 {
        212
    } else if month == 9 {
        243
    } else if month == 10 {
        273
    } else if month == 11 {
        304
    } else {
        334
    };
    if month > 2 && leap_year(year) {
        common + 1
    } else {
        common
    }
}

/// Parses a date in the fixed form of HTTP to the seconds since the start
/// of 1970.
pub fn parse_http_date(s: &str) -> (r: Option<i64>)
    ensures
        r == parsed_http_date(s@),
{
    let v = chars_of(s);
    if v.len() != 29 {
        return None;
    }
    if !day_named(v[0], v[1], v[2]) || v[3] != ',' || v[4] != ' ' || v[7] != ' ' || v[11] != ' '
        || v[16] != ' ' || v[19] != ':' || v[22] != ':' || v[25] != ' ' || v[26] != 'G' || v[27]
        != 'M' || v[28] != 'T' {
        return None;
    }
    let day = match two_digits_at(&v, 5) {
        Some(n) => n,
        None => {
            return None;
        },
    };
    let month = match month_of(v[8], v[9], v[10]) {
        Some(n) => n,
        None => {
            return None;
        },
    };
    let year = match four_digits_at(&v, 12) {
        Some(n) => n,
        None => {
            return None;
        },
    };
    let hour = match two_digits_at(&v, 17) {
        Some(n) => n,
        None => {
            return None;
        },
    };
    let minute = match two_digits_at(&v, 20) {
        Some(n) => n,
        None => {
            return None;
        },
    };
    let second = match two_digits_at(&v, 23) {
        Some(n) => n,
        None => {
            return None;
        },
    };
    assert(is_date_shaped(s@));
    if day < 1 || day > month_length(year, month) || hour >= 24 || minute >= 60 || second >= 60 {
        return None;
    }
    let days_to_year: i64 = (year as i64) * 365 + ((year as i64) + 3) / 4 - ((year as i64) + 99)
        / 100 + ((year as i64) + 399) / 400;
    let days: i64 = days_to_year + (month_start(year, month) as i64) + ((day as i64) - 1) - 719528;
    assert(days_before_year(1970) == 719528);
    assert(days == days_since_epoch(year as int, month as int, day as int));
    Some(days * 86400 + (hour as i64) * 3600 + (minute as i64) * 60 + (second as i64))
}

} // verus!
