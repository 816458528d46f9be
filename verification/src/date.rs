//! Calendar dates as plain year / month / day numbers, with a strict
//! `YYYY-MM-DD` rendering: parsing validates the shape and the calendar,
//! and formatting reproduces the parsed text exactly.

use vstd::prelude::*;
use vstd::string::StrSliceExecFns;
use vstd::string::StringExecFns;
use crate::error::ValidationError;

verus! {

/// A calendar date held as plain numbers.
#[derive(Debug, Clone, Copy, PartialEq, Eq, Structural)]
pub struct Date {
    pub year: u32,
    pub month: u32,
    pub day: u32,
}

pub open spec fn is_leap_year(y: int) -> bool {
    (y % 4 == 0 && y % 100 != 0) || y % 400 == 0
}

pub open spec fn days_in_month(y: int, m: int) -> int {
    if m == 2 {
        if is_leap_year(y) {
            29
        } else {
            28
        }
    } else if m == 4 || m == 6 || m == 9 || m == 11 {
        30
    } else {
        31
    }
}

impl Date {
    /// A valid Gregorian date with a four-digit year.
    pub open spec fn valid(self) -> bool {
        &&& self.year <= 9999
        &&& 1 <= self.month <= 12
        &&& 1 <= self.day <= days_in_month(self.year as int, self.month as int)
    }
}

pub open spec fn is_digit(c: char) -> bool {
    48 <= c as int && c as int <= 57
}

pub open spec fn digit_val(c: char) -> int {
    c as int - 48
}

pub open spec fn digit_char(d: int) -> char {
    if d == 0 {
        '0'
    } else if d == 1 {
        '1'
    } else if d == 2 {
        '2'
    } else if d == 3 {
        '3'
    } else if d == 4 {
        '4'
    } else if d == 5 {
        '5'
    } else if d == 6 {
        '6'
    } else if d == 7 {
        '7'
    } else if d == 8 {
        '8'
    } else {
        '9'
    }
}

/// The ten-character `YYYY-MM-DD` rendering of (y, m, d).
pub open spec fn date_seq(y: int, m: int, d: int) -> Seq<char> {
    seq![
        digit_char(y / 1000 % 10),
        digit_char(y / 100 % 10),
        digit_char(y / 10 % 10),
        digit_char(y % 10),
        '-',
        digit_char(m / 10 % 10),
        digit_char(m % 10),
        '-',
        digit_char(d / 10 % 10),
        digit_char(d % 10),
    ]
}

pub open spec fn spec_year_of(s: Seq<char>) -> int {
    digit_val(s[0]) * 1000 + digit_val(s[1]) * 100 + digit_val(s[2]) * 10 + digit_val(s[3])
}

pub open spec fn spec_month_of(s: Seq<char>) -> int {
    digit_val(s[5]) * 10 + digit_val(s[6])
}

pub open spec fn spec_day_of(s: Seq<char>) -> int {
    digit_val(s[8]) * 10 + digit_val(s[9])
}

pub open spec fn spec_date_of(s: Seq<char>) -> Date {
    Date {
        year: spec_year_of(s) as u32,
        month: spec_month_of(s) as u32,
        day: spec_day_of(s) as u32,
    }
}

/// `s` is a strict ten-character `YYYY-MM-DD` rendering of a valid date.
pub open spec fn valid_date_seq(s: Seq<char>) -> bool {
    &&& s.len() == 10
    &&& is_digit(s[0])
    &&& is_digit(s[1])
    &&& is_digit(s[2])
    &&& is_digit(s[3])
    &&& s[4] == '-'
    &&& is_digit(s[5])
    &&& is_digit(s[6])
    &&& s[7] == '-'
    &&& is_digit(s[8])
    &&& is_digit(s[9])
    &&& spec_date_of(s).valid()
}

proof fn lemma_digit_char_val(c: char)
    requires
        is_digit(c),
    ensures
        digit_char(digit_val(c)) == c,
{
}

proof fn lemma_place_values_4(a: int, b: int, c: int, d: int)
    requires
        0 <= a < 10,
        0 <= b < 10,
        0 <= c < 10,
        0 <= d < 10,
    ensures
        (a * 1000 + b * 100 + c * 10 + d) / 1000 % 10 == a,
        (a * 1000 + b * 100 + c * 10 + d) / 100 % 10 == b,
        (a * 1000 + b * 100 + c * 10 + d) / 10 % 10 == c,
        (a * 1000 + b * 100 + c * 10 + d) % 10 == d,
{
    let n = a * 1000 + b * 100 + c * 10 + d;
    vstd::arithmetic::div_mod::lemma_fundamental_div_mod_converse(
        n, 1000, a, b * 100 + c * 10 + d);
    vstd::arithmetic::div_mod::lemma_fundamental_div_mod_converse(a, 10, 0, a);
    vstd::arithmetic::div_mod::lemma_fundamental_div_mod_converse(
        n, 100, a * 10 + b, c * 10 + d);
    vstd::arithmetic::div_mod::lemma_fundamental_div_mod_converse(a * 10 + b, 10, a, b);
    vstd::arithmetic::div_mod::lemma_fundamental_div_mod_converse(
        n, 10, a * 100 + b * 10 + c, d);
    vstd::arithmetic::div_mod::lemma_fundamental_div_mod_converse(
        a * 100 + b * 10 + c, 10, a * 10 + b, c);
}

proof fn lemma_place_values_2(a: int, b: int)
    requires
        0 <= a < 10,
        0 <= b < 10,
    ensures
        (a * 10 + b) / 10 % 10 == a,
        (a * 10 + b) % 10 == b,
{
}

/// Rendering the date parsed from a strict `YYYY-MM-DD` text gives back that
/// exact text.
pub proof fn lemma_date_seq_round_trip(s: Seq<char>)
    requires
        valid_date_seq(s),
    ensures
        date_seq(spec_year_of(s), spec_month_of(s), spec_day_of(s)) == s,
{
    lemma_place_values_4(digit_val(s[0]), digit_val(s[1]), digit_val(s[2]), digit_val(s[3]));
    lemma_place_values_2(digit_val(s[5]), digit_val(s[6]));
    lemma_place_values_2(digit_val(s[8]), digit_val(s[9]));
    lemma_digit_char_val(s[0]);
    lemma_digit_char_val(s[1]);
    lemma_digit_char_val(s[2]);
    lemma_digit_char_val(s[3]);
    lemma_digit_char_val(s[5]);
    lemma_digit_char_val(s[6]);
    lemma_digit_char_val(s[8]);
    lemma_digit_char_val(s[9]);
    assert(date_seq(spec_year_of(s), spec_month_of(s), spec_day_of(s)) =~= s);
}

fn is_leap_year_exec(y: u32) -> (r: bool)
    ensures
        r == is_leap_year(y as int),
{
    (y % 4 == 0 && y % 100 != 0) || y % 400 == 0
}

pub fn days_in_month_exec(y: u32, m: u32) -> (r: u32)
    ensures
        r as int == days_in_month(y as int, m as int),
{
    if m == 2 {
        if is_leap_year_exec(y) {
            29
        } else {
            28
        }
    } else if m == 4 || m == 6 || m == 9 || m == 11 {
        30
    } else {
        31
    }
}

/// The digit value of `c`, or `None` when `c` is not an ASCII digit.
fn digit_of(c: char) -> (r: Option<u32>)
    ensures
        r is Some <==> is_digit(c),
        r matches Some(d) ==> d < 10 && d as int == digit_val(c),
{
    let u = c as u32;
    if 48 <= u && u <= 57 {
        Some(u - 48)
    } else {
        None
    }
}

fn refusal(s: &str, reason: &str) -> (e: ValidationError)
    ensures
        e.input@ == s@,
        e.reason@ == reason@,
{
    ValidationError { input: s.to_owned(), reason: reason.to_owned() }
}

/// Parse a strict `YYYY-MM-DD` date. Succeeds exactly on ten-character
/// digit-dash-digit renderings of valid calendar dates.
pub fn parse_date(s: &str) -> (r: Result<Date, ValidationError>)
    ensures
        r is Ok <==> valid_date_seq(s@),
        r matches Ok(d) ==> d == spec_date_of(s@) && d.valid(),
        r matches Err(e) ==> e.input@ == s@,
{
    let len = s.unicode_len();
    if len != 10 {
        return Err(refusal(s, "expected exactly ten characters, YYYY-MM-DD"));
    }
    if s.get_char(4) != '-' || s.get_char(7) != '-' {
        return Err(refusal(s, "expected '-' separators at positions 5 and 8"));
    }
    let y0 = digit_of(s.get_char(0));
    let y1 = digit_of(s.get_char(1));
    let y2 = digit_of(s.get_char(2));
    let y3 = digit_of(s.get_char(3));
    let m0 = digit_of(s.get_char(5));
    let m1 = digit_of(s.get_char(6));
    let d0 = digit_of(s.get_char(8));
    let d1 = digit_of(s.get_char(9));
    match (y0, y1, y2, y3, m0, m1, d0, d1) {
        (Some(a), Some(b), Some(c), Some(d), Some(e), Some(f), Some(g), Some(h)) => {
            let year = a * 1000 + b * 100 + c * 10 + d;
            let month = e * 10 + f;
            let day = g * 10 + h;
            if month < 1 || month > 12 {
                return Err(refusal(s, "month out of range 01-12"));
            }
            if day < 1 || day > days_in_month_exec(year, month) {
                return Err(refusal(s, "day out of range for the month"));
            }
            Ok(Date { year, month, day })
        },
        _ => Err(refusal(s, "expected decimal digits in the year, month and day")),
    }
}

fn push_digit(out: &mut String, d: u32)
    requires
        d < 10,
    ensures
        final(out)@ == old(out)@ + seq![digit_char(d as int)],
{
    proof {
        reveal_strlit("0");
        reveal_strlit("1");
        reveal_strlit("2");
        reveal_strlit("3");
        reveal_strlit("4");
        reveal_strlit("5");
        reveal_strlit("6");
        reveal_strlit("7");
        reveal_strlit("8");
        reveal_strlit("9");
    }
    if d == 0 {
        out.append("0");
    } else if d == 1 {
        out.append("1");
    } else if d == 2 {
        out.append("2");
    } else if d == 3 {
        out.append("3");
    } else if d == 4 {
        out.append("4");
    } else if d == 5 {
        out.append("5");
    } else if d == 6 {
        out.append("6");
    } else if d == 7 {
        out.append("7");
    } else if d == 8 {
        out.append("8");
    } else {
        out.append("9");
    }
    assert(out@ =~= old(out)@ + seq![digit_char(d as int)]);
}

impl Date {
    /// Render this date as its strict ten-character `YYYY-MM-DD` text.
    pub fn to_iso_string(&self) -> (r: String)
        requires
            self.valid(),
        ensures
            r@ == date_seq(self.year as int, self.month as int, self.day as int),
    {
        proof {
            reveal_strlit("-");
        }
        let mut out = String::new();
        push_digit(&mut out, self.year / 1000 % 10);
        push_digit(&mut out, self.year / 100 % 10);
        push_digit(&mut out, self.year / 10 % 10);
        push_digit(&mut out, self.year % 10);
        out.append("-");
        push_digit(&mut out, self.month / 10 % 10);
        push_digit(&mut out, self.month % 10);
        out.append("-");
        push_digit(&mut out, self.day / 10 % 10);
        push_digit(&mut out, self.day % 10);
        assert(out@ =~= date_seq(self.year as int, self.month as int, self.day as int));
        out
    }
}

} // verus!
