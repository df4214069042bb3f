//! The timesheet's notion of a point in time: a broken-down UTC calendar
//! timestamp, its fixed textual form (`Mon, 01 Jan 2018 09:00:00 UTC`),
//! and its distance in seconds from the Unix epoch.

use vstd::prelude::*;

use crate::text::{
    char_digit, digit_char, digit_str, four_digit_chars, four_digit_str,
    lemma_digit_char_roundtrip, two_digit_chars, two_digit_str,
};

verus! {

/// A broken-down UTC calendar timestamp. The weekday is carried textually,
/// as the log format does, and is not checked against the date.
#[derive(Clone, Copy, Debug, PartialEq, Eq, Structural)]
pub struct Timestamp {
    /// Day of the week, 0 = Sunday .. 6 = Saturday.
    pub wday: u8,
    /// Day of the month, 1..=31.
    pub mday: u8,
    /// Month, 1 = January .. 12 = December.
    pub mon: u8,
    /// Full year, 0..=9999 (the textual form has four digits).
    pub year: u16,
    /// Hour, 0..=23.
    pub hour: u8,
    /// Minute, 0..=59.
    pub min: u8,
    /// Second, 0..=60 (60 for a leap second).
    pub sec: u8,
}

impl Timestamp {
    /// Every field within the range the textual form can carry.
    pub open spec fn wf(self) -> bool {
        &&& self.wday <= 6
        &&& 1 <= self.mday <= 31
        &&& 1 <= self.mon <= 12
        &&& self.year <= 9999
        &&& self.hour <= 23
        &&& self.min <= 59
        &&& self.sec <= 60
    }
}

/// Two timestamps fall on the same calendar day.
pub open spec fn same_day_spec(a: Timestamp, b: Timestamp) -> bool {
    a.year == b.year && a.mon == b.mon && a.mday == b.mday
}

/// Whether two timestamps fall on the same calendar day (UTC date).
pub fn same_day(t1: &Timestamp, t2: &Timestamp) -> (r: bool)
    ensures
        r == same_day_spec(*t1, *t2),
{
    t1.year == t2.year && t1.mon == t2.mon && t1.mday == t2.mday
}

/// Days from 1970-01-01 to the given proleptic Gregorian date; negative for
/// earlier dates. Standard era arithmetic, shifted by 400 years so that all
/// intermediate values stay non-negative for years 0..=9999.
pub open spec fn days_from_civil(year: int, mon: int, mday: int) -> int {
    let y = if mon <= 2 {
        year + 399
    } else {
        year + 400
    };
    let era = y / 400;
    let yoe = y % 400;
    let mp = if mon > 2 {
        mon - 3
    } else {
        mon + 9
    };
    let doy = (153 * mp + 2) / 5 + mday - 1;
    let doe = yoe * 365 + yoe / 4 - yoe / 100 + doy;
    era * 146097 + doe - 865565
}

/// Seconds from the Unix epoch to the given timestamp.
pub open spec fn epoch_spec(t: Timestamp) -> int {
    days_from_civil(t.year as int, t.mon as int, t.mday as int) * 86400 + t.hour as int * 3600
        + t.min as int * 60 + t.sec as int
}

/// A bound on the epoch seconds of any well-formed timestamp; used to rule
/// out overflow when durations are accumulated.
pub const EPOCH_BOUND: i64 = 260_000_000_000;

/// Seconds from the Unix epoch to the given timestamp (negative before 1970).
pub fn epoch_seconds(t: &Timestamp) -> (r: i64)
    requires
        t.wf(),
    ensures
        r == epoch_spec(*t),
        -EPOCH_BOUND < r < EPOCH_BOUND,
{
    let year = t.year as u64;
    let mon = t.mon as u64;
    let mday = t.mday as u64;
    let y: u64 = if mon <= 2 {
        year + 399
    } else {
        year + 400
    };
    let era: u64 = y / 400;
    let yoe: u64 = y % 400;
    let mp: u64 = if mon > 2 {
        mon - 3
    } else {
        mon + 9
    };
    let doy: u64 = (153 * mp + 2) / 5 + mday - 1;
    let doe: u64 = yoe * 365 + yoe / 4 - yoe / 100 + doy;
    let shifted: u64 = era * 146097 + doe;
    let days: i64 = shifted as i64 - 865565;
    days * 86400 + t.hour as i64 * 3600 + t.min as i64 * 60 + t.sec as i64
}

/// The three-letter name of a weekday, 0 = Sunday.
pub open spec fn wday_name_chars(w: int) -> Seq<char> {
    if w == 0 {
        seq!['S', 'u', 'n']
    } else if w == 1 {
        seq!['M', 'o', 'n']
    } else if w == 2 {
        seq!['T', 'u', 'e']
    } else if w == 3 {
        seq!['W', 'e', 'd']
    } else if w == 4 {
        seq!['T', 'h', 'u']
    } else if w == 5 {
        seq!['F', 'r', 'i']
    } else {
        seq!['S', 'a', 't']
    }
}

/// The three-letter abbreviation of a month, 1 = January.
pub open spec fn mon_name_chars(m: int) -> Seq<char> {
    if m == 1 {
        seq!['J', 'a', 'n']
    } else if m == 2 {
        seq!['F', 'e', 'b']
    } else if m == 3 {
        seq!['M', 'a', 'r']
    } else if m == 4 {
        seq!['A', 'p', 'r']
    } else if m == 5 {
        seq!['M', 'a', 'y']
    } else if m == 6 {
        seq!['J', 'u', 'n']
    } else if m == 7 {
        seq!['J', 'u', 'l']
    } else if m == 8 {
        seq!['A', 'u', 'g']
    } else if m == 9 {
        seq!['S', 'e', 'p']
    } else if m == 10 {
        seq!['O', 'c', 't']
    } else if m == 11 {
        seq!['N', 'o', 'v']
    } else {
        seq!['D', 'e', 'c']
    }
}

/// The weekday whose three-letter name is the given characters, or -1.
pub open spec fn wday_num(a: char, b: char, c: char) -> int {
    if a == 'S' && b == 'u' && c == 'n' {
        0
    } else if a == 'M' && b == 'o' && c == 'n' {
        1
    } else if a == 'T' && b == 'u' && c == 'e' {
        2
    } else if a == 'W' && b == 'e' && c == 'd' {
        3
    } else if a == 'T' && b == 'h' && c == 'u' {
        4
    } else if a == 'F' && b == 'r' && c == 'i' {
        5
    } else if a == 'S' && b == 'a' && c == 't' {
        6
    } else {
        -1
    }
}

/// The month whose three-letter abbreviation is the given characters, or -1.
pub open spec fn mon_num(a: char, b: char, c: char) -> int {
    if a == 'J' && b == 'a' && c == 'n' {
        1
    } else if a == 'F' && b == 'e' && c == 'b' {
        2
    } else if a == 'M' && b == 'a' && c == 'r' {
        3
    } else if a == 'A' && b == 'p' && c == 'r' {
        4
    } else if a == 'M' && b == 'a' && c == 'y' {
        5
    } else if a == 'J' && b == 'u' && c == 'n' {
        6
    } else if a == 'J' && b == 'u' && c == 'l' {
        7
    } else if a == 'A' && b == 'u' && c == 'g' {
        8
    } else if a == 'S' && b == 'e' && c == 'p' {
        9
    } else if a == 'O' && b == 'c' && c == 't' {
        10
    } else if a == 'N' && b == 'o' && c == 'v' {
        11
    } else if a == 'D' && b == 'e' && c == 'c' {
        12
    } else {
        -1
    }
}

/// The weekday name as a string slice.
pub fn wday_str(w: u8) -> (r: &'static str)
    requires
        w <= 6,
    ensures
        r@ == wday_name_chars(w as int),
{
    proof {
        reveal_strlit("Sun");
        reveal_strlit("Mon");
        reveal_strlit("Tue");
        reveal_strlit("Wed");
        reveal_strlit("Thu");
        reveal_strlit("Fri");
        reveal_strlit("Sat");
    }
    let r: &'static str = match w {
        0 => "Sun",
        1 => "Mon",
        2 => "Tue",
        3 => "Wed",
        4 => "Thu",
        5 => "Fri",
        _ => "Sat",
    };
    proof {
        assert(r@ =~= wday_name_chars(w as int));
    }
    r
}

/// The month abbreviation as a string slice.
pub fn mon_str(m: u8) -> (r: &'static str)
    requires
        1 <= m <= 12,
    ensures
        r@ == mon_name_chars(m as int),
{
    proof {
        reveal_strlit("Jan");
        reveal_strlit("Feb");
        reveal_strlit("Mar");
        reveal_strlit("Apr");
        reveal_strlit("May");
        reveal_strlit("Jun");
        reveal_strlit("Jul");
        reveal_strlit("Aug");
        reveal_strlit("Sep");
        reveal_strlit("Oct");
        reveal_strlit("Nov");
        reveal_strlit("Dec");
    }
    let r: &'static str = match m {
        1 => "Jan",
        2 => "Feb",
        3 => "Mar",
        4 => "Apr",
        5 => "May",
        6 => "Jun",
        7 => "Jul",
        8 => "Aug",
        9 => "Sep",
        10 => "Oct",
        11 => "Nov",
        _ => "Dec",
    };
    proof {
        assert(r@ =~= mon_name_chars(m as int));
    }
    r
}

/// The code of the weekday named by three characters, or -1.
pub fn wday_code(a: char, b: char, c: char) -> (r: i32)
    ensures
        r == wday_num(a, b, c),
{
    if a == 'S' && b == 'u' && c == 'n' {
        0
    } else if a == 'M' && b == 'o' && c == 'n' {
        1
    } else if a == 'T' && b == 'u' && c == 'e' {
        2
    } else if a == 'W' && b == 'e' && c == 'd' {
        3
    } else if a == 'T' && b == 'h' && c == 'u' {
        4
    } else if a == 'F' && b == 'r' && c == 'i' {
        5
    } else if a == 'S' && b == 'a' && c == 't' {
        6
    } else {
        -1
    }
}

/// The number of the month abbreviated by three characters, or -1.
pub fn mon_code(a: char, b: char, c: char) -> (r: i32)
    ensures
        r == mon_num(a, b, c),
{
    if a == 'J' && b == 'a' && c == 'n' {
        1
    } else if a == 'F' && b == 'e' && c == 'b' {
        2
    } else if a == 'M' && b == 'a' && c == 'r' {
        3
    } else if a == 'A' && b == 'p' && c == 'r' {
        4
    } else if a == 'M' && b == 'a' && c == 'y' {
        5
    } else if a == 'J' && b == 'u' && c == 'n' {
        6
    } else if a == 'J' && b == 'u' && c == 'l' {
        7
    } else if a == 'A' && b == 'u' && c == 'g' {
        8
    } else if a == 'S' && b == 'e' && c == 'p' {
        9
    } else if a == 'O' && b == 'c' && c == 't' {
        10
    } else if a == 'N' && b == 'o' && c == 'v' {
        11
    } else if a == 'D' && b == 'e' && c == 'c' {
        12
    } else {
        -1
    }
}

/// The fixed 29-character textual form of a timestamp:
/// weekday name, zero-padded day, month abbreviation, four-digit year,
/// `HH:MM:SS`, and the zone `UTC`.
pub open spec fn ts_chars(t: Timestamp) -> Seq<char> {
    seq![
        wday_name_chars(t.wday as int)[0],
        wday_name_chars(t.wday as int)[1],
        wday_name_chars(t.wday as int)[2],
        ',',
        ' ',
        digit_char(t.mday as int / 10),
        digit_char(t.mday as int % 10),
        ' ',
        mon_name_chars(t.mon as int)[0],
        mon_name_chars(t.mon as int)[1],
        mon_name_chars(t.mon as int)[2],
        ' ',
        digit_char(t.year as int / 1000),
        digit_char((t.year as int / 100) % 10),
        digit_char((t.year as int / 10) % 10),
        digit_char(t.year as int % 10),
        ' ',
        digit_char(t.hour as int / 10),
        digit_char(t.hour as int % 10),
        ':',
        digit_char(t.min as int / 10),
        digit_char(t.min as int % 10),
        ':',
        digit_char(t.sec as int / 10),
        digit_char(t.sec as int % 10),
        ' ',
        'U',
        'T',
        'C',
    ]
}

/// Renders a timestamp in its textual form.
pub fn render_timestamp(t: &Timestamp) -> (r: String)
    requires
        t.wf(),
    ensures
        r@ == ts_chars(*t),
{
    proof {
        reveal_strlit(", ");
        reveal_strlit(" ");
        reveal_strlit(":");
        reveal_strlit(" UTC");
    }
    let mut s = String::from_str(wday_str(t.wday));
    s.append(", ");
    let dd = two_digit_str(t.mday);
    s.append(dd.as_str());
    s.append(" ");
    s.append(mon_str(t.mon));
    s.append(" ");
    let yy = four_digit_str(t.year);
    s.append(yy.as_str());
    s.append(" ");
    let hh = two_digit_str(t.hour);
    s.append(hh.as_str());
    s.append(":");
    let mi = two_digit_str(t.min);
    s.append(mi.as_str());
    s.append(":");
    let ss = two_digit_str(t.sec);
    s.append(ss.as_str());
    s.append(" UTC");
    proof {
        assert(s@ =~= ts_chars(*t));
    }
    s
}

/// The value of two digit characters, or -1 if either is not a digit.
pub open spec fn two_digit_val(a: char, b: char) -> int {
    if char_digit(a) >= 0 && char_digit(b) >= 0 {
        10 * char_digit(a) + char_digit(b)
    } else {
        -1
    }
}

/// The value of four digit characters, or -1 if any is not a digit.
pub open spec fn four_digit_val(a: char, b: char, c: char, d: char) -> int {
    if char_digit(a) >= 0 && char_digit(b) >= 0 && char_digit(c) >= 0 && char_digit(d) >= 0 {
        1000 * char_digit(a) + 100 * char_digit(b) + 10 * char_digit(c) + char_digit(d)
    } else {
        -1
    }
}

/// What a character sequence means as a timestamp: `Some` exactly when it is
/// the 29-character textual form with every field in range.
pub open spec fn parse_ts_spec(s: Seq<char>) -> Option<Timestamp> {
    if s.len() != 29 {
        None
    } else {
        let wd = wday_num(s[0], s[1], s[2]);
        let md = two_digit_val(s[5], s[6]);
        let mo = mon_num(s[8], s[9], s[10]);
        let yr = four_digit_val(s[12], s[13], s[14], s[15]);
        let hh = two_digit_val(s[17], s[18]);
        let mi = two_digit_val(s[20], s[21]);
        let ss = two_digit_val(s[23], s[24]);
        if s[3] == ',' && s[4] == ' ' && s[7] == ' ' && s[11] == ' ' && s[16] == ' ' && s[19]
            == ':' && s[22] == ':' && s[25] == ' ' && s[26] == 'U' && s[27] == 'T' && s[28] == 'C'
            && wd >= 0 && 1 <= md <= 31 && mo >= 1 && yr >= 0 && 0 <= hh <= 23 && 0 <= mi <= 59
            && 0 <= ss <= 60 {
            Some(
                Timestamp {
                    wday: wd as u8,
                    mday: md as u8,
                    mon: mo as u8,
                    year: yr as u16,
                    hour: hh as u8,
                    min: mi as u8,
                    sec: ss as u8,
                },
            )
        } else {
            None
        }
    }
}

/// A parsed timestamp is always well-formed.
pub proof fn lemma_parse_ts_wf(s: Seq<char>)
    ensures
        parse_ts_spec(s) matches Some(t) ==> t.wf(),
{
}

/// Reading a weekday name back gives the weekday.
pub proof fn lemma_wday_name_roundtrip(w: int)
    requires
        0 <= w <= 6,
    ensures
        wday_num(wday_name_chars(w)[0], wday_name_chars(w)[1], wday_name_chars(w)[2]) == w,
{
}

/// Reading a month abbreviation back gives the month.
pub proof fn lemma_mon_name_roundtrip(m: int)
    requires
        1 <= m <= 12,
    ensures
        mon_num(mon_name_chars(m)[0], mon_name_chars(m)[1], mon_name_chars(m)[2]) == m,
{
}

/// Reading two zero-padded digits back gives the value.
pub proof fn lemma_two_digit_roundtrip(n: int)
    requires
        0 <= n <= 99,
    ensures
        two_digit_val(digit_char(n / 10), digit_char(n % 10)) == n,
{
    lemma_digit_char_roundtrip(n / 10);
    lemma_digit_char_roundtrip(n % 10);
}

/// Reading four zero-padded digits back gives the value.
pub proof fn lemma_four_digit_roundtrip(n: int)
    requires
        0 <= n <= 9999,
    ensures
        four_digit_val(
            digit_char(n / 1000),
            digit_char((n / 100) % 10),
            digit_char((n / 10) % 10),
            digit_char(n % 10),
        ) == n,
{
    vstd::arithmetic::div_mod::lemma_div_is_ordered(n, 9999, 1000);
    vstd::arithmetic::div_mod::lemma_fundamental_div_mod(n, 10);
    vstd::arithmetic::div_mod::lemma_div_denominator(n, 10, 10);
    vstd::arithmetic::div_mod::lemma_fundamental_div_mod(n / 10, 10);
    vstd::arithmetic::div_mod::lemma_div_denominator(n, 100, 10);
    vstd::arithmetic::div_mod::lemma_fundamental_div_mod(n / 100, 10);
    assert(n == 1000 * (n / 1000) + 100 * ((n / 100) % 10) + 10 * ((n / 10) % 10) + n % 10);
    lemma_digit_char_roundtrip(n / 1000);
    lemma_digit_char_roundtrip((n / 100) % 10);
    lemma_digit_char_roundtrip((n / 10) % 10);
    lemma_digit_char_roundtrip(n % 10);
}

/// Parsing the textual form of a well-formed timestamp gives it back.
#[verifier::rlimit(50)]
pub proof fn lemma_parse_render_roundtrip(t: Timestamp)
    requires
        t.wf(),
    ensures
        parse_ts_spec(ts_chars(t)) == Some(t),
{
    let s = ts_chars(t);
    assert(s.len() == 29);
    lemma_wday_name_roundtrip(t.wday as int);
    assert(wday_num(s[0], s[1], s[2]) == t.wday as int);
    lemma_mon_name_roundtrip(t.mon as int);
    assert(mon_num(s[8], s[9], s[10]) == t.mon as int);
    lemma_two_digit_roundtrip(t.mday as int);
    assert(two_digit_val(s[5], s[6]) == t.mday as int);
    lemma_four_digit_roundtrip(t.year as int);
    assert(four_digit_val(s[12], s[13], s[14], s[15]) == t.year as int);
    lemma_two_digit_roundtrip(t.hour as int);
    assert(two_digit_val(s[17], s[18]) == t.hour as int);
    lemma_two_digit_roundtrip(t.min as int);
    assert(two_digit_val(s[20], s[21]) == t.min as int);
    lemma_two_digit_roundtrip(t.sec as int);
    assert(two_digit_val(s[23], s[24]) == t.sec as int);
    assert(parse_ts_spec(s) == Some(t));
}

/// The numeric value of a decimal digit character, or -1.
fn digit_code(c: char) -> (r: i32)
    ensures
        r == char_digit(c),
{
    match c {
        '0' => 0,
        '1' => 1,
        '2' => 2,
        '3' => 3,
        '4' => 4,
        '5' => 5,
        '6' => 6,
        '7' => 7,
        '8' => 8,
        '9' => 9,
        _ => -1,
    }
}

/// The value of two digit characters, or -1.
fn two_digit_code(a: char, b: char) -> (r: i32)
    ensures
        r == two_digit_val(a, b),
{
    let x = digit_code(a);
    let y = digit_code(b);
    if x >= 0 && y >= 0 {
        10 * x + y
    } else {
        -1
    }
}

/// The value of four digit characters, or -1.
fn four_digit_code(a: char, b: char, c: char, d: char) -> (r: i32)
    ensures
        r == four_digit_val(a, b, c, d),
{
    let x = digit_code(a);
    let y = digit_code(b);
    let z = digit_code(c);
    let w = digit_code(d);
    if x >= 0 && y >= 0 && z >= 0 && w >= 0 {
        1000 * x + 100 * y + 10 * z + w
    } else {
        -1
    }
}

/// Parses a timestamp from its textual form; `None` on anything else.
pub fn parse_time(s: &str) -> (r: Option<Timestamp>)
    ensures
        r == parse_ts_spec(s@),
{
    let n = s.unicode_len();
    if n != 29 {
        return None;
    }
    let wd = wday_code(s.get_char(0), s.get_char(1), s.get_char(2));
    let md = two_digit_code(s.get_char(5), s.get_char(6));
    let mo = mon_code(s.get_char(8), s.get_char(9), s.get_char(10));
    let yr = four_digit_code(s.get_char(12), s.get_char(13), s.get_char(14), s.get_char(15));
    let hh = two_digit_code(s.get_char(17), s.get_char(18));
    let mi = two_digit_code(s.get_char(20), s.get_char(21));
    let ss = two_digit_code(s.get_char(23), s.get_char(24));
    if s.get_char(3) == ',' && s.get_char(4) == ' ' && s.get_char(7) == ' ' && s.get_char(11)
        == ' ' && s.get_char(16) == ' ' && s.get_char(19) == ':' && s.get_char(22) == ':'
        && s.get_char(25) == ' ' && s.get_char(26) == 'U' && s.get_char(27) == 'T' && s.get_char(28)
        == 'C' && wd >= 0 && 1 <= md && md <= 31 && mo >= 1 && yr >= 0 && 0 <= hh && hh <= 23 && 0
        <= mi && mi <= 59 && 0 <= ss && ss <= 60 {
        Some(
            Timestamp {
                wday: wd as u8,
                mday: md as u8,
                mon: mo as u8,
                year: yr as u16,
                hour: hh as u8,
                min: mi as u8,
                sec: ss as u8,
            },
        )
    } else {
        None
    }
}

} // verus!
