//! Decimal text: digit characters, fixed-width zero-padded numerals, and
//! decimal renderings of integers. These are the building blocks of the
//! timesheet's record format and of the report's totals.

use vstd::prelude::*;

verus! {

/// The decimal digit character for a value between 0 and 9.
pub open spec fn digit_char(d: int) -> char {
    if d == 0 {
        '0'
    } else if d == 1 {
        '1'
    } else if d == 2 {
        '2'
    } else if d == 3 {
        '3'
    } else if d == 4 {
        '4'
    } else if d == 5 {
        '5'
    } else if d == 6 {
        '6'
    } else if d == 7 {
        '7'
    } else if d == 8 {
        '8'
    } else {
        '9'
    }
}

/// The numeric value of a decimal digit character, or -1 for any other character.
pub open spec fn char_digit(c: char) -> int {
    if c == '0' {
        0
    } else if c == '1' {
        1
    } else if c == '2' {
        2
    } else if c == '3' {
        3
    } else if c == '4' {
        4
    } else if c == '5' {
        5
    } else if c == '6' {
        6
    } else if c == '7' {
        7
    } else if c == '8' {
        8
    } else if c == '9' {
        9
    } else {
        -1
    }
}

/// Reading back the digit character of a value gives the value again.
pub proof fn lemma_digit_char_roundtrip(d: int)
    requires
        0 <= d <= 9,
    ensures
        char_digit(digit_char(d)) == d,
{
}

/// One decimal digit as a string slice.
pub fn digit_str(d: u8) -> (r: &'static str)
    requires
        d <= 9,
    ensures
        r@ == seq![digit_char(d as int)],
{
    proof {
        reveal_strlit("0");
        reveal_strlit("1");
        reveal_strlit("2");
        reveal_strlit("3");
        reveal_strlit("4");
        reveal_strlit("5");
        reveal_strlit("6");
        reveal_strlit("7");
        reveal_strlit("8");
        reveal_strlit("9");
    }
    let r: &'static str = match d {
        0 => "0",
        1 => "1",
        2 => "2",
        3 => "3",
        4 => "4",
        5 => "5",
        6 => "6",
        7 => "7",
        8 => "8",
        _ => "9",
    };
    proof {
        assert(r@ =~= seq![digit_char(d as int)]);
    }
    r
}

/// A value between 0 and 99 as exactly two digits, zero-padded.
pub open spec fn two_digit_chars(n: int) -> Seq<char> {
    seq![digit_char(n / 10), digit_char(n % 10)]
}

/// Renders a value below 100 as two zero-padded digits.
pub fn two_digit_str(n: u8) -> (r: String)
    requires
        n <= 99,
    ensures
        r@ == two_digit_chars(n as int),
{
    let mut s = String::from_str(digit_str(n / 10));
    s.append(digit_str(n % 10));
    proof {
        assert(s@ =~= two_digit_chars(n as int));
    }
    s
}

/// A value between 0 and 9999 as exactly four digits, zero-padded.
pub open spec fn four_digit_chars(n: int) -> Seq<char> {
    seq![
        digit_char(n / 1000),
        digit_char((n / 100) % 10),
        digit_char((n / 10) % 10),
        digit_char(n % 10),
    ]
}

/// Renders a value below 10000 as four zero-padded digits.
pub fn four_digit_str(n: u16) -> (r: String)
    requires
        n <= 9999,
    ensures
        r@ == four_digit_chars(n as int),
{
    let mut s = String::from_str(digit_str((n / 1000) as u8));
    s.append(digit_str(((n / 100) % 10) as u8));
    s.append(digit_str(((n / 10) % 10) as u8));
    s.append(digit_str((n % 10) as u8));
    proof {
        assert(s@ =~= four_digit_chars(n as int));
    }
    s
}

/// The ordinary decimal rendering of a non-negative value, without padding.
pub open spec fn dec_nat_chars(n: nat) -> Seq<char>
    decreases n,
{
    if n < 10 {
        seq![digit_char(n as int)]
    } else {
        dec_nat_chars(n / 10).push(digit_char((n % 10) as int))
    }
}

/// Renders a non-negative value in decimal.
pub fn render_nat(n: u128) -> (r: String)
    ensures
        r@ == dec_nat_chars(n as nat),
    decreases n,
{
    if n < 10 {
        String::from_str(digit_str(n as u8))
    } else {
        let mut s = render_nat(n / 10);
        s.append(digit_str((n % 10) as u8));
        proof {
            assert(s@ =~= dec_nat_chars(n as nat));
        }
        s
    }
}

/// The decimal rendering of an integer, with a leading minus sign when negative.
pub open spec fn dec_int_chars(n: int) -> Seq<char> {
    if n < 0 {
        seq!['-'] + dec_nat_chars((-n) as nat)
    } else {
        dec_nat_chars(n as nat)
    }
}

/// Renders an integer in decimal.
pub fn render_int(n: i128) -> (r: String)
    requires
        n != i128::MIN,
    ensures
        r@ == dec_int_chars(n as int),
{
    if n < 0 {
        proof {
            reveal_strlit("-");
        }
        let mut s = String::from_str("-");
        let mag = render_nat((-n) as u128);
        s.append(mag.as_str());
        proof {
            assert(s@ =~= dec_int_chars(n as int));
        }
        s
    } else {
        render_nat(n as u128)
    }
}

/// An integer rendered in decimal, zero-padded on the left to at least two
/// characters when it is a single digit.
pub open spec fn pad2_int_chars(n: int) -> Seq<char> {
    if 0 <= n <= 9 {
        seq!['0', digit_char(n)]
    } else {
        dec_int_chars(n)
    }
}

/// Renders an integer in decimal, zero-padding single digits to two.
pub fn render_pad2(n: i128) -> (r: String)
    requires
        n != i128::MIN,
    ensures
        r@ == pad2_int_chars(n as int),
{
    if 0 <= n && n <= 9 {
        proof {
            reveal_strlit("0");
        }
        let mut s = String::from_str("0");
        s.append(digit_str(n as u8));
        proof {
            assert(s@ =~= pad2_int_chars(n as int));
        }
        s
    } else {
        render_int(n)
    }
}

} // verus!
