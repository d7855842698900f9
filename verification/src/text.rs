//! Decimal text for small numbers, and the line that reports a roll.

use vstd::prelude::*;
use vstd::string::*;

verus! {

/// The character that stands for one decimal digit.
pub open spec fn digit_char(d: int) -> char {
    if d == 0 {
        '0'
    } else if d == 1 {
        '1'
    } else if d == 2 {
        '2'
    } else if d == 3 {
        '3'
    } else if d == 4 {
        '4'
    } else if d == 5 {
        '5'
    } else if d == 6 {
        '6'
    } else if d == 7 {
        '7'
    } else if d == 8 {
        '8'
    } else {
        '9'
    }
}

/// The decimal notation of a byte, without leading zeros.
pub open spec fn decimal(n: u8) -> Seq<char> {
    if n < 10 {
        seq![digit_char(n as int)]
    } else if n < 100 {
        seq![digit_char(n as int / 10), digit_char(n as int % 10)]
    } else {
        seq![digit_char(n as int / 100), digit_char(n as int / 10 % 10), digit_char(n as int % 10)]
    }
}

/// The words that open the line reporting a roll.
pub open spec fn rolled_prefix() -> Seq<char> {
    seq!['R', 'o', 'l', 'l', 'e', 'd', ' ']
}

/// The line that reports a roll: the opening words, then the face in decimal.
pub open spec fn rolled_line(face: u8) -> Seq<char> {
    rolled_prefix() + decimal(face)
}

fn digit_str(d: u8) -> (s: &'static str)
    requires
        d < 10,
    ensures
        s@ == seq![digit_char(d as int)],
{
    proof {
        reveal_strlit("0");
        reveal_strlit("1");
        reveal_strlit("2");
        reveal_strlit("3");
        reveal_strlit("4");
        reveal_strlit("5");
        reveal_strlit("6");
        reveal_strlit("7");
        reveal_strlit("8");
        reveal_strlit("9");
    }
    let s: &'static str = match d {
        0 => "0",
        1 => "1",
        2 => "2",
        3 => "3",
        4 => "4",
        5 => "5",
        6 => "6",
        7 => "7",
        8 => "8",
        _ => "9",
    };
    assert(s@ =~= seq![digit_char(d as int)]);
    s
}

/// Writes a byte in decimal.
pub fn decimal_string(n: u8) -> (s: String)
    ensures
        s@ == decimal(n),
{
    if n < 10 {
        String::from_str(digit_str(n))
    } else if n < 100 {
        let mut s = String::from_str(digit_str(n / 10));
        s.append(digit_str(n % 10));
        assert(s@ =~= decimal(n));
        s
    } else {
        let mut s = String::from_str(digit_str(n / 100));
        s.append(digit_str(n / 10 % 10));
        s.append(digit_str(n % 10));
        assert(s@ =~= decimal(n));
        s
    }
}

/// Writes the line that reports a roll.
pub fn roll_message(face: u8) -> (line: String)
    ensures
        line@ == rolled_line(face),
{
    proof {
        reveal_strlit("Rolled ");
    }
    let mut line = String::from_str("Rolled ");
    assert(line@ =~= rolled_prefix());
    let digits = decimal_string(face);
    line.append(digits.as_str());
    line
}

} // verus!
