//! The text shown in the interface bar: the score zero-padded to three
//! digits, the speed with three integer digits and two decimal places (the
//! speed is always a whole number of screen units per second, so the decimal
//! places read "00"), and the rank label.

use crate::state::Rank;
use vstd::prelude::*;

verus! {

/// The character of a single decimal digit.
pub open spec fn digit_char(d: int) -> char {
    if d == 0 {
        '0'
    } else if d == 1 {
        '1'
    } else if d == 2 {
        '2'
    } else if d == 3 {
        '3'
    } else if d == 4 {
        '4'
    } else if d == 5 {
        '5'
    } else if d == 6 {
        '6'
    } else if d == 7 {
        '7'
    } else if d == 8 {
        '8'
    } else {
        '9'
    }
}

/// The decimal digits of `n`, most significant first, without leading
/// zeros; zero itself reads "0".
pub open spec fn spec_decimal(n: nat) -> Seq<char>
    decreases n,
{
    if n < 10 {
        seq![digit_char(n as int)]
    } else {
        spec_decimal(n / 10).push(digit_char((n % 10) as int))
    }
}

/// The decimal digits of `n`, left-padded with zeros to at least three
/// digits.
pub open spec fn spec_padded3(n: nat) -> Seq<char> {
    if n < 10 {
        seq!['0', '0'] + spec_decimal(n)
    } else if n < 100 {
        seq!['0'] + spec_decimal(n)
    } else {
        spec_decimal(n)
    }
}

fn digit_str(d: u32) -> (r: &'static str)
    requires
        d < 10,
    ensures
        r@ =~= seq![digit_char(d as int)],
{
    proof {
        reveal_strlit("0");
        reveal_strlit("1");
        reveal_strlit("2");
        reveal_strlit("3");
        reveal_strlit("4");
        reveal_strlit("5");
        reveal_strlit("6");
        reveal_strlit("7");
        reveal_strlit("8");
        reveal_strlit("9");
    }
    if d == 0 {
        "0"
    } else if d == 1 {
        "1"
    } else if d == 2 {
        "2"
    } else if d == 3 {
        "3"
    } else if d == 4 {
        "4"
    } else if d == 5 {
        "5"
    } else if d == 6 {
        "6"
    } else if d == 7 {
        "7"
    } else if d == 8 {
        "8"
    } else {
        "9"
    }
}

/// `n` written out in decimal.
pub fn decimal_string(n: u32) -> (r: String)
    ensures
        r@ == spec_decimal(n as nat),
    decreases n,
{
    if n < 10 {
        String::from_str(digit_str(n))
    } else {
        let mut s = decimal_string(n / 10);
        s.append(digit_str(n % 10));
        proof {
            assert(s@ =~= spec_decimal(n as nat));
        }
        s
    }
}

/// `n` written out in decimal, left-padded with zeros to at least three
/// digits.
pub fn padded3_string(n: u32) -> (r: String)
    ensures
        r@ == spec_padded3(n as nat),
{
    if n < 10 {
        let mut s = String::from_str("00");
        let digits = decimal_string(n);
        s.append(digits.as_str());
        proof {
            reveal_strlit("00");
            assert(s@ =~= spec_padded3(n as nat));
        }
        s
    } else if n < 100 {
        let mut s = String::from_str("0");
        let digits = decimal_string(n);
        s.append(digits.as_str());
        proof {
            reveal_strlit("0");
            assert(s@ =~= spec_padded3(n as nat));
        }
        s
    } else {
        decimal_string(n)
    }
}

/// The score line of the interface bar.
pub fn format_score_text(score: i32) -> (r: String)
    requires
        0 <= score,
    ensures
        r@ == "Score: "@ + spec_padded3(score as nat),
{
    let mut s = String::from_str("Score: ");
    let digits = padded3_string(score as u32);
    s.append(digits.as_str());
    s
}

/// The speed line of the interface bar. The speed is a whole number of
/// screen units per second, shown with two decimal places.
pub fn format_speed_text(speed: u32) -> (r: String)
    ensures
        r@ == "Current Speed: "@ + spec_padded3(speed as nat) + ".00"@,
{
    let mut s = String::from_str("Current Speed: ");
    let digits = padded3_string(speed);
    s.append(digits.as_str());
    s.append(".00");
    s
}

/// The rank line of the interface bar.
pub fn format_rank_text(rank: &Rank) -> (r: String)
    ensures
        r@ == "Rank: "@ + rank.current@,
{
    let mut s = String::from_str("Rank: ");
    s.append(rank.current.as_str());
    s
}

} // verus!
