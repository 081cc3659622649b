//! Decimal text of integers, as written to a pid file.

use vstd::prelude::*;
use vstd::string::StringExecFns;

verus! {

/// The character that stands for the digit `d`.
pub open spec fn digit_char(d: int) -> char
    recommends
        0 <= d < 10,
{
    if d == 0 {
        '0'
    } else if d == 1 {
        '1'
    } else if d == 2 {
        '2'
    } else if d == 3 {
        '3'
    } else if d == 4 {
        '4'
    } else if d == 5 {
        '5'
    } else if d == 6 {
        '6'
    } else if d == 7 {
        '7'
    } else if d == 8 {
        '8'
    } else {
        '9'
    }
}

/// The digits of `n` in base ten, most significant first, without leading
/// zeros; zero is the one digit `0`.
pub open spec fn digits(n: nat) -> Seq<char>
    decreases n,
{
    if n < 10 {
        seq![digit_char(n as int)]
    } else {
        digits(n / 10).push(digit_char((n % 10) as int))
    }
}

/// The decimal text of `n`: its digits, after a `-` if it is negative.
pub open spec fn decimal(n: int) -> Seq<char> {
    if n < 0 {
        seq!['-'] + digits((-n) as nat)
    } else {
        digits(n as nat)
    }
}

/// The one-character text of a digit.
fn digit_str(d: u64) -> (text: &'static str)
    requires
        d < 10,
    ensures
        text@ == seq![digit_char(d as int)],
{
    proof {
        reveal_strlit("0");
        reveal_strlit("1");
        reveal_strlit("2");
        reveal_strlit("3");
        reveal_strlit("4");
        reveal_strlit("5");
        reveal_strlit("6");
        reveal_strlit("7");
        reveal_strlit("8");
        reveal_strlit("9");
    }
    let text = if d == 0 {
        "0"
    } else if d == 1 {
        "1"
    } else if d == 2 {
        "2"
    } else if d == 3 {
        "3"
    } else if d == 4 {
        "4"
    } else if d == 5 {
        "5"
    } else if d == 6 {
        "6"
    } else if d == 7 {
        "7"
    } else if d == 8 {
        "8"
    } else {
        "9"
    };
    assert(text@ =~= seq![digit_char(d as int)]);
    text
}

/// The decimal text of a natural number.
fn digits_string(n: u64) -> (text: String)
    ensures
        text@ == digits(n as nat),
{
    let mut text = String::from_str(digit_str(n % 10));
    let mut rest: u64 = n / 10;
    while rest > 0
        invariant
            digits(n as nat) == if rest > 0 {
                digits(rest as nat) + text@
            } else {
                text@
            },
        decreases rest,
    {
        let longer = String::from_str(digit_str(rest % 10)).concat(text.as_str());
        proof {
            let head = seq![digit_char((rest % 10) as int)];
            if rest < 10 {
                assert(digits(rest as nat) + text@ =~= longer@);
            } else {
                assert(digits(rest as nat) + text@ =~= digits((rest / 10) as nat) + longer@);
            }
        }
        text = longer;
        rest = rest / 10;
    }
    text
}

/// Writes an integer in decimal, as a pid is written to a pid file.
pub fn decimal_string(n: i32) -> (text: String)
    ensures
        text@ == decimal(n as int),
{
    if n < 0 {
        let magnitude: u64 = (-(n as i64)) as u64;
        proof {
            reveal_strlit("-");
            assert("-"@ =~= seq!['-']);
        }
        String::from_str("-").concat(digits_string(magnitude).as_str())
    } else {
        digits_string(n as u64)
    }
}

} // verus!
