//! Decimal rendering of integer amounts.
//!
//! Money is carried through the library as a signed number of cents, and the
//! prompt builder needs it written out as dollars with exactly two digits
//! after the decimal point. The spec functions here define that text; the
//! executable functions produce it and are proved equal to the definition.

use vstd::prelude::*;

verus! {

/// The character for one decimal digit value.
pub open spec fn digit_char(d: int) -> char {
    if d == 0 {
        '0'
    } else if d == 1 {
        '1'
    } else if d == 2 {
        '2'
    } else if d == 3 {
        '3'
    } else if d == 4 {
        '4'
    } else if d == 5 {
        '5'
    } else if d == 6 {
        '6'
    } else if d == 7 {
        '7'
    } else if d == 8 {
        '8'
    } else {
        '9'
    }
}

/// The decimal digits of a nonnegative integer, most significant first,
/// with no leading zero except for the number zero itself.
pub open spec fn dec_digits(n: int) -> Seq<char>
    recommends
        n >= 0,
    decreases n,
{
    if n < 10 {
        seq![digit_char(n)]
    } else {
        dec_digits(n / 10).push(digit_char(n % 10))
    }
}

/// An amount of cents at least zero, written as dollars with exactly two
/// digits after the decimal point.
pub open spec fn nonneg_money_chars(cents: int) -> Seq<char>
    recommends
        cents >= 0,
{
    dec_digits(cents / 100) + seq!['.', digit_char((cents % 100) / 10), digit_char(cents % 100 % 10)]
}

/// A signed amount of cents written as dollars with exactly two digits after
/// the decimal point; negative amounts carry a leading minus sign.
pub open spec fn money_chars(cents: int) -> Seq<char> {
    if cents < 0 {
        seq!['-'] + nonneg_money_chars(-cents)
    } else {
        nonneg_money_chars(cents)
    }
}

/// Whether a character is a decimal digit.
pub open spec fn is_dec_digit(c: char) -> bool {
    c == '0' || c == '1' || c == '2' || c == '3' || c == '4' || c == '5' || c == '6' || c == '7'
        || c == '8' || c == '9'
}

fn digit_str(d: u64) -> (r: &'static str)
    requires
        d < 10,
    ensures
        r@ == seq![digit_char(d as int)],
{
    if d == 0 {
        proof {
            reveal_strlit("0");
            assert("0"@ =~= seq![digit_char(d as int)]);
        }
        "0"
    } else if d == 1 {
        proof {
            reveal_strlit("1");
            assert("1"@ =~= seq![digit_char(d as int)]);
        }
        "1"
    } else if d == 2 {
        proof {
            reveal_strlit("2");
            assert("2"@ =~= seq![digit_char(d as int)]);
        }
        "2"
    } else if d == 3 {
        proof {
            reveal_strlit("3");
            assert("3"@ =~= seq![digit_char(d as int)]);
        }
        "3"
    } else if d == 4 {
        proof {
            reveal_strlit("4");
            assert("4"@ =~= seq![digit_char(d as int)]);
        }
        "4"
    } else if d == 5 {
        proof {
            reveal_strlit("5");
            assert("5"@ =~= seq![digit_char(d as int)]);
        }
        "5"
    } else if d == 6 {
        proof {
            reveal_strlit("6");
            assert("6"@ =~= seq![digit_char(d as int)]);
        }
        "6"
    } else if d == 7 {
        proof {
            reveal_strlit("7");
            assert("7"@ =~= seq![digit_char(d as int)]);
        }
        "7"
    } else if d == 8 {
        proof {
            reveal_strlit("8");
            assert("8"@ =~= seq![digit_char(d as int)]);
        }
        "8"
    } else {
        proof {
            reveal_strlit("9");
            assert("9"@ =~= seq![digit_char(d as int)]);
        }
        "9"
    }
}

/// Render a nonnegative integer in decimal.
pub fn fmt_u64(n: u64) -> (s: String)
    ensures
        s@ == dec_digits(n as int),
    decreases n,
{
    if n < 10 {
        digit_str(n).to_owned()
    } else {
        let mut s = fmt_u64(n / 10);
        s.append(digit_str(n % 10));
        proof {
            assert(s@ =~= dec_digits(n as int));
        }
        s
    }
}

/// Render a signed amount of cents as dollars with exactly two digits after
/// the decimal point.
pub fn fmt_cents(cents: i64) -> (s: String)
    ensures
        s@ == money_chars(cents as int),
{
    let mag: u64 = if cents < 0 {
        proof {
            assert(-(cents as i128) <= u64::MAX as i128) by {
                assert(cents as i128 >= i64::MIN as i128);
            }
        }
        (-(cents as i128)) as u64
    } else {
        cents as u64
    };
    let mut s: String = if cents < 0 {
        "-".to_owned()
    } else {
        "".to_owned()
    };
    let int_part = fmt_u64(mag / 100);
    s.append(int_part.as_str());
    s.append(".");
    let frac: u64 = mag % 100;
    s.append(digit_str(frac / 10));
    s.append(digit_str(frac % 10));
    proof {
        reveal_strlit("-");
        reveal_strlit("");
        reveal_strlit(".");
        assert(s@ =~= money_chars(cents as int));
    }
    s
}

} // verus!
