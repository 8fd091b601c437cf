//! The fixed greeting and the rendering of the result line.
//!
//! `dec_int` describes the base-10 rendering of an integer: the digits of
//! its magnitude, most significant first, behind a minus sign when it is
//! negative. `result_line` is verified to produce exactly the sentence
//! `The result is <value>.` under that description.

use vstd::prelude::*;
use vstd::string::StringExecFns;

verus! {

/// The character for one decimal digit value.
pub open spec fn digit_char(d: nat) -> char {
    if d == 0 {
        '0'
    } else if d == 1 {
        '1'
    } else if d == 2 {
        '2'
    } else if d == 3 {
        '3'
    } else if d == 4 {
        '4'
    } else if d == 5 {
        '5'
    } else if d == 6 {
        '6'
    } else if d == 7 {
        '7'
    } else if d == 8 {
        '8'
    } else {
        '9'
    }
}

/// The base-10 digits of a natural number, most significant first, with
/// no leading zero except for the number zero itself.
pub open spec fn dec_digits(n: nat) -> Seq<char>
    decreases n,
{
    if n < 10 {
        seq![digit_char(n)]
    } else {
        dec_digits(n / 10) + seq![digit_char(n % 10)]
    }
}

/// The base-10 rendering of an integer: a minus sign before the digits of
/// the magnitude when it is negative.
pub open spec fn dec_int(v: int) -> Seq<char> {
    if v < 0 {
        seq!['-'] + dec_digits((-v) as nat)
    } else {
        dec_digits(v as nat)
    }
}

/// The one-character string for a decimal digit value.
fn digit_str(d: u8) -> (r: &'static str)
    requires
        d < 10,
    ensures
        r@ == seq![digit_char(d as nat)],
{
    proof {
        reveal_strlit("0");
        reveal_strlit("1");
        reveal_strlit("2");
        reveal_strlit("3");
        reveal_strlit("4");
        reveal_strlit("5");
        reveal_strlit("6");
        reveal_strlit("7");
        reveal_strlit("8");
        reveal_strlit("9");
    }
    let r = if d == 0 {
        "0"
    } else if d == 1 {
        "1"
    } else if d == 2 {
        "2"
    } else if d == 3 {
        "3"
    } else if d == 4 {
        "4"
    } else if d == 5 {
        "5"
    } else if d == 6 {
        "6"
    } else if d == 7 {
        "7"
    } else if d == 8 {
        "8"
    } else {
        "9"
    };
    proof {
        assert(r@ =~= seq![digit_char(d as nat)]);
    }
    r
}

/// Appends the base-10 digits of `n` to `out`, most significant first.
fn push_decimal(n: u32, out: &mut String)
    ensures
        final(out)@ == old(out)@ + dec_digits(n as nat),
    decreases n,
{
    if n >= 10 {
        push_decimal(n / 10, out);
    }
    out.append(digit_str((n % 10) as u8));
    proof {
        if n >= 10 {
            assert(old(out)@ + dec_digits((n / 10) as nat) + seq![digit_char((n % 10) as nat)]
                =~= old(out)@ + dec_digits(n as nat));
        } else {
            assert(old(out)@ + seq![digit_char((n % 10) as nat)] =~= old(out)@ + dec_digits(
                n as nat,
            ));
        }
    }
}

/// Renders the sentence that reports a computed value.
pub fn result_line(value: i32) -> (r: String)
    ensures
        r@ == "The result is "@ + dec_int(value as int) + "."@,
{
    let mut s = "The result is ".to_owned();
    let mag: u32 = if value < 0 {
        s.append("-");
        proof {
            reveal_strlit("-");
            assert("-"@ =~= seq!['-']);
        }
        (-(value as i64)) as u32
    } else {
        value as u32
    };
    push_decimal(mag, &mut s);
    s.append(".");
    proof {
        assert(s@ =~= "The result is "@ + dec_int(value as int) + "."@);
    }
    s
}

/// The fixed greeting printed when the program starts.
pub fn get_greeting_message() -> (r: String)
    ensures
        r@ == "Hi bro. Welcome to the IXCodeRS Project - a dev sandbox for Rust."@,
{
    "Hi bro. Welcome to the IXCodeRS Project - a dev sandbox for Rust.".to_owned()
}

} // verus!
