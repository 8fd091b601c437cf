//! Parsing of textual operands into `i32` values.
//!
//! `parse_int_str` is the mathematical description of base-10 signed integer
//! parsing: an optional leading `+` or `-` sign followed by at least one
//! decimal digit, with the value required to fit in `i32`. The first offence
//! scanning left to right decides the error: a non-digit character gives
//! `InvalidDigit`, and an accumulated value that leaves the `i32` range gives
//! `PosOverflow` or `NegOverflow`, whichever bound was crossed.

use vstd::prelude::*;
use vstd::string::StrSliceExecFns;

verus! {

/// Why a single token failed to parse as a base-10 `i32`.
#[derive(Clone, Copy, Debug, PartialEq, Eq, Structural)]
pub enum IntParseKind {
    /// The token holds no characters at all.
    Empty,
    /// A character other than a decimal digit stands where a digit must,
    /// including a sign with nothing after it.
    InvalidDigit,
    /// The value grew past `i32::MAX`.
    PosOverflow,
    /// The value fell below `i32::MIN`.
    NegOverflow,
}

/// A decimal digit `'0'` through `'9'`.
pub open spec fn is_dec_digit(c: char) -> bool {
    48 <= c as u32 <= 57
}

/// The numeric value of a decimal digit character.
pub open spec fn digit_val(c: char) -> int {
    c as u32 - 48
}

/// Scans the digits of `ds` from position `i` with accumulator `acc`,
/// negating each digit's contribution when `neg` holds, exactly as the
/// parser does: the first non-digit gives `InvalidDigit`, and the first
/// step whose result leaves the `i32` range gives the matching overflow.
pub open spec fn scan_digits(ds: Seq<char>, neg: bool, i: int, acc: int) -> Result<int, IntParseKind>
    decreases ds.len() - i,
{
    if i >= ds.len() {
        Ok(acc)
    } else if !is_dec_digit(ds[i]) {
        Err(IntParseKind::InvalidDigit)
    } else {
        let acc2 = if neg {
            acc * 10 - digit_val(ds[i])
        } else {
            acc * 10 + digit_val(ds[i])
        };
        if acc2 < i32::MIN {
            Err(IntParseKind::NegOverflow)
        } else if acc2 > i32::MAX {
            Err(IntParseKind::PosOverflow)
        } else {
            scan_digits(ds, neg, i + 1, acc2)
        }
    }
}

/// The value a character sequence denotes as a base-10 signed 32-bit
/// integer, or the reason it denotes none.
pub open spec fn parse_int_str(s: Seq<char>) -> Result<int, IntParseKind> {
    if s.len() == 0 {
        Err(IntParseKind::Empty)
    } else {
        let neg = s[0] == '-';
        let signed = s[0] == '-' || s[0] == '+';
        let start: int = if signed { 1 } else { 0 };
        if s.len() == start {
            Err(IntParseKind::InvalidDigit)
        } else {
            scan_digits(s, neg, start, 0)
        }
    }
}

/// A token that denotes an `i32` value.
pub open spec fn token_ok(t: Seq<char>) -> bool {
    parse_int_str(t) is Ok
}

/// The value a well-formed token denotes.
pub open spec fn token_val(t: Seq<char>) -> i32 {
    parse_int_str(t)->Ok_0 as i32
}

/// The views of a sequence of owned strings.
pub open spec fn token_views(ts: Seq<String>) -> Seq<Seq<char>> {
    Seq::new(ts.len(), |i: int| ts[i]@)
}

/// Every token in the sequence denotes an `i32` value.
pub open spec fn all_tokens_ok(toks: Seq<Seq<char>>) -> bool {
    forall|i: int| 0 <= i < toks.len() ==> token_ok(toks[i])
}

/// The values that a sequence of well-formed tokens denotes, in order.
pub open spec fn token_values(toks: Seq<Seq<char>>) -> Seq<i32> {
    Seq::new(toks.len(), |i: int| token_val(toks[i]))
}

/// How a batch of operand tokens failed to become integers: either no
/// tokens were supplied at all, or some token is not a valid integer, in
/// which case the first offending token's position and diagnostic are kept.
#[derive(Clone, Copy, Debug, PartialEq, Eq, Structural)]
pub enum OperandParseError {
    /// No operand tokens were supplied.
    EmptyInput,
    /// The token at `index` (counting from zero) failed to parse; `kind`
    /// says how.
    ParseError { index: usize, kind: IntParseKind },
}

/// Parses every token as a base-10 signed 32-bit integer, fail-fast: an
/// empty batch gives `EmptyInput`, and otherwise the first token that
/// denotes no `i32` value decides the failure. On success the values come
/// back in the order and number of the tokens.
pub fn convert_operands(operands: &[String]) -> (r: Result<Vec<i32>, OperandParseError>)
    ensures
        (match r {
            Ok(v) => operands@.len() > 0 && all_tokens_ok(token_views(operands@)) && v@
                == token_values(token_views(operands@)),
            Err(OperandParseError::EmptyInput) => operands@.len() == 0,
            Err(OperandParseError::ParseError { index, kind }) => operands@.len() > 0 && index
                < operands@.len() && parse_int_str(operands@[index as int]@) == Err::<
                int,
                IntParseKind,
            >(kind) && (forall|j: int| 0 <= j < index ==> token_ok(operands@[j]@)),
        }),
{
    let n = operands.len();
    if n == 0 {
        return Err(OperandParseError::EmptyInput);
    }
    let mut out: Vec<i32> = Vec::new();
    let mut i: usize = 0;
    while i < n
        invariant
            n == operands@.len(),
            0 <= i <= n,
            out@.len() == i,
            forall|j: int| 0 <= j < i ==> token_ok(operands@[j]@),
            forall|j: int| 0 <= j < i ==> out@[j] == token_val(operands@[j]@),
        decreases n - i,
    {
        match parse_i32(operands[i].as_str()) {
            Ok(v) => {
                out.push(v);
                proof {
                    assert(token_ok(operands@[i as int]@));
                    assert(out@[i as int] == token_val(operands@[i as int]@));
                }
            },
            Err(k) => {
                proof {
                    assert(parse_int_str(operands@[i as int]@) == Err::<int, IntParseKind>(k));
                }
                return Err(OperandParseError::ParseError { index: i, kind: k });
            },
        }
        i = i + 1;
    }
    proof {
        assert forall|j: int| 0 <= j < operands@.len() implies token_ok(
            token_views(operands@)[j],
        ) by {
            assert(token_views(operands@)[j] == operands@[j]@);
        }
        assert(all_tokens_ok(token_views(operands@)));
        assert(out@ =~= token_values(token_views(operands@)));
    }
    Ok(out)
}

/// Parses one token as a base-10 signed 32-bit integer, returning exactly
/// the value or the failure that `parse_int_str` ascribes to it.
pub fn parse_i32(s: &str) -> (r: Result<i32, IntParseKind>)
    ensures
        (match r {
            Ok(v) => parse_int_str(s@) == Ok::<int, IntParseKind>(v as int),
            Err(k) => parse_int_str(s@) == Err::<int, IntParseKind>(k),
        }),
{
    let n = s.unicode_len();
    if n == 0 {
        return Err(IntParseKind::Empty);
    }
    let first = s.get_char(0);
    let neg = first == '-';
    let signed = neg || first == '+';
    let start: usize = if signed { 1 } else { 0 };
    if start == n {
        return Err(IntParseKind::InvalidDigit);
    }
    let mut i: usize = start;
    let mut acc: i32 = 0;
    while i < n
        invariant
            n == s@.len(),
            start <= i <= n,
            parse_int_str(s@) == scan_digits(s@, neg, i as int, acc as int),
        decreases n - i,
    {
        let c = s.get_char(i);
        let cu = c as u32;
        if cu < 48 || cu > 57 {
            return Err(IntParseKind::InvalidDigit);
        }
        let d = (cu - 48) as i32;
        let wide: i64 = if neg {
            acc as i64 * 10 - d as i64
        } else {
            acc as i64 * 10 + d as i64
        };
        if wide < i32::MIN as i64 {
            return Err(IntParseKind::NegOverflow);
        }
        if wide > i32::MAX as i64 {
            return Err(IntParseKind::PosOverflow);
        }
        acc = wide as i32;
        i = i + 1;
    }
    Ok(acc)
}

} // verus!
