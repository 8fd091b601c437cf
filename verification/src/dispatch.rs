//! Dispatch of the command line: the `calc` command and its operators.
//!
//! `dispatch_outcome` and `calc_outcome` describe the whole observable
//! behaviour: which command and operator names are recognised, which error
//! message each rejected input earns, and the exact value every accepted
//! input computes. The executable handlers are verified to match them.

use vstd::prelude::*;

verus! {

use crate::eval::{sub_wrap, sum_wrap};
use crate::parse::{
    all_tokens_ok,
    convert_operands,
    token_values,
    token_views,
    IntParseKind,
    OperandParseError,
};
use crate::strutil::str_eq;

/// What `calc` answers for an operator name and a sequence of operand
/// tokens: operands are examined first, so an empty batch or a malformed
/// token decides before the operator name does; then `add` gives the
/// wrapping sum, `sub` the wrapping left fold of subtraction, and any
/// other name is unsupported.
pub open spec fn calc_outcome(op: Seq<char>, toks: Seq<Seq<char>>) -> Result<Option<i32>, Seq<char>> {
    if toks.len() == 0 {
        Err("Input operands must not be empty."@)
    } else if !all_tokens_ok(toks) {
        Err("Failed to parse operands as number."@)
    } else if op == "add"@ {
        Ok(Some(sum_wrap(token_values(toks))))
    } else if op == "sub"@ {
        Ok(Some(sub_wrap(token_values(toks))))
    } else {
        Err("Unsupported operator."@)
    }
}

/// What the dispatcher answers for a command name and the tokens after it:
/// only `calc` is recognised, with its first token as the operator and the
/// rest as operands. Meaningful only when a `calc` command has at least
/// the operator token.
pub open spec fn dispatch_outcome(cmd: Seq<char>, args: Seq<Seq<char>>) -> Result<
    Option<i32>,
    Seq<char>,
> {
    if cmd != "calc"@ {
        Err("Unsupported command."@)
    } else {
        calc_outcome(args[0], args.subrange(1, args.len() as int))
    }
}

/// The executable result carries the same value or the same message as the
/// described outcome.
pub open spec fn outcome_matches(
    r: Result<Option<i32>, String>,
    m: Result<Option<i32>, Seq<char>>,
) -> bool {
    match (r, m) {
        (Ok(a), Ok(b)) => a == b,
        (Err(e), Err(msg)) => e@ == msg,
        _ => false,
    }
}

/// Evaluates one `calc` invocation: parses the operand tokens and reduces
/// them under the named operator, answering exactly as `calc_outcome`
/// describes.
pub fn handle_calc(operator: &str, operands: &[String]) -> (r: Result<Option<i32>, String>)
    ensures
        outcome_matches(r, calc_outcome(operator@, token_views(operands@))),
{
    match convert_operands(operands) {
        Ok(int_operands) => {
            proof {
                assert(int_operands@ == token_values(token_views(operands@)));
            }
            if str_eq(operator, "add") {
                Ok(crate::eval::add(int_operands))
            } else if str_eq(operator, "sub") {
                Ok(crate::eval::sub(int_operands))
            } else {
                Err("Unsupported operator.".to_owned())
            }
        },
        Err(OperandParseError::EmptyInput) => Err("Input operands must not be empty.".to_owned()),
        Err(OperandParseError::ParseError { index, kind }) => {
            proof {
                let toks = token_views(operands@);
                assert(toks[index as int] == operands@[index as int]@);
                assert(!crate::parse::token_ok(toks[index as int]));
            }
            Err("Failed to parse operands as number.".to_owned())
        },
    }
}

/// Maps the first command-line token to its handler: `calc` delegates to
/// `handle_calc` with the next token as operator and the rest as operands;
/// any other command is unsupported. When the answer is `Ok` it always
/// carries a value: `calc` rejects an empty operand batch before either
/// operator could fail to produce one.
pub fn handle_command(command: &str, options: &[String]) -> (r: Result<Option<i32>, String>)
    requires
        command@ == "calc"@ ==> options@.len() >= 1,
    ensures
        outcome_matches(r, dispatch_outcome(command@, token_views(options@))),
        r is Ok ==> r->Ok_0 is Some,
{
    if str_eq(command, "calc") {
        let rest = &options[1..options.len()];
        let r = handle_calc(options[0].as_str(), rest);
        proof {
            let toks = token_views(options@);
            assert(token_views(rest@) =~= toks.subrange(1, toks.len() as int));
            assert(toks[0] == options@[0]@);
        }
        r
    } else {
        Err("Unsupported command.".to_owned())
    }
}

} // verus!
