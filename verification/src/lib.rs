//! A small command-line arithmetic library: it dispatches a `calc` command,
//! parses textual operands into `i32` values, and reduces them with `add`
//! (sum of all operands) or `sub` (left fold of subtraction from the first
//! operand). Every function is verified against a contract that pins down
//! the exact outcome, including each error message and the token on which
//! parsing fails.

pub mod dispatch;
pub mod eval;
pub mod parse;
pub mod present;
pub mod strutil;
