//! Deterministic renderings for the token and tree dump modes.

use crate::ast::{program_str, Program};
use crate::render::{dec_seq, push_usize};
use crate::token::Token;
use vstd::prelude::*;
use vstd::string::StringExecFns;

verus! {

/// Render a token-count summary line.
pub fn format_tokens_placeholder(tokens: &[Token]) -> (s: String)
    ensures
        s@ == "TOKENS: "@ + dec_seq(tokens@.len()) + " token(s)"@,
{
    let mut out: String = "TOKENS: ".to_owned();
    push_usize(&mut out, tokens.len());
    out.append(" token(s)");
    out
}

/// Render a program's abstract syntax tree.
pub fn format_ast_placeholder(program: &Program) -> (s: String)
    ensures
        s@ == program_str(*program),
{
    format_ast(program)
}

/// Render a program's abstract syntax tree, one statement per line.
pub fn format_ast(program: &Program) -> (s: String)
    ensures
        s@ == program_str(*program),
{
    program.to_string()
}

} // verus!
