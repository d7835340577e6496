//! Parser errors: a message pinned to a source position.

use crate::position::{position_str, Position};
use vstd::prelude::*;
use vstd::string::StringExecFns;

verus! {

/// A parser error with its source position.
#[derive(Debug, Clone, PartialEq, Eq)]
pub struct ParseError {
    pub message: String,
    pub position: Option<Position>,
}

/// The rendered form of a parse error: `line:col: message`, or the bare
/// message when no position is recorded.
pub open spec fn parse_error_str(e: ParseError) -> Seq<char> {
    match e.position {
        Some(p) => position_str(p.line as nat, p.col as nat) + ": "@ + e.message@,
        None => e.message@,
    }
}

impl ParseError {
    /// Build a parse error pinned to a position.
    pub fn new(position: Position, message: &str) -> (e: Self)
        ensures
            e.message@ == message@,
            e.position == Some(position),
    {
        Self { message: message.to_owned(), position: Some(position) }
    }

    /// Render the error as `line:col: message`.
    pub fn to_string(&self) -> (s: String)
        ensures
            s@ == parse_error_str(*self),
    {
        match &self.position {
            Some(p) => {
                let mut out = p.to_string();
                out.append(": ");
                out.append(self.message.as_str());
                out
            },
            None => self.message.clone(),
        }
    }
}

} // verus!
