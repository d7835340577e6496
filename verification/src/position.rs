//! Source coordinates: 1-based line and column numbers.

use crate::render::{dec_seq, push_usize};
use vstd::prelude::*;
use vstd::string::StringExecFns;

verus! {

/// The rendered form of a position: `line:col`.
pub open spec fn position_str(line: nat, col: nat) -> Seq<char> {
    dec_seq(line) + seq![':'] + dec_seq(col)
}

/// Source position (1-based line and column).
#[derive(Debug, Clone, Copy, PartialEq, Eq, Hash, Structural)]
pub struct Position {
    pub line: usize,
    pub col: usize,
}

impl Position {
    /// Build a position from a line and a column.
    pub fn new(line: usize, col: usize) -> (p: Self)
        ensures
            p.line == line,
            p.col == col,
    {
        Self { line, col }
    }

    /// Render the position as `line:col`.
    pub fn to_string(&self) -> (s: String)
        ensures
            s@ == position_str(self.line as nat, self.col as nat),
    {
        let mut out = String::new();
        push_usize(&mut out, self.line);
        proof { reveal_strlit(":"); }
        out.append(":");
        push_usize(&mut out, self.col);
        out
    }
}

impl Default for Position {
    /// The default position is the start of the input, `1:1`.
    fn default() -> (p: Self)
        ensures
            p.line == 1,
            p.col == 1,
    {
        Self { line: 1, col: 1 }
    }
}

} // verus!
