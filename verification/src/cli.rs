//! Command-line argument parsing for the interpreter front end.

use crate::render::str_eq;
use vstd::prelude::*;

verus! {

/// A parsed command.
#[derive(Debug, Clone, PartialEq, Eq)]
pub enum Command {
    Repl,
    Run { path: String },
    Bench { path: String },
    Tokens { path: String },
    Ast { path: String },
    Help,
}

/// Parse the command-line arguments: no arguments or `repl` start the
/// read-eval-print loop, `--help` or `-h` print usage, and `run`, `bench`,
/// `--tokens`, and `--ast` each take one path; anything else is a usage
/// error.
pub fn parse_args(args: &Vec<String>) -> (r: Result<Command, ()>)
    ensures
        args@.len() == 0 ==> r == Ok::<_, ()>(Command::Repl),
        (args@.len() == 1 && args@[0]@ == "repl"@) ==> r == Ok::<_, ()>(Command::Repl),
        (args@.len() == 1 && (args@[0]@ == "--help"@ || args@[0]@ == "-h"@)) ==> r == Ok::<
            _,
            (),
        >(Command::Help),
        (args@.len() == 2 && args@[0]@ == "run"@) ==> (r matches Ok(c) && c matches Command::Run {
            path,
        } && path@ == args@[1]@),
        (args@.len() == 2 && args@[0]@ == "bench"@) ==> (r matches Ok(c) && c
            matches Command::Bench { path } && path@ == args@[1]@),
        (args@.len() == 2 && args@[0]@ == "--tokens"@) ==> (r matches Ok(c) && c
            matches Command::Tokens { path } && path@ == args@[1]@),
        (args@.len() == 2 && args@[0]@ == "--ast"@) ==> (r matches Ok(c) && c
            matches Command::Ast { path } && path@ == args@[1]@),
        (args@.len() == 1 && args@[0]@ != "repl"@ && args@[0]@ != "--help"@ && args@[0]@
            != "-h"@) ==> r is Err,
        (args@.len() == 2 && args@[0]@ != "run"@ && args@[0]@ != "bench"@ && args@[0]@
            != "--tokens"@ && args@[0]@ != "--ast"@) ==> r is Err,
        args@.len() > 2 ==> r is Err,
{
    proof {
        reveal_strlit("repl");
        reveal_strlit("--help");
        reveal_strlit("-h");
        reveal_strlit("run");
        reveal_strlit("bench");
        reveal_strlit("--tokens");
        reveal_strlit("--ast");
        assert("repl"@.len() == 4 && "--help"@.len() == 6 && "-h"@.len() == 2);
        assert("run"@.len() == 3 && "bench"@.len() == 5 && "--tokens"@.len() == 8 && "--ast"@.len()
            == 5);
        assert("bench"@[0] != "--ast"@[0]);
        assert("bench"@ != "--ast"@);
        assert("repl"@ != "--help"@ && "repl"@ != "-h"@ && "--help"@ != "-h"@);
        assert("run"@ != "bench"@ && "run"@ != "--tokens"@ && "run"@ != "--ast"@);
        assert("bench"@ != "--tokens"@ && "--tokens"@ != "--ast"@);
    }
    if args.len() == 0 {
        return Ok(Command::Repl);
    }
    if args.len() == 1 {
        let one = &args[0];
        if str_eq(one.as_str(), "repl") {
            return Ok(Command::Repl);
        }
        if str_eq(one.as_str(), "--help") || str_eq(one.as_str(), "-h") {
            return Ok(Command::Help);
        }
        return Err(());
    }
    if args.len() == 2 {
        let cmd = &args[0];
        let path = args[1].clone();
        if str_eq(cmd.as_str(), "run") {
            return Ok(Command::Run { path });
        }
        if str_eq(cmd.as_str(), "bench") {
            return Ok(Command::Bench { path });
        }
        if str_eq(cmd.as_str(), "--tokens") {
            return Ok(Command::Tokens { path });
        }
        if str_eq(cmd.as_str(), "--ast") {
            return Ok(Command::Ast { path });
        }
        return Err(());
    }
    Err(())
}

} // verus!
