//! The pipeline facade: parse, compile, and run source text, reporting the
//! first failing stage.

use crate::compiler::{CompileError, Compiler};
use crate::lexer::Lexer;
use crate::object::ObjectRef;
use crate::parse_error::ParseError;
use crate::parser::Parser;
use crate::position::{position_str, Position};
use crate::runtime_error::RuntimeError;
use crate::token::{token_kind_name, Token};
use crate::vm::Vm;
use vstd::prelude::*;
use vstd::string::{StrSliceExecFns, StringExecFns};

verus! {

/// A successful run: the program's result value and the lines `puts` wrote.
#[derive(Debug)]
pub struct RunOutcome {
    pub result: ObjectRef,
    pub output: Vec<String>,
}

/// The first failing stage of the pipeline.
#[derive(Debug)]
pub enum RunnerError {
    Parse(Vec<ParseError>),
    Compile(CompileError),
    Runtime(RuntimeError),
}

/// Copy the accumulated parse errors out of a parser.
fn collect_errors(parser: &Parser) -> (r: Vec<ParseError>)
    ensures
        r@.len() == parser.spec_errors().len(),
{
    let errors = parser.errors();
    let mut out: Vec<ParseError> = Vec::new();
    let mut i: usize = 0;
    while i < errors.len()
        invariant
            errors@.len() == parser.spec_errors().len(),
            i <= errors@.len(),
            out@.len() == i,
        decreases errors@.len() - i,
    {
        let e = &errors[i];
        let message = e.message.clone();
        out.push(ParseError { message, position: e.position });
        i = i + 1;
    }
    out
}

/// Parse, compile, and execute `source`: parse errors, then a compile
/// error, then the program result with the captured output, or the runtime
/// error.
pub fn run_source(source: &str) -> (r: Result<RunOutcome, RunnerError>)
    ensures
        r matches Err(RunnerError::Parse(es)) ==> es@.len() >= 1,
{
    let n = source.unicode_len();
    if n >= usize::MAX - 2 {
        let err = ParseError::new(Position::new(1, 1), "source too large");
        let mut errors: Vec<ParseError> = Vec::new();
        errors.push(err);
        return Err(RunnerError::Parse(errors));
    }
    let mut parser = Parser::new(Lexer::new(source));
    let program = parser.parse_program();
    if parser.errors().len() > 0 {
        return Err(RunnerError::Parse(collect_errors(&parser)));
    }
    let mut compiler = Compiler::new();
    match compiler.compile_program(&program) {
        Ok(_) => {},
        Err(e) => {
            return Err(RunnerError::Compile(e));
        },
    }
    let mut vm = Vm::new(compiler.into_bytecode());
    let result = match vm.run() {
        Ok(v) => v,
        Err(e) => {
            return Err(RunnerError::Runtime(e));
        },
    };
    let output = vm.take_output();
    Ok(RunOutcome { result, output })
}

/// Scan `source` into its token stream, ending with one `Eof` token.
pub fn tokenize(source: &str) -> (tokens: Vec<Token>)
    ensures
        tokens@.len() >= 1,
        tokens@.last().kind == crate::token::TokenKind::Eof,
        forall|i: int|
            0 <= i < tokens@.len() - 1 ==> (#[trigger] tokens@[i]).kind
                != crate::token::TokenKind::Eof,
{
    let n = source.unicode_len();
    if n >= usize::MAX - 2 {
        let mut tokens: Vec<Token> = Vec::new();
        tokens.push(
            Token::new(crate::token::TokenKind::Eof, "", Position::new(1, 1)),
        );
        return tokens;
    }
    Lexer::new(source).tokenize_all()
}

/// One rendered token line: `Kind('literal') @ line:col`.
pub open spec fn token_dump_line(t: Token) -> Seq<char> {
    token_kind_name(t.kind) + "('"@ + t.literal@ + "') @ "@ + position_str(
        t.pos.line as nat,
        t.pos.col as nat,
    )
}

/// The rendered token stream, one line per token.
pub open spec fn tokens_dump(tokens: Seq<Token>) -> Seq<char>
    decreases tokens.len(),
{
    if tokens.len() == 0 {
        Seq::<char>::empty()
    } else if tokens.len() == 1 {
        token_dump_line(tokens[0])
    } else {
        token_dump_line(tokens[0]) + "\n"@ + tokens_dump(tokens.drop_first())
    }
}

/// Render each token of `source` on its own line.
pub fn format_tokens(source: &str) -> (s: String)
    ensures
        exists|ts: Seq<Token>|
            {
                &&& s@ == #[trigger] tokens_dump(ts)
                &&& ts.len() >= 1
                &&& ts.last().kind == crate::token::TokenKind::Eof
                &&& forall|i: int|
                    0 <= i < ts.len() - 1 ==> (#[trigger] ts[i]).kind
                        != crate::token::TokenKind::Eof
            },
{
    let tokens = tokenize(source);
    let mut out = String::new();
    let ghost full = tokens@;
    let mut i: usize = 0;
    proof {
        assert(full.subrange(0, full.len() as int) =~= full);
    }
    while i < tokens.len()
        invariant
            i <= full.len(),
            tokens@ == full,
            tokens_dump(full) == out@ + tokens_dump(full.subrange(i as int, full.len() as int)),
        decreases full.len() - i,
    {
        proof {
            let tail = full.subrange(i as int, full.len() as int);
            assert(tail[0] == full[i as int]);
            assert(tail.drop_first() =~= full.subrange(i as int + 1, full.len() as int));
        }
        let t = &tokens[i];
        out.append(t.kind.name());
        out.append("('");
        out.append(t.literal.as_str());
        out.append("') @ ");
        let ps = t.pos.to_string();
        out.append(ps.as_str());
        if i + 1 < tokens.len() {
            out.append("\n");
        }
        i = i + 1;
    }
    proof {
        assert(full.subrange(full.len() as int, full.len() as int) =~= Seq::<Token>::empty());
        assert(out@ + Seq::<char>::empty() =~= out@);
        assert(out@ == tokens_dump(full));
    }
    out
}

/// Parse `source` and render its abstract syntax tree, or report the parse
/// errors.
pub fn dump_ast(source: &str) -> (r: Result<String, Vec<ParseError>>)
    ensures
        r matches Err(es) ==> es@.len() >= 1,
        r matches Ok(s) ==> exists|p: crate::ast::Program| s@ == #[trigger] crate::ast::program_str(
            p,
        ),
{
    let n = source.unicode_len();
    if n >= usize::MAX - 2 {
        let err = ParseError::new(Position::new(1, 1), "source too large");
        let mut errors: Vec<ParseError> = Vec::new();
        errors.push(err);
        return Err(errors);
    }
    let mut parser = Parser::new(Lexer::new(source));
    let program = parser.parse_program();
    if parser.errors().len() > 0 {
        return Err(collect_errors(&parser));
    }
    let rendered = program.to_string();
    proof {
        assert(rendered@ == crate::ast::program_str(program));
    }
    Ok(rendered)
}

} // verus!
