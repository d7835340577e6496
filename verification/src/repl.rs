//! The read-eval-print session: multi-line buffering, meta commands, and
//! evaluation over the accumulated history.

use crate::ast::Statement;
use crate::compiler::CompileError;
use crate::lexer::Lexer;
use crate::object::ObjectRef;
use crate::parse_error::ParseError;
use crate::parser::Parser;
use crate::render::{str_chars, str_eq};
use crate::runner::{dump_ast, format_tokens, run_source, RunnerError};
use crate::runtime_error::RuntimeError;
use vstd::prelude::*;
use vstd::string::{StrSliceExecFns, StringExecFns};

verus! {

/// The mascot shown above parse errors.
fn monkey_face() -> &'static str {
    "            __,____\n   .--.  .-\"     \"-.  .--.\n  / .. \\/  .-. .-.  \\/ .. \\\n | |  '|  /   Y   \\  |'  | |\n | \\   \\  \\ 0 | 0 /  /   / |\n  \\ '- ,\\.-\"`` ``\"-./, -' /\n   `'-' /_   ^ ^   _\\ '-'`\n       |  \\._   _./  |\n       \\   \\ `~` /   /\n        '._ '-=-' _.'\n           '-----'"
}

/// What evaluating one line of input produced.
#[derive(Debug)]
pub enum ReplEvalResult {
    Empty,
    Value { result: ObjectRef, output: Vec<String> },
    ParseErrors(Vec<ParseError>),
    CompileError(CompileError),
    RuntimeError(RuntimeError),
    MetaOutput(String),
    ExitRequested,
}

/// Render accumulated parse errors under the mascot.
pub fn format_parse_errors(errors: &Vec<ParseError>) -> (s: String) {
    let mut out: String = monkey_face().to_owned();
    out.append("\nWoops! We ran into some monkey business here!\n parser errors:");
    let mut i: usize = 0;
    while i < errors.len()
        decreases errors@.len() - i,
    {
        out.append("\n  - ");
        let rendered = errors[i].to_string();
        out.append(rendered.as_str());
        i = i + 1;
    }
    out
}

/// Whether `a` precedes `b` in character order.
fn str_less(a: &str, b: &str) -> bool {
    let av = str_chars(a);
    let bv = str_chars(b);
    let mut i: usize = 0;
    loop
        invariant
            i <= av@.len(),
            i <= bv@.len(),
        decreases av@.len() - i,
    {
        if i >= av.len() {
            return i < bv.len();
        }
        if i >= bv.len() {
            return false;
        }
        let ca = av[i] as u32;
        let cb = bv[i] as u32;
        if ca < cb {
            return true;
        }
        if ca > cb {
            return false;
        }
        i = i + 1;
    }
}

/// Trim trailing carriage returns and newlines.
fn trim_newlines(line: &str) -> String {
    let chars = str_chars(line);
    let mut end: usize = chars.len();
    while end > 0
        invariant
            end <= chars@.len(),
        decreases end,
    {
        let c = chars[end - 1];
        if c == '\n' || c == '\r' {
            end = end - 1;
        } else {
            break ;
        }
    }
    crate::render::chars_to_string(vstd::slice::slice_subrange(chars.as_slice(), 0, end))
}

/// Trim leading and trailing spaces, tabs, carriage returns, and newlines.
fn trim_spaces(line: &str) -> String {
    let chars = str_chars(line);
    let mut start: usize = 0;
    let mut end: usize = chars.len();
    while start < end
        invariant
            start <= end,
            end <= chars@.len(),
        decreases end - start,
    {
        let c = chars[start];
        if c == ' ' || c == '\t' || c == '\n' || c == '\r' {
            start = start + 1;
        } else {
            break ;
        }
    }
    while end > start
        invariant
            start <= end,
            end <= chars@.len(),
        decreases end,
    {
        let c = chars[end - 1];
        if c == ' ' || c == '\t' || c == '\n' || c == '\r' {
            end = end - 1;
        } else {
            break ;
        }
    }
    crate::render::chars_to_string(vstd::slice::slice_subrange(chars.as_slice(), start, end))
}

/// Stateful session that preserves definitions across inputs.
#[derive(Debug)]
pub struct ReplSession {
    history: Vec<String>,
    bindings: Vec<String>,
    pending_lines: Vec<String>,
}

/// Join lines with newlines.
fn join_lines(lines: &Vec<String>) -> String {
    let mut out = String::new();
    let mut i: usize = 0;
    while i < lines.len()
        decreases lines@.len() - i,
    {
        if i > 0 {
            out.append("\n");
        }
        out.append(lines[i].as_str());
        i = i + 1;
    }
    out
}

/// Whether every parenthesis, brace, bracket, and string quote of `source`
/// is closed, so the buffered input forms a complete unit. An extra closer
/// counts as complete so the parser can report it.
fn is_complete_source(source: &str) -> bool {
    let chars = str_chars(source);
    let n = chars.len();
    let mut paren: usize = 0;
    let mut brace: usize = 0;
    let mut bracket: usize = 0;
    let mut in_string = false;
    let mut in_comment = false;
    let mut i: usize = 0;
    while i < n
        invariant
            i <= chars@.len(),
            n == chars@.len(),
            paren <= i,
            brace <= i,
            bracket <= i,
        decreases n - i,
    {
        let c = chars[i];
        if in_string {
            if c == '"' {
                in_string = false;
            }
        } else if in_comment {
            if c == '\n' {
                in_comment = false;
            }
        } else if c == '#' {
            in_comment = true;
        } else if c == '"' {
            in_string = true;
        } else if c == '(' {
            paren = paren + 1;
        } else if c == ')' {
            if paren == 0 {
                return true;
            }
            paren = paren - 1;
        } else if c == '{' {
            brace = brace + 1;
        } else if c == '}' {
            if brace == 0 {
                return true;
            }
            brace = brace - 1;
        } else if c == '[' {
            bracket = bracket + 1;
        } else if c == ']' {
            if bracket == 0 {
                return true;
            }
            bracket = bracket - 1;
        }
        i = i + 1;
    }
    !in_string && paren == 0 && brace == 0 && bracket == 0
}

impl ReplSession {
    /// A session with no history, bindings, or buffered lines.
    pub fn new() -> (s: Self)
        ensures
            s.spec_history().len() == 0,
    {
        Self { history: Vec::new(), bindings: Vec::new(), pending_lines: Vec::new() }
    }

    /// The successfully evaluated inputs so far.
    pub closed spec fn spec_history(self) -> Seq<String> {
        self.history@
    }

    /// Evaluate one line of input: buffer it until the input is complete,
    /// then run the whole history with it; a leading `:` invokes a meta
    /// command.
    pub fn eval_line(&mut self, line: &str) -> (r: ReplEvalResult) {
        let raw = trim_newlines(line);
        let trimmed = trim_spaces(raw.as_str());
        if trimmed.as_str().is_empty() {
            return ReplEvalResult::Empty;
        }
        let trimmed_chars = str_chars(trimmed.as_str());
        if self.pending_lines.len() == 0 && trimmed_chars.len() > 0 && trimmed_chars[0] == ':' {
            return self.eval_meta(trimmed.as_str());
        }
        self.pending_lines.push(raw);
        let pending_source = join_lines(&self.pending_lines);
        if !is_complete_source(pending_source.as_str()) {
            return ReplEvalResult::Empty;
        }
        let mut all: Vec<String> = Vec::new();
        let mut i: usize = 0;
        while i < self.history.len()
            decreases self.history@.len() - i,
        {
            all.push(self.history[i].clone());
            i = i + 1;
        }
        let mut j: usize = 0;
        while j < self.pending_lines.len()
            decreases self.pending_lines@.len() - j,
        {
            all.push(self.pending_lines[j].clone());
            j = j + 1;
        }
        let source = join_lines(&all);
        let result = match run_source(source.as_str()) {
            Ok(outcome) => {
                let mut k: usize = 0;
                while k < self.pending_lines.len()
                    decreases self.pending_lines@.len() - k,
                {
                    self.history.push(self.pending_lines[k].clone());
                    k = k + 1;
                }
                self.remember_bindings_from_source(pending_source.as_str());
                ReplEvalResult::Value { result: outcome.result, output: outcome.output }
            },
            Err(RunnerError::Parse(errors)) => ReplEvalResult::ParseErrors(errors),
            Err(RunnerError::Compile(err)) => ReplEvalResult::CompileError(err),
            Err(RunnerError::Runtime(err)) => ReplEvalResult::RuntimeError(err),
        };
        self.pending_lines.clear();
        result
    }

    /// Evaluate a `:` meta command.
    fn eval_meta(&self, line: &str) -> ReplEvalResult {
        let chars = str_chars(line);
        if chars.len() == 0 {
            return ReplEvalResult::MetaOutput("Unknown command: :".to_owned());
        }
        let mut split: usize = 1;
        while split < chars.len()
            invariant
                1 <= split,
                split <= chars@.len(),
            decreases chars@.len() - split,
        {
            let c = chars[split];
            if c == ' ' || c == '\t' || c == '\n' || c == '\r' {
                break ;
            }
            split = split + 1;
        }
        let cmd = crate::render::chars_to_string(
            vstd::slice::slice_subrange(chars.as_slice(), 1, split),
        );
        let arg_raw = crate::render::chars_to_string(
            vstd::slice::slice_subrange(chars.as_slice(), split, chars.len()),
        );
        let arg = trim_spaces(arg_raw.as_str());
        if str_eq(cmd.as_str(), "help") {
            ReplEvalResult::MetaOutput(
                "Commands: :help, :tokens [input], :ast [input], :env, :quit, :exit".to_owned(),
            )
        } else if str_eq(cmd.as_str(), "tokens") {
            let src: String = if arg.as_str().is_empty() {
                if self.history.len() == 0 {
                    String::new()
                } else {
                    self.history[self.history.len() - 1].clone()
                }
            } else {
                arg
            };
            if src.as_str().is_empty() {
                ReplEvalResult::MetaOutput("TOKENS:\n  (no input)".to_owned())
            } else {
                let body = format_tokens(src.as_str());
                let mut out: String = "TOKENS:".to_owned();
                let indented = indent_lines(body.as_str());
                out.append(indented.as_str());
                ReplEvalResult::MetaOutput(out)
            }
        } else if str_eq(cmd.as_str(), "ast") {
            let src: String = if arg.as_str().is_empty() {
                if self.history.len() == 0 {
                    String::new()
                } else {
                    self.history[self.history.len() - 1].clone()
                }
            } else {
                arg
            };
            if src.as_str().is_empty() {
                ReplEvalResult::MetaOutput("AST:\n  (no input)".to_owned())
            } else {
                match dump_ast(src.as_str()) {
                    Ok(ast) => {
                        let mut out: String = "AST:\n  ".to_owned();
                        out.append(ast.as_str());
                        ReplEvalResult::MetaOutput(out)
                    },
                    Err(errors) => {
                        let mut out: String = "AST parse errors:".to_owned();
                        let mut i: usize = 0;
                        while i < errors.len()
                            decreases errors@.len() - i,
                        {
                            out.append("\n  - ");
                            let rendered = errors[i].to_string();
                            out.append(rendered.as_str());
                            i = i + 1;
                        }
                        ReplEvalResult::MetaOutput(out)
                    },
                }
            }
        } else if str_eq(cmd.as_str(), "env") {
            ReplEvalResult::MetaOutput(self.render_env())
        } else if str_eq(cmd.as_str(), "quit") || str_eq(cmd.as_str(), "exit") {
            ReplEvalResult::ExitRequested
        } else {
            let mut out: String = "Unknown command: :".to_owned();
            out.append(cmd.as_str());
            ReplEvalResult::MetaOutput(out)
        }
    }

    /// Record the names bound by `let` statements of freshly accepted input.
    fn remember_bindings_from_source(&mut self, source: &str) {
        let n = source.unicode_len();
        if n >= usize::MAX - 2 {
            return ;
        }
        let mut parser = Parser::new(Lexer::new(source));
        let program = parser.parse_program();
        if parser.errors().len() > 0 {
            return ;
        }
        let mut i: usize = 0;
        while i < program.statements.len()
            decreases program.statements@.len() - i,
        {
            match &program.statements[i] {
                Statement::Let { name, .. } => {
                    self.insert_binding(name.value.as_str());
                },
                _ => {},
            }
            i = i + 1;
        }
    }

    /// Insert a binding name, keeping the list sorted without duplicates.
    fn insert_binding(&mut self, name: &str) {
        let mut k: usize = 0;
        while k < self.bindings.len()
            invariant
                k <= self.bindings@.len(),
            decreases self.bindings@.len() - k,
        {
            if str_eq(self.bindings[k].as_str(), name) {
                return ;
            }
            if str_less(name, self.bindings[k].as_str()) {
                break ;
            }
            k = k + 1;
        }
        self.bindings.insert(k, name.to_owned());
    }

    /// Render the current bindings with their values.
    fn render_env(&self) -> String {
        if self.bindings.len() == 0 {
            return "ENV:\n  (empty)".to_owned();
        }
        let mut out: String = "ENV:".to_owned();
        let mut i: usize = 0;
        while i < self.bindings.len()
            decreases self.bindings@.len() - i,
        {
            out.append("\n  ");
            out.append(self.bindings[i].as_str());
            out.append(" = ");
            let value = self.resolve_binding_value(self.bindings[i].as_str());
            out.append(value.as_str());
            i = i + 1;
        }
        out
    }

    /// Evaluate the history plus a reference to `name` to show its value.
    fn resolve_binding_value(&self, name: &str) -> String {
        let mut all: Vec<String> = Vec::new();
        let mut i: usize = 0;
        while i < self.history.len()
            decreases self.history@.len() - i,
        {
            all.push(self.history[i].clone());
            i = i + 1;
        }
        let mut reference: String = name.to_owned();
        reference.append(";");
        all.push(reference);
        let source = join_lines(&all);
        match run_source(source.as_str()) {
            Ok(outcome) => (&*outcome.result).inspect(),
            Err(RunnerError::Parse(errs)) => {
                let mut out: String = "<parse error: ".to_owned();
                crate::render::push_usize(&mut out, errs.len());
                out.append(">");
                out
            },
            Err(RunnerError::Compile(err)) => {
                let mut out: String = "<compile error: ".to_owned();
                let rendered = err.to_string();
                out.append(rendered.as_str());
                out.append(">");
                out
            },
            Err(RunnerError::Runtime(err)) => {
                let mut out: String = "<runtime error: ".to_owned();
                out.append(err.error_type.code());
                out.append(">");
                out
            },
        }
    }
}

/// Indent every line of `body` by two spaces, each line preceded by a
/// newline.
fn indent_lines(body: &str) -> String {
    let chars = str_chars(body);
    let mut out: String = String::new();
    let mut line_start = true;
    let mut i: usize = 0;
    while i < chars.len()
        decreases chars@.len() - i,
    {
        if line_start {
            out.append("\n  ");
            line_start = false;
        }
        let c = chars[i];
        if c == '\n' {
            line_start = true;
        } else {
            let cs = crate::render::char_to_string(c);
            out.append(cs.as_str());
        }
        i = i + 1;
    }
    out
}

} // verus!
