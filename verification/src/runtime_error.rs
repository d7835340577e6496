//! Runtime error taxonomy: stable string codes, frame information for stack
//! traces, and single-line and multi-line rendering.

use crate::position::{position_str, Position};
use crate::render::dec_seq;
use vstd::prelude::*;
use vstd::string::StringExecFns;

verus! {

/// Runtime error categories with stable codes.
#[derive(Debug, Clone, Copy, PartialEq, Eq, Hash, Structural)]
pub enum RuntimeErrorType {
    TypeMismatch,
    UnknownIdentifier,
    NotCallable,
    WrongArgumentCount,
    InvalidArgumentType,
    InvalidControlFlow,
    InvalidIndex,
    Unhashable,
    DivisionByZero,
    UnsupportedOperation,
}

/// The stable code of a runtime error category.
pub open spec fn error_code(t: RuntimeErrorType) -> Seq<char> {
    match t {
        RuntimeErrorType::TypeMismatch => "TYPE_MISMATCH"@,
        RuntimeErrorType::UnknownIdentifier => "UNKNOWN_IDENTIFIER"@,
        RuntimeErrorType::NotCallable => "NOT_CALLABLE"@,
        RuntimeErrorType::WrongArgumentCount => "WRONG_ARGUMENT_COUNT"@,
        RuntimeErrorType::InvalidArgumentType => "INVALID_ARGUMENT_TYPE"@,
        RuntimeErrorType::InvalidControlFlow => "INVALID_CONTROL_FLOW"@,
        RuntimeErrorType::InvalidIndex => "INVALID_INDEX"@,
        RuntimeErrorType::Unhashable => "UNHASHABLE"@,
        RuntimeErrorType::DivisionByZero => "DIVISION_BY_ZERO"@,
        RuntimeErrorType::UnsupportedOperation => "UNSUPPORTED_OPERATION"@,
    }
}

impl RuntimeErrorType {
    /// The stable code of this category.
    pub fn code(&self) -> (s: &'static str)
        ensures
            s@ == error_code(*self),
    {
        match self {
            RuntimeErrorType::TypeMismatch => "TYPE_MISMATCH",
            RuntimeErrorType::UnknownIdentifier => "UNKNOWN_IDENTIFIER",
            RuntimeErrorType::NotCallable => "NOT_CALLABLE",
            RuntimeErrorType::WrongArgumentCount => "WRONG_ARGUMENT_COUNT",
            RuntimeErrorType::InvalidArgumentType => "INVALID_ARGUMENT_TYPE",
            RuntimeErrorType::InvalidControlFlow => "INVALID_CONTROL_FLOW",
            RuntimeErrorType::InvalidIndex => "INVALID_INDEX",
            RuntimeErrorType::Unhashable => "UNHASHABLE",
            RuntimeErrorType::DivisionByZero => "DIVISION_BY_ZERO",
            RuntimeErrorType::UnsupportedOperation => "UNSUPPORTED_OPERATION",
        }
    }

    /// The stable code of this category as an owned string.
    pub fn to_string(&self) -> (s: String)
        ensures
            s@ == error_code(*self),
    {
        self.code().to_owned()
    }
}

/// Runtime stack frame information for error reporting.
#[derive(Debug, Clone, PartialEq, Eq)]
pub struct StackFrameInfo {
    pub function_name: String,
    pub pos: Position,
    pub arg_count: Option<usize>,
}

/// The rendered form of one stack frame.
pub open spec fn frame_str(f: StackFrameInfo) -> Seq<char> {
    match f.arg_count {
        Some(n) => "at "@ + f.function_name@ + seq!['('] + dec_seq(n as nat) + " args) @ "@
            + position_str(f.pos.line as nat, f.pos.col as nat),
        None => "at "@ + f.function_name@ + " @ "@ + position_str(
            f.pos.line as nat,
            f.pos.col as nat,
        ),
    }
}

impl StackFrameInfo {
    /// Build a frame with no recorded argument count.
    pub fn new(function_name: &str, pos: Position) -> (f: Self)
        ensures
            f.function_name@ == function_name@,
            f.pos == pos,
            f.arg_count is None,
    {
        Self { function_name: function_name.to_owned(), pos, arg_count: None }
    }

    /// The same frame with its argument count recorded.
    pub fn with_arg_count(self, arg_count: usize) -> (f: Self)
        ensures
            f.function_name == self.function_name,
            f.pos == self.pos,
            f.arg_count == Some(arg_count),
    {
        let mut f = self;
        f.arg_count = Some(arg_count);
        f
    }

    /// Render the frame as `at name(n args) @ line:col`, without the
    /// argument list when no count is recorded.
    pub fn format_frame(&self) -> (s: String)
        ensures
            s@ == frame_str(*self),
    {
        let mut out: String = "at ".to_owned();
        out.append(self.function_name.as_str());
        match &self.arg_count {
            Some(n) => {
                proof { reveal_strlit("("); }
                out.append("(");
                crate::render::push_usize(&mut out, *n);
                out.append(" args) @ ");
            },
            None => {
                out.append(" @ ");
            },
        }
        let ps = self.pos.to_string();
        out.append(ps.as_str());
        out
    }
}

/// Structured runtime error with source position and optional stack trace.
#[derive(Debug, Clone, PartialEq, Eq)]
pub struct RuntimeError {
    pub error_type: RuntimeErrorType,
    pub message: String,
    pub pos: Position,
    pub stack: Vec<StackFrameInfo>,
}

/// The single-line rendering: `Error[CODE] at line:col: message`.
pub open spec fn error_single_line(e: RuntimeError) -> Seq<char> {
    "Error["@ + error_code(e.error_type) + "] at "@ + position_str(
        e.pos.line as nat,
        e.pos.col as nat,
    ) + ": "@ + e.message@
}

/// The rendered stack frames, each on its own line indented by two spaces.
pub open spec fn stack_render(stack: Seq<StackFrameInfo>) -> Seq<char>
    decreases stack.len(),
{
    if stack.len() == 0 {
        Seq::<char>::empty()
    } else if stack.len() == 1 {
        "  "@ + frame_str(stack[0])
    } else {
        "  "@ + frame_str(stack[0]) + seq!['\n'] + stack_render(stack.drop_first())
    }
}

/// The multi-line rendering: the single line, then `Stack trace:` and one
/// line per frame, innermost first; just the single line when the stack is
/// empty.
pub open spec fn error_multiline(e: RuntimeError) -> Seq<char> {
    if e.stack@.len() == 0 {
        error_single_line(e)
    } else {
        error_single_line(e) + "\nStack trace:\n"@ + stack_render(e.stack@)
    }
}

impl RuntimeError {
    /// Build an error with an empty stack.
    pub fn new(error_type: RuntimeErrorType, message: &str, pos: Position) -> (e: Self)
        ensures
            e.error_type == error_type,
            e.message@ == message@,
            e.pos == pos,
            e.stack@ == Seq::<StackFrameInfo>::empty(),
    {
        Self { error_type, message: message.to_owned(), pos, stack: Vec::new() }
    }

    /// Build an error with an empty stack, position first.
    pub fn at(error_type: RuntimeErrorType, pos: Position, message: &str) -> (e: Self)
        ensures
            e.error_type == error_type,
            e.message@ == message@,
            e.pos == pos,
            e.stack@ == Seq::<StackFrameInfo>::empty(),
    {
        Self::new(error_type, message, pos)
    }

    /// The same error carrying the given stack.
    pub fn with_stack(self, stack: Vec<StackFrameInfo>) -> (e: Self)
        ensures
            e.error_type == self.error_type,
            e.message == self.message,
            e.pos == self.pos,
            e.stack == stack,
    {
        let mut e = self;
        e.stack = stack;
        e
    }

    /// The same error with one more frame pushed on its stack.
    pub fn with_frame(self, frame: StackFrameInfo) -> (e: Self)
        ensures
            e.error_type == self.error_type,
            e.message == self.message,
            e.pos == self.pos,
            e.stack@ == self.stack@.push(frame),
    {
        let mut e = self;
        e.stack.push(frame);
        e
    }

    /// Push one more frame on the error's stack.
    pub fn push_frame(&mut self, frame: StackFrameInfo)
        ensures
            final(self).error_type == old(self).error_type,
            final(self).message == old(self).message,
            final(self).pos == old(self).pos,
            final(self).stack@ == old(self).stack@.push(frame),
    {
        self.stack.push(frame);
    }

    /// Render the error on a single line.
    pub fn format_single_line(&self) -> (s: String)
        ensures
            s@ == error_single_line(*self),
    {
        let mut out: String = "Error[".to_owned();
        out.append(self.error_type.code());
        out.append("] at ");
        let ps = self.pos.to_string();
        out.append(ps.as_str());
        out.append(": ");
        out.append(self.message.as_str());
        out
    }

    /// Render the error with its stack trace, innermost frame first.
    pub fn format_multiline(&self) -> (s: String)
        ensures
            s@ == error_multiline(*self),
    {
        if self.stack.len() == 0 {
            return self.format_single_line();
        }
        let mut out = self.format_single_line();
        out.append("\nStack trace:\n");
        let ghost frames = self.stack@;
        let ghost base = out@;
        let mut i: usize = 0;
        proof {
            assert(frames.subrange(0, frames.len() as int) =~= frames);
        }
        while i < self.stack.len()
            invariant
                0 < frames.len(),
                i <= frames.len(),
                self.stack@ == frames,
                base + stack_render(frames) == out@ + stack_render(
                    frames.subrange(i as int, frames.len() as int),
                ),
            decreases frames.len() - i,
        {
            proof {
                let tail = frames.subrange(i as int, frames.len() as int);
                assert(tail[0] == frames[i as int]);
                assert(tail.drop_first() =~= frames.subrange(i as int + 1, frames.len() as int));
                reveal_strlit("\n");
            }
            out.append("  ");
            let fs = self.stack[i].format_frame();
            out.append(fs.as_str());
            if i + 1 < self.stack.len() {
                out.append("\n");
            }
            proof {
                let tail = frames.subrange(i as int, frames.len() as int);
                if tail.len() == 1 {
                    assert(stack_render(tail) == "  "@ + frame_str(frames[i as int]));
                    assert(frames.subrange(i as int + 1, frames.len() as int).len() == 0);
                } else {
                    assert(stack_render(tail) == "  "@ + frame_str(frames[i as int]) + seq!['\n']
                        + stack_render(frames.subrange(i as int + 1, frames.len() as int)));
                }
            }
            i = i + 1;
        }
        proof {
            assert(frames.subrange(frames.len() as int, frames.len() as int)
                =~= Seq::<StackFrameInfo>::empty());
            assert(stack_render(Seq::<StackFrameInfo>::empty()) == Seq::<char>::empty());
            assert(out@ + Seq::<char>::empty() =~= out@);
        }
        out
    }

    /// Render the error on a single line.
    pub fn to_string(&self) -> (s: String)
        ensures
            s@ == error_single_line(*self),
    {
        self.format_single_line()
    }
}

} // verus!
