//! A bytecode compiler and stack-based virtual machine for the Monkey
//! programming language.
//!
//! Source text is scanned into tokens, parsed into an abstract syntax tree,
//! compiled into a byte-encoded instruction stream with a constant pool, and
//! executed by a frame-based virtual machine that supports closures,
//! recursion, builtins, and structured runtime errors with source positions.

pub mod ast;
pub mod builtins;
pub mod bytecode;
pub mod cli;
pub mod compiler;
pub mod lexer;
pub mod object;
pub mod parse_error;
pub mod parser;
pub mod position;
pub mod pretty;
pub mod render;
pub mod repl;
pub mod runner;
pub mod runtime_error;
pub mod symbol_table;
pub mod token;
pub mod vm;

pub use position::Position;
pub use token::{Token, TokenKind};
