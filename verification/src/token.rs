//! Lexical tokens: the token kinds of the Monkey language, tokens with their
//! literal text and source position, and keyword lookup.

use crate::position::{position_str, Position};
use crate::render::str_eq;
use vstd::prelude::*;
use vstd::string::StringExecFns;

verus! {

/// Token kinds recognized by the Monkey language.
#[derive(Debug, Clone, Copy, PartialEq, Eq, Hash, Structural)]
pub enum TokenKind {
    Illegal,
    Eof,
    Ident,
    Int,
    String,
    Assign,
    Plus,
    Minus,
    Bang,
    Asterisk,
    Slash,
    Lt,
    Gt,
    Eq,
    NotEq,
    Le,
    Ge,
    And,
    Or,
    Comma,
    Semicolon,
    Colon,
    LParen,
    RParen,
    LBrace,
    RBrace,
    LBracket,
    RBracket,
    Function,
    Let,
    True,
    False,
    If,
    Else,
    Return,
    While,
    Break,
    Continue,
}

/// The display name of a token kind.
pub open spec fn token_kind_name(k: TokenKind) -> Seq<char> {
    match k {
        TokenKind::Illegal => "Illegal"@,
        TokenKind::Eof => "Eof"@,
        TokenKind::Ident => "Ident"@,
        TokenKind::Int => "Int"@,
        TokenKind::String => "String"@,
        TokenKind::Assign => "Assign"@,
        TokenKind::Plus => "Plus"@,
        TokenKind::Minus => "Minus"@,
        TokenKind::Bang => "Bang"@,
        TokenKind::Asterisk => "Asterisk"@,
        TokenKind::Slash => "Slash"@,
        TokenKind::Lt => "Lt"@,
        TokenKind::Gt => "Gt"@,
        TokenKind::Eq => "Eq"@,
        TokenKind::NotEq => "NotEq"@,
        TokenKind::Le => "Le"@,
        TokenKind::Ge => "Ge"@,
        TokenKind::And => "And"@,
        TokenKind::Or => "Or"@,
        TokenKind::Comma => "Comma"@,
        TokenKind::Semicolon => "Semicolon"@,
        TokenKind::Colon => "Colon"@,
        TokenKind::LParen => "LParen"@,
        TokenKind::RParen => "RParen"@,
        TokenKind::LBrace => "LBrace"@,
        TokenKind::RBrace => "RBrace"@,
        TokenKind::LBracket => "LBracket"@,
        TokenKind::RBracket => "RBracket"@,
        TokenKind::Function => "Function"@,
        TokenKind::Let => "Let"@,
        TokenKind::True => "True"@,
        TokenKind::False => "False"@,
        TokenKind::If => "If"@,
        TokenKind::Else => "Else"@,
        TokenKind::Return => "Return"@,
        TokenKind::While => "While"@,
        TokenKind::Break => "Break"@,
        TokenKind::Continue => "Continue"@,
    }
}

impl TokenKind {
    /// The display name of this token kind.
    pub fn name(&self) -> (s: &'static str)
        ensures
            s@ == token_kind_name(*self),
    {
        match self {
            TokenKind::Illegal => "Illegal",
            TokenKind::Eof => "Eof",
            TokenKind::Ident => "Ident",
            TokenKind::Int => "Int",
            TokenKind::String => "String",
            TokenKind::Assign => "Assign",
            TokenKind::Plus => "Plus",
            TokenKind::Minus => "Minus",
            TokenKind::Bang => "Bang",
            TokenKind::Asterisk => "Asterisk",
            TokenKind::Slash => "Slash",
            TokenKind::Lt => "Lt",
            TokenKind::Gt => "Gt",
            TokenKind::Eq => "Eq",
            TokenKind::NotEq => "NotEq",
            TokenKind::Le => "Le",
            TokenKind::Ge => "Ge",
            TokenKind::And => "And",
            TokenKind::Or => "Or",
            TokenKind::Comma => "Comma",
            TokenKind::Semicolon => "Semicolon",
            TokenKind::Colon => "Colon",
            TokenKind::LParen => "LParen",
            TokenKind::RParen => "RParen",
            TokenKind::LBrace => "LBrace",
            TokenKind::RBrace => "RBrace",
            TokenKind::LBracket => "LBracket",
            TokenKind::RBracket => "RBracket",
            TokenKind::Function => "Function",
            TokenKind::Let => "Let",
            TokenKind::True => "True",
            TokenKind::False => "False",
            TokenKind::If => "If",
            TokenKind::Else => "Else",
            TokenKind::Return => "Return",
            TokenKind::While => "While",
            TokenKind::Break => "Break",
            TokenKind::Continue => "Continue",
        }
    }

    /// The display name of this token kind as an owned string.
    pub fn to_string(&self) -> (s: String)
        ensures
            s@ == token_kind_name(*self),
    {
        self.name().to_owned()
    }
}

/// Token with literal text and source position.
#[derive(Debug, PartialEq, Eq)]
pub struct Token {
    pub kind: TokenKind,
    pub literal: String,
    pub pos: Position,
}

impl Clone for Token {
    /// An equal copy of the token.
    fn clone(&self) -> (r: Self)
        ensures
            r == *self,
    {
        Token { kind: self.kind, literal: self.literal.clone(), pos: self.pos }
    }
}

/// The rendered form of a token: `Kind("literal") @ line:col`.
pub open spec fn token_str(kind: TokenKind, literal: Seq<char>, pos: Position) -> Seq<char> {
    token_kind_name(kind) + "(\""@ + literal + "\") @ "@ + position_str(
        pos.line as nat,
        pos.col as nat,
    )
}

impl Token {
    /// Build a token from its kind, literal text, and position.
    pub fn new(kind: TokenKind, literal: &str, pos: Position) -> (t: Self)
        ensures
            t.kind == kind,
            t.literal@ == literal@,
            t.pos == pos,
    {
        Self { kind, literal: literal.to_owned(), pos }
    }

    /// Render the token as `Kind("literal") @ line:col`.
    pub fn to_string(&self) -> (s: String)
        ensures
            s@ == token_str(self.kind, self.literal@, self.pos),
    {
        let mut out = self.kind.name().to_owned();
        out.append("(\"");
        out.append(self.literal.as_str());
        out.append("\") @ ");
        out.append(self.pos.to_string().as_str());
        out
    }
}

/// The keyword token kind for an identifier's text, or `Ident` when the text
/// is not a keyword.
pub open spec fn lookup_ident_spec(s: Seq<char>) -> TokenKind {
    if s == "fn"@ {
        TokenKind::Function
    } else if s == "let"@ {
        TokenKind::Let
    } else if s == "true"@ {
        TokenKind::True
    } else if s == "false"@ {
        TokenKind::False
    } else if s == "if"@ {
        TokenKind::If
    } else if s == "else"@ {
        TokenKind::Else
    } else if s == "return"@ {
        TokenKind::Return
    } else if s == "while"@ {
        TokenKind::While
    } else if s == "break"@ {
        TokenKind::Break
    } else if s == "continue"@ {
        TokenKind::Continue
    } else {
        TokenKind::Ident
    }
}

/// Resolve identifier text to keyword tokens when applicable.
pub fn lookup_ident(ident: &str) -> (k: TokenKind)
    ensures
        k == lookup_ident_spec(ident@),
{
    if str_eq(ident, "fn") {
        TokenKind::Function
    } else if str_eq(ident, "let") {
        TokenKind::Let
    } else if str_eq(ident, "true") {
        TokenKind::True
    } else if str_eq(ident, "false") {
        TokenKind::False
    } else if str_eq(ident, "if") {
        TokenKind::If
    } else if str_eq(ident, "else") {
        TokenKind::Else
    } else if str_eq(ident, "return") {
        TokenKind::Return
    } else if str_eq(ident, "while") {
        TokenKind::While
    } else if str_eq(ident, "break") {
        TokenKind::Break
    } else if str_eq(ident, "continue") {
        TokenKind::Continue
    } else {
        TokenKind::Ident
    }
}

} // verus!
