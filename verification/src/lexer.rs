//! The scanner: turns source text into a token stream.

use crate::position::Position;
use crate::render::{char_to_string, chars_to_string, str_chars};
use crate::token::{lookup_ident, Token, TokenKind};
use vstd::prelude::*;

verus! {

/// Whether a character can start an identifier.
pub open spec fn is_ident_start_spec(c: char) -> bool {
    c == '_' || ('a' <= c && c <= 'z') || ('A' <= c && c <= 'Z')
}

/// Whether a character can continue an identifier.
pub open spec fn is_ident_continue_spec(c: char) -> bool {
    is_ident_start_spec(c) || ('0' <= c && c <= '9')
}

/// Whether a character is an ASCII decimal digit.
pub open spec fn is_digit_spec(c: char) -> bool {
    '0' <= c && c <= '9'
}

/// Whether the scanner skips a character as whitespace.
pub open spec fn is_space_spec(c: char) -> bool {
    c == ' ' || c == '\t' || c == '\r' || c == '\n'
}

fn is_ident_start(c: char) -> (r: bool)
    ensures
        r == is_ident_start_spec(c),
{
    c == '_' || (c >= 'a' && c <= 'z') || (c >= 'A' && c <= 'Z')
}

fn is_ident_continue(c: char) -> (r: bool)
    ensures
        r == is_ident_continue_spec(c),
{
    is_ident_start(c) || (c >= '0' && c <= '9')
}

fn is_digit(c: char) -> (r: bool)
    ensures
        r == is_digit_spec(c),
{
    c >= '0' && c <= '9'
}

fn is_space(c: char) -> (r: bool)
    ensures
        r == is_space_spec(c),
{
    c == ' ' || c == '\t' || c == '\r' || c == '\n'
}

/// Lexer for Monkey source input.
#[derive(Debug, Clone)]
pub struct Lexer {
    source: String,
    input: Vec<char>,
    position: usize,
    read_position: usize,
    ch: Option<char>,
    line: usize,
    col: usize,
}

impl Lexer {
    /// The scanner state is consistent: the current character mirrors the
    /// cursor, positions stay within the input, and line and column counts
    /// stay bounded by the progress made.
    pub closed spec fn wf(self) -> bool {
        &&& self.source@ == self.input@
        &&& self.input@.len() + 2 < usize::MAX
        &&& self.position <= self.input@.len()
        &&& self.read_position <= self.input@.len()
        &&& match self.ch {
            Some(c) => self.position < self.input@.len() && self.input@[self.position as int] == c
                && self.read_position == self.position + 1,
            None => self.position == self.read_position && self.position == self.input@.len(),
        }
        &&& 1 <= self.line
        &&& self.line <= self.position + 1
        &&& self.col <= self.position + 1
    }

    /// The characters of the input not yet consumed.
    pub closed spec fn fuel(self) -> int {
        self.input@.len() - self.position
    }

    /// The full source text the lexer was built over.
    pub closed spec fn spec_input(self) -> Seq<char> {
        self.source@
    }

    /// Build a lexer over `input`, positioned at its first character.
    pub fn new(input: &str) -> (l: Self)
        requires
            input@.len() + 2 < usize::MAX,
        ensures
            l.wf(),
            l.spec_input() == input@,
    {
        let source: String = input.to_owned();
        let chars = str_chars(input);
        let mut lexer = Self {
            input: chars,
            source,
            position: 0,
            read_position: 0,
            ch: None,
            line: 1,
            col: 0,
        };
        if lexer.read_position < lexer.input.len() {
            lexer.ch = Some(lexer.input[lexer.read_position]);
            lexer.position = lexer.read_position;
            lexer.read_position = lexer.read_position + 1;
        } else {
            lexer.position = lexer.read_position;
            lexer.ch = None;
        }
        lexer.line = 1;
        lexer.col = 1;
        proof {
            if lexer.input@.len() == 0 {
                assert(lexer.wf());
            } else {
                assert(lexer.wf());
            }
        }
        lexer
    }

    /// The source text.
    pub fn input(&self) -> (s: &str)
        ensures
            s@ == self.spec_input(),
    {
        self.source.as_str()
    }

    /// Advance the cursor one character, updating line and column.
    fn read_char(&mut self)
        requires
            old(self).wf(),
        ensures
            final(self).wf(),
            final(self).spec_input() == old(self).spec_input(),
            old(self).ch is Some ==> final(self).fuel() == old(self).fuel() - 1,
            old(self).ch is None ==> *final(self) == *old(self),
    {
        if self.ch.is_none() {
            return ;
        }
        let prev = self.ch;
        match prev {
            Some(c) => {
                if c == '\n' {
                    self.line = self.line + 1;
                    self.col = 1;
                } else {
                    self.col = self.col + 1;
                }
            },
            None => {},
        }
        if self.read_position < self.input.len() {
            self.position = self.read_position;
            self.read_position = self.read_position + 1;
            self.ch = Some(self.input[self.position]);
        } else {
            self.position = self.read_position;
            self.ch = None;
        }
    }

    /// The character after the current one, if any.
    fn peek_char(&self) -> (r: Option<char>)
        requires
            self.wf(),
    {
        if self.read_position < self.input.len() {
            Some(self.input[self.read_position])
        } else {
            None
        }
    }

    /// The current source position.
    fn current_pos(&self) -> (p: Position)
        requires
            self.wf(),
        ensures
            p.line >= 1,
    {
        Position::new(self.line, if self.col == 0 {
            1
        } else {
            self.col
        })
    }

    /// Emit a single-character token and advance past it.
    fn single_char_token(&mut self, kind: TokenKind, c: char, pos: Position) -> (t: Token)
        requires
            old(self).wf(),
            old(self).ch is Some,
        ensures
            final(self).wf(),
            final(self).spec_input() == old(self).spec_input(),
            final(self).fuel() == old(self).fuel() - 1,
            t.kind == kind,
    {
        self.read_char();
        let literal = char_to_string(c);
        Token { kind, literal, pos }
    }

    /// Skip whitespace and `#` line comments.
    #[verifier::loop_isolation(false)]
    fn skip_whitespace_and_comments(&mut self)
        requires
            old(self).wf(),
        ensures
            final(self).wf(),
            final(self).spec_input() == old(self).spec_input(),
            final(self).fuel() <= old(self).fuel(),
            final(self).ch matches Some(c) ==> !is_space_spec(c) && c != '#',
        decreases old(self).fuel(),
    {
        let ghost entry = *old(self);
        loop
            invariant
                self.wf(),
                self.spec_input() == entry.spec_input(),
                self.fuel() <= entry.fuel(),
            decreases self.fuel(), (if self.ch is Some {
                1int
            } else {
                0int
            }),
        {
            match self.ch {
                Some(c) => {
                    if is_space(c) {
                        self.read_char();
                    } else if c == '#' {
                        self.skip_line_comment();
                        if self.ch.is_some() {
                            self.read_char();
                        }
                    } else {
                        return ;
                    }
                },
                None => {
                    return ;
                },
            }
        }
    }

    /// Skip to the end of the current line.
    #[verifier::loop_isolation(false)]
    fn skip_line_comment(&mut self)
        requires
            old(self).wf(),
        ensures
            final(self).wf(),
            final(self).spec_input() == old(self).spec_input(),
            final(self).fuel() <= old(self).fuel(),
            final(self).ch matches Some(c) ==> c == '\n',
            (old(self).ch matches Some(c) && c != '\n') ==> final(self).fuel() < old(self).fuel(),
        decreases old(self).fuel(),
    {
        let ghost entry = *old(self);
        loop
            invariant
                self.wf(),
                self.spec_input() == entry.spec_input(),
                self.fuel() <= entry.fuel(),
                (entry.ch matches Some(c) && c != '\n') ==> (self.fuel() < entry.fuel() || *self
                    == entry),
            decreases self.fuel(), (if self.ch is Some {
                1int
            } else {
                0int
            }),
        {
            match self.ch {
                Some(c) => {
                    if c == '\n' {
                        return ;
                    }
                    self.read_char();
                },
                None => {
                    return ;
                },
            }
        }
    }

    /// Read an identifier starting at the current character.
    #[verifier::loop_isolation(false)]
    fn read_identifier(&mut self) -> (s: String)
        requires
            old(self).wf(),
            old(self).ch matches Some(c) && is_ident_continue_spec(c),
        ensures
            final(self).wf(),
            final(self).spec_input() == old(self).spec_input(),
            final(self).fuel() < old(self).fuel(),
        decreases old(self).fuel(),
    {
        let ghost entry = *old(self);
        let start = self.position;
        loop
            invariant
                self.wf(),
                self.spec_input() == entry.spec_input(),
                start == entry.position,
                start <= self.position,
                self.fuel() <= entry.fuel(),
                self.position > start || (self.ch matches Some(c) && is_ident_continue_spec(c)),
            decreases self.fuel(), (if self.ch is Some {
                1int
            } else {
                0int
            }),
        {
            match self.ch {
                Some(c) => {
                    if is_ident_continue(c) {
                        self.read_char();
                    } else {
                        return chars_to_string(
                            vstd::slice::slice_subrange(
                                self.input.as_slice(),
                                start,
                                self.position,
                            ),
                        );
                    }
                },
                None => {
                    return chars_to_string(
                        vstd::slice::slice_subrange(self.input.as_slice(), start, self.position),
                    );
                },
            }
        }
    }

    /// Read a run of decimal digits starting at the current character.
    #[verifier::loop_isolation(false)]
    fn read_number(&mut self) -> (s: String)
        requires
            old(self).wf(),
            old(self).ch matches Some(c) && is_digit_spec(c),
        ensures
            final(self).wf(),
            final(self).spec_input() == old(self).spec_input(),
            final(self).fuel() < old(self).fuel(),
        decreases old(self).fuel(),
    {
        let ghost entry = *old(self);
        let start = self.position;
        loop
            invariant
                self.wf(),
                self.spec_input() == entry.spec_input(),
                start == entry.position,
                start <= self.position,
                self.fuel() <= entry.fuel(),
                self.position > start || (self.ch matches Some(c) && is_digit_spec(c)),
            decreases self.fuel(), (if self.ch is Some {
                1int
            } else {
                0int
            }),
        {
            match self.ch {
                Some(c) => {
                    if is_digit(c) {
                        self.read_char();
                    } else {
                        return chars_to_string(
                            vstd::slice::slice_subrange(
                                self.input.as_slice(),
                                start,
                                self.position,
                            ),
                        );
                    }
                },
                None => {
                    return chars_to_string(
                        vstd::slice::slice_subrange(self.input.as_slice(), start, self.position),
                    );
                },
            }
        }
    }

    /// Read a string literal's content after its opening quote; the second
    /// result reports whether a closing quote was found.
    #[verifier::loop_isolation(false)]
    fn read_string(&mut self) -> (r: (String, bool))
        requires
            old(self).wf(),
            old(self).ch is Some,
        ensures
            final(self).wf(),
            final(self).spec_input() == old(self).spec_input(),
            final(self).fuel() < old(self).fuel(),
        decreases old(self).fuel(),
    {
        let ghost entry = *old(self);
        let start = self.position + 1;
        self.read_char();
        loop
            invariant
                self.wf(),
                self.spec_input() == entry.spec_input(),
                start <= self.position + 1,
                self.position <= self.spec_input().len(),
                self.fuel() < entry.fuel(),
                self.ch is Some ==> start <= self.position,
            decreases self.fuel(), (if self.ch is Some {
                1int
            } else {
                0int
            }),
        {
            match self.ch {
                Some(c) => {
                    if c == '"' {
                        let content = chars_to_string(
                            vstd::slice::slice_subrange(
                                self.input.as_slice(),
                                start,
                                self.position,
                            ),
                        );
                        self.read_char();
                        return (content, true);
                    }
                    self.read_char();
                },
                None => {
                    let end = if start <= self.position {
                        self.position
                    } else {
                        start
                    };
                    let content = chars_to_string(
                        vstd::slice::slice_subrange(self.input.as_slice(), start, end),
                    );
                    return (content, false);
                },
            }
        }
    }

    /// Scan and return the next token. Every token except `Eof` consumes at
    /// least one input character; `Eof` is returned exactly at the end of
    /// the input and leaves the lexer exhausted.
    pub fn next_token(&mut self) -> (t: Token)
        requires
            old(self).wf(),
        ensures
            final(self).wf(),
            final(self).spec_input() == old(self).spec_input(),
            final(self).fuel() <= old(self).fuel(),
            t.kind != TokenKind::Eof ==> final(self).fuel() < old(self).fuel(),
            t.kind == TokenKind::Eof ==> final(self).fuel() == 0,
            old(self).fuel() == 0 ==> t.kind == TokenKind::Eof,
    {
        self.skip_whitespace_and_comments();
        let pos = self.current_pos();
        let current = self.ch;
        match current {
            Some(c) => {
                if c == '=' && self.peek_is('=') {
                    self.read_char();
                    self.read_char();
                    Token::new(TokenKind::Eq, "==", pos)
                } else if c == '!' && self.peek_is('=') {
                    self.read_char();
                    self.read_char();
                    Token::new(TokenKind::NotEq, "!=", pos)
                } else if c == '<' && self.peek_is('=') {
                    self.read_char();
                    self.read_char();
                    Token::new(TokenKind::Le, "<=", pos)
                } else if c == '>' && self.peek_is('=') {
                    self.read_char();
                    self.read_char();
                    Token::new(TokenKind::Ge, ">=", pos)
                } else if c == '&' && self.peek_is('&') {
                    self.read_char();
                    self.read_char();
                    Token::new(TokenKind::And, "&&", pos)
                } else if c == '|' && self.peek_is('|') {
                    self.read_char();
                    self.read_char();
                    Token::new(TokenKind::Or, "||", pos)
                } else if c == '=' {
                    self.single_char_token(TokenKind::Assign, c, pos)
                } else if c == '+' {
                    self.single_char_token(TokenKind::Plus, c, pos)
                } else if c == '-' {
                    self.single_char_token(TokenKind::Minus, c, pos)
                } else if c == '!' {
                    self.single_char_token(TokenKind::Bang, c, pos)
                } else if c == '*' {
                    self.single_char_token(TokenKind::Asterisk, c, pos)
                } else if c == '/' {
                    self.single_char_token(TokenKind::Slash, c, pos)
                } else if c == '<' {
                    self.single_char_token(TokenKind::Lt, c, pos)
                } else if c == '>' {
                    self.single_char_token(TokenKind::Gt, c, pos)
                } else if c == ',' {
                    self.single_char_token(TokenKind::Comma, c, pos)
                } else if c == ';' {
                    self.single_char_token(TokenKind::Semicolon, c, pos)
                } else if c == ':' {
                    self.single_char_token(TokenKind::Colon, c, pos)
                } else if c == '(' {
                    self.single_char_token(TokenKind::LParen, c, pos)
                } else if c == ')' {
                    self.single_char_token(TokenKind::RParen, c, pos)
                } else if c == '{' {
                    self.single_char_token(TokenKind::LBrace, c, pos)
                } else if c == '}' {
                    self.single_char_token(TokenKind::RBrace, c, pos)
                } else if c == '[' {
                    self.single_char_token(TokenKind::LBracket, c, pos)
                } else if c == ']' {
                    self.single_char_token(TokenKind::RBracket, c, pos)
                } else if c == '"' {
                    let (literal, terminated) = self.read_string();
                    let kind = if terminated {
                        TokenKind::String
                    } else {
                        TokenKind::Illegal
                    };
                    Token { kind, literal, pos }
                } else if is_ident_start(c) {
                    let literal = self.read_identifier();
                    let kind = lookup_ident(literal.as_str());
                    Token { kind, literal, pos }
                } else if is_digit(c) {
                    let literal = self.read_number();
                    Token { kind: TokenKind::Int, literal, pos }
                } else {
                    self.read_char();
                    Token { kind: TokenKind::Illegal, literal: char_to_string(c), pos }
                }
            },
            None => Token::new(TokenKind::Eof, "", pos),
        }
    }

    /// Whether the next character equals `expected`.
    fn peek_is(&self, expected: char) -> (r: bool)
        requires
            self.wf(),
    {
        match self.peek_char() {
            Some(c) => c == expected,
            None => false,
        }
    }

    /// Scan the whole input into a token vector ending with one `Eof` token.
    #[verifier::loop_isolation(false)]
    pub fn tokenize_all(self) -> (tokens: Vec<Token>)
        requires
            self.wf(),
        ensures
            tokens@.len() >= 1,
            tokens@.last().kind == TokenKind::Eof,
            forall|i: int| 0 <= i < tokens@.len() - 1 ==> (#[trigger] tokens@[i]).kind
                != TokenKind::Eof,
    {
        let mut lexer = self;
        let mut tokens: Vec<Token> = Vec::new();
        loop
            invariant
                lexer.wf(),
                forall|i: int| 0 <= i < tokens@.len() ==> (#[trigger] tokens@[i]).kind
                    != TokenKind::Eof,
            decreases lexer.fuel(),
        {
            let token = lexer.next_token();
            let is_eof = match token.kind {
                TokenKind::Eof => true,
                _ => false,
            };
            tokens.push(token);
            if is_eof {
                return tokens;
            }
        }
    }
}

} // verus!
