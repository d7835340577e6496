//! The Pratt parser: turns the token stream into the abstract syntax tree,
//! accumulating parse errors and synchronizing at statement boundaries.

use crate::ast::{BlockStatement, Expression, Identifier, Program, Statement};
use crate::lexer::Lexer;
use crate::parse_error::ParseError;
use crate::position::Position;
use crate::render::str_chars;
use crate::token::{Token, TokenKind};
use vstd::prelude::*;
use vstd::string::StringExecFns;

verus! {

/// Operator binding strengths, weakest first.
#[derive(Debug, Clone, Copy, PartialEq, Eq, Structural)]
enum Precedence {
    Lowest,
    Or,
    And,
    Equals,
    LessGreater,
    Sum,
    Product,
    Prefix,
    Call,
    Index,
}

impl Precedence {
    /// The numeric rank of the precedence level.
    fn rank(self) -> u8 {
        match self {
            Precedence::Lowest => 0,
            Precedence::Or => 1,
            Precedence::And => 2,
            Precedence::Equals => 3,
            Precedence::LessGreater => 4,
            Precedence::Sum => 5,
            Precedence::Product => 6,
            Precedence::Prefix => 7,
            Precedence::Call => 8,
            Precedence::Index => 9,
        }
    }
}

/// The binding strength a token has in infix position.
fn token_precedence(kind: TokenKind) -> Precedence {
    match kind {
        TokenKind::Or => Precedence::Or,
        TokenKind::And => Precedence::And,
        TokenKind::Eq => Precedence::Equals,
        TokenKind::NotEq => Precedence::Equals,
        TokenKind::Lt => Precedence::LessGreater,
        TokenKind::Gt => Precedence::LessGreater,
        TokenKind::Le => Precedence::LessGreater,
        TokenKind::Ge => Precedence::LessGreater,
        TokenKind::Plus => Precedence::Sum,
        TokenKind::Minus => Precedence::Sum,
        TokenKind::Slash => Precedence::Product,
        TokenKind::Asterisk => Precedence::Product,
        TokenKind::LParen => Precedence::Call,
        TokenKind::LBracket => Precedence::Index,
        _ => Precedence::Lowest,
    }
}

/// Parse a decimal integer literal into an `i64`, rejecting empty text,
/// non-digit characters, and values beyond the `i64` range.
fn parse_i64(raw: &str) -> (r: Option<i64>)
{
    let chars = str_chars(raw);
    if chars.len() == 0 {
        return None;
    }
    let mut value: i64 = 0;
    let mut i: usize = 0;
    while i < chars.len()
        invariant
            i <= chars@.len(),
            0 <= value,
        decreases chars@.len() - i,
    {
        let c = chars[i];
        if !(c >= '0' && c <= '9') {
            return None;
        }
        let d: i64 = ((c as u32) - ('0' as u32)) as i64;
        if value > (i64::MAX - d) / 10 {
            return None;
        }
        value = value * 10 + d;
        i = i + 1;
    }
    Some(value)
}

/// Pratt parser for Monkey source.
#[derive(Debug)]
pub struct Parser {
    lexer: Lexer,
    cur_token: Token,
    peek_token: Token,
    errors: Vec<ParseError>,
    budget: u64,
}

impl Parser {
    /// The parser state is consistent: the lexer is well formed and an
    /// exhausted token stream stays exhausted.
    pub closed spec fn wf(self) -> bool {
        &&& self.lexer.wf()
        &&& (self.cur_token.kind == TokenKind::Eof ==> self.peek_token.kind == TokenKind::Eof)
        &&& (self.peek_token.kind == TokenKind::Eof ==> self.lexer.fuel() == 0)
    }

    /// Build a parser over `lexer`, reading the first two tokens.
    pub fn new(lexer: Lexer) -> (p: Self)
        requires
            lexer.wf(),
        ensures
            p.wf(),
    {
        let mut lexer = lexer;
        let cur_token = lexer.next_token();
        let peek_token = lexer.next_token();
        let parser = Self {
            lexer,
            cur_token,
            peek_token,
            errors: Vec::new(),
            budget: u64::MAX,
        };
        proof {
            assert(parser.wf());
        }
        parser
    }

    /// The parse errors accumulated so far.
    pub closed spec fn spec_errors(self) -> Seq<ParseError> {
        self.errors@
    }

    /// The parse errors accumulated so far.
    pub fn errors(&self) -> (r: &Vec<ParseError>)
        ensures
            r@ == self.spec_errors(),
    {
        &self.errors
    }

    /// Shift the token window forward by one token.
    fn next_token(&mut self)
        requires
            old(self).wf(),
        ensures
            final(self).wf(),
            final(self).budget == old(self).budget,
            final(self).errors == old(self).errors,
    {
        let peek = self.peek_token.clone();
        let new_peek = self.lexer.next_token();
        self.cur_token = peek;
        self.peek_token = new_peek;
    }

    fn cur_token_is(&self, kind: TokenKind) -> (r: bool)
        ensures
            r == (self.cur_token.kind == kind),
    {
        self.cur_token.kind == kind
    }

    fn peek_token_is(&self, kind: TokenKind) -> (r: bool)
        ensures
            r == (self.peek_token.kind == kind),
    {
        self.peek_token.kind == kind
    }

    fn cur_precedence(&self) -> Precedence {
        token_precedence(self.cur_token.kind)
    }

    fn peek_precedence(&self) -> Precedence {
        token_precedence(self.peek_token.kind)
    }

    /// If the next token has the expected kind, advance onto it; otherwise
    /// record an error and stay put.
    fn expect_peek(&mut self, expected: TokenKind) -> (r: bool)
        requires
            old(self).wf(),
        ensures
            final(self).wf(),
            final(self).budget <= old(self).budget,
    {
        if self.peek_token.kind == expected {
            self.next_token();
            true
        } else {
            let pos = self.peek_token.pos;
            let actual = self.peek_token.kind;
            self.peek_error(expected, actual, pos);
            false
        }
    }

    /// Record an unexpected-token error.
    fn peek_error(&mut self, expected: TokenKind, actual: TokenKind, pos: Position)
        requires
            old(self).wf(),
        ensures
            final(self).wf(),
            final(self).budget == old(self).budget,
    {
        let mut message: String = "expected next token to be ".to_owned();
        message.append(expected.name());
        message.append(", got ");
        message.append(actual.name());
        let err = ParseError::new(pos, message.as_str());
        self.errors.push(err);
    }

    /// Record that no expression can start with the current token.
    fn no_prefix_parse_fn_error(&mut self, kind: TokenKind, pos: Position)
        requires
            old(self).wf(),
        ensures
            final(self).wf(),
            final(self).budget == old(self).budget,
    {
        let mut message: String = "no prefix parse function for ".to_owned();
        message.append(kind.name());
        let err = ParseError::new(pos, message.as_str());
        self.errors.push(err);
    }

    /// Skip forward to the next statement boundary after a parse failure.
    fn synchronize_statement(&mut self)
        requires
            old(self).wf(),
        ensures
            final(self).wf(),
            final(self).budget <= old(self).budget,
    {
        loop
            invariant
                self.wf(),
                self.budget <= old(self).budget,
            decreases self.budget,
        {
            match self.cur_token.kind {
                TokenKind::Semicolon | TokenKind::RBrace | TokenKind::Eof => {
                    break ;
                },
                _ => {
                    if self.budget == 0 {
                        return ;
                    }
                    self.budget = self.budget - 1;
                    self.next_token();
                },
            }
        }
        if self.cur_token_is(TokenKind::Semicolon) {
            self.next_token();
        }
    }

    /// Parse the whole program, accumulating statements and errors.
    pub fn parse_program(&mut self) -> (p: Program)
        requires
            old(self).wf(),
        ensures
            final(self).wf(),
    {
        let mut statements: Vec<Statement> = Vec::new();
        loop
            invariant
                self.wf(),
                self.budget <= old(self).budget,
            decreases self.budget,
        {
            if self.cur_token_is(TokenKind::Eof) {
                break ;
            }
            if self.budget == 0 {
                break ;
            }
            self.budget = self.budget - 1;
            if self.cur_token_is(TokenKind::Semicolon) {
                self.next_token();
                continue ;
            }
            match self.parse_statement() {
                Some(stmt) => {
                    statements.push(stmt);
                    self.next_token();
                },
                None => {
                    if self.cur_token_is(TokenKind::RBrace) {
                        self.next_token();
                    } else {
                        self.synchronize_statement();
                    }
                },
            }
        }
        Program::new(statements)
    }

    /// Parse one statement, dispatching on the current token.
    fn parse_statement(&mut self) -> (r: Option<Statement>)
        requires
            old(self).wf(),
        ensures
            final(self).wf(),
            final(self).budget <= old(self).budget,
        decreases old(self).budget, 11int,
    {
        if self.budget == 0 {
            return None;
        }
        self.budget = self.budget - 1;
        match self.cur_token.kind {
            TokenKind::Let => self.parse_let_statement(),
            TokenKind::Return => self.parse_return_statement(),
            TokenKind::While => self.parse_while_statement(),
            TokenKind::Break => Some(self.parse_break_statement()),
            TokenKind::Continue => Some(self.parse_continue_statement()),
            _ => self.parse_expression_statement(),
        }
    }

    fn parse_let_statement(&mut self) -> (r: Option<Statement>)
        requires
            old(self).wf(),
        ensures
            final(self).wf(),
            final(self).budget <= old(self).budget,
        decreases old(self).budget, 9int,
    {
        let pos = self.cur_token.pos;
        if !self.expect_peek(TokenKind::Ident) {
            return None;
        }
        let name = Identifier::new(self.cur_token.literal.as_str(), self.cur_token.pos);
        if !self.expect_peek(TokenKind::Assign) {
            return None;
        }
        self.next_token();
        let value = match self.parse_expression(Precedence::Lowest) {
            Some(v) => v,
            None => {
                return None;
            },
        };
        if self.peek_token_is(TokenKind::Semicolon) {
            self.next_token();
        }
        Some(Statement::Let { name, value, pos })
    }

    fn parse_return_statement(&mut self) -> (r: Option<Statement>)
        requires
            old(self).wf(),
        ensures
            final(self).wf(),
            final(self).budget <= old(self).budget,
        decreases old(self).budget, 9int,
    {
        let pos = self.cur_token.pos;
        self.next_token();
        let value = match self.parse_expression(Precedence::Lowest) {
            Some(v) => v,
            None => {
                return None;
            },
        };
        if self.peek_token_is(TokenKind::Semicolon) {
            self.next_token();
        }
        Some(Statement::Return { value, pos })
    }

    fn parse_while_statement(&mut self) -> (r: Option<Statement>)
        requires
            old(self).wf(),
        ensures
            final(self).wf(),
            final(self).budget <= old(self).budget,
        decreases old(self).budget, 9int,
    {
        let pos = self.cur_token.pos;
        if !self.expect_peek(TokenKind::LParen) {
            return None;
        }
        self.next_token();
        let condition = match self.parse_expression(Precedence::Lowest) {
            Some(c) => c,
            None => {
                return None;
            },
        };
        if !self.expect_peek(TokenKind::RParen) {
            return None;
        }
        if !self.expect_peek(TokenKind::LBrace) {
            return None;
        }
        let body = self.parse_block_statement(self.cur_token.pos);
        Some(Statement::While { condition, body, pos })
    }

    fn parse_break_statement(&mut self) -> (r: Statement)
        requires
            old(self).wf(),
        ensures
            final(self).wf(),
            final(self).budget <= old(self).budget,
    {
        let pos = self.cur_token.pos;
        if self.peek_token_is(TokenKind::Semicolon) {
            self.next_token();
        }
        Statement::Break { pos }
    }

    fn parse_continue_statement(&mut self) -> (r: Statement)
        requires
            old(self).wf(),
        ensures
            final(self).wf(),
            final(self).budget <= old(self).budget,
    {
        let pos = self.cur_token.pos;
        if self.peek_token_is(TokenKind::Semicolon) {
            self.next_token();
        }
        Statement::Continue { pos }
    }

    fn parse_expression_statement(&mut self) -> (r: Option<Statement>)
        requires
            old(self).wf(),
        ensures
            final(self).wf(),
            final(self).budget <= old(self).budget,
        decreases old(self).budget, 9int,
    {
        let pos = self.cur_token.pos;
        let expression = match self.parse_expression(Precedence::Lowest) {
            Some(e) => e,
            None => {
                return None;
            },
        };
        if self.peek_token_is(TokenKind::Semicolon) {
            self.next_token();
        }
        Some(Statement::Expression { expression, pos })
    }

    /// Parse the statements of a brace-delimited block.
    fn parse_block_statement(&mut self, open_brace_pos: Position) -> (b: BlockStatement)
        requires
            old(self).wf(),
        ensures
            final(self).wf(),
            final(self).budget <= old(self).budget,
        decreases old(self).budget, 5int,
    {
        let mut statements: Vec<Statement> = Vec::new();
        self.next_token();
        loop
            invariant
                self.wf(),
                self.budget <= old(self).budget,
            decreases self.budget,
        {
            if self.cur_token_is(TokenKind::RBrace) || self.cur_token_is(TokenKind::Eof) {
                break ;
            }
            if self.budget == 0 {
                break ;
            }
            self.budget = self.budget - 1;
            if self.cur_token_is(TokenKind::Semicolon) {
                self.next_token();
                continue ;
            }
            match self.parse_statement() {
                Some(stmt) => {
                    statements.push(stmt);
                    self.next_token();
                },
                None => {
                    self.synchronize_statement();
                },
            }
        }
        BlockStatement::new(statements, open_brace_pos)
    }

    /// Parse an expression with the given minimum binding strength.
    fn parse_expression(&mut self, precedence: Precedence) -> (r: Option<Expression>)
        requires
            old(self).wf(),
        ensures
            final(self).wf(),
            final(self).budget <= old(self).budget,
        decreases old(self).budget, 8int,
    {
        if self.budget == 0 {
            return None;
        }
        self.budget = self.budget - 1;
        let mut left: Expression = match self.cur_token.kind {
            TokenKind::Ident => Expression::Identifier {
                value: self.cur_token.literal.clone(),
                pos: self.cur_token.pos,
            },
            TokenKind::Int => {
                match self.parse_integer_literal() {
                    Some(e) => e,
                    None => {
                        return None;
                    },
                }
            },
            TokenKind::True => Expression::BooleanLiteral { value: true, pos: self.cur_token.pos },
            TokenKind::False => Expression::BooleanLiteral {
                value: false,
                pos: self.cur_token.pos,
            },
            TokenKind::String => Expression::StringLiteral {
                value: self.cur_token.literal.clone(),
                pos: self.cur_token.pos,
            },
            TokenKind::Bang | TokenKind::Minus => {
                match self.parse_prefix_expression() {
                    Some(e) => e,
                    None => {
                        return None;
                    },
                }
            },
            TokenKind::LParen => {
                match self.parse_grouped_expression() {
                    Some(e) => e,
                    None => {
                        return None;
                    },
                }
            },
            TokenKind::If => {
                match self.parse_if_expression() {
                    Some(e) => e,
                    None => {
                        return None;
                    },
                }
            },
            TokenKind::Function => {
                match self.parse_function_literal() {
                    Some(e) => e,
                    None => {
                        return None;
                    },
                }
            },
            TokenKind::LBracket => {
                match self.parse_array_literal() {
                    Some(e) => e,
                    None => {
                        return None;
                    },
                }
            },
            TokenKind::LBrace => {
                match self.parse_hash_literal() {
                    Some(e) => e,
                    None => {
                        return None;
                    },
                }
            },
            _ => {
                let kind = self.cur_token.kind;
                let pos = self.cur_token.pos;
                self.no_prefix_parse_fn_error(kind, pos);
                return None;
            },
        };
        loop
            invariant
                self.wf(),
                self.budget < old(self).budget,
            decreases self.budget,
        {
            if self.peek_token_is(TokenKind::Semicolon) {
                break ;
            }
            if precedence.rank() >= self.peek_precedence().rank() {
                break ;
            }
            if self.budget == 0 {
                break ;
            }
            self.budget = self.budget - 1;
            match self.peek_token.kind {
                TokenKind::Plus | TokenKind::Minus | TokenKind::Slash | TokenKind::Asterisk
                    | TokenKind::Eq | TokenKind::NotEq | TokenKind::Lt | TokenKind::Gt
                    | TokenKind::Le | TokenKind::Ge | TokenKind::And | TokenKind::Or => {
                    self.next_token();
                    match self.parse_infix_expression(left) {
                        Some(e) => {
                            left = e;
                        },
                        None => {
                            return None;
                        },
                    }
                },
                TokenKind::LParen => {
                    self.next_token();
                    match self.parse_call_expression(left) {
                        Some(e) => {
                            left = e;
                        },
                        None => {
                            return None;
                        },
                    }
                },
                TokenKind::LBracket => {
                    self.next_token();
                    match self.parse_index_expression(left) {
                        Some(e) => {
                            left = e;
                        },
                        None => {
                            return None;
                        },
                    }
                },
                _ => {
                    return Some(left);
                },
            }
        }
        Some(left)
    }

    fn parse_integer_literal(&mut self) -> (r: Option<Expression>)
        requires
            old(self).wf(),
        ensures
            final(self).wf(),
            final(self).budget <= old(self).budget,
    {
        let raw = self.cur_token.literal.clone();
        match parse_i64(raw.as_str()) {
            Some(value) => Some(
                Expression::IntegerLiteral { value, raw, pos: self.cur_token.pos },
            ),
            None => {
                let mut message: String = "invalid integer literal ".to_owned();
                message.append(raw.as_str());
                let pos = self.cur_token.pos;
                let err = ParseError::new(pos, message.as_str());
                self.errors.push(err);
                None
            },
        }
    }

    fn parse_prefix_expression(&mut self) -> (r: Option<Expression>)
        requires
            old(self).wf(),
        ensures
            final(self).wf(),
            final(self).budget <= old(self).budget,
        decreases old(self).budget, 7int,
    {
        if self.budget == 0 {
            return None;
        }
        self.budget = self.budget - 1;
        let pos = self.cur_token.pos;
        let operator = self.cur_token.literal.clone();
        self.next_token();
        let right = match self.parse_expression(Precedence::Prefix) {
            Some(e) => e,
            None => {
                return None;
            },
        };
        Some(Expression::Prefix { operator, right: Box::new(right), pos })
    }

    fn parse_grouped_expression(&mut self) -> (r: Option<Expression>)
        requires
            old(self).wf(),
        ensures
            final(self).wf(),
            final(self).budget <= old(self).budget,
        decreases old(self).budget, 7int,
    {
        if self.budget == 0 {
            return None;
        }
        self.budget = self.budget - 1;
        self.next_token();
        let exp = match self.parse_expression(Precedence::Lowest) {
            Some(e) => e,
            None => {
                return None;
            },
        };
        if !self.expect_peek(TokenKind::RParen) {
            return None;
        }
        Some(exp)
    }

    fn parse_if_expression(&mut self) -> (r: Option<Expression>)
        requires
            old(self).wf(),
        ensures
            final(self).wf(),
            final(self).budget <= old(self).budget,
        decreases old(self).budget, 7int,
    {
        if self.budget == 0 {
            return None;
        }
        self.budget = self.budget - 1;
        let pos = self.cur_token.pos;
        if !self.expect_peek(TokenKind::LParen) {
            return None;
        }
        self.next_token();
        let condition = match self.parse_expression(Precedence::Lowest) {
            Some(c) => c,
            None => {
                return None;
            },
        };
        if !self.expect_peek(TokenKind::RParen) {
            return None;
        }
        if !self.expect_peek(TokenKind::LBrace) {
            return None;
        }
        let consequence = self.parse_block_statement(self.cur_token.pos);
        let alternative: Option<BlockStatement> = if self.peek_token_is(TokenKind::Else) {
            self.next_token();
            if self.peek_token_is(TokenKind::LBrace) {
                self.next_token();
                Some(self.parse_block_statement(self.cur_token.pos))
            } else if self.peek_token_is(TokenKind::If) {
                self.next_token();
                if self.budget == 0 {
                    return None;
                }
                self.budget = self.budget - 1;
                let nested_if = match self.parse_if_expression() {
                    Some(e) => e,
                    None => {
                        return None;
                    },
                };
                let nested_pos = nested_if.pos();
                let mut block_statements: Vec<Statement> = Vec::new();
                block_statements.push(
                    Statement::Expression { expression: nested_if, pos: nested_pos },
                );
                Some(BlockStatement::new(block_statements, nested_pos))
            } else {
                let expected = TokenKind::LBrace;
                let actual = self.peek_token.kind;
                let pos = self.peek_token.pos;
                self.peek_error(expected, actual, pos);
                return None;
            }
        } else {
            None
        };
        Some(
            Expression::If {
                condition: Box::new(condition),
                consequence,
                alternative,
                pos,
            },
        )
    }

    fn parse_function_literal(&mut self) -> (r: Option<Expression>)
        requires
            old(self).wf(),
        ensures
            final(self).wf(),
            final(self).budget <= old(self).budget,
        decreases old(self).budget, 7int,
    {
        if self.budget == 0 {
            return None;
        }
        self.budget = self.budget - 1;
        let pos = self.cur_token.pos;
        if !self.expect_peek(TokenKind::LParen) {
            return None;
        }
        let parameters = match self.parse_function_parameters() {
            Some(ps) => ps,
            None => {
                return None;
            },
        };
        if !self.expect_peek(TokenKind::LBrace) {
            return None;
        }
        let body = self.parse_block_statement(self.cur_token.pos);
        Some(Expression::FunctionLiteral { parameters, body, pos })
    }

    fn parse_function_parameters(&mut self) -> (r: Option<Vec<Identifier>>)
        requires
            old(self).wf(),
        ensures
            final(self).wf(),
            final(self).budget <= old(self).budget,
        decreases old(self).budget, 6int,
    {
        let mut params: Vec<Identifier> = Vec::new();
        if self.peek_token_is(TokenKind::RParen) {
            self.next_token();
            return Some(params);
        }
        self.next_token();
        if !self.cur_token_is(TokenKind::Ident) {
            let pos = self.cur_token.pos;
            let err = ParseError::new(pos, "expected identifier in parameter list");
            self.errors.push(err);
            return None;
        }
        params.push(Identifier::new(self.cur_token.literal.as_str(), self.cur_token.pos));
        loop
            invariant
                self.wf(),
                self.budget <= old(self).budget,
            decreases self.budget,
        {
            if !self.peek_token_is(TokenKind::Comma) {
                break ;
            }
            if self.budget == 0 {
                break ;
            }
            self.budget = self.budget - 1;
            self.next_token();
            self.next_token();
            if !self.cur_token_is(TokenKind::Ident) {
                let pos = self.cur_token.pos;
                let err = ParseError::new(pos, "expected identifier in parameter list");
                self.errors.push(err);
                return None;
            }
            params.push(Identifier::new(self.cur_token.literal.as_str(), self.cur_token.pos));
        }
        if !self.expect_peek(TokenKind::RParen) {
            return None;
        }
        Some(params)
    }

    fn parse_array_literal(&mut self) -> (r: Option<Expression>)
        requires
            old(self).wf(),
        ensures
            final(self).wf(),
            final(self).budget <= old(self).budget,
        decreases old(self).budget, 7int,
    {
        if self.budget == 0 {
            return None;
        }
        self.budget = self.budget - 1;
        let pos = self.cur_token.pos;
        let elements = match self.parse_expression_list(TokenKind::RBracket) {
            Some(es) => es,
            None => {
                return None;
            },
        };
        Some(Expression::ArrayLiteral { elements, pos })
    }

    fn parse_hash_literal(&mut self) -> (r: Option<Expression>)
        requires
            old(self).wf(),
        ensures
            final(self).wf(),
            final(self).budget <= old(self).budget,
        decreases old(self).budget, 7int,
    {
        if self.budget == 0 {
            return None;
        }
        self.budget = self.budget - 1;
        let pos = self.cur_token.pos;
        let mut pairs: Vec<(Expression, Expression)> = Vec::new();
        if self.peek_token_is(TokenKind::RBrace) {
            self.next_token();
            return Some(Expression::HashLiteral { pairs, pos });
        }
        loop
            invariant
                self.wf(),
                self.budget < old(self).budget,
            decreases self.budget,
        {
            if self.budget == 0 {
                break ;
            }
            self.budget = self.budget - 1;
            self.next_token();
            let key = match self.parse_expression(Precedence::Lowest) {
                Some(k) => k,
                None => {
                    return None;
                },
            };
            if !self.expect_peek(TokenKind::Colon) {
                return None;
            }
            self.next_token();
            let value = match self.parse_expression(Precedence::Lowest) {
                Some(v) => v,
                None => {
                    return None;
                },
            };
            pairs.push((key, value));
            if !self.peek_token_is(TokenKind::Comma) {
                break ;
            }
            self.next_token();
        }
        if !self.expect_peek(TokenKind::RBrace) {
            return None;
        }
        Some(Expression::HashLiteral { pairs, pos })
    }

    fn parse_expression_list(&mut self, end: TokenKind) -> (r: Option<Vec<Expression>>)
        requires
            old(self).wf(),
        ensures
            final(self).wf(),
            final(self).budget <= old(self).budget,
        decreases old(self).budget, 6int,
    {
        if self.budget == 0 {
            return None;
        }
        self.budget = self.budget - 1;
        let mut list: Vec<Expression> = Vec::new();
        if self.peek_token.kind == end {
            self.next_token();
            return Some(list);
        }
        self.next_token();
        match self.parse_expression(Precedence::Lowest) {
            Some(e) => {
                list.push(e);
            },
            None => {
                return None;
            },
        }
        loop
            invariant
                self.wf(),
                self.budget <= old(self).budget,
            decreases self.budget,
        {
            if !self.peek_token_is(TokenKind::Comma) {
                break ;
            }
            if self.budget == 0 {
                break ;
            }
            self.budget = self.budget - 1;
            self.next_token();
            self.next_token();
            match self.parse_expression(Precedence::Lowest) {
                Some(e) => {
                    list.push(e);
                },
                None => {
                    return None;
                },
            }
        }
        if !self.expect_peek(end) {
            return None;
        }
        Some(list)
    }

    fn parse_infix_expression(&mut self, left: Expression) -> (r: Option<Expression>)
        requires
            old(self).wf(),
        ensures
            final(self).wf(),
            final(self).budget <= old(self).budget,
        decreases old(self).budget, 6int,
    {
        if self.budget == 0 {
            return None;
        }
        self.budget = self.budget - 1;
        let pos = self.cur_token.pos;
        let operator = self.cur_token.literal.clone();
        let precedence = self.cur_precedence();
        self.next_token();
        let right = match self.parse_expression(precedence) {
            Some(e) => e,
            None => {
                return None;
            },
        };
        Some(Expression::Infix { left: Box::new(left), operator, right: Box::new(right), pos })
    }

    fn parse_call_expression(&mut self, function: Expression) -> (r: Option<Expression>)
        requires
            old(self).wf(),
        ensures
            final(self).wf(),
            final(self).budget <= old(self).budget,
        decreases old(self).budget, 7int,
    {
        let pos = self.cur_token.pos;
        let arguments = match self.parse_expression_list(TokenKind::RParen) {
            Some(args) => args,
            None => {
                return None;
            },
        };
        Some(Expression::Call { function: Box::new(function), arguments, pos })
    }

    fn parse_index_expression(&mut self, left: Expression) -> (r: Option<Expression>)
        requires
            old(self).wf(),
        ensures
            final(self).wf(),
            final(self).budget <= old(self).budget,
        decreases old(self).budget, 7int,
    {
        if self.budget == 0 {
            return None;
        }
        self.budget = self.budget - 1;
        let pos = self.cur_token.pos;
        self.next_token();
        let index = match self.parse_expression(Precedence::Lowest) {
            Some(e) => e,
            None => {
                return None;
            },
        };
        if !self.expect_peek(TokenKind::RBracket) {
            return None;
        }
        Some(Expression::Index { left: Box::new(left), index: Box::new(index), pos })
    }
}

} // verus!
