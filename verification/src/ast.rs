//! The abstract syntax tree the parser produces and the compiler consumes,
//! with deterministic text rendering.

use crate::position::Position;
use vstd::prelude::*;
use vstd::string::StringExecFns;

verus! {

/// An identifier with its source position.
#[derive(Debug, PartialEq, Eq)]
pub struct Identifier {
    pub value: String,
    pub pos: Position,
}

impl Identifier {
    /// Build an identifier node.
    pub fn new(value: &str, pos: Position) -> (r: Self)
        ensures
            r.value@ == value@,
            r.pos == pos,
    {
        Self { value: value.to_owned(), pos }
    }

    /// Render the identifier: its text.
    pub fn to_string(&self) -> (s: String)
        ensures
            s@ == self.value@,
    {
        self.value.clone()
    }
}

/// A braced sequence of statements.
#[derive(Debug, PartialEq, Eq)]
pub struct BlockStatement {
    pub statements: Vec<Statement>,
    pub pos: Position,
}

/// Statements of the language.
#[derive(Debug, PartialEq, Eq)]
pub enum Statement {
    Let { name: Identifier, value: Expression, pos: Position },
    Return { value: Expression, pos: Position },
    While { condition: Expression, body: BlockStatement, pos: Position },
    Break { pos: Position },
    Continue { pos: Position },
    Expression { expression: Expression, pos: Position },
}

/// Expressions of the language.
#[derive(Debug, PartialEq, Eq)]
pub enum Expression {
    Identifier { value: String, pos: Position },
    IntegerLiteral { value: i64, raw: String, pos: Position },
    BooleanLiteral { value: bool, pos: Position },
    StringLiteral { value: String, pos: Position },
    Prefix { operator: String, right: Box<Expression>, pos: Position },
    Infix { left: Box<Expression>, operator: String, right: Box<Expression>, pos: Position },
    If {
        condition: Box<Expression>,
        consequence: BlockStatement,
        alternative: Option<BlockStatement>,
        pos: Position,
    },
    FunctionLiteral { parameters: Vec<Identifier>, body: BlockStatement, pos: Position },
    Call { function: Box<Expression>, arguments: Vec<Expression>, pos: Position },
    ArrayLiteral { elements: Vec<Expression>, pos: Position },
    HashLiteral { pairs: Vec<(Expression, Expression)>, pos: Position },
    Index { left: Box<Expression>, index: Box<Expression>, pos: Position },
}


impl Clone for Identifier {
    /// An equal copy of the node.
    fn clone(&self) -> (r: Self)
        ensures
            r == *self,
    {
        Identifier { value: self.value.clone(), pos: self.pos }
    }
}

/// A copy of each statement of a block or program body.
fn clone_statements(statements: &Vec<Statement>) -> Vec<Statement>
    decreases *statements,
{
    let mut out: Vec<Statement> = Vec::new();
    let mut i: usize = 0;
    while i < statements.len()
        decreases statements@.len() - i,
    {
        proof {
            assert(decreases_to!(*statements => statements@));
            assert(decreases_to!(statements@ => statements@[i as int]));
        }
        out.push(statements[i].clone());
        i = i + 1;
    }
    out
}

impl Clone for BlockStatement {
    /// A copy of the node.
    fn clone(&self) -> (r: Self)
        decreases *self,
    {
        BlockStatement { statements: clone_statements(&self.statements), pos: self.pos }
    }
}

impl Clone for Statement {
    /// A copy of the node.
    fn clone(&self) -> (r: Self)
        decreases *self,
    {
        match self {
            Statement::Let { name, value, pos } => Statement::Let {
                name: name.clone(),
                value: value.clone(),
                pos: *pos,
            },
            Statement::Return { value, pos } => Statement::Return {
                value: value.clone(),
                pos: *pos,
            },
            Statement::While { condition, body, pos } => Statement::While {
                condition: condition.clone(),
                body: body.clone(),
                pos: *pos,
            },
            Statement::Break { pos } => Statement::Break { pos: *pos },
            Statement::Continue { pos } => Statement::Continue { pos: *pos },
            Statement::Expression { expression, pos } => Statement::Expression {
                expression: expression.clone(),
                pos: *pos,
            },
        }
    }
}

/// A copy of each expression in a list.
fn clone_expressions(exprs: &Vec<Expression>) -> Vec<Expression>
    decreases *exprs,
{
    let mut out: Vec<Expression> = Vec::new();
    let mut i: usize = 0;
    while i < exprs.len()
        decreases exprs@.len() - i,
    {
        proof {
            assert(decreases_to!(*exprs => exprs@));
            assert(decreases_to!(exprs@ => exprs@[i as int]));
        }
        out.push(exprs[i].clone());
        i = i + 1;
    }
    out
}

/// A copy of each identifier in a parameter list.
fn clone_identifiers(idents: &Vec<Identifier>) -> Vec<Identifier>
{
    let mut out: Vec<Identifier> = Vec::new();
    let mut i: usize = 0;
    while i < idents.len()
        decreases idents@.len() - i,
    {
        out.push(idents[i].clone());
        i = i + 1;
    }
    out
}

/// A copy of each key-value pair of a hash literal.
fn clone_expr_pairs(pairs: &Vec<(Expression, Expression)>) -> Vec<(Expression, Expression)>
    decreases *pairs,
{
    let mut out: Vec<(Expression, Expression)> = Vec::new();
    let mut i: usize = 0;
    while i < pairs.len()
        decreases pairs@.len() - i,
    {
        proof {
            assert(decreases_to!(*pairs => pairs@));
            assert(decreases_to!(pairs@ => pairs@[i as int]));
            assert(decreases_to!(pairs@[i as int] => pairs@[i as int].0));
            assert(decreases_to!(pairs@[i as int] => pairs@[i as int].1));
        }
        let pair = (pairs[i].0.clone(), pairs[i].1.clone());
        out.push(pair);
        i = i + 1;
    }
    out
}

impl Clone for Expression {
    /// A copy of the node.
    fn clone(&self) -> (r: Self)
        decreases *self,
    {
        match self {
            Expression::Identifier { value, pos } => Expression::Identifier {
                value: value.clone(),
                pos: *pos,
            },
            Expression::IntegerLiteral { value, raw, pos } => Expression::IntegerLiteral {
                value: *value,
                raw: raw.clone(),
                pos: *pos,
            },
            Expression::BooleanLiteral { value, pos } => Expression::BooleanLiteral {
                value: *value,
                pos: *pos,
            },
            Expression::StringLiteral { value, pos } => Expression::StringLiteral {
                value: value.clone(),
                pos: *pos,
            },
            Expression::Prefix { operator, right, pos } => Expression::Prefix {
                operator: operator.clone(),
                right: Box::new((&**right).clone()),
                pos: *pos,
            },
            Expression::Infix { left, operator, right, pos } => Expression::Infix {
                left: Box::new((&**left).clone()),
                operator: operator.clone(),
                right: Box::new((&**right).clone()),
                pos: *pos,
            },
            Expression::If { condition, consequence, alternative, pos } => Expression::If {
                condition: Box::new((&**condition).clone()),
                consequence: consequence.clone(),
                alternative: match alternative {
                    Some(alt) => Some(alt.clone()),
                    None => None,
                },
                pos: *pos,
            },
            Expression::FunctionLiteral { parameters, body, pos } => Expression::FunctionLiteral {
                parameters: clone_identifiers(parameters),
                body: body.clone(),
                pos: *pos,
            },
            Expression::Call { function, arguments, pos } => Expression::Call {
                function: Box::new((&**function).clone()),
                arguments: clone_expressions(arguments),
                pos: *pos,
            },
            Expression::ArrayLiteral { elements, pos } => Expression::ArrayLiteral {
                elements: clone_expressions(elements),
                pos: *pos,
            },
            Expression::HashLiteral { pairs, pos } => Expression::HashLiteral {
                pairs: clone_expr_pairs(pairs),
                pos: *pos,
            },
            Expression::Index { left, index, pos } => Expression::Index {
                left: Box::new((&**left).clone()),
                index: Box::new((&**index).clone()),
                pos: *pos,
            },
        }
    }
}

/// The root node: a program is its statements.
#[derive(Debug, Clone, Default, PartialEq, Eq)]
pub struct Program {
    pub statements: Vec<Statement>,
}

impl Program {
    /// Build a program from its statements.
    pub fn new(statements: Vec<Statement>) -> (p: Self)
        ensures
            p.statements == statements,
    {
        Self { statements }
    }
}

/// The source position of a statement.
pub open spec fn stmt_pos(s: Statement) -> Position {
    match s {
        Statement::Let { pos, .. } => pos,
        Statement::Return { pos, .. } => pos,
        Statement::While { pos, .. } => pos,
        Statement::Break { pos } => pos,
        Statement::Continue { pos } => pos,
        Statement::Expression { pos, .. } => pos,
    }
}

/// The source position of an expression.
pub open spec fn expr_pos(e: Expression) -> Position {
    match e {
        Expression::Identifier { pos, .. } => pos,
        Expression::IntegerLiteral { pos, .. } => pos,
        Expression::BooleanLiteral { pos, .. } => pos,
        Expression::StringLiteral { pos, .. } => pos,
        Expression::Prefix { pos, .. } => pos,
        Expression::Infix { pos, .. } => pos,
        Expression::If { pos, .. } => pos,
        Expression::FunctionLiteral { pos, .. } => pos,
        Expression::Call { pos, .. } => pos,
        Expression::ArrayLiteral { pos, .. } => pos,
        Expression::HashLiteral { pos, .. } => pos,
        Expression::Index { pos, .. } => pos,
    }
}

/// Rendered identifier list, joined with `", "`.
pub open spec fn idents_join(ps: Seq<Identifier>) -> Seq<char>
    decreases ps.len(),
{
    if ps.len() == 0 {
        Seq::<char>::empty()
    } else if ps.len() == 1 {
        ps[0].value@
    } else {
        ps[0].value@ + ", "@ + idents_join(ps.drop_first())
    }
}

/// The rendered form of an expression.
pub open spec fn expr_str(e: Expression) -> Seq<char>
    decreases e,
{
    match e {
        Expression::Identifier { value, .. } => value@,
        Expression::IntegerLiteral { raw, .. } => raw@,
        Expression::BooleanLiteral { value, .. } => if value {
            "true"@
        } else {
            "false"@
        },
        Expression::StringLiteral { value, .. } => "\""@ + value@ + "\""@,
        Expression::Prefix { operator, right, .. } => "("@ + operator@ + expr_str(*right) + ")"@,
        Expression::Infix { left, operator, right, .. } => "("@ + expr_str(*left) + " "@
            + operator@ + " "@ + expr_str(*right) + ")"@,
        Expression::If { condition, consequence, alternative, .. } => {
            match alternative {
                Some(alt) => "if ("@ + expr_str(*condition) + ") "@ + block_str(consequence)
                    + " else "@ + block_str(alt),
                None => "if ("@ + expr_str(*condition) + ") "@ + block_str(consequence),
            }
        },
        Expression::FunctionLiteral { parameters, body, .. } => "fn("@ + idents_join(parameters@)
            + ") "@ + block_str(body),
        Expression::Call { function, arguments, .. } => expr_str(*function) + "("@ + exprs_join(
            arguments@,
        ) + ")"@,
        Expression::ArrayLiteral { elements, .. } => "["@ + exprs_join(elements@) + "]"@,
        Expression::HashLiteral { pairs, .. } => "{"@ + expr_pairs_join(pairs@) + "}"@,
        Expression::Index { left, index, .. } => "("@ + expr_str(*left) + "["@ + expr_str(*index)
            + "])"@,
    }
}

/// Rendered expression list, joined with `", "`.
pub open spec fn exprs_join(es: Seq<Expression>) -> Seq<char>
    decreases es,
{
    if es.len() == 0 {
        Seq::<char>::empty()
    } else if es.len() == 1 {
        expr_str(es[0])
    } else {
        expr_str(es[0]) + ", "@ + exprs_join(es.drop_first())
    }
}

/// Rendered hash pairs, each as `key: value`, joined with `", "`.
pub open spec fn expr_pairs_join(ps: Seq<(Expression, Expression)>) -> Seq<char>
    decreases ps,
{
    if ps.len() == 0 {
        Seq::<char>::empty()
    } else if ps.len() == 1 {
        expr_str(ps[0].0) + ": "@ + expr_str(ps[0].1)
    } else {
        expr_str(ps[0].0) + ": "@ + expr_str(ps[0].1) + ", "@ + expr_pairs_join(ps.drop_first())
    }
}

/// The rendered form of a statement.
pub open spec fn stmt_str(s: Statement) -> Seq<char>
    decreases s,
{
    match s {
        Statement::Let { name, value, .. } => "let "@ + name.value@ + " = "@ + expr_str(value)
            + ";"@,
        Statement::Return { value, .. } => "return "@ + expr_str(value) + ";"@,
        Statement::While { condition, body, .. } => "while ("@ + expr_str(condition) + ") "@
            + block_str(body),
        Statement::Break { .. } => "break;"@,
        Statement::Continue { .. } => "continue;"@,
        Statement::Expression { expression, .. } => expr_str(expression) + ";"@,
    }
}

/// The rendered form of a block: `{}` when empty, else the statements joined
/// with single spaces inside braces.
pub open spec fn block_str(b: BlockStatement) -> Seq<char>
    decreases b,
{
    if b.statements@.len() == 0 {
        "{}"@
    } else {
        "{ "@ + stmts_join(b.statements@, " "@) + " }"@
    }
}

/// Rendered statements joined with a separator.
pub open spec fn stmts_join(ss: Seq<Statement>, sep: Seq<char>) -> Seq<char>
    decreases ss,
{
    if ss.len() == 0 {
        Seq::<char>::empty()
    } else if ss.len() == 1 {
        stmt_str(ss[0])
    } else {
        stmt_str(ss[0]) + sep + stmts_join(ss.drop_first(), sep)
    }
}

/// The rendered form of a program: its statements, one per line.
pub open spec fn program_str(p: Program) -> Seq<char> {
    stmts_join(p.statements@, "\n"@)
}

impl BlockStatement {
    /// Build a block from its statements and opening position.
    pub fn new(statements: Vec<Statement>, pos: Position) -> (b: Self)
        ensures
            b.statements == statements,
            b.pos == pos,
    {
        Self { statements, pos }
    }

    /// The block's source position.
    pub fn pos(&self) -> (p: Position)
        ensures
            p == self.pos,
    {
        self.pos
    }

    /// Render the block.
    #[verifier::loop_isolation(false)]
    pub fn to_string(&self) -> (s: String)
        ensures
            s@ == block_str(*self),
        decreases *self,
    {
        if self.statements.len() == 0 {
            return "{}".to_owned();
        }
        let mut out: String = "{ ".to_owned();
        let ghost full = self.statements@;
        let ghost base = out@;
        let mut i: usize = 0;
        proof {
            assert(full.subrange(0, full.len() as int) =~= full);
        }
        while i < self.statements.len()
            invariant
                i <= full.len(),
                base + stmts_join(full, " "@) == out@ + stmts_join(
                    full.subrange(i as int, full.len() as int),
                    " "@,
                ),
            decreases full.len() - i,
        {
            proof {
                let tail = full.subrange(i as int, full.len() as int);
                assert(tail[0] == full[i as int]);
                assert(tail.drop_first() =~= full.subrange(i as int + 1, full.len() as int));
                assert(decreases_to!(full => full[i as int]));
            }
            let rendered = self.statements[i].to_string();
            out.append(rendered.as_str());
            if i + 1 < self.statements.len() {
                out.append(" ");
            }
            i = i + 1;
        }
        proof {
            assert(full.subrange(full.len() as int, full.len() as int)
                =~= Seq::<Statement>::empty());
            assert(out@ + Seq::<char>::empty() =~= out@);
        }
        out.append(" }");
        out
    }
}

impl Statement {
    /// The statement's source position.
    pub fn pos(&self) -> (p: Position)
        ensures
            p == stmt_pos(*self),
    {
        match self {
            Statement::Let { pos, .. } => *pos,
            Statement::Return { pos, .. } => *pos,
            Statement::While { pos, .. } => *pos,
            Statement::Break { pos } => *pos,
            Statement::Continue { pos } => *pos,
            Statement::Expression { pos, .. } => *pos,
        }
    }

    /// Render the statement.
    pub fn to_string(&self) -> (s: String)
        ensures
            s@ == stmt_str(*self),
        decreases *self,
    {
        match self {
            Statement::Let { name, value, .. } => {
                let mut out: String = "let ".to_owned();
                out.append(name.value.as_str());
                out.append(" = ");
                let rendered = value.to_string();
                out.append(rendered.as_str());
                out.append(";");
                out
            },
            Statement::Return { value, .. } => {
                let mut out: String = "return ".to_owned();
                let rendered = value.to_string();
                out.append(rendered.as_str());
                out.append(";");
                out
            },
            Statement::While { condition, body, .. } => {
                let mut out: String = "while (".to_owned();
                let rendered = condition.to_string();
                out.append(rendered.as_str());
                out.append(") ");
                let body_rendered = body.to_string();
                out.append(body_rendered.as_str());
                out
            },
            Statement::Break { .. } => "break;".to_owned(),
            Statement::Continue { .. } => "continue;".to_owned(),
            Statement::Expression { expression, .. } => {
                let mut out = expression.to_string();
                out.append(";");
                out
            },
        }
    }
}

impl Expression {
    /// The expression's source position.
    pub fn pos(&self) -> (p: Position)
        ensures
            p == expr_pos(*self),
    {
        match self {
            Expression::Identifier { pos, .. } => *pos,
            Expression::IntegerLiteral { pos, .. } => *pos,
            Expression::BooleanLiteral { pos, .. } => *pos,
            Expression::StringLiteral { pos, .. } => *pos,
            Expression::Prefix { pos, .. } => *pos,
            Expression::Infix { pos, .. } => *pos,
            Expression::If { pos, .. } => *pos,
            Expression::FunctionLiteral { pos, .. } => *pos,
            Expression::Call { pos, .. } => *pos,
            Expression::ArrayLiteral { pos, .. } => *pos,
            Expression::HashLiteral { pos, .. } => *pos,
            Expression::Index { pos, .. } => *pos,
        }
    }

    /// Render the expression, fully parenthesized at operators.
    #[verifier::loop_isolation(false)]
    #[verifier::rlimit(60)]
    pub fn to_string(&self) -> (s: String)
        ensures
            s@ == expr_str(*self),
        decreases *self,
    {
        match self {
            Expression::Identifier { value, .. } => value.clone(),
            Expression::IntegerLiteral { raw, .. } => raw.clone(),
            Expression::BooleanLiteral { value, .. } => {
                if *value {
                    "true".to_owned()
                } else {
                    "false".to_owned()
                }
            },
            Expression::StringLiteral { value, .. } => {
                let mut out: String = "\"".to_owned();
                out.append(value.as_str());
                out.append("\"");
                out
            },
            Expression::Prefix { operator, right, .. } => {
                let mut out: String = "(".to_owned();
                out.append(operator.as_str());
                let rendered = (&**right).to_string();
                out.append(rendered.as_str());
                out.append(")");
                out
            },
            Expression::Infix { left, operator, right, .. } => {
                let mut out: String = "(".to_owned();
                let left_rendered = (&**left).to_string();
                out.append(left_rendered.as_str());
                out.append(" ");
                out.append(operator.as_str());
                out.append(" ");
                let right_rendered = (&**right).to_string();
                out.append(right_rendered.as_str());
                out.append(")");
                out
            },
            Expression::If { condition, consequence, alternative, .. } => {
                let mut out: String = "if (".to_owned();
                let cond_rendered = (&**condition).to_string();
                out.append(cond_rendered.as_str());
                out.append(") ");
                let cons_rendered = consequence.to_string();
                out.append(cons_rendered.as_str());
                match alternative {
                    Some(alt) => {
                        out.append(" else ");
                        let alt_rendered = alt.to_string();
                        out.append(alt_rendered.as_str());
                    },
                    None => {},
                }
                out
            },
            Expression::FunctionLiteral { parameters, body, .. } => {
                let mut out: String = "fn(".to_owned();
                let ghost full = parameters@;
                let ghost base = out@;
                let mut i: usize = 0;
                proof {
                    assert(full.subrange(0, full.len() as int) =~= full);
                }
                while i < parameters.len()
                    invariant
                        i <= full.len(),
                        base + idents_join(full) == out@ + idents_join(
                            full.subrange(i as int, full.len() as int),
                        ),
                    decreases full.len() - i,
                {
                    proof {
                        let tail = full.subrange(i as int, full.len() as int);
                        assert(tail[0] == full[i as int]);
                        assert(tail.drop_first() =~= full.subrange(
                            i as int + 1,
                            full.len() as int,
                        ));
                    }
                    out.append(parameters[i].value.as_str());
                    if i + 1 < parameters.len() {
                        out.append(", ");
                    }
                    i = i + 1;
                }
                proof {
                    assert(full.subrange(full.len() as int, full.len() as int)
                        =~= Seq::<Identifier>::empty());
                    assert(out@ + Seq::<char>::empty() =~= out@);
                }
                out.append(") ");
                let body_rendered = body.to_string();
                out.append(body_rendered.as_str());
                out
            },
            Expression::Call { function, arguments, .. } => {
                let mut out = (&**function).to_string();
                out.append("(");
                let ghost full = arguments@;
                let ghost base = out@;
                let mut i: usize = 0;
                proof {
                    assert(full.subrange(0, full.len() as int) =~= full);
                }
                while i < arguments.len()
                    invariant
                        i <= full.len(),
                        base + exprs_join(full) == out@ + exprs_join(
                            full.subrange(i as int, full.len() as int),
                        ),
                    decreases full.len() - i,
                {
                    proof {
                        let tail = full.subrange(i as int, full.len() as int);
                        assert(tail[0] == full[i as int]);
                        assert(tail.drop_first() =~= full.subrange(
                            i as int + 1,
                            full.len() as int,
                        ));
                        assert(decreases_to!(full => full[i as int]));
                    }
                    let rendered = arguments[i].to_string();
                    out.append(rendered.as_str());
                    if i + 1 < arguments.len() {
                        out.append(", ");
                    }
                    i = i + 1;
                }
                proof {
                    assert(full.subrange(full.len() as int, full.len() as int)
                        =~= Seq::<Expression>::empty());
                    assert(out@ + Seq::<char>::empty() =~= out@);
                }
                out.append(")");
                out
            },
            Expression::ArrayLiteral { elements, .. } => {
                let mut out: String = "[".to_owned();
                let ghost full = elements@;
                let ghost base = out@;
                let mut i: usize = 0;
                proof {
                    assert(full.subrange(0, full.len() as int) =~= full);
                }
                while i < elements.len()
                    invariant
                        i <= full.len(),
                        base + exprs_join(full) == out@ + exprs_join(
                            full.subrange(i as int, full.len() as int),
                        ),
                    decreases full.len() - i,
                {
                    proof {
                        let tail = full.subrange(i as int, full.len() as int);
                        assert(tail[0] == full[i as int]);
                        assert(tail.drop_first() =~= full.subrange(
                            i as int + 1,
                            full.len() as int,
                        ));
                        assert(decreases_to!(full => full[i as int]));
                    }
                    let rendered = elements[i].to_string();
                    out.append(rendered.as_str());
                    if i + 1 < elements.len() {
                        out.append(", ");
                    }
                    i = i + 1;
                }
                proof {
                    assert(full.subrange(full.len() as int, full.len() as int)
                        =~= Seq::<Expression>::empty());
                    assert(out@ + Seq::<char>::empty() =~= out@);
                }
                out.append("]");
                out
            },
            Expression::HashLiteral { pairs, .. } => {
                let mut out: String = "{".to_owned();
                let ghost full = pairs@;
                let ghost base = out@;
                let mut i: usize = 0;
                proof {
                    assert(full.subrange(0, full.len() as int) =~= full);
                }
                while i < pairs.len()
                    invariant
                        i <= full.len(),
                        base + expr_pairs_join(full) == out@ + expr_pairs_join(
                            full.subrange(i as int, full.len() as int),
                        ),
                    decreases full.len() - i,
                {
                    proof {
                        let tail = full.subrange(i as int, full.len() as int);
                        assert(tail[0] == full[i as int]);
                        assert(tail.drop_first() =~= full.subrange(
                            i as int + 1,
                            full.len() as int,
                        ));
                        assert(decreases_to!(full => full[i as int]));
                        assert(decreases_to!(full[i as int] => full[i as int].0));
                        assert(decreases_to!(full[i as int] => full[i as int].1));
                    }
                    let key_rendered = pairs[i].0.to_string();
                    out.append(key_rendered.as_str());
                    out.append(": ");
                    let value_rendered = pairs[i].1.to_string();
                    out.append(value_rendered.as_str());
                    if i + 1 < pairs.len() {
                        out.append(", ");
                    }
                    i = i + 1;
                }
                proof {
                    assert(full.subrange(full.len() as int, full.len() as int) =~= Seq::<
                        (Expression, Expression),
                    >::empty());
                    assert(out@ + Seq::<char>::empty() =~= out@);
                }
                out.append("}");
                out
            },
            Expression::Index { left, index, .. } => {
                let mut out: String = "(".to_owned();
                let left_rendered = (&**left).to_string();
                out.append(left_rendered.as_str());
                out.append("[");
                let index_rendered = (&**index).to_string();
                out.append(index_rendered.as_str());
                out.append("])");
                out
            },
        }
    }
}

impl Program {
    /// Render the program, one statement per line.
    #[verifier::loop_isolation(false)]
    pub fn to_string(&self) -> (s: String)
        ensures
            s@ == program_str(*self),
    {
        let mut out = String::new();
        let ghost full = self.statements@;
        let mut i: usize = 0;
        proof {
            assert(full.subrange(0, full.len() as int) =~= full);
        }
        while i < self.statements.len()
            invariant
                i <= full.len(),
                stmts_join(full, "\n"@) == out@ + stmts_join(
                    full.subrange(i as int, full.len() as int),
                    "\n"@,
                ),
            decreases full.len() - i,
        {
            proof {
                let tail = full.subrange(i as int, full.len() as int);
                assert(tail[0] == full[i as int]);
                assert(tail.drop_first() =~= full.subrange(i as int + 1, full.len() as int));
            }
            let rendered = self.statements[i].to_string();
            out.append(rendered.as_str());
            if i + 1 < self.statements.len() {
                out.append("\n");
            }
            i = i + 1;
        }
        proof {
            assert(full.subrange(full.len() as int, full.len() as int)
                =~= Seq::<Statement>::empty());
            assert(out@ + Seq::<char>::empty() =~= out@);
        }
        out
    }
}

} // verus!
