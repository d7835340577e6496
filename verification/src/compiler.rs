//! The compiler: translates the abstract syntax tree into a `Chunk`,
//! managing compilation scopes, symbol resolution, emitted-instruction
//! tracking, jump patching, and loop contexts.

use crate::ast::{stmt_pos, BlockStatement, Expression, Identifier, Program, Statement};
use crate::bytecode::{
    lookup_definition, make, make_spec, opcode_byte, opcode_from_byte, pos_lookup,
    pos_or_default, positions_sorted, sorted_insert, BytecodeError, Chunk, Opcode,
};
use crate::object::{CompiledFunctionObject, Object};
use crate::position::{position_str, Position};
use crate::symbol_table::{
    define_builtins, lemma_resolve_preserves_wf, resolve_rel, store_lookup, table_wf, Symbol,
    SymbolScope, SymbolTable,
};
use std::rc::Rc;
use vstd::pervasive::VecAdditionalExecFns;
use vstd::prelude::*;
use vstd::string::StringExecFns;

verus! {

/// Deterministic compile-time error with an optional source position.
#[derive(Debug, Clone, PartialEq, Eq)]
pub struct CompileError {
    pub message: String,
    pub pos: Option<Position>,
}

/// The rendered form of a compile error: `line:col: message`, or the bare
/// message when no position applies.
pub open spec fn compile_error_str(e: CompileError) -> Seq<char> {
    match e.pos {
        Some(p) => position_str(p.line as nat, p.col as nat) + ": "@ + e.message@,
        None => e.message@,
    }
}

impl CompileError {
    /// Build a compile error.
    pub fn new(message: &str, pos: Option<Position>) -> (e: Self)
        ensures
            e.message@ == message@,
            e.pos == pos,
    {
        Self { message: message.to_owned(), pos }
    }

    /// Render the error as `line:col: message`.
    pub fn to_string(&self) -> (s: String)
        ensures
            s@ == compile_error_str(*self),
    {
        match &self.pos {
            Some(p) => {
                let mut out = p.to_string();
                out.append(": ");
                out.append(self.message.as_str());
                out
            },
            None => self.message.clone(),
        }
    }
}

/// The operator spellings are pairwise distinct character sequences.
proof fn lemma_operator_literals_distinct()
    ensures
        "+"@ != "-"@,
        "+"@ != "*"@,
        "+"@ != "/"@,
        "+"@ != "=="@,
        "+"@ != "!="@,
        "+"@ != "<"@,
        "+"@ != ">"@,
        "+"@ != "<="@,
        "+"@ != ">="@,
        "+"@ != "&&"@,
        "+"@ != "||"@,
        "+"@ != "!"@,
        "-"@ != "*"@,
        "-"@ != "/"@,
        "-"@ != "=="@,
        "-"@ != "!="@,
        "-"@ != "<"@,
        "-"@ != ">"@,
        "-"@ != "<="@,
        "-"@ != ">="@,
        "-"@ != "&&"@,
        "-"@ != "||"@,
        "-"@ != "!"@,
        "*"@ != "/"@,
        "*"@ != "=="@,
        "*"@ != "!="@,
        "*"@ != "<"@,
        "*"@ != ">"@,
        "*"@ != "<="@,
        "*"@ != ">="@,
        "*"@ != "&&"@,
        "*"@ != "||"@,
        "*"@ != "!"@,
        "/"@ != "=="@,
        "/"@ != "!="@,
        "/"@ != "<"@,
        "/"@ != ">"@,
        "/"@ != "<="@,
        "/"@ != ">="@,
        "/"@ != "&&"@,
        "/"@ != "||"@,
        "/"@ != "!"@,
        "=="@ != "!="@,
        "=="@ != "<"@,
        "=="@ != ">"@,
        "=="@ != "<="@,
        "=="@ != ">="@,
        "=="@ != "&&"@,
        "=="@ != "||"@,
        "=="@ != "!"@,
        "!="@ != "<"@,
        "!="@ != ">"@,
        "!="@ != "<="@,
        "!="@ != ">="@,
        "!="@ != "&&"@,
        "!="@ != "||"@,
        "!="@ != "!"@,
        "<"@ != ">"@,
        "<"@ != "<="@,
        "<"@ != ">="@,
        "<"@ != "&&"@,
        "<"@ != "||"@,
        "<"@ != "!"@,
        ">"@ != "<="@,
        ">"@ != ">="@,
        ">"@ != "&&"@,
        ">"@ != "||"@,
        ">"@ != "!"@,
        "<="@ != ">="@,
        "<="@ != "&&"@,
        "<="@ != "||"@,
        "<="@ != "!"@,
        ">="@ != "&&"@,
        ">="@ != "||"@,
        ">="@ != "!"@,
        "&&"@ != "||"@,
        "&&"@ != "!"@,
        "||"@ != "!"@,
{
    reveal_strlit("+");
    reveal_strlit("-");
    reveal_strlit("*");
    reveal_strlit("/");
    reveal_strlit("==");
    reveal_strlit("!=");
    reveal_strlit("<");
    reveal_strlit(">");
    reveal_strlit("<=");
    reveal_strlit(">=");
    reveal_strlit("&&");
    reveal_strlit("||");
    reveal_strlit("!");
    assert("+"@[0] != "-"@[0]);
    assert("+"@[0] != "*"@[0]);
    assert("+"@[0] != "/"@[0]);
    assert("+"@.len() == 1 && "=="@.len() == 2);
    assert("+"@.len() == 1 && "!="@.len() == 2);
    assert("+"@[0] != "<"@[0]);
    assert("+"@[0] != ">"@[0]);
    assert("+"@.len() == 1 && "<="@.len() == 2);
    assert("+"@.len() == 1 && ">="@.len() == 2);
    assert("+"@.len() == 1 && "&&"@.len() == 2);
    assert("+"@.len() == 1 && "||"@.len() == 2);
    assert("+"@[0] != "!"@[0]);
    assert("-"@[0] != "*"@[0]);
    assert("-"@[0] != "/"@[0]);
    assert("-"@.len() == 1 && "=="@.len() == 2);
    assert("-"@.len() == 1 && "!="@.len() == 2);
    assert("-"@[0] != "<"@[0]);
    assert("-"@[0] != ">"@[0]);
    assert("-"@.len() == 1 && "<="@.len() == 2);
    assert("-"@.len() == 1 && ">="@.len() == 2);
    assert("-"@.len() == 1 && "&&"@.len() == 2);
    assert("-"@.len() == 1 && "||"@.len() == 2);
    assert("-"@[0] != "!"@[0]);
    assert("*"@[0] != "/"@[0]);
    assert("*"@.len() == 1 && "=="@.len() == 2);
    assert("*"@.len() == 1 && "!="@.len() == 2);
    assert("*"@[0] != "<"@[0]);
    assert("*"@[0] != ">"@[0]);
    assert("*"@.len() == 1 && "<="@.len() == 2);
    assert("*"@.len() == 1 && ">="@.len() == 2);
    assert("*"@.len() == 1 && "&&"@.len() == 2);
    assert("*"@.len() == 1 && "||"@.len() == 2);
    assert("*"@[0] != "!"@[0]);
    assert("/"@.len() == 1 && "=="@.len() == 2);
    assert("/"@.len() == 1 && "!="@.len() == 2);
    assert("/"@[0] != "<"@[0]);
    assert("/"@[0] != ">"@[0]);
    assert("/"@.len() == 1 && "<="@.len() == 2);
    assert("/"@.len() == 1 && ">="@.len() == 2);
    assert("/"@.len() == 1 && "&&"@.len() == 2);
    assert("/"@.len() == 1 && "||"@.len() == 2);
    assert("/"@[0] != "!"@[0]);
    assert("=="@[0] != "!="@[0]);
    assert("=="@.len() == 2 && "<"@.len() == 1);
    assert("=="@.len() == 2 && ">"@.len() == 1);
    assert("=="@[0] != "<="@[0]);
    assert("=="@[0] != ">="@[0]);
    assert("=="@[0] != "&&"@[0]);
    assert("=="@[0] != "||"@[0]);
    assert("=="@.len() == 2 && "!"@.len() == 1);
    assert("!="@.len() == 2 && "<"@.len() == 1);
    assert("!="@.len() == 2 && ">"@.len() == 1);
    assert("!="@[0] != "<="@[0]);
    assert("!="@[0] != ">="@[0]);
    assert("!="@[0] != "&&"@[0]);
    assert("!="@[0] != "||"@[0]);
    assert("!="@.len() == 2 && "!"@.len() == 1);
    assert("<"@[0] != ">"@[0]);
    assert("<"@.len() == 1 && "<="@.len() == 2);
    assert("<"@.len() == 1 && ">="@.len() == 2);
    assert("<"@.len() == 1 && "&&"@.len() == 2);
    assert("<"@.len() == 1 && "||"@.len() == 2);
    assert("<"@[0] != "!"@[0]);
    assert(">"@.len() == 1 && "<="@.len() == 2);
    assert(">"@.len() == 1 && ">="@.len() == 2);
    assert(">"@.len() == 1 && "&&"@.len() == 2);
    assert(">"@.len() == 1 && "||"@.len() == 2);
    assert(">"@[0] != "!"@[0]);
    assert("<="@[0] != ">="@[0]);
    assert("<="@[0] != "&&"@[0]);
    assert("<="@[0] != "||"@[0]);
    assert("<="@.len() == 2 && "!"@.len() == 1);
    assert(">="@[0] != "&&"@[0]);
    assert(">="@[0] != "||"@[0]);
    assert(">="@.len() == 2 && "!"@.len() == 1);
    assert("&&"@[0] != "||"@[0]);
    assert("&&"@.len() == 2 && "!"@.len() == 1);
    assert("||"@.len() == 2 && "!"@.len() == 1);
}


/// Markers naming intermediate compiler states and resolved symbols; they
/// serve as the quantifier triggers of the emission relation.
pub open spec fn trigger_states(mids: Seq<Compiler>) -> bool {
    true
}

pub open spec fn trigger_state(c: Compiler) -> bool {
    true
}

pub open spec fn trigger_state2(a: Compiler, b: Compiler) -> bool {
    true
}

pub open spec fn trigger_state3(a: Compiler, b: Compiler, c: Compiler) -> bool {
    true
}

pub open spec fn trigger_symbol(s: Symbol) -> bool {
    true
}

/// The load instruction for a resolved symbol: the opcode matching its
/// scope, with the symbol's slot as operand (none for the function-self
/// load).
pub open spec fn load_code(sym: Symbol) -> Result<Seq<u8>, BytecodeError> {
    match sym.scope {
        SymbolScope::Global => make_spec(Opcode::GetGlobal, seq![sym.index]),
        SymbolScope::Local => make_spec(Opcode::GetLocal, seq![sym.index]),
        SymbolScope::Builtin => make_spec(Opcode::GetBuiltin, seq![sym.index]),
        SymbolScope::Free => make_spec(Opcode::GetFree, seq![sym.index]),
        SymbolScope::Function => make_spec(Opcode::CurrentClosure, Seq::<usize>::empty()),
    }
}

/// How compiling one expression moves the compiler from `pre` to `post`:
/// the current scope's instruction stream is extended by the expression's
/// code, operands and elements compiled left to right, in source order,
/// each followed by the expression's own instruction. Conditionals,
/// short-circuit operators, and function literals are described by the
/// order of their sub-compilations; their jump patching and scope handling
/// are carried by `compile_expression`'s other clauses.
pub open spec fn expr_emitted(pre: Compiler, post: Compiler, e: Expression) -> bool
    decreases e, 0int,
{
    match e {
        Expression::IntegerLiteral { value, .. } => {
            let idx = pre.spec_chunk().constants@.len() as usize;
            &&& make_spec(Opcode::Constant, seq![idx]) is Ok
            &&& post.cur_instrs() == pre.cur_instrs() + make_spec(
                Opcode::Constant,
                seq![idx],
            )->Ok_0
            &&& post.spec_chunk().constants@.len() == pre.spec_chunk().constants@.len() + 1
            &&& *post.spec_chunk().constants@.last() == Object::Integer(value)
            &&& post.scope_depth() == pre.scope_depth()
        },
        Expression::StringLiteral { value, .. } => {
            let idx = pre.spec_chunk().constants@.len() as usize;
            &&& make_spec(Opcode::Constant, seq![idx]) is Ok
            &&& post.cur_instrs() == pre.cur_instrs() + make_spec(
                Opcode::Constant,
                seq![idx],
            )->Ok_0
            &&& post.spec_chunk().constants@.len() == pre.spec_chunk().constants@.len() + 1
            &&& ((*post.spec_chunk().constants@.last()) matches Object::String(s) && s@ == value@)
            &&& post.scope_depth() == pre.scope_depth()
        },
        Expression::BooleanLiteral { value, .. } => {
            &&& post.cur_instrs() == pre.cur_instrs() + seq![
                opcode_byte(
                    if value {
                        Opcode::True
                    } else {
                        Opcode::False
                    },
                ),
            ]
            &&& post.scope_depth() == pre.scope_depth()
        },
        Expression::Identifier { value, .. } => {
            exists|sym: Symbol|
                {
                    &&& #[trigger] trigger_symbol(sym)
                    &&& resolve_rel(
                        pre.spec_symbol_table(),
                        post.spec_symbol_table(),
                        value@,
                        Some(sym),
                    )
                    &&& load_code(sym) is Ok
                    &&& post.cur_instrs() == pre.cur_instrs() + load_code(sym)->Ok_0
                    &&& post.scope_depth() == pre.scope_depth()
                }
        },
        Expression::Prefix { operator, right, .. } => {
            exists|mid: Compiler|
                {
                    &&& #[trigger] trigger_state(mid)
                    &&& expr_emitted(pre, mid, *right)
                    &&& (operator@ == "!"@ || operator@ == "-"@)
                    &&& post.cur_instrs() == mid.cur_instrs() + seq![
                        opcode_byte(
                            if operator@ == "!"@ {
                                Opcode::Bang
                            } else {
                                Opcode::Neg
                            },
                        ),
                    ]
                    &&& post.scope_depth() == pre.scope_depth()
                }
        },
        Expression::Infix { left, operator, right, .. } => {
            if operator@ == "&&"@ || operator@ == "||"@ {
                exists|mid1: Compiler, mid2: Compiler, mid3: Compiler|
                    {
                        &&& #[trigger] trigger_state3(mid1, mid2, mid3)
                        &&& expr_emitted(pre, mid1, *left)
                        &&& mid2.cur_instrs().len() >= mid1.cur_instrs().len() + 4
                        &&& mid2.cur_instrs().subrange(0, mid1.cur_instrs().len() as int)
                            == mid1.cur_instrs()
                        &&& expr_emitted(mid2, mid3, *right)
                        &&& post.scope_depth() == pre.scope_depth()
                    }
            } else {
                exists|mid1: Compiler, mid2: Compiler|
                    {
                        &&& #[trigger] trigger_state2(mid1, mid2)
                        &&& expr_emitted(pre, mid1, *left)
                        &&& expr_emitted(mid1, mid2, *right)
                        &&& (infix_opcode(operator@) matches Some(op) && post.cur_instrs()
                            == mid2.cur_instrs() + seq![opcode_byte(op)])
                        &&& post.scope_depth() == pre.scope_depth()
                    }
            }
        },
        Expression::If { condition, .. } => {
            exists|mid: Compiler|
                {
                    &&& #[trigger] trigger_state(mid)
                    &&& expr_emitted(pre, mid, *condition)
                    &&& post.scope_depth() == pre.scope_depth()
                }
        },
        Expression::FunctionLiteral { .. } => {
            &&& post.cur_last_op() == Some(Opcode::Closure)
            &&& post.scope_depth() == pre.scope_depth()
        },
        Expression::Call { function, arguments, .. } => {
            exists|mids: Seq<Compiler>|
                {
                    &&& #[trigger] trigger_states(mids)
                    &&& mids.len() == arguments@.len() + 1
                    &&& expr_emitted(pre, mids[0], *function)
                    &&& forall|j: int|
                        #![trigger mids[j]]
                        0 <= j < arguments@.len() ==> expr_emitted(
                            mids[j],
                            mids[j + 1],
                            arguments@[j],
                        )
                    &&& make_spec(Opcode::Call, seq![arguments@.len() as usize]) is Ok
                    &&& post.cur_instrs() == mids.last().cur_instrs() + make_spec(
                        Opcode::Call,
                        seq![arguments@.len() as usize],
                    )->Ok_0
                    &&& post.scope_depth() == pre.scope_depth()
                }
        },
        Expression::ArrayLiteral { elements, .. } => {
            exists|mids: Seq<Compiler>|
                {
                    &&& #[trigger] trigger_states(mids)
                    &&& mids.len() == elements@.len() + 1
                    &&& mids[0] == pre
                    &&& forall|j: int|
                        #![trigger mids[j]]
                        0 <= j < elements@.len() ==> expr_emitted(
                            mids[j],
                            mids[j + 1],
                            elements@[j],
                        )
                    &&& make_spec(Opcode::Array, seq![elements@.len() as usize]) is Ok
                    &&& post.cur_instrs() == mids.last().cur_instrs() + make_spec(
                        Opcode::Array,
                        seq![elements@.len() as usize],
                    )->Ok_0
                    &&& post.scope_depth() == pre.scope_depth()
                }
        },
        Expression::HashLiteral { pairs, .. } => {
            exists|mids: Seq<Compiler>|
                {
                    &&& #[trigger] trigger_states(mids)
                    &&& mids.len() == 2 * pairs@.len() + 1
                    &&& mids[0] == pre
                    &&& forall|j: int|
                        #![trigger pairs@[j]]
                        0 <= j < pairs@.len() ==> (expr_emitted(
                            mids[2 * j],
                            mids[2 * j + 1],
                            pairs@[j].0,
                        ) && expr_emitted(mids[2 * j + 1], mids[2 * j + 2], pairs@[j].1))
                    &&& make_spec(Opcode::Hash, seq![pairs@.len() as usize]) is Ok
                    &&& post.cur_instrs() == mids.last().cur_instrs() + make_spec(
                        Opcode::Hash,
                        seq![pairs@.len() as usize],
                    )->Ok_0
                    &&& post.scope_depth() == pre.scope_depth()
                }
        },
        Expression::Index { left, index, .. } => {
            exists|mid1: Compiler, mid2: Compiler|
                {
                    &&& #[trigger] trigger_state2(mid1, mid2)
                    &&& expr_emitted(pre, mid1, *left)
                    &&& expr_emitted(mid1, mid2, *index)
                    &&& post.cur_instrs() == mid2.cur_instrs() + seq![opcode_byte(Opcode::Index)]
                    &&& post.scope_depth() == pre.scope_depth()
                }
        },
    }
}

/// The opcode a plain infix operator compiles to, if any.
pub open spec fn infix_opcode(operator: Seq<char>) -> Option<Opcode> {
    if operator == "+"@ {
        Some(Opcode::Add)
    } else if operator == "-"@ {
        Some(Opcode::Sub)
    } else if operator == "*"@ {
        Some(Opcode::Mul)
    } else if operator == "/"@ {
        Some(Opcode::Div)
    } else if operator == "=="@ {
        Some(Opcode::Eq)
    } else if operator == "!="@ {
        Some(Opcode::Ne)
    } else if operator == "<"@ {
        Some(Opcode::Lt)
    } else if operator == ">"@ {
        Some(Opcode::Gt)
    } else if operator == "<="@ {
        Some(Opcode::Le)
    } else if operator == ">="@ {
        Some(Opcode::Ge)
    } else {
        None
    }
}

/// A resolution that succeeds rules out every failing resolution of the
/// same name from the same table.
proof fn lemma_resolve_some_excludes_none(t0: SymbolTable, t2: SymbolTable, name: Seq<char>, sym: Symbol)
    requires
        resolve_rel(t0, t2, name, Some(sym)),
    ensures
        forall|t1: SymbolTable| !(#[trigger] resolve_rel(t0, t1, name, None::<Symbol>)),
    decreases t0,
{
    assert forall|t1: SymbolTable| !(#[trigger] resolve_rel(t0, t1, name, None::<Symbol>)) by {
        if resolve_rel(t0, t1, name, None::<Symbol>) {
            match store_lookup(t0.store@, name) {
                Some(_) => {},
                None => match t0.outer {
                    None => {},
                    Some(outer0) => {
                        match sym.scope {
                            SymbolScope::Global | SymbolScope::Builtin => {
                                let outer2 = t2.outer->Some_0;
                                lemma_resolve_some_excludes_none(*outer0, *outer2, name, sym);
                                assert(resolve_rel(*outer0, *outer0, name, None::<Symbol>));
                                assert(false);
                            },
                            SymbolScope::Free => {
                                let orig = t2.free_symbols@.last();
                                let outer2 = t2.outer->Some_0;
                                lemma_resolve_some_excludes_none(*outer0, *outer2, name, orig);
                                assert(resolve_rel(*outer0, *outer0, name, None::<Symbol>));
                                assert(false);
                            },
                            _ => {},
                        }
                    },
                },
            }
        }
    }
}

/// The opcode and offset of an already emitted instruction.
#[derive(Debug, Clone, Copy, PartialEq, Eq, Structural)]
struct EmittedInstruction {
    opcode: Opcode,
    offset: usize,
}

/// An enclosing loop during compilation: where `continue` jumps to and the
/// `break` jump offsets that remain to be patched.
#[derive(Debug)]
struct LoopContext {
    continue_target: usize,
    break_jumps: Vec<usize>,
    loop_pos: Position,
}

/// Per-function compilation state: the instructions being emitted, their
/// position map, emitted-instruction tracking, and the loop-context stack.
#[derive(Debug)]
struct CompilationScope {
    instructions: Vec<u8>,
    positions: Vec<(usize, Position)>,
    last_instruction: Option<EmittedInstruction>,
    previous_instruction: Option<EmittedInstruction>,
    loop_stack: Vec<LoopContext>,
}

/// AST-to-bytecode compiler.
#[derive(Debug)]
pub struct Compiler {
    chunk: Chunk,
    symbol_table: SymbolTable,
    last_instruction: Option<EmittedInstruction>,
    previous_instruction: Option<EmittedInstruction>,
    loop_stack: Vec<LoopContext>,
    scopes: Vec<CompilationScope>,
    scope_index: usize,
}

impl Compiler {
    /// The compiler state is consistent: the scope index mirrors the scope
    /// stack, the symbol table can accept definitions, and every position
    /// map is sorted by offset.
    pub closed spec fn wf(self) -> bool {
        &&& self.scope_index == self.scopes@.len()
        &&& table_wf(self.symbol_table)
        &&& positions_sorted(self.chunk.positions@)
        &&& forall|i: int|
            0 <= i < self.scopes@.len() ==> positions_sorted(
                (#[trigger] self.scopes@[i]).positions@,
            )
    }

    /// The instruction stream currently being emitted into: the innermost
    /// scope's, or the top-level chunk's.
    pub closed spec fn cur_instrs(self) -> Seq<u8> {
        if self.scopes@.len() == 0 {
            self.chunk.instructions@
        } else {
            self.scopes@.last().instructions@
        }
    }

    /// The emitted-instruction tracking of the current scope.
    closed spec fn cur_last(self) -> Option<EmittedInstruction> {
        if self.scopes@.len() == 0 {
            self.last_instruction
        } else {
            self.scopes@.last().last_instruction
        }
    }

    /// The loop-context stack of the current scope.
    closed spec fn cur_loops(self) -> Seq<LoopContext> {
        if self.scopes@.len() == 0 {
            self.loop_stack@
        } else {
            self.scopes@.last().loop_stack@
        }
    }

    /// The chunk compiled so far.
    pub closed spec fn spec_chunk(self) -> Chunk {
        self.chunk
    }

    /// The symbol table of the current scope chain.
    pub closed spec fn spec_symbol_table(self) -> SymbolTable {
        self.symbol_table
    }

    /// A compiler at the top level whose chunk is still empty.
    pub closed spec fn pristine(self) -> bool {
        &&& self.at_start()
        &&& self.chunk.instructions@.len() == 0
        &&& self.chunk.positions@.len() == 0
    }

    /// A compiler at the top level that has emitted nothing yet.
    pub closed spec fn at_start(self) -> bool {
        &&& self.scopes@.len() == 0
        &&& self.last_instruction is None
        &&& self.loop_stack@.len() == 0
    }

    /// The current scope's last emitted instruction is a `ReturnValue` or a
    /// `Return`.
    pub closed spec fn ends_with_terminator(self) -> bool {
        self.cur_last() matches Some(e) && (e.opcode == Opcode::ReturnValue || e.opcode
            == Opcode::Return)
    }

    /// Build a compiler with an empty chunk and the builtin names
    /// registered.
    pub fn new() -> (c: Self)
        ensures
            c.wf(),
            c.at_start(),
            c.pristine(),
            c.cur_instrs() == Seq::<u8>::empty(),
            c.spec_chunk().instructions@ == Seq::<u8>::empty(),
            c.spec_chunk().constants@.len() == 0,
            c.spec_chunk().positions@ == Seq::<(usize, Position)>::empty(),
    {
        let mut root = SymbolTable::new();
        define_builtins(&mut root);
        Self {
            chunk: Chunk::new(),
            symbol_table: root,
            last_instruction: None,
            previous_instruction: None,
            loop_stack: Vec::new(),
            scopes: Vec::new(),
            scope_index: 0,
        }
    }

    /// The chunk compiled so far.
    pub fn bytecode(&self) -> (c: &Chunk)
        ensures
            *c == self.spec_chunk(),
    {
        &self.chunk
    }

    /// Consume the compiler and yield its chunk.
    pub fn into_bytecode(self) -> (c: Chunk)
        ensures
            c == self.spec_chunk(),
    {
        self.chunk
    }

    /// The length of the current instruction stream.
    fn current_offset(&self) -> (n: usize)
        requires
            self.wf(),
        ensures
            n == self.cur_instrs().len(),
    {
        if self.scope_index == 0 {
            self.chunk.instructions.len()
        } else {
            self.scopes[self.scope_index - 1].instructions.len()
        }
    }

    /// Append encoded bytes to the current instruction stream.
    fn append_current(&mut self, bytes: &Vec<u8>)
        requires
            old(self).wf(),
        ensures
            final(self).wf(),
            final(self).cur_instrs() == old(self).cur_instrs() + bytes@,
            final(self).chunk.constants == old(self).chunk.constants,
            final(self).symbol_table == old(self).symbol_table,
            final(self).scopes@.len() == old(self).scopes@.len(),
            final(self).scope_index == old(self).scope_index,
            final(self).cur_last() == old(self).cur_last(),
            final(self).cur_loops() == old(self).cur_loops(),
            final(self).cur_positions() == old(self).cur_positions(),
            final(self).loop_stack == old(self).loop_stack,
            final(self).last_instruction == old(self).last_instruction,
            old(self).scopes@.len() == 0 ==> final(self).chunk.positions
                == old(self).chunk.positions,
            old(self).scopes@.len() > 0 ==> final(self).chunk == old(self).chunk,
    {
        if self.scope_index == 0 {
            self.chunk.instructions.extend_from_slice(bytes.as_slice());
        } else {
            let idx = self.scope_index - 1;
            let scope = &mut self.scopes[idx];
            scope.instructions.extend_from_slice(bytes.as_slice());
            proof {
                assert(self.scopes@.last() == self.scopes@[idx as int]);
            }
        }
    }

    /// Record a source position for the instruction at `offset` in the
    /// current scope's position map, keeping it sorted.
    fn record_current_pos(&mut self, offset: usize, pos: Position)
        requires
            old(self).wf(),
        ensures
            final(self).wf(),
            final(self).cur_positions() == sorted_insert(old(self).cur_positions(), offset, pos),
            final(self).cur_instrs() == old(self).cur_instrs(),
            final(self).chunk.instructions == old(self).chunk.instructions,
            final(self).chunk.constants == old(self).chunk.constants,
            final(self).symbol_table == old(self).symbol_table,
            final(self).scopes@.len() == old(self).scopes@.len(),
            final(self).scope_index == old(self).scope_index,
            final(self).cur_last() == old(self).cur_last(),
            final(self).cur_loops() == old(self).cur_loops(),
            final(self).loop_stack == old(self).loop_stack,
            final(self).last_instruction == old(self).last_instruction,
    {
        if self.scope_index == 0 {
            self.chunk.record_pos(offset, pos);
        } else {
            let idx = self.scope_index - 1;
            let ghost entries = self.scopes@[idx as int].positions@;
            let scope = &mut self.scopes[idx];
            let mut k: usize = 0;
            while k < scope.positions.len() && scope.positions[k].0 <= offset
                invariant
                    scope.positions@ == entries,
                    k <= entries.len(),
                    forall|j: int| 0 <= j < k ==> (#[trigger] entries[j]).0 <= offset,
                decreases entries.len() - k,
            {
                k = k + 1;
            }
            scope.positions.insert(k, (offset, pos));
            proof {
                crate::bytecode::lemma_sorted_insert_at(entries, offset, pos, k as int);
                assert(scope.positions@ =~= entries.subrange(0, k as int) + seq![(offset, pos)]
                    + entries.subrange(k as int, entries.len() as int));
                let merged = scope.positions@;
                assert forall|i: int, j: int|
                    0 <= i < j < merged.len() implies (#[trigger] merged[i]).0
                    <= (#[trigger] merged[j]).0 by {
                    assert(positions_sorted(entries));
                    if i < k && j < k {
                    } else if i == k as int {
                        assert(merged[i].0 == offset);
                        assert(merged[j] == entries[j - 1]);
                        assert(entries[k as int].0 > offset);
                        assert(entries[k as int].0 <= entries[j - 1].0);
                    } else if j == k as int {
                        assert(merged[i] == entries[i]);
                    } else if i > k as int && j > k as int {
                        assert(merged[i] == entries[i - 1]);
                        assert(merged[j] == entries[j - 1]);
                    } else {
                        assert(merged[i] == entries[i]);
                        assert(merged[j] == entries[j - 1]);
                    }
                }
                assert(self.scopes@.last() == self.scopes@[idx as int]);
            }
        }
    }

    /// Remember the opcode and offset just emitted in the current scope.
    fn set_last_instruction(&mut self, opcode: Opcode, offset: usize)
        requires
            old(self).wf(),
        ensures
            final(self).wf(),
            final(self).cur_instrs() == old(self).cur_instrs(),
            final(self).chunk.instructions == old(self).chunk.instructions,
            final(self).chunk.constants == old(self).chunk.constants,
            final(self).chunk.positions == old(self).chunk.positions,
            final(self).symbol_table == old(self).symbol_table,
            final(self).scopes@.len() == old(self).scopes@.len(),
            final(self).scope_index == old(self).scope_index,
            final(self).cur_last() == Some(EmittedInstruction { opcode, offset }),
            final(self).cur_loops() == old(self).cur_loops(),
            final(self).cur_positions() == old(self).cur_positions(),
            final(self).loop_stack == old(self).loop_stack,
    {
        if self.scope_index == 0 {
            self.previous_instruction = self.last_instruction;
            self.last_instruction = Some(EmittedInstruction { opcode, offset });
        } else {
            let idx = self.scope_index - 1;
            let scope = &mut self.scopes[idx];
            scope.previous_instruction = scope.last_instruction;
            scope.last_instruction = Some(EmittedInstruction { opcode, offset });
            proof {
                assert(self.scopes@.last() == self.scopes@[idx as int]);
            }
        }
    }

    /// Build a compile error from a failed instruction encoding.
    fn bytecode_error(&self, op: Opcode, pos: Position, err: BytecodeError) -> (e: CompileError)
        ensures
            e.pos == Some(pos),
    {
        let mut message: String = "failed to emit ".to_owned();
        message.append(lookup_definition(op).name);
        message.append(": ");
        let rendered = err.to_string();
        message.append(rendered.as_str());
        CompileError { message, pos: Some(pos) }
    }

    /// Emit one instruction at the end of the current stream, record its
    /// position, and update the emitted-instruction tracking; returns the
    /// offset at which the instruction begins.
    fn emit(&mut self, op: Opcode, operands: &[usize], pos: Position) -> (r: Result<
        usize,
        CompileError,
    >)
        requires
            old(self).wf(),
        ensures
            final(self).wf(),
            final(self).chunk.constants == old(self).chunk.constants,
            final(self).symbol_table == old(self).symbol_table,
            final(self).scopes@.len() == old(self).scopes@.len(),
            final(self).scope_index == old(self).scope_index,
            final(self).cur_loops() == old(self).cur_loops(),
            final(self).loop_stack == old(self).loop_stack,
            old(self).scopes@.len() > 0 ==> final(self).chunk.instructions
                == old(self).chunk.instructions,
            match r {
                Ok(offset) => {
                    &&& make_spec(op, operands@) is Ok
                    &&& offset == old(self).cur_instrs().len()
                    &&& final(self).cur_instrs() == old(self).cur_instrs() + make_spec(
                        op,
                        operands@,
                    )->Ok_0
                    &&& final(self).cur_last() == Some(EmittedInstruction { opcode: op, offset })
                    &&& final(self).cur_positions() == sorted_insert(
                        old(self).cur_positions(),
                        offset,
                        pos,
                    )
                },
                Err(_) => *final(self) == *old(self) && make_spec(op, operands@) is Err,
            },
    {
        let encoded = match make(op, operands) {
            Ok(bytes) => bytes,
            Err(err) => {
                return Err(self.bytecode_error(op, pos, err));
            },
        };
        let offset = self.current_offset();
        self.append_current(&encoded);
        self.record_current_pos(offset, pos);
        self.set_last_instruction(op, offset);
        Ok(offset)
    }

    /// The current scope's last emitted instruction, if any.
    fn current_last_instruction(&self) -> (r: Option<EmittedInstruction>)
        requires
            self.wf(),
        ensures
            r == self.cur_last(),
    {
        if self.scope_index == 0 {
            self.last_instruction
        } else {
            self.scopes[self.scope_index - 1].last_instruction
        }
    }

    /// Whether the current scope's last emitted instruction is `opcode`.
    fn last_instruction_is(&self, opcode: Opcode) -> (r: bool)
        requires
            self.wf(),
        ensures
            r == (self.cur_last() matches Some(e) && e.opcode == opcode),
    {
        match self.current_last_instruction() {
            Some(e) => e.opcode == opcode,
            None => false,
        }
    }

    /// Whether the current scope has no enclosing loop context.
    fn loops_empty(&self) -> (r: bool)
        requires
            self.wf(),
        ensures
            r == (self.cur_loops().len() == 0),
    {
        if self.scope_index == 0 {
            self.loop_stack.len() == 0
        } else {
            self.scopes[self.scope_index - 1].loop_stack.len() == 0
        }
    }

    /// Push a loop context onto the current scope's loop stack.
    fn push_loop_context(&mut self, ctx: LoopContext)
        requires
            old(self).wf(),
        ensures
            final(self).wf(),
            final(self).cur_instrs() == old(self).cur_instrs(),
            final(self).chunk.constants == old(self).chunk.constants,
            final(self).symbol_table == old(self).symbol_table,
            final(self).scopes@.len() == old(self).scopes@.len(),
            final(self).cur_last() == old(self).cur_last(),
            final(self).cur_loops().len() == old(self).cur_loops().len() + 1,
    {
        if self.scope_index == 0 {
            self.loop_stack.push(ctx);
        } else {
            let idx = self.scope_index - 1;
            let scope = &mut self.scopes[idx];
            scope.loop_stack.push(ctx);
            proof {
                assert(self.scopes@.last() == self.scopes@[idx as int]);
            }
        }
    }

    /// Pop the innermost loop context of the current scope.
    fn pop_loop_context(&mut self) -> (r: Option<LoopContext>)
        requires
            old(self).wf(),
        ensures
            final(self).wf(),
            final(self).cur_instrs() == old(self).cur_instrs(),
            final(self).chunk.constants == old(self).chunk.constants,
            final(self).symbol_table == old(self).symbol_table,
            final(self).scopes@.len() == old(self).scopes@.len(),
            final(self).cur_last() == old(self).cur_last(),
            old(self).cur_loops().len() > 0 ==> (r is Some && final(self).cur_loops().len() == old(
                self,
            ).cur_loops().len() - 1),
            old(self).cur_loops().len() == 0 ==> (r is None && final(self).cur_loops() == old(
                self,
            ).cur_loops()),
    {
        if self.scope_index == 0 {
            self.loop_stack.pop()
        } else {
            let idx = self.scope_index - 1;
            let scope = &mut self.scopes[idx];
            let r = scope.loop_stack.pop();
            proof {
                assert(self.scopes@.last() == self.scopes@[idx as int]);
            }
            r
        }
    }

    /// The continue target of the innermost loop context, if one exists.
    fn continue_target(&self) -> (r: Option<usize>)
        requires
            self.wf(),
        ensures
            r is Some <==> self.cur_loops().len() > 0,
    {
        if self.scope_index == 0 {
            if self.loop_stack.len() == 0 {
                None
            } else {
                Some(self.loop_stack[self.loop_stack.len() - 1].continue_target)
            }
        } else {
            let idx = self.scope_index - 1;
            if self.scopes[idx].loop_stack.len() == 0 {
                None
            } else {
                let n = self.scopes[idx].loop_stack.len();
                Some(self.scopes[idx].loop_stack[n - 1].continue_target)
            }
        }
    }

    /// Record a break jump offset in the innermost loop context; reports
    /// whether a loop context existed.
    fn record_break_jump(&mut self, offset: usize) -> (r: bool)
        requires
            old(self).wf(),
        ensures
            final(self).wf(),
            final(self).cur_instrs() == old(self).cur_instrs(),
            final(self).chunk.constants == old(self).chunk.constants,
            final(self).symbol_table == old(self).symbol_table,
            final(self).scopes@.len() == old(self).scopes@.len(),
            final(self).cur_last() == old(self).cur_last(),
            final(self).cur_loops().len() == old(self).cur_loops().len(),
            r == (old(self).cur_loops().len() > 0),
    {
        if self.scope_index == 0 {
            let n = self.loop_stack.len();
            if n == 0 {
                return false;
            }
            let ctx = &mut self.loop_stack[n - 1];
            ctx.break_jumps.push(offset);
            true
        } else {
            let idx = self.scope_index - 1;
            let n = self.scopes[idx].loop_stack.len();
            if n == 0 {
                proof {
                    assert(self.scopes@.last() == self.scopes@[idx as int]);
                }
                return false;
            }
            let scope = &mut self.scopes[idx];
            let ctx = &mut scope.loop_stack[n - 1];
            ctx.break_jumps.push(offset);
            proof {
                assert(self.scopes@.last() == self.scopes@[idx as int]);
            }
            true
        }
    }

    /// Overwrite already emitted bytes at `offset` in the current stream.
    fn replace_instruction(&mut self, offset: usize, bytes: &Vec<u8>) -> (r: Result<
        (),
        CompileError,
    >)
        requires
            old(self).wf(),
        ensures
            final(self).wf(),
            final(self).chunk.constants == old(self).chunk.constants,
            final(self).symbol_table == old(self).symbol_table,
            final(self).scopes@.len() == old(self).scopes@.len(),
            final(self).cur_last() == old(self).cur_last(),
            final(self).cur_loops() == old(self).cur_loops(),
            final(self).cur_instrs().len() == old(self).cur_instrs().len(),
            r is Ok <==> offset + bytes@.len() <= old(self).cur_instrs().len(),
            r is Ok ==> forall|k: int|
                0 <= k < final(self).cur_instrs().len() ==> final(self).cur_instrs()[k] == (
                if offset <= k < offset + bytes@.len() {
                    bytes@[k - offset]
                } else {
                    old(self).cur_instrs()[k]
                }),
            r is Err ==> *final(self) == *old(self),
    {
        let end_ok = offset <= self.current_offset() && bytes.len() <= self.current_offset()
            - offset;
        if !end_ok {
            let mut message: String = "replacement instruction out of bounds at offset ".to_owned();
            crate::render::push_usize(&mut message, offset);
            return Err(CompileError { message, pos: None });
        }
        let total = self.current_offset();
        let mut i: usize = 0;
        while i < bytes.len()
            invariant
                self.wf(),
                i <= bytes@.len(),
                offset + bytes@.len() <= total,
                self.cur_instrs().len() == total,
                self.cur_instrs().len() == old(self).cur_instrs().len(),
                self.chunk.constants == old(self).chunk.constants,
                self.symbol_table == old(self).symbol_table,
                self.scopes@.len() == old(self).scopes@.len(),
                self.scope_index == old(self).scope_index,
                self.cur_last() == old(self).cur_last(),
                self.cur_loops() == old(self).cur_loops(),
                forall|k: int|
                    0 <= k < self.cur_instrs().len() ==> self.cur_instrs()[k] == (if offset <= k
                        < offset + i {
                        bytes@[k - offset]
                    } else {
                        old(self).cur_instrs()[k]
                    }),
            decreases bytes@.len() - i,
        {
            let b = bytes[i];
            if self.scope_index == 0 {
                self.chunk.instructions.set(offset + i, b);
            } else {
                let idx = self.scope_index - 1;
                let scope = &mut self.scopes[idx];
                scope.instructions.set(offset + i, b);
                proof {
                    assert(self.scopes@.last() == self.scopes@[idx as int]);
                }
            }
            i = i + 1;
        }
        Ok(())
    }

    /// The byte at `offset` in the current stream, when in bounds.
    fn current_byte_at(&self, offset: usize) -> (r: Option<u8>)
        requires
            self.wf(),
        ensures
            r is Some <==> offset < self.cur_instrs().len(),
            r matches Some(b) ==> b == self.cur_instrs()[offset as int],
    {
        if self.scope_index == 0 {
            if offset < self.chunk.instructions.len() {
                Some(self.chunk.instructions[offset])
            } else {
                None
            }
        } else {
            let idx = self.scope_index - 1;
            if offset < self.scopes[idx].instructions.len() {
                Some(self.scopes[idx].instructions[offset])
            } else {
                None
            }
        }
    }

    /// Emit an instruction that always encodes: one with no operands.
    fn emit_nullary(&mut self, op: Opcode, pos: Position) -> (offset: usize)
        requires
            old(self).wf(),
            crate::bytecode::op_widths(op).len() == 0,
        ensures
            final(self).wf(),
            final(self).chunk.constants == old(self).chunk.constants,
            final(self).symbol_table == old(self).symbol_table,
            final(self).scopes@.len() == old(self).scopes@.len(),
            final(self).scope_index == old(self).scope_index,
            final(self).cur_loops() == old(self).cur_loops(),
            final(self).loop_stack == old(self).loop_stack,
            offset == old(self).cur_instrs().len(),
            final(self).cur_instrs() == old(self).cur_instrs() + seq![opcode_byte(op)],
            final(self).cur_last() == Some(EmittedInstruction { opcode: op, offset }),
            final(self).cur_positions() == sorted_insert(
                old(self).cur_positions(),
                offset,
                pos,
            ),
            old(self).scopes@.len() > 0 ==> final(self).chunk.instructions
                == old(self).chunk.instructions,
    {
        proof {
            let ops = Seq::<usize>::empty();
            assert(crate::bytecode::encode_ops(op, ops, crate::bytecode::op_widths(op), 0)
                == Ok::<Seq<u8>, BytecodeError>(Seq::<u8>::empty()));
            assert(make_spec(op, ops) matches Ok(b) && b == seq![opcode_byte(op)] + Seq::<
                u8,
            >::empty());
            assert(seq![opcode_byte(op)] + Seq::<u8>::empty() =~= seq![opcode_byte(op)]);
        }
        let operands: Vec<usize> = Vec::new();
        match self.emit(op, operands.as_slice(), pos) {
            Ok(offset) => offset,
            Err(_) => {
                proof {
                    assert(false);
                }
                0
            },
        }
    }

    /// Emit a jump with a placeholder target of zero, returning its offset
    /// for later patching.
    fn emit_jump(&mut self, op: Opcode, pos: Position) -> (r: Result<usize, CompileError>)
        requires
            old(self).wf(),
        ensures
            final(self).wf(),
            final(self).chunk.constants == old(self).chunk.constants,
            final(self).symbol_table == old(self).symbol_table,
            final(self).scopes@.len() == old(self).scopes@.len(),
            final(self).cur_loops() == old(self).cur_loops(),
            r matches Ok(offset) ==> (offset == old(self).cur_instrs().len() && make_spec(
                op,
                seq![0usize],
            ) is Ok && final(self).cur_instrs() == old(self).cur_instrs() + make_spec(
                op,
                seq![0usize],
            )->Ok_0),
        decreases 0int, 0int,
    {
        let operands: Vec<usize> = vec![0];
        proof {
            assert(operands@ =~= seq![0usize]);
        }
        self.emit(op, operands.as_slice(), pos)
    }

    /// Emit a `Pop`.
    fn emit_pop(&mut self, pos: Position) -> (r: Result<usize, CompileError>)
        requires
            old(self).wf(),
        ensures
            final(self).wf(),
            final(self).chunk.constants == old(self).chunk.constants,
            final(self).symbol_table == old(self).symbol_table,
            final(self).scopes@.len() == old(self).scopes@.len(),
            final(self).cur_loops() == old(self).cur_loops(),
            final(self).cur_last_op() == Some(Opcode::Pop),
            final(self).cur_last_entry() == Some((Opcode::Pop, old(self).cur_instrs().len())),
            final(self).cur_instrs() == old(self).cur_instrs() + seq![opcode_byte(Opcode::Pop)],
            r is Ok,
    {
        Ok(self.emit_nullary(Opcode::Pop, pos))
    }

    /// Emit the double-negation that normalizes a value to a boolean.
    fn emit_bool_normalize(&mut self, pos: Position) -> (r: Result<(), CompileError>)
        requires
            old(self).wf(),
        ensures
            final(self).wf(),
            final(self).chunk.constants == old(self).chunk.constants,
            final(self).symbol_table == old(self).symbol_table,
            final(self).scopes@.len() == old(self).scopes@.len(),
            final(self).cur_loops() == old(self).cur_loops(),
            final(self).cur_last_op() == Some(Opcode::Bang),
            r is Ok,
    {
        let _ = self.emit_nullary(Opcode::Bang, pos);
        let _ = self.emit_nullary(Opcode::Bang, pos);
        Ok(())
    }

    /// Add an object to the chunk's constant pool and return its index.
    fn add_constant(&mut self, obj: Object, pos: Position) -> (idx: usize)
        requires
            old(self).wf(),
        ensures
            final(self).wf(),
            final(self).cur_instrs() == old(self).cur_instrs(),
            final(self).symbol_table == old(self).symbol_table,
            final(self).scopes@.len() == old(self).scopes@.len(),
            final(self).cur_last() == old(self).cur_last(),
            final(self).cur_loops() == old(self).cur_loops(),
            final(self).chunk.instructions == old(self).chunk.instructions,
            final(self).scope_index == old(self).scope_index,
            idx == old(self).spec_chunk().constants@.len(),
            final(self).spec_chunk().constants@.len() == old(
                self,
            ).spec_chunk().constants@.len() + 1,
            *final(self).spec_chunk().constants@.last() == obj,
    {
        let _ = pos;
        self.chunk.add_constant(obj.rc())
    }

    /// Rewrite the jump instruction at `jump_offset` so its operand becomes
    /// `target_offset`: the patch succeeds exactly when the byte there is a
    /// `Jump` or `JumpIfFalse` opcode within the stream and the target fits
    /// in its two operand bytes, and then only those two bytes change,
    /// big-endian.
    fn patch_jump(&mut self, jump_offset: usize, target_offset: usize) -> (r: Result<
        (),
        CompileError,
    >)
        requires
            old(self).wf(),
        ensures
            final(self).wf(),
            final(self).chunk.constants == old(self).chunk.constants,
            final(self).symbol_table == old(self).symbol_table,
            final(self).scopes@.len() == old(self).scopes@.len(),
            final(self).cur_last() == old(self).cur_last(),
            final(self).cur_loops() == old(self).cur_loops(),
            final(self).cur_instrs().len() == old(self).cur_instrs().len(),
            r is Ok <==> ({
                &&& jump_offset < old(self).cur_instrs().len()
                &&& (opcode_from_byte(old(self).cur_instrs()[jump_offset as int]) matches Some(op)
                    && (op == Opcode::Jump || op == Opcode::JumpIfFalse))
                &&& target_offset <= 65535
                &&& jump_offset + 3 <= old(self).cur_instrs().len()
            }),
            r is Ok ==> forall|k: int|
                0 <= k < final(self).cur_instrs().len() ==> final(self).cur_instrs()[k] == (if k
                    == jump_offset + 1 {
                    (target_offset / 256) as u8
                } else if k == jump_offset + 2 {
                    (target_offset % 256) as u8
                } else {
                    old(self).cur_instrs()[k]
                }),
            r is Err ==> *final(self) == *old(self),
    {
        let opcode_byte_read = match self.current_byte_at(jump_offset) {
            Some(b) => b,
            None => {
                let mut message: String = "invalid jump patch offset ".to_owned();
                crate::render::push_usize(&mut message, jump_offset);
                message.append(" for instruction length ");
                crate::render::push_usize(&mut message, self.current_offset());
                return Err(CompileError { message, pos: None });
            },
        };
        let opcode = match Opcode::from_byte(opcode_byte_read) {
            Some(op) => op,
            None => {
                let mut message: String = "cannot patch unknown opcode byte ".to_owned();
                crate::render::push_usize(&mut message, opcode_byte_read as usize);
                message.append(" at ");
                crate::render::push_usize(&mut message, jump_offset);
                return Err(CompileError { message, pos: None });
            },
        };
        let is_jump = match opcode {
            Opcode::Jump | Opcode::JumpIfFalse => true,
            _ => false,
        };
        if !is_jump {
            let mut message: String = "cannot patch non-jump opcode ".to_owned();
            message.append(lookup_definition(opcode).name);
            message.append(" at ");
            crate::render::push_usize(&mut message, jump_offset);
            return Err(CompileError { message, pos: None });
        }
        let operands: Vec<usize> = vec![target_offset];
        proof {
            crate::bytecode::lemma_opcode_byte_injective();
            assert(operands@ =~= seq![target_offset]);
            let widths = crate::bytecode::op_widths(opcode);
            assert(crate::bytecode::encode_ops(opcode, operands@, widths, 1) == Ok::<
                Seq<u8>,
                BytecodeError,
            >(Seq::<u8>::empty()));
            if target_offset <= 65535 {
                assert(crate::bytecode::encode_ops(opcode, operands@, widths, 0) == Ok::<
                    Seq<u8>,
                    BytecodeError,
                >(crate::bytecode::encode_one(target_offset, 2) + Seq::<u8>::empty()));
                assert(make_spec(opcode, operands@) is Ok);
            } else {
                assert(crate::bytecode::encode_ops(opcode, operands@, widths, 0) is Err);
                assert(make_spec(opcode, operands@) is Err);
            }
        }
        let patched = match make(opcode, operands.as_slice()) {
            Ok(bytes) => bytes,
            Err(err) => {
                let mut message: String = "failed to patch ".to_owned();
                message.append(lookup_definition(opcode).name);
                message.append(" at ");
                crate::render::push_usize(&mut message, jump_offset);
                message.append(": ");
                let rendered = err.to_string();
                message.append(rendered.as_str());
                return Err(CompileError { message, pos: None });
            },
        };
        proof {
            assert(patched@ =~= seq![
                opcode_byte(opcode),
                (target_offset / 256) as u8,
                (target_offset % 256) as u8,
            ]);
        }
        self.replace_instruction(jump_offset, &patched)
    }

    /// Decode the current instruction stream from the start to rebuild the
    /// last- and previous-instruction tracking after a tail truncation.
    fn record_last_instruction_from_tail(&mut self) -> (r: Result<(), CompileError>)
        requires
            old(self).wf(),
        ensures
            final(self).wf(),
            final(self).cur_instrs() == old(self).cur_instrs(),
            final(self).chunk.instructions == old(self).chunk.instructions,
            final(self).chunk.constants == old(self).chunk.constants,
            final(self).symbol_table == old(self).symbol_table,
            final(self).scopes@.len() == old(self).scopes@.len(),
            final(self).cur_loops() == old(self).cur_loops(),
    {
        let total = self.current_offset();
        let mut offset: usize = 0;
        let mut last: Option<EmittedInstruction> = None;
        let mut prev: Option<EmittedInstruction> = None;
        while offset < total
            invariant
                self.wf(),
                *self == *old(self),
                total == self.cur_instrs().len(),
                offset <= total,
            decreases total - offset,
        {
            let byte = match self.current_byte_at(offset) {
                Some(b) => b,
                None => {
                    return Err(
                        CompileError {
                            message:
                                "truncated instruction while rebuilding instruction tracking".to_owned(),
                            pos: None,
                        },
                    );
                },
            };
            let op = match Opcode::from_byte(byte) {
                Some(op) => op,
                None => {
                    let mut message: String = "unknown opcode byte ".to_owned();
                    crate::render::push_usize(&mut message, byte as usize);
                    message.append(" at offset ");
                    crate::render::push_usize(&mut message, offset);
                    return Err(CompileError { message, pos: None });
                },
            };
            let def = lookup_definition(op);
            proof {
                crate::bytecode::lemma_op_widths_small(op);
            }
            let mut operand_len: usize = 0;
            let mut wi: usize = 0;
            while wi < def.operand_widths.len()
                invariant
                    wi <= def.operand_widths@.len(),
                    def.operand_widths@ == crate::bytecode::op_widths(op),
                    forall|j: int|
                        0 <= j < def.operand_widths@.len() ==> (#[trigger] def.operand_widths@[j]
                            == 1 || def.operand_widths@[j] == 2),
                    operand_len <= 2 * wi,
                    def.operand_widths@.len() <= 2,
                decreases def.operand_widths@.len() - wi,
            {
                operand_len = operand_len + def.operand_widths[wi];
                wi = wi + 1;
            }
            let available = total - offset - 1;
            if operand_len > available {
                return Err(
                    CompileError {
                        message:
                            "truncated instruction while rebuilding instruction tracking".to_owned(),
                        pos: None,
                    },
                );
            }
            prev = last;
            last = Some(EmittedInstruction { opcode: op, offset });
            offset = offset + 1 + operand_len;
        }
        if self.scope_index == 0 {
            self.last_instruction = last;
            self.previous_instruction = prev;
        } else {
            let idx = self.scope_index - 1;
            let scope = &mut self.scopes[idx];
            scope.last_instruction = last;
            scope.previous_instruction = prev;
            proof {
                assert(self.scopes@.last() == self.scopes@[idx as int]);
            }
        }
        Ok(())
    }

    /// Remove the last emitted instruction, truncating the stream and
    /// rebuilding the tracking.
    fn remove_last_instruction(&mut self) -> (r: Result<(), CompileError>)
        requires
            old(self).wf(),
        ensures
            final(self).wf(),
            final(self).chunk.constants == old(self).chunk.constants,
            final(self).symbol_table == old(self).symbol_table,
            final(self).scopes@.len() == old(self).scopes@.len(),
            final(self).cur_loops() == old(self).cur_loops(),
    {
        let last = match self.current_last_instruction() {
            Some(e) => e,
            None => {
                return Err(
                    CompileError {
                        message: "cannot remove last instruction: no instructions emitted".to_owned(
                        ),
                        pos: None,
                    },
                );
            },
        };
        if self.scope_index == 0 {
            self.chunk.instructions.truncate(last.offset);
        } else {
            let idx = self.scope_index - 1;
            let scope = &mut self.scopes[idx];
            scope.instructions.truncate(last.offset);
            proof {
                assert(self.scopes@.last() == self.scopes@[idx as int]);
            }
        }
        self.record_last_instruction_from_tail()
    }

    /// Remove a trailing `Pop`.
    fn remove_last_pop(&mut self) -> (r: Result<(), CompileError>)
        requires
            old(self).wf(),
        ensures
            final(self).wf(),
            final(self).chunk.constants == old(self).chunk.constants,
            final(self).symbol_table == old(self).symbol_table,
            final(self).scopes@.len() == old(self).scopes@.len(),
            final(self).cur_loops() == old(self).cur_loops(),
    {
        if !self.last_instruction_is(Opcode::Pop) {
            return Err(
                CompileError {
                    message: "cannot remove last Pop: last instruction is not Pop".to_owned(),
                    pos: None,
                },
            );
        }
        self.remove_last_instruction()
    }

    /// Rewrite a trailing `Pop` in place into a `ReturnValue`.
    fn replace_last_pop_with_return_value(&mut self, pos: Position) -> (r: Result<
        (),
        CompileError,
    >)
        requires
            old(self).wf(),
        ensures
            final(self).wf(),
            final(self).chunk.constants == old(self).chunk.constants,
            final(self).symbol_table == old(self).symbol_table,
            final(self).scopes@.len() == old(self).scopes@.len(),
            final(self).cur_loops() == old(self).cur_loops(),
            r is Ok ==> (final(self).cur_last() matches Some(e) && e.opcode
                == Opcode::ReturnValue),
            (old(self).cur_last_entry() matches Some((op, off)) && op == Opcode::Pop && off + 1
                <= old(self).cur_instrs().len()) ==> (r is Ok && final(self).cur_instrs() == old(
                self,
            ).cur_instrs().update(
                old(self).cur_last_entry()->Some_0.1 as int,
                opcode_byte(Opcode::ReturnValue),
            )),
    {
        let last = match self.current_last_instruction() {
            Some(e) => e,
            None => {
                return Err(
                    CompileError {
                        message: "cannot replace last Pop: no instructions emitted".to_owned(),
                        pos: Some(pos),
                    },
                );
            },
        };
        let is_pop = match last.opcode {
            Opcode::Pop => true,
            _ => false,
        };
        if !is_pop {
            let mut message: String = "cannot replace last instruction ".to_owned();
            message.append(lookup_definition(last.opcode).name);
            message.append(" with ReturnValue");
            return Err(CompileError { message, pos: Some(pos) });
        }
        let operands: Vec<usize> = Vec::new();
        let bytes = match make(Opcode::ReturnValue, operands.as_slice()) {
            Ok(b) => b,
            Err(err) => {
                return Err(self.bytecode_error(Opcode::ReturnValue, pos, err));
            },
        };
        match self.replace_instruction(last.offset, &bytes) {
            Ok(_) => {},
            Err(e) => {
                return Err(e);
            },
        }
        self.set_last_instruction(Opcode::ReturnValue, last.offset);
        Ok(())
    }

    /// Open a new compilation scope with an enclosed symbol table.
    fn enter_scope(&mut self)
        requires
            old(self).wf(),
        ensures
            final(self).wf(),
            final(self).scopes@.len() == old(self).scopes@.len() + 1,
            final(self).cur_instrs() == Seq::<u8>::empty(),
            final(self).cur_last() is None,
            final(self).cur_loops() == Seq::<LoopContext>::empty(),
            final(self).chunk == old(self).chunk,
    {
        let scope = CompilationScope {
            instructions: Vec::new(),
            positions: Vec::new(),
            last_instruction: None,
            previous_instruction: None,
            loop_stack: Vec::new(),
        };
        self.scopes.push(scope);
        self.scope_index = self.scopes.len();
        let mut table = SymbolTable::new();
        core::mem::swap(&mut self.symbol_table, &mut table);
        self.symbol_table = SymbolTable::new_enclosed(table.into_ref());
    }

    /// Close the innermost compilation scope, restoring the enclosing
    /// symbol table, and return the scope's state.
    fn leave_scope(&mut self) -> (r: Result<CompilationScope, CompileError>)
        requires
            old(self).wf(),
        ensures
            final(self).wf(),
            final(self).chunk == old(self).chunk,
            r is Ok ==> final(self).scopes@.len() + 1 == old(self).scopes@.len(),
    {
        if self.scope_index == 0 {
            return Err(
                CompileError {
                    message: "cannot leave compiler scope: already at root scope".to_owned(),
                    pos: None,
                },
            );
        }
        let scope = match self.scopes.pop() {
            Some(s) => s,
            None => {
                return Err(
                    CompileError {
                        message: "cannot leave compiler scope: scope stack underflow".to_owned(),
                        pos: None,
                    },
                );
            },
        };
        self.scope_index = self.scopes.len();
        let mut table = SymbolTable::new();
        core::mem::swap(&mut self.symbol_table, &mut table);
        match table.outer {
            Some(boxed) => {
                self.symbol_table = *boxed;
                Ok(scope)
            },
            None => {
                self.symbol_table = table;
                Err(
                    CompileError {
                        message: "cannot leave scope: missing outer symbol table".to_owned(),
                        pos: None,
                    },
                )
            },
        }
    }

    /// Emit the load instruction matching a symbol's scope.
    fn emit_for_symbol_load(&mut self, symbol: &Symbol, pos: Position) -> (r: Result<
        (),
        CompileError,
    >)
        requires
            old(self).wf(),
        ensures
            final(self).wf(),
            final(self).chunk.constants == old(self).chunk.constants,
            final(self).symbol_table == old(self).symbol_table,
            final(self).scopes@.len() == old(self).scopes@.len(),
            final(self).cur_loops() == old(self).cur_loops(),
            r is Ok ==> (load_code(*symbol) is Ok && final(self).cur_instrs() == old(
                self,
            ).cur_instrs() + load_code(*symbol)->Ok_0),
    {
        proof {
            if symbol.scope == SymbolScope::Function {
                let ops = Seq::<usize>::empty();
                assert(crate::bytecode::encode_ops(
                    Opcode::CurrentClosure,
                    ops,
                    crate::bytecode::op_widths(Opcode::CurrentClosure),
                    0,
                ) == Ok::<Seq<u8>, BytecodeError>(Seq::<u8>::empty()));
                assert(make_spec(Opcode::CurrentClosure, ops) matches Ok(b) && b =~= seq![
                    opcode_byte(Opcode::CurrentClosure),
                ]);
            }
        }
        match symbol.scope {
            SymbolScope::Global => {
                let operands: Vec<usize> = vec![symbol.index];
                proof {
                    assert(operands@ =~= seq![symbol.index]);
                }
                match self.emit(Opcode::GetGlobal, operands.as_slice(), pos) {
                    Ok(_) => Ok(()),
                    Err(e) => Err(e),
                }
            },
            SymbolScope::Local => {
                let operands: Vec<usize> = vec![symbol.index];
                proof {
                    assert(operands@ =~= seq![symbol.index]);
                }
                match self.emit(Opcode::GetLocal, operands.as_slice(), pos) {
                    Ok(_) => Ok(()),
                    Err(e) => Err(e),
                }
            },
            SymbolScope::Builtin => {
                let operands: Vec<usize> = vec![symbol.index];
                proof {
                    assert(operands@ =~= seq![symbol.index]);
                }
                match self.emit(Opcode::GetBuiltin, operands.as_slice(), pos) {
                    Ok(_) => Ok(()),
                    Err(e) => Err(e),
                }
            },
            SymbolScope::Free => {
                let operands: Vec<usize> = vec![symbol.index];
                proof {
                    assert(operands@ =~= seq![symbol.index]);
                }
                match self.emit(Opcode::GetFree, operands.as_slice(), pos) {
                    Ok(_) => Ok(()),
                    Err(e) => Err(e),
                }
            },
            SymbolScope::Function => {
                let _ = self.emit_nullary(Opcode::CurrentClosure, pos);
                Ok(())
            },
        }
    }

    /// The number of open compilation scopes.
    pub closed spec fn scope_depth(self) -> nat {
        self.scopes@.len()
    }

    /// The number of loop contexts open in the current scope.
    pub closed spec fn cur_loop_depth(self) -> nat {
        self.cur_loops().len()
    }

    /// The position map of the current scope.
    pub closed spec fn cur_positions(self) -> Seq<(usize, Position)> {
        if self.scopes@.len() == 0 {
            self.chunk.positions@
        } else {
            self.scopes@.last().positions@
        }
    }

    /// The opcode of the current scope's last emitted instruction.
    pub closed spec fn cur_last_op(self) -> Option<Opcode> {
        match self.cur_last() {
            Some(e) => Some(e.opcode),
            None => None,
        }
    }

    /// The opcode and offset of the current scope's last emitted
    /// instruction.
    pub closed spec fn cur_last_entry(self) -> Option<(Opcode, nat)> {
        match self.cur_last() {
            Some(e) => Some((e.opcode, e.offset as nat)),
            None => None,
        }
    }

    /// Compile one statement into the current scope.
    ///
    /// A top-level `break` or `continue` outside every loop compiles to
    /// exactly one `InvalidBreak` or `InvalidContinue` instruction.
    pub fn compile_statement(&mut self, stmt: &Statement) -> (r: Result<(), CompileError>)
        requires
            old(self).wf(),
        ensures
            final(self).wf(),
            r is Ok ==> final(self).scope_depth() == old(self).scope_depth(),
            r is Ok ==> match *stmt {
                Statement::Let { .. } => final(self).cur_last_op() == Some(Opcode::SetGlobal)
                    || final(self).cur_last_op() == Some(Opcode::SetLocal),
                Statement::Return { .. } => final(self).cur_last_op() == Some(
                    Opcode::ReturnValue,
                ),
                Statement::Expression { .. } => final(self).cur_last_op() == Some(Opcode::Pop),
                Statement::While { .. } => final(self).cur_last_op() == Some(Opcode::Pop),
                _ => true,
            },
            r is Ok ==> match *stmt {
                Statement::Expression { expression: e, .. } => exists|mid: Compiler|
                    {
                        &&& #[trigger] trigger_state(mid)
                        &&& expr_emitted(*old(self), mid, e)
                        &&& final(self).cur_instrs() == mid.cur_instrs() + seq![
                            opcode_byte(Opcode::Pop),
                        ]
                    },
                Statement::Return { value: e, .. } => exists|mid: Compiler|
                    {
                        &&& #[trigger] trigger_state(mid)
                        &&& expr_emitted(*old(self), mid, e)
                        &&& final(self).cur_instrs() == mid.cur_instrs() + seq![
                            opcode_byte(Opcode::ReturnValue),
                        ]
                    },
                _ => true,
            },
            (stmt matches Statement::Expression {
                expression: Expression::ArrayLiteral { elements, .. },
                ..
            } && elements@.len() == 0) ==> {
                &&& r is Ok
                &&& final(self).cur_instrs() == old(self).cur_instrs() + seq![
                    opcode_byte(Opcode::Array),
                    0u8,
                    0u8,
                    opcode_byte(Opcode::Pop),
                ]
                &&& final(self).cur_last_entry() == Some(
                    (Opcode::Pop, old(self).cur_instrs().len() + 3),
                )
            },
            (stmt matches Statement::Expression {
                expression: Expression::HashLiteral { pairs, .. },
                ..
            } && pairs@.len() == 0) ==> {
                &&& r is Ok
                &&& final(self).cur_instrs() == old(self).cur_instrs() + seq![
                    opcode_byte(Opcode::Hash),
                    0u8,
                    0u8,
                    opcode_byte(Opcode::Pop),
                ]
                &&& final(self).cur_last_entry() == Some(
                    (Opcode::Pop, old(self).cur_instrs().len() + 3),
                )
            },
            (stmt matches Statement::Break { .. } && old(self).cur_loop_depth() == 0) ==> {
                &&& r is Ok
                &&& final(self).cur_instrs() == old(self).cur_instrs() + seq![
                    opcode_byte(Opcode::InvalidBreak),
                ]
                &&& final(self).cur_last_op() == Some(Opcode::InvalidBreak)
                &&& final(self).cur_positions() == sorted_insert(
                    old(self).cur_positions(),
                    (old(self).cur_instrs().len() as usize),
                    stmt_pos(*stmt),
                )
                &&& final(self).cur_loop_depth() == old(self).cur_loop_depth()
                &&& final(self).spec_chunk().constants == old(self).spec_chunk().constants
                &&& old(self).scope_depth() == 0 ==> final(self).scope_depth() == 0
            },
            (stmt matches Statement::Continue { .. } && old(self).cur_loop_depth() == 0) ==> {
                &&& r is Ok
                &&& final(self).cur_instrs() == old(self).cur_instrs() + seq![
                    opcode_byte(Opcode::InvalidContinue),
                ]
                &&& final(self).cur_last_op() == Some(Opcode::InvalidContinue)
                &&& final(self).cur_positions() == sorted_insert(
                    old(self).cur_positions(),
                    (old(self).cur_instrs().len() as usize),
                    stmt_pos(*stmt),
                )
                &&& final(self).cur_loop_depth() == old(self).cur_loop_depth()
                &&& final(self).spec_chunk().constants == old(self).spec_chunk().constants
                &&& old(self).scope_depth() == 0 ==> final(self).scope_depth() == 0
            },
        decreases *stmt, 3int,
    {
        match stmt {
            Statement::Let { name, value, pos } => {
                match value {
                    Expression::FunctionLiteral { parameters, body, pos: fn_pos } => {
                        proof {
                            assert(decreases_to!(*stmt => *value));
                            assert(decreases_to!(*value => *body));
                        }
                        match self.compile_function_literal(
                            parameters,
                            body,
                            *fn_pos,
                            Some(name.value.clone()),
                        ) {
                            Ok(_) => {},
                            Err(e) => {
                                return Err(e);
                            },
                        }
                    },
                    _ => {
                        proof {
                            assert(decreases_to!(*stmt => *value));
                        }
                        match self.compile_expression(value) {
                            Ok(_) => {},
                            Err(e) => {
                                return Err(e);
                            },
                        }
                    },
                }
                let ghost t0 = self.symbol_table;
                let symbol = self.symbol_table.define(name.value.as_str());
                proof {
                    assert(table_wf(self.symbol_table));
                }
                match symbol.scope {
                    SymbolScope::Global => {
                        let operands: Vec<usize> = vec![symbol.index];
                        match self.emit(Opcode::SetGlobal, operands.as_slice(), *pos) {
                            Ok(_) => Ok(()),
                            Err(e) => Err(e),
                        }
                    },
                    SymbolScope::Local => {
                        let operands: Vec<usize> = vec![symbol.index];
                        match self.emit(Opcode::SetLocal, operands.as_slice(), *pos) {
                            Ok(_) => Ok(()),
                            Err(e) => Err(e),
                        }
                    },
                    _ => {
                        let mut message: String = "invalid symbol scope for let binding '".to_owned(
                        );
                        message.append(name.value.as_str());
                        message.append("': ");
                        message.append(symbol.scope.name());
                        Err(CompileError { message, pos: Some(*pos) })
                    },
                }
            },
            Statement::Expression { expression, pos } => {
                proof {
                    assert(decreases_to!(*stmt => *expression));
                }
                match self.compile_expression(expression) {
                    Ok(_) => {},
                    Err(e) => {
                        return Err(e);
                    },
                }
                let ghost stmt_mid = *self;
                match self.emit_pop(*pos) {
                    Ok(_) => {},
                    Err(e) => {
                        return Err(e);
                    },
                }
                proof {
                    assert(trigger_state(stmt_mid));
                    assert(expr_emitted(*old(self), stmt_mid, *expression));
                }
                proof {
                    assert((old(self).cur_instrs() + seq![opcode_byte(Opcode::Array), 0u8, 0u8])
                        + seq![opcode_byte(Opcode::Pop)] =~= old(self).cur_instrs() + seq![
                        opcode_byte(Opcode::Array),
                        0u8,
                        0u8,
                        opcode_byte(Opcode::Pop),
                    ]);
                    assert((old(self).cur_instrs() + seq![opcode_byte(Opcode::Hash), 0u8, 0u8])
                        + seq![opcode_byte(Opcode::Pop)] =~= old(self).cur_instrs() + seq![
                        opcode_byte(Opcode::Hash),
                        0u8,
                        0u8,
                        opcode_byte(Opcode::Pop),
                    ]);
                }
                Ok(())
            },
            Statement::Return { value, pos } => {
                proof {
                    assert(decreases_to!(*stmt => *value));
                }
                match self.compile_expression(value) {
                    Ok(_) => {},
                    Err(e) => {
                        return Err(e);
                    },
                }
                let ghost stmt_mid = *self;
                let _ = self.emit_nullary(Opcode::ReturnValue, *pos);
                proof {
                    assert(trigger_state(stmt_mid));
                    assert(expr_emitted(*old(self), stmt_mid, *value));
                }
                Ok(())
            },
            Statement::While { condition, body, pos } => {
                let loop_start = self.current_offset();
                self.push_loop_context(
                    LoopContext {
                        continue_target: loop_start,
                        break_jumps: Vec::new(),
                        loop_pos: *pos,
                    },
                );
                proof {
                    assert(decreases_to!(*stmt => *condition));
                    assert(decreases_to!(*stmt => *body));
                }
                match self.compile_expression(condition) {
                    Ok(_) => {},
                    Err(e) => {
                        return Err(e);
                    },
                }
                let false_jump = match self.emit_jump(Opcode::JumpIfFalse, *pos) {
                    Ok(o) => o,
                    Err(e) => {
                        return Err(e);
                    },
                };
                match self.emit_pop(*pos) {
                    Ok(_) => {},
                    Err(e) => {
                        return Err(e);
                    },
                }
                match self.compile_block(body) {
                    Ok(_) => {},
                    Err(e) => {
                        return Err(e);
                    },
                }
                let operands: Vec<usize> = vec![loop_start];
                match self.emit(Opcode::Jump, operands.as_slice(), *pos) {
                    Ok(_) => {},
                    Err(e) => {
                        return Err(e);
                    },
                }
                let cond_false_label = self.current_offset();
                match self.patch_jump(false_jump, cond_false_label) {
                    Ok(_) => {},
                    Err(e) => {
                        return Err(e);
                    },
                }
                match self.emit_pop(*pos) {
                    Ok(_) => {},
                    Err(e) => {
                        return Err(e);
                    },
                }
                let loop_end = self.current_offset();
                let ctx = match self.pop_loop_context() {
                    Some(c) => c,
                    None => {
                        return Err(
                            CompileError {
                                message: "while loop context stack underflow".to_owned(),
                                pos: Some(*pos),
                            },
                        );
                    },
                };
                let mut bi: usize = 0;
                while bi < ctx.break_jumps.len()
                    invariant
                        self.wf(),
                        self.scopes@.len() == old(self).scopes@.len(),
                        stmt matches Statement::While { .. },
                        self.cur_last_op() == Some(Opcode::Pop),
                    decreases ctx.break_jumps@.len() - bi,
                {
                    match self.patch_jump(ctx.break_jumps[bi], loop_end) {
                        Ok(_) => {},
                        Err(e) => {
                            return Err(e);
                        },
                    }
                    bi = bi + 1;
                }
                Ok(())
            },
            Statement::Break { pos } => {
                if self.loops_empty() {
                    let _ = self.emit_nullary(Opcode::InvalidBreak, *pos);
                    Ok(())
                } else {
                    let break_jump = match self.emit_jump(Opcode::Jump, *pos) {
                        Ok(o) => o,
                        Err(e) => {
                            return Err(e);
                        },
                    };
                    if self.record_break_jump(break_jump) {
                        Ok(())
                    } else {
                        Err(
                            CompileError {
                                message: "break compilation lost loop context".to_owned(),
                                pos: Some(*pos),
                            },
                        )
                    }
                }
            },
            Statement::Continue { pos } => {
                match self.continue_target() {
                    Some(target) => {
                        let operands: Vec<usize> = vec![target];
                        match self.emit(Opcode::Jump, operands.as_slice(), *pos) {
                            Ok(_) => Ok(()),
                            Err(e) => Err(e),
                        }
                    },
                    None => {
                        let _ = self.emit_nullary(Opcode::InvalidContinue, *pos);
                        Ok(())
                    },
                }
            },
        }
    }

    /// Compile every statement of a block, in order.
    pub fn compile_block(&mut self, block: &BlockStatement) -> (r: Result<(), CompileError>)
        requires
            old(self).wf(),
        ensures
            final(self).wf(),
            r is Ok ==> final(self).scope_depth() == old(self).scope_depth(),
            block.statements@.len() == 0 ==> (r is Ok && *final(self) == *old(self)),
            (r is Ok && block.statements@.len() > 0) ==> match block.statements@.last() {
                Statement::Let { .. } => final(self).cur_last_op() == Some(Opcode::SetGlobal)
                    || final(self).cur_last_op() == Some(Opcode::SetLocal),
                Statement::Return { .. } => final(self).cur_last_op() == Some(
                    Opcode::ReturnValue,
                ),
                Statement::Expression { .. } => final(self).cur_last_op() == Some(Opcode::Pop),
                Statement::While { .. } => final(self).cur_last_op() == Some(Opcode::Pop),
                _ => true,
            },
        decreases *block, 1int,
    {
        let n = block.statements.len();
        let mut i: usize = 0;
        while i < n
            invariant
                self.wf(),
                i <= n,
                n == block.statements@.len(),
                self.scopes@.len() == old(self).scopes@.len(),
                n == 0 ==> *self == *old(self),
                (i > 0 && i <= n) ==> match block.statements@[i - 1] {
                    Statement::Let { .. } => self.cur_last_op() == Some(Opcode::SetGlobal)
                        || self.cur_last_op() == Some(Opcode::SetLocal),
                    Statement::Return { .. } => self.cur_last_op() == Some(Opcode::ReturnValue),
                    Statement::Expression { .. } => self.cur_last_op() == Some(Opcode::Pop),
                    Statement::While { .. } => self.cur_last_op() == Some(Opcode::Pop),
                    _ => true,
                },
            decreases n - i,
        {
            proof {
                assert(decreases_to!(*block => block.statements));
                assert(decreases_to!(block.statements => block.statements@));
                assert(decreases_to!(block.statements@ => block.statements@[i as int]));
            }
            match self.compile_statement(&block.statements[i]) {
                Ok(_) => {},
                Err(e) => {
                    return Err(e);
                },
            }
            i = i + 1;
        }
        Ok(())
    }

    /// Compile a block in value mode: the block's trailing expression stays
    /// on the stack as its value; a block with no trailing expression
    /// yields `Null`.
    fn compile_block_expression_value(
        &mut self,
        block: &BlockStatement,
        owner_pos: Position,
    ) -> (r: Result<(), CompileError>)
        requires
            old(self).wf(),
        ensures
            final(self).wf(),
            r is Ok ==> final(self).scopes@.len() == old(self).scopes@.len(),
        decreases *block, 2int,
    {
        match self.compile_block(block) {
            Ok(_) => {},
            Err(e) => {
                return Err(e);
            },
        }
        if self.last_instruction_is(Opcode::Pop) {
            match self.remove_last_pop() {
                Ok(_) => Ok(()),
                Err(e) => Err(e),
            }
        } else if !self.last_instruction_is(Opcode::ReturnValue) && !self.last_instruction_is(
            Opcode::Return,
        ) {
            let _ = self.emit_nullary(Opcode::Null, owner_pos);
            Ok(())
        } else {
            Ok(())
        }
    }

    /// Compile one expression into the current scope.
    #[verifier::spinoff_prover]
    #[verifier::rlimit(100)]
    pub fn compile_expression(&mut self, expr: &Expression) -> (r: Result<(), CompileError>)
        requires
            old(self).wf(),
        ensures
            final(self).wf(),
            r is Ok ==> final(self).scope_depth() == old(self).scope_depth(),
            r is Ok ==> match *expr {
                Expression::IntegerLiteral { .. } => final(self).cur_last_op() == Some(
                    Opcode::Constant,
                ),
                Expression::StringLiteral { .. } => final(self).cur_last_op() == Some(
                    Opcode::Constant,
                ),
                Expression::BooleanLiteral { value, .. } => final(self).cur_last_op() == Some(
                    if value {
                        Opcode::True
                    } else {
                        Opcode::False
                    },
                ),
                Expression::Prefix { operator, .. } => {
                    &&& operator@ == "!"@ ==> final(self).cur_last_op() == Some(Opcode::Bang)
                    &&& operator@ == "-"@ ==> final(self).cur_last_op() == Some(Opcode::Neg)
                },
                Expression::Infix { operator, .. } => {
                    &&& operator@ == "+"@ ==> final(self).cur_last_op() == Some(Opcode::Add)
                    &&& operator@ == "-"@ ==> final(self).cur_last_op() == Some(Opcode::Sub)
                    &&& operator@ == "*"@ ==> final(self).cur_last_op() == Some(Opcode::Mul)
                    &&& operator@ == "/"@ ==> final(self).cur_last_op() == Some(Opcode::Div)
                    &&& operator@ == "=="@ ==> final(self).cur_last_op() == Some(Opcode::Eq)
                    &&& operator@ == "!="@ ==> final(self).cur_last_op() == Some(Opcode::Ne)
                    &&& operator@ == "<"@ ==> final(self).cur_last_op() == Some(Opcode::Lt)
                    &&& operator@ == ">"@ ==> final(self).cur_last_op() == Some(Opcode::Gt)
                    &&& operator@ == "<="@ ==> final(self).cur_last_op() == Some(Opcode::Le)
                    &&& operator@ == ">="@ ==> final(self).cur_last_op() == Some(Opcode::Ge)
                    &&& operator@ == "&&"@ ==> final(self).cur_last_op() == Some(Opcode::False)
                    &&& operator@ == "||"@ ==> final(self).cur_last_op() == Some(Opcode::Bang)
                },
                Expression::FunctionLiteral { .. } => final(self).cur_last_op() == Some(
                    Opcode::Closure,
                ),
                Expression::Call { .. } => final(self).cur_last_op() == Some(Opcode::Call),
                Expression::ArrayLiteral { .. } => final(self).cur_last_op() == Some(
                    Opcode::Array,
                ),
                Expression::HashLiteral { .. } => final(self).cur_last_op() == Some(Opcode::Hash),
                Expression::Index { .. } => final(self).cur_last_op() == Some(Opcode::Index),
                _ => true,
            },
            r is Ok ==> expr_emitted(*old(self), *final(self), *expr),
            match *expr {
                Expression::Identifier { value, pos } => resolve_rel(
                    old(self).spec_symbol_table(),
                    old(self).spec_symbol_table(),
                    value@,
                    None::<Symbol>,
                ) ==> (r matches Err(e) && e.message@ == "unresolved identifier: "@ + value@
                    && e.pos == Some(pos)),
                _ => true,
            },
            (expr matches Expression::ArrayLiteral { elements, .. } && elements@.len() == 0)
                ==> (r is Ok && final(self).cur_instrs() == old(self).cur_instrs() + seq![
                opcode_byte(Opcode::Array),
                0u8,
                0u8,
            ]),
            (expr matches Expression::HashLiteral { pairs, .. } && pairs@.len() == 0) ==> (r is Ok
                && final(self).cur_instrs() == old(self).cur_instrs() + seq![
                opcode_byte(Opcode::Hash),
                0u8,
                0u8,
            ]),
        decreases *expr, 3int,
    {
        proof {
            lemma_operator_literals_distinct();
        }
        match expr {
            Expression::IntegerLiteral { value, pos, .. } => {
                let idx = self.add_constant(Object::Integer(*value), *pos);
                let operands: Vec<usize> = vec![idx];
                proof {
                    assert(operands@ =~= seq![idx]);
                }
                match self.emit(Opcode::Constant, operands.as_slice(), *pos) {
                    Ok(_) => {
                        proof {
                            assert(expr_emitted(*old(self), *self, *expr));
                        }
                        Ok(())
                    },
                    Err(e) => Err(e),
                }
            },
            Expression::BooleanLiteral { value, pos } => {
                if *value {
                    let _ = self.emit_nullary(Opcode::True, *pos);
                } else {
                    let _ = self.emit_nullary(Opcode::False, *pos);
                }
                proof {
                    assert(expr_emitted(*old(self), *self, *expr));
                }
                Ok(())
            },
            Expression::StringLiteral { value, pos } => {
                let idx = self.add_constant(Object::String(value.clone()), *pos);
                let operands: Vec<usize> = vec![idx];
                proof {
                    assert(operands@ =~= seq![idx]);
                }
                match self.emit(Opcode::Constant, operands.as_slice(), *pos) {
                    Ok(_) => {
                        proof {
                            assert(expr_emitted(*old(self), *self, *expr));
                        }
                        Ok(())
                    },
                    Err(e) => Err(e),
                }
            },
            Expression::Identifier { value, pos } => {
                let ghost t0 = self.symbol_table;
                let resolved = self.symbol_table.resolve(value.as_str());
                proof {
                    lemma_resolve_preserves_wf(t0, self.symbol_table, value@, resolved);
                }
                match resolved {
                    Some(symbol) => {
                        proof {
                            lemma_resolve_some_excludes_none(
                                t0,
                                self.symbol_table,
                                value@,
                                symbol,
                            );
                        }
                        let loaded = self.emit_for_symbol_load(&symbol, *pos);
                        proof {
                            assert(trigger_symbol(symbol));
                            if loaded is Ok {
                                assert(resolve_rel(
                                    old(self).spec_symbol_table(),
                                    self.spec_symbol_table(),
                                    value@,
                                    Some(symbol),
                                ));
                                assert(expr_emitted(*old(self), *self, *expr));
                            }
                        }
                        loaded
                    },
                    None => {
                        let mut message: String = "unresolved identifier: ".to_owned();
                        message.append(value.as_str());
                        Err(CompileError { message, pos: Some(*pos) })
                    },
                }
            },
            Expression::Prefix { operator, right, pos } => {
                proof {
                    assert(decreases_to!(*expr => *right));
                }
                match self.compile_expression(right) {
                    Ok(_) => {},
                    Err(e) => {
                        return Err(e);
                    },
                }
                let ghost mid = *self;
                if crate::render::str_eq(operator.as_str(), "!") {
                    let _ = self.emit_nullary(Opcode::Bang, *pos);
                    proof {
                        assert(trigger_state(mid));
                        assert(expr_emitted(*old(self), mid, **right));
                        assert(expr_emitted(*old(self), *self, *expr));
                    }
                    Ok(())
                } else if crate::render::str_eq(operator.as_str(), "-") {
                    let _ = self.emit_nullary(Opcode::Neg, *pos);
                    proof {
                        assert(trigger_state(mid));
                        assert(expr_emitted(*old(self), mid, **right));
                        assert(expr_emitted(*old(self), *self, *expr));
                    }
                    Ok(())
                } else {
                    let mut message: String = "unsupported prefix operator: ".to_owned();
                    message.append(operator.as_str());
                    Err(CompileError { message, pos: Some(*pos) })
                }
            },
            Expression::Infix { left, operator, right, pos } => {
                proof {
                    assert(decreases_to!(*expr => *left));
                    assert(decreases_to!(*expr => *right));
                }
                if crate::render::str_eq(operator.as_str(), "&&") {
                    match self.compile_expression(left) {
                        Ok(_) => {},
                        Err(e) => {
                            return Err(e);
                        },
                    }
                    let ghost land_mid1 = *self;
                    let false_jump = match self.emit_jump(Opcode::JumpIfFalse, *pos) {
                        Ok(o) => o,
                        Err(e) => {
                            return Err(e);
                        },
                    };
                    match self.emit_pop(*pos) {
                        Ok(_) => {},
                        Err(e) => {
                            return Err(e);
                        },
                    }
                    let ghost land_mid2 = *self;
                    proof {
                        assert(land_mid2.cur_instrs().subrange(
                            0,
                            land_mid1.cur_instrs().len() as int,
                        ) =~= land_mid1.cur_instrs());
                    }
                    match self.compile_expression(right) {
                        Ok(_) => {},
                        Err(e) => {
                            return Err(e);
                        },
                    }
                    let ghost land_mid3 = *self;
                    match self.emit_bool_normalize(*pos) {
                        Ok(_) => {},
                        Err(e) => {
                            return Err(e);
                        },
                    }
                    let end_jump = match self.emit_jump(Opcode::Jump, *pos) {
                        Ok(o) => o,
                        Err(e) => {
                            return Err(e);
                        },
                    };
                    let false_branch = self.current_offset();
                    match self.patch_jump(false_jump, false_branch) {
                        Ok(_) => {},
                        Err(e) => {
                            return Err(e);
                        },
                    }
                    match self.emit_pop(*pos) {
                        Ok(_) => {},
                        Err(e) => {
                            return Err(e);
                        },
                    }
                    let _ = self.emit_nullary(Opcode::False, *pos);
                    let end_offset = self.current_offset();
                    match self.patch_jump(end_jump, end_offset) {
                        Ok(_) => {},
                        Err(e) => {
                            return Err(e);
                        },
                    }
                    proof {
                        assert(trigger_state3(land_mid1, land_mid2, land_mid3));
                        assert(expr_emitted(*old(self), land_mid1, **left) && expr_emitted(
                            land_mid2,
                            land_mid3,
                            **right,
                        ));
                        assert(expr_emitted(*old(self), *self, *expr));
                    }
                    return Ok(());
                }
                if crate::render::str_eq(operator.as_str(), "||") {
                    match self.compile_expression(left) {
                        Ok(_) => {},
                        Err(e) => {
                            return Err(e);
                        },
                    }
                    let ghost lor_mid1 = *self;
                    let rhs_jump = match self.emit_jump(Opcode::JumpIfFalse, *pos) {
                        Ok(o) => o,
                        Err(e) => {
                            return Err(e);
                        },
                    };
                    match self.emit_pop(*pos) {
                        Ok(_) => {},
                        Err(e) => {
                            return Err(e);
                        },
                    }
                    let _ = self.emit_nullary(Opcode::True, *pos);
                    let end_jump = match self.emit_jump(Opcode::Jump, *pos) {
                        Ok(o) => o,
                        Err(e) => {
                            return Err(e);
                        },
                    };
                    let rhs_offset = self.current_offset();
                    match self.patch_jump(rhs_jump, rhs_offset) {
                        Ok(_) => {},
                        Err(e) => {
                            return Err(e);
                        },
                    }
                    match self.emit_pop(*pos) {
                        Ok(_) => {},
                        Err(e) => {
                            return Err(e);
                        },
                    }
                    let ghost lor_mid2 = *self;
                    proof {
                        assert forall|k: int| 0 <= k < lor_mid1.cur_instrs().len() implies
                            lor_mid2.cur_instrs()[k] == lor_mid1.cur_instrs()[k] by {}
                        assert(lor_mid2.cur_instrs().subrange(
                            0,
                            lor_mid1.cur_instrs().len() as int,
                        ) =~= lor_mid1.cur_instrs());
                    }
                    match self.compile_expression(right) {
                        Ok(_) => {},
                        Err(e) => {
                            return Err(e);
                        },
                    }
                    let ghost lor_mid3 = *self;
                    match self.emit_bool_normalize(*pos) {
                        Ok(_) => {},
                        Err(e) => {
                            return Err(e);
                        },
                    }
                    let end_offset = self.current_offset();
                    match self.patch_jump(end_jump, end_offset) {
                        Ok(_) => {},
                        Err(e) => {
                            return Err(e);
                        },
                    }
                    proof {
                        assert(trigger_state3(lor_mid1, lor_mid2, lor_mid3));
                        assert(expr_emitted(*old(self), lor_mid1, **left) && expr_emitted(
                            lor_mid2,
                            lor_mid3,
                            **right,
                        ));
                        assert(expr_emitted(*old(self), *self, *expr));
                    }
                    return Ok(());
                }
                match self.compile_expression(left) {
                    Ok(_) => {},
                    Err(e) => {
                        return Err(e);
                    },
                }
                let ghost mid1 = *self;
                match self.compile_expression(right) {
                    Ok(_) => {},
                    Err(e) => {
                        return Err(e);
                    },
                }
                let ghost mid2 = *self;
                let opcode = if crate::render::str_eq(operator.as_str(), "+") {
                    Opcode::Add
                } else if crate::render::str_eq(operator.as_str(), "-") {
                    Opcode::Sub
                } else if crate::render::str_eq(operator.as_str(), "*") {
                    Opcode::Mul
                } else if crate::render::str_eq(operator.as_str(), "/") {
                    Opcode::Div
                } else if crate::render::str_eq(operator.as_str(), "==") {
                    Opcode::Eq
                } else if crate::render::str_eq(operator.as_str(), "!=") {
                    Opcode::Ne
                } else if crate::render::str_eq(operator.as_str(), "<") {
                    Opcode::Lt
                } else if crate::render::str_eq(operator.as_str(), ">") {
                    Opcode::Gt
                } else if crate::render::str_eq(operator.as_str(), "<=") {
                    Opcode::Le
                } else if crate::render::str_eq(operator.as_str(), ">=") {
                    Opcode::Ge
                } else {
                    let mut message: String = "unsupported infix operator: ".to_owned();
                    message.append(operator.as_str());
                    return Err(CompileError { message, pos: Some(*pos) });
                };
                let _ = self.emit_nullary(opcode, *pos);
                proof {
                    assert(trigger_state2(mid1, mid2));
                    assert(infix_opcode(operator@) == Some(opcode));
                    assert(expr_emitted(*old(self), mid1, **left) && expr_emitted(
                        mid1,
                        mid2,
                        **right,
                    ));
                    assert(expr_emitted(*old(self), *self, *expr));
                }
                Ok(())
            },
            Expression::If { condition, consequence, alternative, pos } => {
                proof {
                    assert(decreases_to!(*expr => *condition));
                    assert(decreases_to!(*expr => *consequence));
                }
                match self.compile_expression(condition) {
                    Ok(_) => {},
                    Err(e) => {
                        return Err(e);
                    },
                }
                let ghost cond_mid = *self;
                let false_jump = match self.emit_jump(Opcode::JumpIfFalse, *pos) {
                    Ok(o) => o,
                    Err(e) => {
                        return Err(e);
                    },
                };
                match self.emit_pop(*pos) {
                    Ok(_) => {},
                    Err(e) => {
                        return Err(e);
                    },
                }
                match self.compile_block_expression_value(consequence, *pos) {
                    Ok(_) => {},
                    Err(e) => {
                        return Err(e);
                    },
                }
                let end_jump = match self.emit_jump(Opcode::Jump, *pos) {
                    Ok(o) => o,
                    Err(e) => {
                        return Err(e);
                    },
                };
                let false_branch = self.current_offset();
                match self.patch_jump(false_jump, false_branch) {
                    Ok(_) => {},
                    Err(e) => {
                        return Err(e);
                    },
                }
                match self.emit_pop(*pos) {
                    Ok(_) => {},
                    Err(e) => {
                        return Err(e);
                    },
                }
                match alternative {
                    Some(block) => {
                        proof {
                            assert(decreases_to!(*expr => *block));
                        }
                        match self.compile_block_expression_value(block, *pos) {
                            Ok(_) => {},
                            Err(e) => {
                                return Err(e);
                            },
                        }
                    },
                    None => {
                        let _ = self.emit_nullary(Opcode::Null, *pos);
                    },
                }
                let end_offset = self.current_offset();
                match self.patch_jump(end_jump, end_offset) {
                    Ok(_) => {},
                    Err(e) => {
                        return Err(e);
                    },
                }
                proof {
                    assert(trigger_state(cond_mid));
                    assert(expr_emitted(*old(self), cond_mid, **condition));
                    assert(expr_emitted(*old(self), *self, *expr));
                }
                Ok(())
            },
            Expression::FunctionLiteral { parameters, body, pos } => {
                proof {
                    assert(decreases_to!(*expr => *body));
                }
                let compiled = self.compile_function_literal(parameters, body, *pos, None);
                proof {
                    if compiled is Ok {
                        assert(self.cur_last_op() == Some(Opcode::Closure));
                        assert(expr_emitted(*old(self), *self, *expr));
                    }
                }
                compiled
            },
            Expression::Call { function, arguments, pos } => {
                proof {
                    assert(decreases_to!(*expr => *function));
                }
                match self.compile_expression(function) {
                    Ok(_) => {},
                    Err(e) => {
                        return Err(e);
                    },
                }
                let ghost fun_mid = *self;
                let ghost mut mids: Seq<Compiler> = seq![*self];
                let n = arguments.len();
                let mut i: usize = 0;
                while i < n
                    invariant
                        self.wf(),
                        i <= n,
                        n == arguments@.len(),
                        self.scopes@.len() == old(self).scopes@.len(),
                        *expr matches Expression::Call { arguments: aa, .. } && aa == *arguments,
                        mids.len() == i + 1,
                        mids[0] == fun_mid,
                        mids.last() == *self,
                        forall|j: int|
                            #![trigger mids[j]]
                            0 <= j < i ==> expr_emitted(mids[j], mids[j + 1], arguments@[j]),
                    decreases n - i,
                {
                    proof {
                        assert(*expr matches Expression::Call { arguments: aa, .. } && aa
                            == *arguments);
                        assert(decreases_to!(*expr => *arguments));
                        assert(decreases_to!(*arguments => arguments@));
                        assert(decreases_to!(arguments@ => arguments@[i as int]));
                    }
                    match self.compile_expression(&arguments[i]) {
                        Ok(_) => {},
                        Err(e) => {
                            return Err(e);
                        },
                    }
                    proof {
                        mids = mids.push(*self);
                        assert(mids.last() == *self);
                        assert(expr_emitted(
                            mids[i as int],
                            mids[i as int + 1],
                            arguments@[i as int],
                        ));
                    }
                    i = i + 1;
                }
                let ghost args_end = *self;
                let operands: Vec<usize> = vec![n];
                proof {
                    assert(operands@ =~= seq![n]);
                }
                match self.emit(Opcode::Call, operands.as_slice(), *pos) {
                    Ok(_) => {
                        proof {
                            assert(trigger_states(mids));
                            assert(expr_emitted(*old(self), mids[0], **function));
                            assert(expr_emitted(*old(self), *self, *expr));
                        }
                        Ok(())
                    },
                    Err(e) => Err(e),
                }
            },
            Expression::ArrayLiteral { elements, pos } => {
                let ghost mut mids: Seq<Compiler> = seq![*self];
                let n = elements.len();
                let mut i: usize = 0;
                while i < n
                    invariant
                        self.wf(),
                        i <= n,
                        n == elements@.len(),
                        self.scopes@.len() == old(self).scopes@.len(),
                        n == 0 ==> *self == *old(self),
                        *expr matches Expression::ArrayLiteral { elements: ee, .. } && ee
                            == *elements,
                        mids.len() == i + 1,
                        mids[0] == *old(self),
                        mids.last() == *self,
                        forall|j: int|
                            #![trigger mids[j]]
                            0 <= j < i ==> expr_emitted(mids[j], mids[j + 1], elements@[j]),
                    decreases n - i,
                {
                    proof {
                        assert(*expr matches Expression::ArrayLiteral { elements: ee, .. } && ee
                            == *elements);
                        assert(decreases_to!(*expr => *elements));
                        assert(decreases_to!(*elements => elements@));
                        assert(decreases_to!(elements@ => elements@[i as int]));
                    }
                    match self.compile_expression(&elements[i]) {
                        Ok(_) => {},
                        Err(e) => {
                            return Err(e);
                        },
                    }
                    proof {
                        mids = mids.push(*self);
                        assert(mids.last() == *self);
                        assert(expr_emitted(
                            mids[i as int],
                            mids[i as int + 1],
                            elements@[i as int],
                        ));
                    }
                    i = i + 1;
                }
                let ghost items_end = *self;
                let operands: Vec<usize> = vec![n];
                proof {
                    assert(operands@ =~= seq![n]);
                    if n == 0 {
                        let ops = operands@;
                        let widths = crate::bytecode::op_widths(Opcode::Array);
                        assert(crate::bytecode::encode_ops(Opcode::Array, ops, widths, 1) == Ok::<
                            Seq<u8>,
                            BytecodeError,
                        >(Seq::<u8>::empty()));
                        assert(crate::bytecode::encode_ops(Opcode::Array, ops, widths, 0) == Ok::<
                            Seq<u8>,
                            BytecodeError,
                        >(crate::bytecode::encode_one(0, 2) + Seq::<u8>::empty()));
                        assert(make_spec(Opcode::Array, ops) matches Ok(b) && b =~= seq![
                            opcode_byte(Opcode::Array),
                            0u8,
                            0u8,
                        ]);
                    }
                }
                match self.emit(Opcode::Array, operands.as_slice(), *pos) {
                    Ok(_) => {
                        proof {
                            assert(trigger_states(mids));
                            assert(expr_emitted(*old(self), *self, *expr));
                        }
                        Ok(())
                    },
                    Err(e) => Err(e),
                }
            },
            Expression::HashLiteral { pairs, pos } => {
                let ghost mut mids: Seq<Compiler> = seq![*self];
                let n = pairs.len();
                let mut i: usize = 0;
                while i < n
                    invariant
                        self.wf(),
                        i <= n,
                        n == pairs@.len(),
                        self.scopes@.len() == old(self).scopes@.len(),
                        n == 0 ==> *self == *old(self),
                        *expr matches Expression::HashLiteral { pairs: pp, .. } && pp == *pairs,
                        mids.len() == 2 * i + 1,
                        mids[0] == *old(self),
                        mids.last() == *self,
                        forall|j: int|
                            #![trigger pairs@[j]]
                            0 <= j < i ==> (expr_emitted(
                                mids[2 * j],
                                mids[2 * j + 1],
                                pairs@[j].0,
                            ) && expr_emitted(mids[2 * j + 1], mids[2 * j + 2], pairs@[j].1)),
                    decreases n - i,
                {
                    proof {
                        assert(*expr matches Expression::HashLiteral { pairs: pp, .. } && pp
                            == *pairs);
                        assert(decreases_to!(*expr => *pairs));
                        assert(decreases_to!(*pairs => pairs@));
                        assert(decreases_to!(pairs@ => pairs@[i as int]));
                        assert(decreases_to!(pairs@[i as int] => pairs@[i as int].0));
                        assert(decreases_to!(pairs@[i as int] => pairs@[i as int].1));
                    }
                    match self.compile_expression(&pairs[i].0) {
                        Ok(_) => {},
                        Err(e) => {
                            return Err(e);
                        },
                    }
                    proof {
                        mids = mids.push(*self);
                    }
                    match self.compile_expression(&pairs[i].1) {
                        Ok(_) => {},
                        Err(e) => {
                            return Err(e);
                        },
                    }
                    proof {
                        mids = mids.push(*self);
                        assert(mids.last() == *self);
                        assert(expr_emitted(
                            mids[2 * i as int],
                            mids[2 * i as int + 1],
                            pairs@[i as int].0,
                        ));
                        assert(expr_emitted(
                            mids[2 * i as int + 1],
                            mids[2 * i as int + 2],
                            pairs@[i as int].1,
                        ));
                    }
                    i = i + 1;
                }
                let ghost pairs_end = *self;
                let operands: Vec<usize> = vec![n];
                proof {
                    assert(operands@ =~= seq![n]);
                    if n == 0 {
                        let ops = operands@;
                        let widths = crate::bytecode::op_widths(Opcode::Hash);
                        assert(crate::bytecode::encode_ops(Opcode::Hash, ops, widths, 1) == Ok::<
                            Seq<u8>,
                            BytecodeError,
                        >(Seq::<u8>::empty()));
                        assert(crate::bytecode::encode_ops(Opcode::Hash, ops, widths, 0) == Ok::<
                            Seq<u8>,
                            BytecodeError,
                        >(crate::bytecode::encode_one(0, 2) + Seq::<u8>::empty()));
                        assert(make_spec(Opcode::Hash, ops) matches Ok(b) && b =~= seq![
                            opcode_byte(Opcode::Hash),
                            0u8,
                            0u8,
                        ]);
                    }
                }
                match self.emit(Opcode::Hash, operands.as_slice(), *pos) {
                    Ok(_) => {
                        proof {
                            assert(trigger_states(mids));
                            assert(expr_emitted(*old(self), *self, *expr));
                        }
                        Ok(())
                    },
                    Err(e) => Err(e),
                }
            },
            Expression::Index { left, index, pos } => {
                proof {
                    assert(decreases_to!(*expr => *left));
                    assert(decreases_to!(*expr => *index));
                }
                match self.compile_expression(left) {
                    Ok(_) => {},
                    Err(e) => {
                        return Err(e);
                    },
                }
                let ghost mid1 = *self;
                match self.compile_expression(index) {
                    Ok(_) => {},
                    Err(e) => {
                        return Err(e);
                    },
                }
                let ghost mid2 = *self;
                let _ = self.emit_nullary(Opcode::Index, *pos);
                proof {
                    assert(trigger_state2(mid1, mid2));
                    assert(expr_emitted(*old(self), mid1, **left) && expr_emitted(
                        mid1,
                        mid2,
                        **index,
                    ));
                    assert(expr_emitted(*old(self), *self, *expr));
                }
                Ok(())
            },
        }
    }

    /// Compile a function literal: a new scope and symbol table for the
    /// body, terminal-return shaping, capture of the scope's free symbols,
    /// and a `Closure` instruction in the enclosing scope.
    fn compile_function_literal(
        &mut self,
        parameters: &Vec<Identifier>,
        body: &BlockStatement,
        pos: Position,
        inferred_name: Option<String>,
    ) -> (r: Result<(), CompileError>)
        requires
            old(self).wf(),
        ensures
            final(self).wf(),
            r is Ok ==> final(self).scopes@.len() == old(self).scopes@.len(),
            r is Ok ==> (final(self).cur_last() matches Some(e) && e.opcode == Opcode::Closure),
        decreases *body, 2int,
    {
        self.enter_scope();
        match &inferred_name {
            Some(name) => {
                let _ = self.symbol_table.define_function_name(name.as_str());
                proof {
                    assert(table_wf(self.symbol_table));
                }
            },
            None => {},
        }
        let mut pi: usize = 0;
        while pi < parameters.len()
            invariant
                self.wf(),
                self.scopes@.len() == old(self).scopes@.len() + 1,
            decreases parameters@.len() - pi,
        {
            let _ = self.symbol_table.define(parameters[pi].value.as_str());
            proof {
                assert(table_wf(self.symbol_table));
            }
            pi = pi + 1;
        }
        match self.compile_block(body) {
            Ok(_) => {},
            Err(e) => {
                return Err(e);
            },
        }
        if self.last_instruction_is(Opcode::Pop) {
            match self.replace_last_pop_with_return_value(pos) {
                Ok(_) => {},
                Err(e) => {
                    return Err(e);
                },
            }
        } else if !self.last_instruction_is(Opcode::ReturnValue) && !self.last_instruction_is(
            Opcode::Return,
        ) {
            let _ = self.emit_nullary(Opcode::Return, pos);
        }
        let free_symbols = self.symbol_table.free_symbols_list();
        let num_locals = self.symbol_table.num_definitions;
        let num_params = parameters.len();
        let scope = match self.leave_scope() {
            Ok(s) => s,
            Err(e) => {
                return Err(e);
            },
        };
        let mut fi: usize = 0;
        while fi < free_symbols.len()
            invariant
                self.wf(),
                self.scopes@.len() == old(self).scopes@.len(),
            decreases free_symbols@.len() - fi,
        {
            match self.emit_for_symbol_load(&free_symbols[fi], pos) {
                Ok(_) => {},
                Err(e) => {
                    return Err(e);
                },
            }
            fi = fi + 1;
        }
        let function = Object::CompiledFunction(
            Rc::new(
                CompiledFunctionObject {
                    name: inferred_name,
                    num_params,
                    num_locals,
                    instructions: scope.instructions,
                    positions: scope.positions,
                },
            ),
        );
        let const_idx = self.add_constant(function, pos);
        let free_count = free_symbols.len();
        let operands: Vec<usize> = vec![const_idx, free_count];
        match self.emit(Opcode::Closure, operands.as_slice(), pos) {
            Ok(_) => Ok(()),
            Err(e) => Err(e),
        }
    }

    /// Compile a whole program into the chunk: every statement in order,
    /// then the terminal shaping. A trailing expression statement's `Pop`
    /// becomes a `ReturnValue` so the program yields its value; otherwise a
    /// terminal `Return` is guaranteed. An empty program compiles to a
    /// single `Return`, and a sole top-level `break` or `continue` to
    /// exactly one `InvalidBreak` or `InvalidContinue` before it.
    #[verifier::loop_isolation(false)]
    pub fn compile_program(&mut self, program: &Program) -> (r: Result<(), CompileError>)
        requires
            old(self).wf(),
        ensures
            final(self).wf(),
            r is Ok ==> final(self).ends_with_terminator(),
            r is Ok ==> final(self).scope_depth() == old(self).scope_depth(),
            (old(self).at_start() && program.statements@.len() == 0) ==> {
                &&& r is Ok
                &&& final(self).spec_chunk().instructions@ == old(
                    self,
                ).spec_chunk().instructions@ + seq![opcode_byte(Opcode::Return)]
                &&& final(self).spec_chunk().positions@ == sorted_insert(
                    old(self).spec_chunk().positions@,
                    (old(self).spec_chunk().instructions@.len() as usize),
                    Position { line: 1, col: 1 },
                )
                &&& old(self).pristine() ==> pos_or_default(final(self).spec_chunk().positions@, 0)
                    == (Position { line: 1, col: 1 })
            },
            (old(self).at_start() && program.statements@.len() == 1 && program.statements@[0]
                matches Statement::Break { .. }) ==> {
                &&& r is Ok
                &&& final(self).spec_chunk().instructions@ == old(
                    self,
                ).spec_chunk().instructions@ + seq![
                    opcode_byte(Opcode::InvalidBreak),
                    opcode_byte(Opcode::Return),
                ]
                &&& old(self).pristine() ==> pos_or_default(final(self).spec_chunk().positions@, 0)
                    == stmt_pos(program.statements@[0])
            },
            (old(self).at_start() && program.statements@.len() == 1 && program.statements@[0]
                matches Statement::Continue { .. }) ==> {
                &&& r is Ok
                &&& final(self).spec_chunk().instructions@ == old(
                    self,
                ).spec_chunk().instructions@ + seq![
                    opcode_byte(Opcode::InvalidContinue),
                    opcode_byte(Opcode::Return),
                ]
                &&& old(self).pristine() ==> pos_or_default(final(self).spec_chunk().positions@, 0)
                    == stmt_pos(program.statements@[0])
            },
            (old(self).at_start() && program.statements@.len() == 1 && (program.statements@[0]
                matches Statement::Expression {
                expression: Expression::ArrayLiteral { elements, .. },
                ..
            } && elements@.len() == 0)) ==> {
                &&& r is Ok
                &&& final(self).spec_chunk().instructions@ == old(
                    self,
                ).spec_chunk().instructions@ + seq![
                    opcode_byte(Opcode::Array),
                    0u8,
                    0u8,
                    opcode_byte(Opcode::ReturnValue),
                ]
            },
            (old(self).at_start() && program.statements@.len() == 1 && (program.statements@[0]
                matches Statement::Expression {
                expression: Expression::HashLiteral { pairs, .. },
                ..
            } && pairs@.len() == 0)) ==> {
                &&& r is Ok
                &&& final(self).spec_chunk().instructions@ == old(
                    self,
                ).spec_chunk().instructions@ + seq![
                    opcode_byte(Opcode::Hash),
                    0u8,
                    0u8,
                    opcode_byte(Opcode::ReturnValue),
                ]
            },
    {
        let ghost entry = *old(self);
        let n = program.statements.len();
        let mut i: usize = 0;
        while i < n
            invariant
                i <= n,
                self.wf(),
                self.scopes@.len() == entry.scopes@.len(),
                (entry.at_start() && program.statements@.len() == 0) ==> *self == entry,
                (entry.at_start() && program.statements@.len() == 1 && i == 0) ==> *self == entry,
                (entry.at_start() && program.statements@.len() == 1 && i == 1
                    && program.statements@[0] matches Statement::Break { .. }) ==> {
                    &&& self.chunk.instructions@ == entry.chunk.instructions@ + seq![
                        opcode_byte(Opcode::InvalidBreak),
                    ]
                    &&& self.cur_last_op() == Some(Opcode::InvalidBreak)
                    &&& self.scopes@.len() == 0
                    &&& self.chunk.positions@ == sorted_insert(
                        entry.chunk.positions@,
                        (entry.chunk.instructions@.len() as usize),
                        stmt_pos(program.statements@[0]),
                    )
                },
                (entry.at_start() && program.statements@.len() == 1 && i == 1
                    && (program.statements@[0] matches Statement::Expression {
                    expression: Expression::ArrayLiteral { elements, .. },
                    ..
                } && elements@.len() == 0)) ==> {
                    &&& self.chunk.instructions@ == entry.chunk.instructions@ + seq![
                        opcode_byte(Opcode::Array),
                        0u8,
                        0u8,
                        opcode_byte(Opcode::Pop),
                    ]
                    &&& self.cur_last_entry() == Some(
                        (Opcode::Pop, entry.chunk.instructions@.len() + 3),
                    )
                    &&& self.scopes@.len() == 0
                },
                (entry.at_start() && program.statements@.len() == 1 && i == 1
                    && (program.statements@[0] matches Statement::Expression {
                    expression: Expression::HashLiteral { pairs, .. },
                    ..
                } && pairs@.len() == 0)) ==> {
                    &&& self.chunk.instructions@ == entry.chunk.instructions@ + seq![
                        opcode_byte(Opcode::Hash),
                        0u8,
                        0u8,
                        opcode_byte(Opcode::Pop),
                    ]
                    &&& self.cur_last_entry() == Some(
                        (Opcode::Pop, entry.chunk.instructions@.len() + 3),
                    )
                    &&& self.scopes@.len() == 0
                },
                (entry.at_start() && program.statements@.len() == 1 && i == 1
                    && program.statements@[0] matches Statement::Continue { .. }) ==> {
                    &&& self.chunk.instructions@ == entry.chunk.instructions@ + seq![
                        opcode_byte(Opcode::InvalidContinue),
                    ]
                    &&& self.cur_last_op() == Some(Opcode::InvalidContinue)
                    &&& self.scopes@.len() == 0
                    &&& self.chunk.positions@ == sorted_insert(
                        entry.chunk.positions@,
                        (entry.chunk.instructions@.len() as usize),
                        stmt_pos(program.statements@[0]),
                    )
                },
            decreases n - i,
        {
            match self.compile_statement(&program.statements[i]) {
                Ok(_) => {},
                Err(e) => {
                    return Err(e);
                },
            }
            i = i + 1;
        }
        let terminal_pos = if n == 0 {
            Position::new(1, 1)
        } else {
            program.statements[n - 1].pos()
        };
        let ends_with_expression = if n == 0 {
            false
        } else {
            match program.statements[n - 1] {
                Statement::Expression { .. } => true,
                _ => false,
            }
        };
        if ends_with_expression && self.last_instruction_is(Opcode::Pop) {
            let ghost before = *self;
            proof {
                if entry.at_start() && program.statements@.len() == 1 {
                    assert(before.scopes@.len() == 0);
                    assert(before.cur_instrs() == before.chunk.instructions@);
                    if program.statements@[0] matches Statement::Expression {
                        expression: Expression::ArrayLiteral { elements, .. },
                        ..
                    } && elements@.len() == 0 {
                        assert(before.cur_last_entry() == Some(
                            (Opcode::Pop, entry.chunk.instructions@.len() + 3),
                        ));
                        assert(before.cur_instrs().len() == entry.chunk.instructions@.len() + 4);
                    }
                    if program.statements@[0] matches Statement::Expression {
                        expression: Expression::HashLiteral { pairs, .. },
                        ..
                    } && pairs@.len() == 0 {
                        assert(before.cur_last_entry() == Some(
                            (Opcode::Pop, entry.chunk.instructions@.len() + 3),
                        ));
                        assert(before.cur_instrs().len() == entry.chunk.instructions@.len() + 4);
                    }
                }
            }
            match self.replace_last_pop_with_return_value(terminal_pos) {
                Ok(_) => {},
                Err(e) => {
                    return Err(e);
                },
            }
            proof {
                if entry.at_start() && program.statements@.len() == 1 {
                    let l = entry.chunk.instructions@.len() as int;
                    if program.statements@[0] matches Statement::Expression {
                        expression: Expression::ArrayLiteral { elements, .. },
                        ..
                    } && elements@.len() == 0 {
                        assert(before.cur_instrs() == before.chunk.instructions@);
                        assert(self.cur_instrs() == self.chunk.instructions@);
                        assert(self.chunk.instructions@ =~= entry.chunk.instructions@ + seq![
                            opcode_byte(Opcode::Array),
                            0u8,
                            0u8,
                            opcode_byte(Opcode::ReturnValue),
                        ]);
                    }
                    if program.statements@[0] matches Statement::Expression {
                        expression: Expression::HashLiteral { pairs, .. },
                        ..
                    } && pairs@.len() == 0 {
                        assert(before.cur_instrs() == before.chunk.instructions@);
                        assert(self.cur_instrs() == self.chunk.instructions@);
                        assert(self.chunk.instructions@ =~= entry.chunk.instructions@ + seq![
                            opcode_byte(Opcode::Hash),
                            0u8,
                            0u8,
                            opcode_byte(Opcode::ReturnValue),
                        ]);
                    }
                }
            }
        } else if !self.last_instruction_is(Opcode::ReturnValue) && !self.last_instruction_is(
            Opcode::Return,
        ) {
            let ghost before = *self;
            let _ = self.emit_nullary(Opcode::Return, terminal_pos);
            proof {
                if entry.at_start() {
                    assert(before.scopes@.len() == 0);
                    assert(before.cur_instrs() == before.chunk.instructions@);
                    assert(before.cur_positions() == before.chunk.positions@);
                    assert(self.scopes@.len() == 0);
                    assert(self.cur_instrs() == self.chunk.instructions@);
                    assert(self.cur_positions() == self.chunk.positions@);
                }
                if entry.pristine() && program.statements@.len() == 0 {
                    let terminal = Position { line: 1, col: 1 };
                    assert(self.chunk.positions@ == sorted_insert(
                        Seq::<(usize, Position)>::empty(),
                        0,
                        terminal,
                    ));
                    assert(self.chunk.positions@ =~= seq![(0usize, terminal)]);
                    assert(self.chunk.positions@.drop_first() =~= Seq::<
                        (usize, Position),
                    >::empty());
                    assert(pos_lookup(self.chunk.positions@, 0) == Some(terminal));
                }
                if entry.pristine() && program.statements@.len() == 1 && (
                program.statements@[0] matches Statement::Break { .. }
                    || program.statements@[0] matches Statement::Continue { .. }) {
                    let p = stmt_pos(program.statements@[0]);
                    let stmt_entry = sorted_insert(Seq::<(usize, Position)>::empty(), 0, p);
                    assert(stmt_entry =~= seq![(0usize, p)]);
                    assert(before.chunk.positions@ == stmt_entry);
                    assert(self.chunk.positions@ == sorted_insert(stmt_entry, 1, terminal_pos));
                    assert(stmt_entry.drop_first() =~= Seq::<(usize, Position)>::empty());
                    assert(sorted_insert(stmt_entry.drop_first(), 1, terminal_pos) =~= seq![
                        (1usize, terminal_pos),
                    ]);
                    assert(self.chunk.positions@ =~= seq![(0usize, p)] + seq![
                        (1usize, terminal_pos),
                    ]);
                    assert(self.chunk.positions@.drop_first() =~= seq![(1usize, terminal_pos)]);
                    assert(pos_lookup(self.chunk.positions@.drop_first(), 0) is None);
                    assert(pos_lookup(self.chunk.positions@, 0) == Some(p));
                }
                if entry.at_start() && program.statements@.len() == 0 {
                    assert(before == entry);
                    assert(self.chunk.instructions@ =~= entry.chunk.instructions@ + seq![
                        opcode_byte(Opcode::Return),
                    ]);
                }
                if entry.at_start() && program.statements@.len() == 1
                    && program.statements@[0] matches Statement::Break { .. } {
                    assert(self.chunk.instructions@ =~= entry.chunk.instructions@ + seq![
                        opcode_byte(Opcode::InvalidBreak),
                        opcode_byte(Opcode::Return),
                    ]);
                }
                if entry.at_start() && program.statements@.len() == 1
                    && program.statements@[0] matches Statement::Continue { .. } {
                    assert(self.chunk.instructions@ =~= entry.chunk.instructions@ + seq![
                        opcode_byte(Opcode::InvalidContinue),
                        opcode_byte(Opcode::Return),
                    ]);
                }
            }
        }
        Ok(())
    }

    /// Compile a program; a synonym for `compile_program`.
    pub fn compile(&mut self, program: &Program) -> (r: Result<(), CompileError>)
        requires
            old(self).wf(),
        ensures
            final(self).wf(),
            r is Ok ==> final(self).ends_with_terminator(),
    {
        self.compile_program(program)
    }
}

} // verus!
