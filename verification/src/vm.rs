//! The virtual machine: executes a `Chunk` over a value stack, a globals
//! array, and a frame stack, dispatching opcodes and reporting runtime
//! errors with source positions and stack traces.

use crate::builtins::{builtin_name_at, execute_builtin};
use crate::bytecode::{lookup_definition, opcode_byte, pos_lookup, pos_or_default, Chunk, Opcode};
use crate::object::{
    obj_hash_key, obj_type_name, ClosureObject, CompiledFunctionObject, HashKey, Object, ObjectRef,
};
use crate::position::Position;
use crate::runtime_error::{RuntimeError, RuntimeErrorType, StackFrameInfo};
use std::rc::Rc;
use vstd::prelude::*;
use vstd::string::StringExecFns;

verus! {

/// An activation record: the executing closure, its instruction pointer,
/// where its locals start on the value stack, and how it was called.
#[derive(Debug)]
struct Frame {
    closure: Rc<ClosureObject>,
    ip: usize,
    base_pointer: usize,
    call_site_pos: Position,
    arg_count: usize,
}

/// Whether two hash keys denote the same key value.
pub open spec fn hash_key_matches(a: HashKey, b: HashKey) -> bool {
    match (a, b) {
        (HashKey::Integer(x), HashKey::Integer(y)) => x == y,
        (HashKey::Boolean(x), HashKey::Boolean(y)) => x == y,
        (HashKey::String(x), HashKey::String(y)) => x@ == y@,
        _ => false,
    }
}

/// The value for `key` among hash pairs, scanning newest pair first so a
/// later duplicate key shadows an earlier one.
pub open spec fn hash_find(pairs: Seq<(ObjectRef, ObjectRef)>, key: HashKey) -> Option<ObjectRef>
    decreases pairs.len(),
{
    if pairs.len() == 0 {
        None
    } else {
        match obj_hash_key(*pairs.last().0) {
            Some(k) if hash_key_matches(k, key) => Some(pairs.last().1),
            _ => hash_find(pairs.drop_last(), key),
        }
    }
}

/// Whether two hash keys denote the same key value.
fn hash_key_eq(a: &HashKey, b: &HashKey) -> (r: bool)
    ensures
        r == hash_key_matches(*a, *b),
{
    match (a, b) {
        (HashKey::Integer(x), HashKey::Integer(y)) => *x == *y,
        (HashKey::Boolean(x), HashKey::Boolean(y)) => *x == *y,
        (HashKey::String(x), HashKey::String(y)) => crate::render::str_eq(
            x.as_str(),
            y.as_str(),
        ),
        _ => false,
    }
}

/// The result of the numeric negation opcode: integers negate (the one
/// overflowing value wraps); any other operand is a type mismatch.
fn neg_result(operand: &Object) -> (r: Result<Object, (RuntimeErrorType, String)>)
    ensures
        match *operand {
            Object::Integer(v) => r is Ok && r->Ok_0 == Object::Integer((0i64).wrapping_sub(v)),
            _ => {
                &&& r is Err
                &&& r->Err_0.0 == RuntimeErrorType::TypeMismatch
                &&& r->Err_0.1@ == "unsupported operand type for -: "@ + obj_type_name(*operand)
            },
        },
{
    match operand {
        Object::Integer(v) => Ok(Object::Integer((0i64).wrapping_sub(*v))),
        other => {
            let mut message: String = "unsupported operand type for -: ".to_owned();
            message.append(other.type_tag());
            Err((RuntimeErrorType::TypeMismatch, message))
        },
    }
}

/// Truncating `i64` division with division-by-zero excluded and the one
/// overflowing quotient wrapped.
pub open spec fn div_value(a: i64, b: i64) -> i64
    recommends
        b != 0,
{
    match a.checked_div(b) {
        Some(q) => q,
        None => i64::MIN,
    }
}

/// Whether two machines agree on everything but the captured output:
/// chunk, value stack, globals, frames, and the last popped value.
/// Two integer constants in the pool: the shape of a compiled binary
/// integer operation on two literals.
pub open spec fn two_integer_constants(c: Chunk) -> bool {
    &&& c.constants@.len() == 2
    &&& (*c.constants@[0]) is Integer
    &&& (*c.constants@[1]) is Integer
}

/// The wrapping sum of the two integer constants of the pool.
pub open spec fn constant_sum(c: Chunk) -> Object {
    Object::Integer(
        (*c.constants@[0])->Integer_0.wrapping_add((*c.constants@[1])->Integer_0),
    )
}

pub closed spec fn same_but_output(a: Vm, b: Vm) -> bool {
    &&& a.chunk == b.chunk
    &&& a.stack == b.stack
    &&& a.globals == b.globals
    &&& a.frames == b.frames
    &&& a.last_popped == b.last_popped
}

/// Stack-based virtual machine for executing compiled bytecode.
#[derive(Debug)]
pub struct Vm {
    chunk: Chunk,
    stack: Vec<ObjectRef>,
    globals: Vec<ObjectRef>,
    frames: Vec<Frame>,
    last_popped: Option<ObjectRef>,
    output: Vec<String>,
}

impl Vm {
    /// The chunk the machine executes.
    pub closed spec fn spec_chunk(self) -> Chunk {
        self.chunk
    }

    /// The captured output lines.
    pub closed spec fn spec_output(self) -> Seq<String> {
        self.output@
    }

    /// The global variable slots, in definition order.
    pub closed spec fn spec_globals(self) -> Seq<ObjectRef> {
        self.globals@
    }

    /// A machine that has not started: empty stack and globals, no output,
    /// and exactly the initial frame at instruction pointer zero over the
    /// chunk's instructions.
    pub closed spec fn fresh(self) -> bool {
        &&& self.stack@.len() == 0
        &&& self.globals@.len() == 0
        &&& self.output@.len() == 0
        &&& self.last_popped is None
        &&& self.frames@.len() == 1
        &&& self.frames@[0].ip == 0
        &&& self.frames@[0].base_pointer == 0
        &&& self.frames@[0].arg_count == 0
        &&& self.frames@[0].call_site_pos == (Position { line: 1, col: 1 })
        &&& self.frames@[0].closure.free@.len() == 0
        &&& self.frames@[0].closure.function.name matches Some(n) && n@ == "<repl>"@
        &&& self.frames@[0].closure.function.num_params == 0
        &&& self.frames@[0].closure.function.num_locals == 0
        &&& self.frames@[0].closure.function.instructions@ == self.chunk.instructions@
        &&& self.frames@[0].closure.function.positions@ == self.chunk.positions@
    }

    /// Build a machine over `chunk`, wrapping its top-level instructions as
    /// a synthetic zero-argument closure.
    pub fn new(chunk: Chunk) -> (vm: Self)
        ensures
            vm.fresh(),
            vm.spec_chunk() == chunk,
    {
        let mut instructions_copy: Vec<u8> = Vec::new();
        let mut ci: usize = 0;
        while ci < chunk.instructions.len()
            invariant
                ci <= chunk.instructions@.len(),
                instructions_copy@ == chunk.instructions@.subrange(0, ci as int),
            decreases chunk.instructions@.len() - ci,
        {
            instructions_copy.push(chunk.instructions[ci]);
            proof {
                assert(chunk.instructions@.subrange(0, ci as int).push(
                    chunk.instructions@[ci as int],
                ) =~= chunk.instructions@.subrange(0, ci as int + 1));
            }
            ci = ci + 1;
        }
        let mut positions_copy: Vec<(usize, Position)> = Vec::new();
        let mut pi: usize = 0;
        while pi < chunk.positions.len()
            invariant
                pi <= chunk.positions@.len(),
                positions_copy@ == chunk.positions@.subrange(0, pi as int),
            decreases chunk.positions@.len() - pi,
        {
            positions_copy.push(chunk.positions[pi]);
            proof {
                assert(chunk.positions@.subrange(0, pi as int).push(chunk.positions@[pi as int])
                    =~= chunk.positions@.subrange(0, pi as int + 1));
            }
            pi = pi + 1;
        }
        proof {
            assert(chunk.instructions@.subrange(0, chunk.instructions@.len() as int)
                =~= chunk.instructions@);
            assert(chunk.positions@.subrange(0, chunk.positions@.len() as int)
                =~= chunk.positions@);
        }
        proof {
            reveal_strlit("<repl>");
        }
        let main_function = Rc::new(
            CompiledFunctionObject {
                name: Some("<repl>".to_owned()),
                num_params: 0,
                num_locals: 0,
                instructions: instructions_copy,
                positions: positions_copy,
            },
        );
        let main_closure = Rc::new(ClosureObject { function: main_function, free: Vec::new() });
        let mut frames: Vec<Frame> = Vec::new();
        frames.push(
            Frame {
                closure: main_closure,
                ip: 0,
                base_pointer: 0,
                call_site_pos: Position::new(1, 1),
                arg_count: 0,
            },
        );
        Vm {
            chunk,
            stack: Vec::new(),
            globals: Vec::new(),
            frames,
            last_popped: None,
            output: Vec::new(),
        }
    }

    /// The most recently popped value, kept for inspection.
    pub closed spec fn spec_last_popped(self) -> Option<ObjectRef> {
        self.last_popped
    }

    /// The most recently popped value, kept for inspection.
    pub fn last_popped(&self) -> (r: Option<ObjectRef>)
        ensures
            r == self.spec_last_popped(),
    {
        match &self.last_popped {
            Some(v) => Some(v.clone()),
            None => None,
        }
    }

    /// The globals array.
    pub fn globals(&self) -> (r: &Vec<ObjectRef>)
        ensures
            r@ == self.spec_globals(),
    {
        &self.globals
    }

    /// The captured output lines.
    pub fn output(&self) -> (r: &Vec<String>)
        ensures
            r@ == self.spec_output(),
    {
        &self.output
    }

    /// Take the captured output lines, leaving none.
    pub fn take_output(&mut self) -> (r: Vec<String>)
        ensures
            r@ == old(self).spec_output(),
            final(self).spec_output().len() == 0,
            same_but_output(*old(self), *final(self)),
    {
        let mut taken: Vec<String> = Vec::new();
        core::mem::swap(&mut self.output, &mut taken);
        taken
    }

    /// Build a runtime error pinned to the position of the instruction at
    /// `ip`, carrying the frame stack innermost first.
    fn runtime_error(&self, ip: usize, error_type: RuntimeErrorType, message: &str) -> (e:
        RuntimeError)
        ensures
            e.error_type == error_type,
            e.message@ == message@,
            self.frames@.len() > 0 ==> e.pos == pos_or_default(
                self.frames@.last().closure.function.positions@,
                ip as int,
            ),
    {
        let pos = self.current_position(ip);
        let stack = self.build_stack_trace(ip);
        RuntimeError::new(error_type, message, pos).with_stack(stack)
    }

    /// The recorded source position for the instruction at `ip` in the
    /// current frame, or the default position.
    fn current_position(&self, ip: usize) -> (p: Position)
        ensures
            self.frames@.len() > 0 ==> p == pos_or_default(
                self.frames@.last().closure.function.positions@,
                ip as int,
            ),
            self.frames@.len() == 0 ==> p == (Position { line: 1, col: 1 }),
    {
        let n = self.frames.len();
        if n == 0 {
            return Position::new(1, 1);
        }
        let frame = &self.frames[n - 1];
        match lookup_entries(&frame.closure.function.positions, ip) {
            Some(p) => p,
            None => Position::new(1, 1),
        }
    }

    /// One line of stack trace per frame, innermost first, the innermost
    /// pinned to the faulting instruction and the outer frames to their
    /// call sites.
    fn build_stack_trace(&self, current_ip: usize) -> Vec<StackFrameInfo> {
        let mut out: Vec<StackFrameInfo> = Vec::new();
        let n = self.frames.len();
        let mut k: usize = n;
        while k > 0
            invariant
                n == self.frames@.len(),
                k <= n,
            decreases k,
        {
            k = k - 1;
            let frame = &self.frames[k];
            let name: String = match &frame.closure.function.name {
                Some(name) => name.clone(),
                None => "<anonymous>".to_owned(),
            };
            let pos = if k + 1 == n {
                match lookup_entries(&frame.closure.function.positions, current_ip) {
                    Some(p) => p,
                    None => Position::new(1, 1),
                }
            } else {
                frame.call_site_pos
            };
            out.push(StackFrameInfo::new(name.as_str(), pos).with_arg_count(frame.arg_count));
        }
        out
    }
}

/// The recorded position for `offset`: the last entry of the longest prefix
/// with offsets at most `offset`.
fn lookup_entries(entries: &Vec<(usize, Position)>, offset: usize) -> (r: Option<Position>)
    ensures
        r == pos_lookup(entries@, offset as int),
{
    let ghost full = entries@;
    let mut best: Option<Position> = None;
    let mut i: usize = 0;
    proof {
        assert(full.subrange(0, full.len() as int) =~= full);
    }
    loop
        invariant
            i <= full.len(),
            entries@ == full,
            forall|j: int| 0 <= j < i ==> (#[trigger] full[j]).0 <= offset,
            pos_lookup(full, offset as int) == (match pos_lookup(
                full.subrange(i as int, full.len() as int),
                offset as int,
            ) {
                Some(p) => Some(p),
                None => best,
            }),
        decreases full.len() - i,
    {
        let ghost tail = full.subrange(i as int, full.len() as int);
        if i >= entries.len() {
            proof {
                assert(tail.len() == 0);
                assert(pos_lookup(tail, offset as int) == None::<Position>);
            }
            return best;
        }
        if entries[i].0 > offset {
            proof {
                assert(tail[0] == full[i as int]);
                assert(pos_lookup(tail, offset as int) == None::<Position>);
            }
            return best;
        }
        proof {
            assert(tail[0] == full[i as int]);
            assert(tail.drop_first() =~= full.subrange(i as int + 1, full.len() as int));
        }
        best = Some(entries[i].1);
        i = i + 1;
    }
}

/// The result of a binary arithmetic opcode on two operand values:
/// integer arithmetic wraps on the four operators with division by zero
/// rejected; `Add` concatenates two strings; ordering opcodes on strings
/// are unsupported; any other combination is a type mismatch.
fn arith_result(op: Opcode, left: &Object, right: &Object) -> (r: Result<
    Object,
    (RuntimeErrorType, String),
>)
    requires
        op == Opcode::Add || op == Opcode::Sub || op == Opcode::Mul || op == Opcode::Div,
    ensures
        match (*left, *right) {
            (Object::Integer(a), Object::Integer(b)) => {
                if op == Opcode::Div && b == 0i64 {
                    &&& r is Err
                    &&& r->Err_0.0 == RuntimeErrorType::DivisionByZero
                    &&& r->Err_0.1@ == "division by zero"@
                } else {
                    &&& r is Ok
                    &&& r->Ok_0 == Object::Integer(
                        if op == Opcode::Add {
                            a.wrapping_add(b)
                        } else if op == Opcode::Sub {
                            a.wrapping_sub(b)
                        } else if op == Opcode::Mul {
                            a.wrapping_mul(b)
                        } else {
                            div_value(a, b)
                        },
                    )
                }
            },
            (Object::String(a), Object::String(b)) => {
                if op == Opcode::Add {
                    &&& r is Ok
                    &&& r->Ok_0 matches Object::String(s) && s@ == a@ + b@
                } else {
                    &&& r is Err
                    &&& r->Err_0.0 == RuntimeErrorType::TypeMismatch
                    &&& r->Err_0.1@ == "unsupported operand types for "@
                        + crate::bytecode::op_name(op) + ": STRING and STRING"@
                }
            },
            _ => {
                &&& r is Err
                &&& r->Err_0.0 == RuntimeErrorType::TypeMismatch
                &&& r->Err_0.1@ == "unsupported operand types for "@ + crate::bytecode::op_name(op)
                    + ": "@ + obj_type_name(*left) + " and "@ + obj_type_name(*right)
            },
        },
{
    match (left, right) {
        (Object::Integer(a), Object::Integer(b)) => {
            match op {
                Opcode::Add => Ok(Object::Integer(a.wrapping_add(*b))),
                Opcode::Sub => Ok(Object::Integer(a.wrapping_sub(*b))),
                Opcode::Mul => Ok(Object::Integer(a.wrapping_mul(*b))),
                _ => {
                    if *b == 0 {
                        Err((RuntimeErrorType::DivisionByZero, "division by zero".to_owned()))
                    } else {
                        let q = match a.checked_div(*b) {
                            Some(q) => q,
                            None => i64::MIN,
                        };
                        Ok(Object::Integer(q))
                    }
                },
            }
        },
        (Object::String(a), Object::String(b)) => {
            match op {
                Opcode::Add => {
                    let mut s = a.clone();
                    s.append(b.as_str());
                    Ok(Object::String(s))
                },
                _ => {
                    let mut message: String = "unsupported operand types for ".to_owned();
                    message.append(lookup_definition(op).name);
                    message.append(": STRING and STRING");
                    Err((RuntimeErrorType::TypeMismatch, message))
                },
            }
        },
        _ => {
            let mut message: String = "unsupported operand types for ".to_owned();
            message.append(lookup_definition(op).name);
            message.append(": ");
            message.append(left.type_tag());
            message.append(" and ");
            message.append(right.type_tag());
            Err((RuntimeErrorType::TypeMismatch, message))
        },
    }
}

/// The result of a comparison opcode on two operand values: all six
/// comparisons on integers; equality only on booleans and nulls; equality
/// on strings with ordering unsupported; any mixed combination is a type
/// mismatch.
fn compare_result(op: Opcode, left: &Object, right: &Object) -> (r: Result<
    bool,
    (RuntimeErrorType, String),
>)
    requires
        op == Opcode::Eq || op == Opcode::Ne || op == Opcode::Lt || op == Opcode::Gt || op
            == Opcode::Le || op == Opcode::Ge,
    ensures
        match (*left, *right) {
            (Object::Integer(a), Object::Integer(b)) => r is Ok && r->Ok_0 == (if op == Opcode::Eq {
                a == b
            } else if op == Opcode::Ne {
                a != b
            } else if op == Opcode::Lt {
                a < b
            } else if op == Opcode::Gt {
                a > b
            } else if op == Opcode::Le {
                a <= b
            } else {
                a >= b
            }),
            (Object::Boolean(a), Object::Boolean(b)) => {
                if op == Opcode::Eq || op == Opcode::Ne {
                    r is Ok && r->Ok_0 == (if op == Opcode::Eq {
                        a == b
                    } else {
                        a != b
                    })
                } else {
                    &&& r is Err
                    &&& r->Err_0.0 == RuntimeErrorType::TypeMismatch
                    &&& r->Err_0.1@ == "unsupported operand types for "@
                        + crate::bytecode::op_name(op) + ": BOOLEAN and BOOLEAN"@
                }
            },
            (Object::Null, Object::Null) => {
                if op == Opcode::Eq || op == Opcode::Ne {
                    r is Ok && r->Ok_0 == (op == Opcode::Eq)
                } else {
                    &&& r is Err
                    &&& r->Err_0.0 == RuntimeErrorType::TypeMismatch
                    &&& r->Err_0.1@ == "unsupported operand types for "@
                        + crate::bytecode::op_name(op) + ": NULL and NULL"@
                }
            },
            (Object::String(a), Object::String(b)) => {
                if op == Opcode::Eq || op == Opcode::Ne {
                    r is Ok && r->Ok_0 == (if op == Opcode::Eq {
                        a@ == b@
                    } else {
                        a@ != b@
                    })
                } else {
                    &&& r is Err
                    &&& r->Err_0.0 == RuntimeErrorType::UnsupportedOperation
                    &&& r->Err_0.1@ == "unsupported string operation: "@ + crate::bytecode::op_name(
                        op,
                    )
                }
            },
            _ => {
                &&& r is Err
                &&& r->Err_0.0 == RuntimeErrorType::TypeMismatch
                &&& r->Err_0.1@ == "unsupported operand types for "@ + crate::bytecode::op_name(op)
                    + ": "@ + obj_type_name(*left) + " and "@ + obj_type_name(*right)
            },
        },
{
    match (left, right) {
        (Object::Integer(a), Object::Integer(b)) => {
            let v = match op {
                Opcode::Eq => *a == *b,
                Opcode::Ne => *a != *b,
                Opcode::Lt => *a < *b,
                Opcode::Gt => *a > *b,
                Opcode::Le => *a <= *b,
                _ => *a >= *b,
            };
            Ok(v)
        },
        (Object::Boolean(a), Object::Boolean(b)) => {
            match op {
                Opcode::Eq => Ok(*a == *b),
                Opcode::Ne => Ok(*a != *b),
                _ => {
                    let mut message: String = "unsupported operand types for ".to_owned();
                    message.append(lookup_definition(op).name);
                    message.append(": BOOLEAN and BOOLEAN");
                    Err((RuntimeErrorType::TypeMismatch, message))
                },
            }
        },
        (Object::Null, Object::Null) => {
            match op {
                Opcode::Eq => Ok(true),
                Opcode::Ne => Ok(false),
                _ => {
                    let mut message: String = "unsupported operand types for ".to_owned();
                    message.append(lookup_definition(op).name);
                    message.append(": NULL and NULL");
                    Err((RuntimeErrorType::TypeMismatch, message))
                },
            }
        },
        (Object::String(a), Object::String(b)) => {
            match op {
                Opcode::Eq => Ok(crate::render::str_eq(a.as_str(), b.as_str())),
                Opcode::Ne => Ok(!crate::render::str_eq(a.as_str(), b.as_str())),
                _ => {
                    let mut message: String = "unsupported string operation: ".to_owned();
                    message.append(lookup_definition(op).name);
                    Err((RuntimeErrorType::UnsupportedOperation, message))
                },
            }
        },
        _ => {
            let mut message: String = "unsupported operand types for ".to_owned();
            message.append(lookup_definition(op).name);
            message.append(": ");
            message.append(left.type_tag());
            message.append(" and ");
            message.append(right.type_tag());
            Err((RuntimeErrorType::TypeMismatch, message))
        },
    }
}

/// The result of the index operation: in-range array indexing by integer
/// with out-of-range and negative indexes yielding `Null`; hash lookup by
/// hashable key with the newest duplicate winning and a missing key
/// yielding `Null`; everything else an error.
fn index_result(left: &ObjectRef, index: &ObjectRef) -> (r: Result<
    ObjectRef,
    (RuntimeErrorType, String),
>)
    ensures
        match **left {
            Object::Array(vs) => {
                match **index {
                    Object::Integer(i) => {
                        &&& r is Ok
                        &&& (i < 0 || i >= vs@.len()) ==> *r->Ok_0 == Object::Null
                        &&& (0 <= i < vs@.len()) ==> r->Ok_0 == vs@[i as int]
                    },
                    _ => {
                        &&& r is Err
                        &&& r->Err_0.0 == RuntimeErrorType::InvalidIndex
                        &&& r->Err_0.1@ == "array index must be INTEGER, got "@ + obj_type_name(
                            **index,
                        )
                    },
                }
            },
            Object::Hash(pairs) => {
                match obj_hash_key(**index) {
                    Some(key) => {
                        &&& r is Ok
                        &&& match hash_find(pairs@, key) {
                            Some(v) => r->Ok_0 == v,
                            None => *r->Ok_0 == Object::Null,
                        }
                    },
                    None => {
                        &&& r is Err
                        &&& r->Err_0.0 == RuntimeErrorType::Unhashable
                        &&& r->Err_0.1@ == "unusable as hash key: "@ + obj_type_name(**index)
                    },
                }
            },
            _ => {
                &&& r is Err
                &&& r->Err_0.0 == RuntimeErrorType::InvalidIndex
                &&& r->Err_0.1@ == "index operator not supported: "@ + obj_type_name(**left)
            },
        },
{
    match &**left {
        Object::Array(values) => {
            match &**index {
                Object::Integer(i) => {
                    if *i < 0 {
                        Ok(Object::Null.rc())
                    } else if (*i as u64) < (values.len() as u64) {
                        Ok(values[*i as usize].clone())
                    } else {
                        Ok(Object::Null.rc())
                    }
                },
                other => {
                    let mut message: String = "array index must be INTEGER, got ".to_owned();
                    message.append(other.type_tag());
                    Err((RuntimeErrorType::InvalidIndex, message))
                },
            }
        },
        Object::Hash(pairs) => {
            let target_key = match (&**index).hash_key() {
                Some(k) => k,
                None => {
                    let mut message: String = "unusable as hash key: ".to_owned();
                    message.append((&**index).type_tag());
                    return Err((RuntimeErrorType::Unhashable, message));
                },
            };
            let ghost full = pairs@;
            let mut k: usize = pairs.len();
            proof {
                assert(full.subrange(0, full.len() as int) =~= full);
            }
            while k > 0
                invariant
                    k <= full.len(),
                    pairs@ == full,
                    (**left) matches Object::Hash(pp) && pp == *pairs,
                    obj_hash_key(**index) == Some(target_key),
                    hash_find(full, target_key) == hash_find(
                        full.subrange(0, k as int),
                        target_key,
                    ),
                decreases k,
            {
                k = k - 1;
                proof {
                    let prefix = full.subrange(0, k as int + 1);
                    assert(prefix.last() == full[k as int]);
                    assert(prefix.drop_last() =~= full.subrange(0, k as int));
                }
                let key_obj = &pairs[k].0;
                match (&**key_obj).hash_key() {
                    Some(found) => {
                        if hash_key_eq(&found, &target_key) {
                            proof {
                                let prefix = full.subrange(0, k as int + 1);
                                assert(obj_hash_key(*prefix.last().0) == Some(found));
                                assert(hash_find(prefix, target_key) == Some(
                                    full[k as int].1,
                                ));
                                assert(hash_find(full, target_key) == Some(full[k as int].1));
                            }
                            return Ok(pairs[k].1.clone());
                        }
                    },
                    None => {},
                }
            }
            proof {
                assert(full.subrange(0, 0) =~= Seq::<(ObjectRef, ObjectRef)>::empty());
            }
            Ok(Object::Null.rc())
        },
        other => {
            let mut message: String = "index operator not supported: ".to_owned();
            message.append(other.type_tag());
            Err((RuntimeErrorType::InvalidIndex, message))
        },
    }
}


impl Vm {
    /// Push a value onto the stack.
    fn push_value(&mut self, obj: ObjectRef)
        ensures
            final(self).stack@ == old(self).stack@.push(obj),
            final(self).globals == old(self).globals,
            final(self).frames == old(self).frames,
            final(self).output == old(self).output,
            final(self).chunk == old(self).chunk,
    {
        self.stack.push(obj);
    }

    /// Pop the top of the stack, remembering it as the last popped value;
    /// an empty stack is a structural error.
    fn pop_value(&mut self, ip: usize) -> (r: Result<ObjectRef, RuntimeError>)
        ensures
            old(self).stack@.len() > 0 ==> (r matches Ok(v) && v == old(self).stack@.last()
                && final(self).stack@ == old(self).stack@.drop_last()),
            old(self).stack@.len() == 0 ==> r is Err,
            final(self).globals == old(self).globals,
            final(self).frames == old(self).frames,
            final(self).output == old(self).output,
            final(self).chunk == old(self).chunk,
    {
        match self.stack.pop() {
            Some(value) => {
                self.last_popped = Some(value.clone());
                Ok(value)
            },
            None => Err(self.runtime_error(ip, RuntimeErrorType::UnsupportedOperation, "stack underflow")),
        }
    }

    /// The top of the stack without removing it.
    fn peek_value(&self, ip: usize) -> (r: Result<ObjectRef, RuntimeError>)
        ensures
            self.stack@.len() > 0 ==> (r matches Ok(v) && v == self.stack@.last()),
            self.stack@.len() == 0 ==> r is Err,
    {
        let n = self.stack.len();
        if n == 0 {
            Err(self.runtime_error(ip, RuntimeErrorType::UnsupportedOperation, "stack underflow"))
        } else {
            Ok(self.stack[n - 1].clone())
        }
    }

    /// Advance the current frame's instruction pointer by `delta`,
    /// saturating at the largest pointer.
    fn advance_ip(&mut self, delta: usize)
        ensures
            final(self).stack == old(self).stack,
            final(self).globals == old(self).globals,
            final(self).output == old(self).output,
            final(self).chunk == old(self).chunk,
            final(self).last_popped == old(self).last_popped,
            final(self).frames@.len() == old(self).frames@.len(),
            old(self).frames@.len() > 0 ==> {
                &&& final(self).frames@.last().ip == (if delta <= usize::MAX - old(
                    self,
                ).frames@.last().ip {
                    (old(self).frames@.last().ip + delta) as int
                } else {
                    usize::MAX as int
                })
                &&& final(self).frames@.last().closure == old(self).frames@.last().closure
                &&& final(self).frames@.last().base_pointer == old(
                    self,
                ).frames@.last().base_pointer
                &&& final(self).frames@.last().arg_count == old(self).frames@.last().arg_count
                &&& final(self).frames@.last().call_site_pos == old(
                    self,
                ).frames@.last().call_site_pos
                &&& final(self).frames@.drop_last() == old(self).frames@.drop_last()
            },
            old(self).frames@.len() == 0 ==> final(self).frames == old(self).frames,
    {
        let n = self.frames.len();
        if n == 0 {
            return ;
        }
        let frame = &mut self.frames[n - 1];
        let ip = frame.ip;
        if delta <= usize::MAX - ip {
            frame.ip = ip + delta;
        } else {
            frame.ip = usize::MAX;
        }
    }

    /// Set the current frame's instruction pointer.
    fn set_ip(&mut self, target: usize)
        ensures
            final(self).stack == old(self).stack,
            final(self).globals == old(self).globals,
            final(self).output == old(self).output,
            final(self).chunk == old(self).chunk,
    {
        let n = self.frames.len();
        if n == 0 {
            return ;
        }
        let frame = &mut self.frames[n - 1];
        frame.ip = target;
    }

    /// Unwind the current frame; the bottom frame's return value is the
    /// program result, an inner frame pushes the value for its caller.
    fn return_from_frame(&mut self, value: ObjectRef) -> (r: Result<
        Option<ObjectRef>,
        RuntimeError,
    >)
        ensures
            old(self).frames@.len() == 1 ==> (r matches Ok(o) && o == Some(value)),
            final(self).output == old(self).output,
            final(self).chunk == old(self).chunk,
    {
        let frame = match self.frames.pop() {
            Some(f) => f,
            None => {
                return Err(
                    RuntimeError::new(
                        RuntimeErrorType::UnsupportedOperation,
                        "frame stack underflow on return",
                        Position::new(1, 1),
                    ),
                );
            },
        };
        if self.frames.len() == 0 {
            return Ok(Some(value));
        }
        let truncate_to = if frame.base_pointer == 0 {
            0
        } else {
            frame.base_pointer - 1
        };
        self.stack.truncate(truncate_to);
        self.push_value(value);
        Ok(None)
    }

    /// Invoke the callee under the top `argc` stack values: a closure gets
    /// a new frame over its arguments, a builtin executes immediately.
    fn exec_call(&mut self, argc: usize, ip: usize) -> (r: Result<(), RuntimeError>)
        ensures
            final(self).chunk == old(self).chunk,
    {
        if self.stack.len() == 0 || argc > self.stack.len() - 1 {
            return Err(
                self.runtime_error(
                    ip,
                    RuntimeErrorType::UnsupportedOperation,
                    "stack underflow while preparing call",
                ),
            );
        }
        let callee_index = self.stack.len() - 1 - argc;
        let callee = self.stack[callee_index].clone();
        match &*callee {
            Object::Closure(closure) => {
                let closure = Rc::clone(closure);
                self.call_closure(closure, argc, ip)
            },
            Object::Builtin(builtin) => {
                let name = builtin.name.clone();
                self.call_builtin(name.as_str(), argc, callee_index, ip)
            },
            other => {
                let mut message: String = "object is not callable: ".to_owned();
                message.append(other.type_tag());
                Err(self.runtime_error(ip, RuntimeErrorType::NotCallable, message.as_str()))
            },
        }
    }

    /// Push a frame for a closure call after validating its arity: the
    /// frame starts at instruction zero with its base pointer at the first
    /// argument, and the local slots above the arguments are filled with
    /// nulls.
    fn call_closure(&mut self, closure: Rc<ClosureObject>, argc: usize, ip: usize) -> (r: Result<
        (),
        RuntimeError,
    >)
        ensures
            final(self).chunk == old(self).chunk,
            argc != closure.function.num_params ==> (r matches Err(e) && e.error_type
                == RuntimeErrorType::WrongArgumentCount && e.message@ == (match closure
                .function
                .name {
                Some(n) => n@,
                None => "<anonymous>"@,
            }) + " expected "@ + crate::render::dec_seq(closure.function.num_params as nat)
                + " argument(s), got "@ + crate::render::dec_seq(argc as nat) && *final(self)
                == *old(self)),
            ({
                &&& argc == closure.function.num_params
                &&& old(self).stack@.len() >= argc + 1
                &&& closure.function.num_locals <= usize::MAX - (old(self).stack@.len() - argc)
            }) ==> {
                let base = old(self).stack@.len() - argc;
                &&& r is Ok
                &&& final(self).frames@.len() == old(self).frames@.len() + 1
                &&& final(self).frames@.drop_last() == old(self).frames@
                &&& final(self).frames@.last().closure == closure
                &&& final(self).frames@.last().ip == 0
                &&& final(self).frames@.last().base_pointer == base
                &&& final(self).frames@.last().arg_count == argc
                &&& final(self).stack@.len() == (if base + closure.function.num_locals > old(
                    self,
                ).stack@.len() {
                    base + closure.function.num_locals
                } else {
                    old(self).stack@.len() as int
                })
                &&& final(self).stack@.subrange(0, old(self).stack@.len() as int) == old(
                    self,
                ).stack@
                &&& forall|i: int|
                    old(self).stack@.len() <= i < final(self).stack@.len()
                        ==> *final(self).stack@[i] == Object::Null
                &&& final(self).globals == old(self).globals
                &&& final(self).output == old(self).output
                &&& final(self).last_popped == old(self).last_popped
            },
    {
        let expected = closure.function.num_params;
        if argc != expected {
            let mut message: String = match &closure.function.name {
                Some(name) => name.clone(),
                None => "<anonymous>".to_owned(),
            };
            message.append(" expected ");
            crate::render::push_usize(&mut message, expected);
            message.append(" argument(s), got ");
            crate::render::push_usize(&mut message, argc);
            proof {
                assert(message@ =~= (match closure.function.name {
                    Some(n) => n@,
                    None => "<anonymous>"@,
                }) + " expected "@ + crate::render::dec_seq(expected as nat)
                    + " argument(s), got "@ + crate::render::dec_seq(argc as nat));
            }
            return Err(
                self.runtime_error(ip, RuntimeErrorType::WrongArgumentCount, message.as_str()),
            );
        }
        if self.stack.len() == 0 || argc > self.stack.len() - 1 {
            return Err(
                self.runtime_error(
                    ip,
                    RuntimeErrorType::UnsupportedOperation,
                    "stack underflow while preparing call",
                ),
            );
        }
        let callee_index = self.stack.len() - 1 - argc;
        let base_pointer = callee_index + 1;
        let num_locals = closure.function.num_locals;
        if num_locals > usize::MAX - base_pointer {
            return Err(
                self.runtime_error(ip, RuntimeErrorType::UnsupportedOperation, "stack overflow"),
            );
        }
        let required = base_pointer + num_locals;
        while self.stack.len() < required
            invariant
                self.chunk == old(self).chunk,
                self.globals == old(self).globals,
                self.output == old(self).output,
                self.frames == old(self).frames,
                self.last_popped == old(self).last_popped,
                self.stack@.len() >= old(self).stack@.len(),
                self.stack@.len() <= required || self.stack@.len() == old(self).stack@.len(),
                self.stack@.subrange(0, old(self).stack@.len() as int) == old(self).stack@,
                forall|i: int|
                    old(self).stack@.len() <= i < self.stack@.len() ==> *self.stack@[i]
                        == Object::Null,
            decreases required - self.stack@.len(),
        {
            let ghost pre = self.stack@;
            self.stack.push(Object::Null.rc());
            proof {
                assert(self.stack@.subrange(0, old(self).stack@.len() as int) =~= pre.subrange(
                    0,
                    old(self).stack@.len() as int,
                ));
            }
        }
        let call_pos = self.current_position(ip);
        self.frames.push(
            Frame { closure, ip: 0, base_pointer, call_site_pos: call_pos, arg_count: argc },
        );
        proof {
            assert(final(self).frames@.drop_last() =~= old(self).frames@);
        }
        Ok(())
    }

    /// Execute a builtin against its argument slice, replacing callee and
    /// arguments with the result.
    fn call_builtin(&mut self, name: &str, argc: usize, callee_index: usize, ip: usize) -> (r:
        Result<(), RuntimeError>)
        requires
            callee_index + argc + 1 <= old(self).stack@.len(),
        ensures
            final(self).chunk == old(self).chunk,
    {
        let sl = self.stack.len();
        proof {
            assert(callee_index + argc + 1 <= sl);
        }
        let args_start = callee_index + 1;
        let mut args: Vec<ObjectRef> = Vec::new();
        let mut ai: usize = 0;
        while ai < argc
            invariant
                self.stack@ == old(self).stack@,
                sl == self.stack@.len(),
                callee_index + argc + 1 <= sl,
                args_start == callee_index + 1,
                ai <= argc,
            decreases argc - ai,
        {
            args.push(self.stack[args_start + ai].clone());
            ai = ai + 1;
        }
        let result = match execute_builtin(name, args.as_slice(), &mut self.output) {
            Ok(value) => value,
            Err(err) => {
                return Err(self.runtime_error(ip, err.error_type, err.message.as_str()));
            },
        };
        self.stack.truncate(callee_index);
        self.push_value(result);
        Ok(())
    }

    /// Read the byte at `index` of the given instruction stream.
    fn byte_at(&self, instrs: &Vec<u8>, index: usize, ip: usize) -> (r: Result<u8, RuntimeError>)
        ensures
            index < instrs@.len() ==> (r matches Ok(b) && b == instrs@[index as int]),
            index >= instrs@.len() ==> r is Err,
    {
        if index < instrs.len() {
            Ok(instrs[index])
        } else {
            let mut message: String = "truncated instruction at offset ".to_owned();
            crate::render::push_usize(&mut message, ip);
            Err(self.runtime_error(ip, RuntimeErrorType::UnsupportedOperation, message.as_str()))
        }
    }

    /// Execute the chunk until the bottom frame returns, yielding the
    /// program result or the first runtime error. An empty program's
    /// single `Return` yields `Null`; a compiled top-level `break` or
    /// `continue` reports `INVALID_CONTROL_FLOW` at once, pinned to the
    /// position recorded at offset zero. Dispatch carries an instruction
    /// budget of `u64::MAX` steps so that the loop provably terminates; a
    /// program that exhausts it reports a structural error, which no
    /// machine-realizable execution reaches.
    #[verifier::loop_isolation(false)]
    #[verifier::rlimit(100)]
    pub fn run(&mut self) -> (r: Result<ObjectRef, RuntimeError>)
        ensures
            (old(self).fresh() && old(self).spec_chunk().instructions@ == seq![
                opcode_byte(Opcode::Return),
            ]) ==> (r matches Ok(v) && *v == Object::Null),
            (old(self).fresh() && old(self).spec_chunk().instructions@.len() > 0 && old(
                self,
            ).spec_chunk().instructions@[0] == opcode_byte(Opcode::InvalidBreak)) ==> (r matches Err(e)
                && e.error_type == RuntimeErrorType::InvalidControlFlow && e.message@
                == "break used outside of loop"@ && e.pos == pos_or_default(
                old(self).spec_chunk().positions@,
                0,
            )),
            (old(self).fresh() && old(self).spec_chunk().instructions@.len() > 0 && old(
                self,
            ).spec_chunk().instructions@[0] == opcode_byte(Opcode::InvalidContinue)) ==> (r matches Err(e)
                && e.error_type == RuntimeErrorType::InvalidControlFlow && e.message@
                == "continue used outside of loop"@ && e.pos == pos_or_default(
                old(self).spec_chunk().positions@,
                0,
            )),
            (old(self).fresh() && old(self).spec_chunk().instructions@ == seq![
                opcode_byte(Opcode::Array),
                0u8,
                0u8,
                opcode_byte(Opcode::ReturnValue),
            ]) ==> (r matches Ok(v) && (*v) matches Object::Array(vs) && vs@.len() == 0),
            (old(self).fresh() && old(self).spec_chunk().instructions@ == seq![
                opcode_byte(Opcode::Hash),
                0u8,
                0u8,
                opcode_byte(Opcode::ReturnValue),
            ]) ==> (r matches Ok(v) && (*v) matches Object::Hash(ps) && ps@.len() == 0),
            (old(self).fresh() && old(self).spec_chunk().instructions@ == seq![
                opcode_byte(Opcode::Constant),
                0u8,
                0u8,
                opcode_byte(Opcode::Constant),
                0u8,
                1u8,
                opcode_byte(Opcode::Add),
                opcode_byte(Opcode::ReturnValue),
            ] && two_integer_constants(old(self).spec_chunk())) ==> (r matches Ok(v) && *v
                == constant_sum(old(self).spec_chunk())),
    {
        let ghost entry = *old(self);
        let ghost arr_premise = entry.fresh() && entry.chunk.instructions@ == seq![
            opcode_byte(Opcode::Array),
            0u8,
            0u8,
            opcode_byte(Opcode::ReturnValue),
        ];
        let ghost hash_premise = entry.fresh() && entry.chunk.instructions@ == seq![
            opcode_byte(Opcode::Hash),
            0u8,
            0u8,
            opcode_byte(Opcode::ReturnValue),
        ];
        let ghost add_premise = entry.fresh() && entry.chunk.instructions@ == seq![
            opcode_byte(Opcode::Constant),
            0u8,
            0u8,
            opcode_byte(Opcode::Constant),
            0u8,
            1u8,
            opcode_byte(Opcode::Add),
            opcode_byte(Opcode::ReturnValue),
        ] && two_integer_constants(entry.chunk);
        let mut fuel: u64 = u64::MAX;
        loop
            invariant
                arr_premise ==> ((fuel == u64::MAX && *self == entry) || (fuel == u64::MAX - 1 && {
                    &&& self.frames@.len() == 1
                    &&& self.frames@[0].ip == 3
                    &&& self.frames@[0].closure == entry.frames@[0].closure
                    &&& self.stack@.len() == 1
                    &&& ((*self.stack@[0]) matches Object::Array(vs) && vs@.len() == 0)
                })),
                hash_premise ==> ((fuel == u64::MAX && *self == entry) || (fuel == u64::MAX - 1
                    && {
                    &&& self.frames@.len() == 1
                    &&& self.frames@[0].ip == 3
                    &&& self.frames@[0].closure == entry.frames@[0].closure
                    &&& self.stack@.len() == 1
                    &&& ((*self.stack@[0]) matches Object::Hash(ps) && ps@.len() == 0)
                })),
                add_premise ==> ((fuel == u64::MAX && *self == entry) || (fuel == u64::MAX - 1 && {
                    &&& self.chunk == entry.chunk
                    &&& self.frames@.len() == 1
                    &&& self.frames@[0].ip == 3
                    &&& self.frames@[0].closure == entry.frames@[0].closure
                    &&& self.stack@.len() == 1
                    &&& self.stack@[0] == entry.chunk.constants@[0]
                }) || (fuel == u64::MAX - 2 && {
                    &&& self.chunk == entry.chunk
                    &&& self.frames@.len() == 1
                    &&& self.frames@[0].ip == 6
                    &&& self.frames@[0].closure == entry.frames@[0].closure
                    &&& self.stack@.len() == 2
                    &&& self.stack@[0] == entry.chunk.constants@[0]
                    &&& self.stack@[1] == entry.chunk.constants@[1]
                }) || (fuel == u64::MAX - 3 && {
                    &&& self.chunk == entry.chunk
                    &&& self.frames@.len() == 1
                    &&& self.frames@[0].ip == 7
                    &&& self.frames@[0].closure == entry.frames@[0].closure
                    &&& self.stack@.len() == 1
                    &&& *self.stack@[0] == constant_sum(entry.chunk)
                })),
                (entry.fresh() && (entry.chunk.instructions@ == seq![opcode_byte(Opcode::Return)]
                    || (entry.chunk.instructions@.len() > 0 && (entry.chunk.instructions@[0]
                    == opcode_byte(Opcode::InvalidBreak) || entry.chunk.instructions@[0]
                    == opcode_byte(Opcode::InvalidContinue))))) ==> (*self == entry && fuel
                    == u64::MAX),
            decreases fuel,
        {
            let n = self.frames.len();
            if n == 0 {
                return Ok(Object::Null.rc());
            }
            if fuel == 0 {
                return Err(
                    self.runtime_error(
                        0,
                        RuntimeErrorType::UnsupportedOperation,
                        "instruction budget exhausted",
                    ),
                );
            }
            fuel = fuel - 1;
            let ip = self.frames[n - 1].ip;
            let closure = Rc::clone(&self.frames[n - 1].closure);
            let instr_len = closure.function.instructions.len();
            if ip >= instr_len {
                if n == 1 {
                    return Ok(Object::Null.rc());
                }
                return Err(
                    self.runtime_error(
                        ip,
                        RuntimeErrorType::UnsupportedOperation,
                        "reached end of function without return",
                    ),
                );
            }
            if ip > usize::MAX - 4 {
                let mut message: String = "truncated instruction at offset ".to_owned();
                crate::render::push_usize(&mut message, ip);
                return Err(
                    self.runtime_error(
                        ip,
                        RuntimeErrorType::UnsupportedOperation,
                        message.as_str(),
                    ),
                );
            }
            let opcode_byte_read = closure.function.instructions[ip];
            let opcode = match Opcode::from_byte(opcode_byte_read) {
                Some(op) => op,
                None => {
                    let mut message: String = "unknown opcode byte: ".to_owned();
                    crate::render::push_usize(&mut message, opcode_byte_read as usize);
                    return Err(
                        self.runtime_error(
                            ip,
                            RuntimeErrorType::UnsupportedOperation,
                            message.as_str(),
                        ),
                    );
                },
            };
            match opcode {
                Opcode::Constant => {
                    let idx = match self.read_u16(&closure.function.instructions, ip) {
                        Ok(v) => v,
                        Err(e) => {
                            return Err(e);
                        },
                    };
                    if idx >= self.chunk.constants.len() {
                        let mut message: String = "constant index out of bounds: ".to_owned();
                        crate::render::push_usize(&mut message, idx);
                        return Err(
                            self.runtime_error(
                                ip,
                                RuntimeErrorType::UnsupportedOperation,
                                message.as_str(),
                            ),
                        );
                    }
                    let constant = self.chunk.constants[idx].clone();
                    self.push_value(constant);
                    self.advance_ip(3);
                },
                Opcode::True => {
                    self.push_value(Object::Boolean(true).rc());
                    self.advance_ip(1);
                },
                Opcode::False => {
                    self.push_value(Object::Boolean(false).rc());
                    self.advance_ip(1);
                },
                Opcode::Null => {
                    self.push_value(Object::Null.rc());
                    self.advance_ip(1);
                },
                Opcode::Pop => {
                    match self.pop_value(ip) {
                        Ok(_) => {},
                        Err(e) => {
                            return Err(e);
                        },
                    }
                    self.advance_ip(1);
                },
                Opcode::Add | Opcode::Sub | Opcode::Mul | Opcode::Div => {
                    let right = match self.pop_value(ip) {
                        Ok(v) => v,
                        Err(e) => {
                            return Err(e);
                        },
                    };
                    let left = match self.pop_value(ip) {
                        Ok(v) => v,
                        Err(e) => {
                            return Err(e);
                        },
                    };
                    match arith_result(opcode, &*left, &*right) {
                        Ok(result) => {
                            self.push_value(result.rc());
                        },
                        Err((error_type, message)) => {
                            return Err(self.runtime_error(ip, error_type, message.as_str()));
                        },
                    }
                    self.advance_ip(1);
                },
                Opcode::Neg => {
                    let operand = match self.pop_value(ip) {
                        Ok(v) => v,
                        Err(e) => {
                            return Err(e);
                        },
                    };
                    match neg_result(&*operand) {
                        Ok(result) => {
                            self.push_value(result.rc());
                        },
                        Err((error_type, message)) => {
                            return Err(self.runtime_error(ip, error_type, message.as_str()));
                        },
                    }
                    self.advance_ip(1);
                },
                Opcode::Bang => {
                    let operand = match self.pop_value(ip) {
                        Ok(v) => v,
                        Err(e) => {
                            return Err(e);
                        },
                    };
                    let truthy = (&*operand).is_truthy();
                    self.push_value(Object::Boolean(!truthy).rc());
                    self.advance_ip(1);
                },
                Opcode::Eq | Opcode::Ne | Opcode::Lt | Opcode::Gt | Opcode::Le | Opcode::Ge => {
                    let right = match self.pop_value(ip) {
                        Ok(v) => v,
                        Err(e) => {
                            return Err(e);
                        },
                    };
                    let left = match self.pop_value(ip) {
                        Ok(v) => v,
                        Err(e) => {
                            return Err(e);
                        },
                    };
                    match compare_result(opcode, &*left, &*right) {
                        Ok(value) => {
                            self.push_value(Object::Boolean(value).rc());
                        },
                        Err((error_type, message)) => {
                            return Err(self.runtime_error(ip, error_type, message.as_str()));
                        },
                    }
                    self.advance_ip(1);
                },
                Opcode::Jump => {
                    let target = match self.read_u16(&closure.function.instructions, ip) {
                        Ok(v) => v,
                        Err(e) => {
                            return Err(e);
                        },
                    };
                    match self.ensure_jump_target(ip, target, instr_len) {
                        Ok(_) => {},
                        Err(e) => {
                            return Err(e);
                        },
                    }
                    self.set_ip(target);
                },
                Opcode::JumpIfFalse => {
                    let target = match self.read_u16(&closure.function.instructions, ip) {
                        Ok(v) => v,
                        Err(e) => {
                            return Err(e);
                        },
                    };
                    match self.ensure_jump_target(ip, target, instr_len) {
                        Ok(_) => {},
                        Err(e) => {
                            return Err(e);
                        },
                    }
                    let condition = match self.peek_value(ip) {
                        Ok(v) => v,
                        Err(e) => {
                            return Err(e);
                        },
                    };
                    if !(&*condition).is_truthy() {
                        self.set_ip(target);
                    } else {
                        self.advance_ip(3);
                    }
                },
                Opcode::SetGlobal => {
                    let idx = match self.read_u16(&closure.function.instructions, ip) {
                        Ok(v) => v,
                        Err(e) => {
                            return Err(e);
                        },
                    };
                    let value = match self.pop_value(ip) {
                        Ok(v) => v,
                        Err(e) => {
                            return Err(e);
                        },
                    };
                    while self.globals.len() <= idx
                        invariant
                            idx < 65536,
                        decreases idx + 1 - self.globals@.len(),
                    {
                        self.globals.push(Object::Null.rc());
                    }
                    vstd::pervasive::VecAdditionalExecFns::set(&mut self.globals, idx, value);
                    self.advance_ip(3);
                },
                Opcode::GetGlobal => {
                    let idx = match self.read_u16(&closure.function.instructions, ip) {
                        Ok(v) => v,
                        Err(e) => {
                            return Err(e);
                        },
                    };
                    if idx >= self.globals.len() {
                        let mut message: String = "global slot ".to_owned();
                        crate::render::push_usize(&mut message, idx);
                        message.append(" is undefined");
                        return Err(
                            self.runtime_error(
                                ip,
                                RuntimeErrorType::UnknownIdentifier,
                                message.as_str(),
                            ),
                        );
                    }
                    let value = self.globals[idx].clone();
                    self.push_value(value);
                    self.advance_ip(3);
                },
                Opcode::GetLocal => {
                    let idx = match self.byte_at(&closure.function.instructions, ip + 1, ip) {
                        Ok(b) => b as usize,
                        Err(e) => {
                            return Err(e);
                        },
                    };
                    let base = self.frames[self.frames.len() - 1].base_pointer;
                    if idx > usize::MAX - base || base + idx >= self.stack.len() {
                        let mut message: String = "local slot out of bounds: ".to_owned();
                        crate::render::push_usize(&mut message, idx);
                        return Err(
                            self.runtime_error(
                                ip,
                                RuntimeErrorType::UnsupportedOperation,
                                message.as_str(),
                            ),
                        );
                    }
                    let value = self.stack[base + idx].clone();
                    self.push_value(value);
                    self.advance_ip(2);
                },
                Opcode::SetLocal => {
                    let idx = match self.byte_at(&closure.function.instructions, ip + 1, ip) {
                        Ok(b) => b as usize,
                        Err(e) => {
                            return Err(e);
                        },
                    };
                    let value = match self.pop_value(ip) {
                        Ok(v) => v,
                        Err(e) => {
                            return Err(e);
                        },
                    };
                    let base = self.frames[self.frames.len() - 1].base_pointer;
                    if idx > usize::MAX - base || base + idx >= self.stack.len() {
                        let mut message: String = "local slot out of bounds: ".to_owned();
                        crate::render::push_usize(&mut message, idx);
                        return Err(
                            self.runtime_error(
                                ip,
                                RuntimeErrorType::UnsupportedOperation,
                                message.as_str(),
                            ),
                        );
                    }
                    vstd::pervasive::VecAdditionalExecFns::set(&mut self.stack, base + idx, value);
                    self.advance_ip(2);
                },
                Opcode::GetBuiltin => {
                    let idx = match self.byte_at(&closure.function.instructions, ip + 1, ip) {
                        Ok(b) => b as usize,
                        Err(e) => {
                            return Err(e);
                        },
                    };
                    let name = match builtin_name_at(idx) {
                        Some(name) => name,
                        None => {
                            let mut message: String = "unknown builtin index: ".to_owned();
                            crate::render::push_usize(&mut message, idx);
                            return Err(
                                self.runtime_error(
                                    ip,
                                    RuntimeErrorType::UnsupportedOperation,
                                    message.as_str(),
                                ),
                            );
                        },
                    };
                    self.push_value(
                        Object::Builtin(
                            crate::object::BuiltinObject { name: name.to_owned() },
                        ).rc(),
                    );
                    self.advance_ip(2);
                },
                Opcode::GetFree => {
                    let idx = match self.byte_at(&closure.function.instructions, ip + 1, ip) {
                        Ok(b) => b as usize,
                        Err(e) => {
                            return Err(e);
                        },
                    };
                    if idx >= closure.free.len() {
                        let mut message: String = "free variable out of bounds: ".to_owned();
                        crate::render::push_usize(&mut message, idx);
                        return Err(
                            self.runtime_error(
                                ip,
                                RuntimeErrorType::UnsupportedOperation,
                                message.as_str(),
                            ),
                        );
                    }
                    let value = closure.free[idx].clone();
                    self.push_value(value);
                    self.advance_ip(2);
                },
                Opcode::CurrentClosure => {
                    let current = Rc::clone(&closure);
                    self.push_value(Object::Closure(current).rc());
                    self.advance_ip(1);
                },
                Opcode::Closure => {
                    let const_idx = match self.read_u16(&closure.function.instructions, ip) {
                        Ok(v) => v,
                        Err(e) => {
                            return Err(e);
                        },
                    };
                    let free_count = match self.byte_at(&closure.function.instructions, ip + 3, ip)
                        {
                        Ok(b) => b as usize,
                        Err(e) => {
                            return Err(e);
                        },
                    };
                    if const_idx >= self.chunk.constants.len() {
                        let mut message: String = "constant index out of bounds: ".to_owned();
                        crate::render::push_usize(&mut message, const_idx);
                        return Err(
                            self.runtime_error(
                                ip,
                                RuntimeErrorType::UnsupportedOperation,
                                message.as_str(),
                            ),
                        );
                    }
                    let constant = self.chunk.constants[const_idx].clone();
                    let function = match &*constant {
                        Object::CompiledFunction(f) => Rc::clone(f),
                        other => {
                            let mut message: String =
                                "closure constant is not a compiled function: ".to_owned();
                            message.append(other.type_tag());
                            return Err(
                                self.runtime_error(
                                    ip,
                                    RuntimeErrorType::TypeMismatch,
                                    message.as_str(),
                                ),
                            );
                        },
                    };
                    if self.stack.len() < free_count {
                        return Err(
                            self.runtime_error(
                                ip,
                                RuntimeErrorType::UnsupportedOperation,
                                "stack underflow while capturing free variables",
                            ),
                        );
                    }
                    let start = self.stack.len() - free_count;
                    let mut free: Vec<ObjectRef> = Vec::new();
                    let mut fi: usize = 0;
                    while fi < free_count
                        invariant
                            start + free_count <= self.stack@.len(),
                            fi <= free_count,
                        decreases free_count - fi,
                    {
                        free.push(self.stack[start + fi].clone());
                        fi = fi + 1;
                    }
                    self.stack.truncate(start);
                    let new_closure = Rc::new(ClosureObject { function, free });
                    self.push_value(Object::Closure(new_closure).rc());
                    self.advance_ip(4);
                },
                Opcode::Call => {
                    let argc = match self.byte_at(&closure.function.instructions, ip + 1, ip) {
                        Ok(b) => b as usize,
                        Err(e) => {
                            return Err(e);
                        },
                    };
                    self.advance_ip(2);
                    match self.exec_call(argc, ip) {
                        Ok(_) => {},
                        Err(e) => {
                            return Err(e);
                        },
                    }
                },
                Opcode::ReturnValue => {
                    let value = match self.pop_value(ip) {
                        Ok(v) => v,
                        Err(e) => {
                            return Err(e);
                        },
                    };
                    match self.return_from_frame(value) {
                        Ok(Some(final_value)) => {
                            return Ok(final_value);
                        },
                        Ok(None) => {},
                        Err(e) => {
                            return Err(e);
                        },
                    }
                },
                Opcode::Return => {
                    match self.return_from_frame(Object::Null.rc()) {
                        Ok(Some(final_value)) => {
                            return Ok(final_value);
                        },
                        Ok(None) => {},
                        Err(e) => {
                            return Err(e);
                        },
                    }
                },
                Opcode::Array => {
                    let count = match self.read_u16(&closure.function.instructions, ip) {
                        Ok(v) => v,
                        Err(e) => {
                            return Err(e);
                        },
                    };
                    if self.stack.len() < count {
                        return Err(
                            self.runtime_error(
                                ip,
                                RuntimeErrorType::UnsupportedOperation,
                                "stack underflow while building array",
                            ),
                        );
                    }
                    let start = self.stack.len() - count;
                    let mut items: Vec<ObjectRef> = Vec::new();
                    let mut ii: usize = 0;
                    while ii < count
                        invariant
                            start + count <= self.stack@.len(),
                            ii <= count,
                            items@.len() == ii,
                        decreases count - ii,
                    {
                        items.push(self.stack[start + ii].clone());
                        ii = ii + 1;
                    }
                    self.stack.truncate(start);
                    self.push_value(Object::Array(items).rc());
                    self.advance_ip(3);
                },
                Opcode::Hash => {
                    let pair_count = match self.read_u16(&closure.function.instructions, ip) {
                        Ok(v) => v,
                        Err(e) => {
                            return Err(e);
                        },
                    };
                    if pair_count > usize::MAX / 2 {
                        return Err(
                            self.runtime_error(
                                ip,
                                RuntimeErrorType::UnsupportedOperation,
                                "stack underflow while building hash",
                            ),
                        );
                    }
                    let value_count = pair_count * 2;
                    if self.stack.len() < value_count {
                        return Err(
                            self.runtime_error(
                                ip,
                                RuntimeErrorType::UnsupportedOperation,
                                "stack underflow while building hash",
                            ),
                        );
                    }
                    let start = self.stack.len() - value_count;
                    let ghost stack_now = self.stack@;
                    let mut pairs: Vec<(ObjectRef, ObjectRef)> = Vec::new();
                    let mut hi: usize = 0;
                    while hi < pair_count
                        invariant
                            self.stack@ == stack_now,
                            start + 2 * pair_count <= self.stack@.len(),
                            hi <= pair_count,
                            pairs@.len() == hi,
                        decreases pair_count - hi,
                    {
                        let key = self.stack[start + 2 * hi].clone();
                        let value = self.stack[start + 2 * hi + 1].clone();
                        match (&*key).hash_key() {
                            Some(_) => {},
                            None => {
                                let mut message: String = "unusable as hash key: ".to_owned();
                                message.append((&*key).type_tag());
                                return Err(
                                    self.runtime_error(
                                        ip,
                                        RuntimeErrorType::Unhashable,
                                        message.as_str(),
                                    ),
                                );
                            },
                        }
                        pairs.push((key, value));
                        hi = hi + 1;
                    }
                    self.stack.truncate(start);
                    self.push_value(Object::Hash(pairs).rc());
                    self.advance_ip(3);
                },
                Opcode::Index => {
                    let index = match self.pop_value(ip) {
                        Ok(v) => v,
                        Err(e) => {
                            return Err(e);
                        },
                    };
                    let left = match self.pop_value(ip) {
                        Ok(v) => v,
                        Err(e) => {
                            return Err(e);
                        },
                    };
                    match index_result(&left, &index) {
                        Ok(result) => {
                            self.push_value(result);
                        },
                        Err((error_type, message)) => {
                            return Err(self.runtime_error(ip, error_type, message.as_str()));
                        },
                    }
                    self.advance_ip(1);
                },
                Opcode::InvalidBreak => {
                    return Err(
                        self.runtime_error(
                            ip,
                            RuntimeErrorType::InvalidControlFlow,
                            "break used outside of loop",
                        ),
                    );
                },
                Opcode::InvalidContinue => {
                    return Err(
                        self.runtime_error(
                            ip,
                            RuntimeErrorType::InvalidControlFlow,
                            "continue used outside of loop",
                        ),
                    );
                },
                Opcode::Nop => {
                    return Err(
                        self.runtime_error(
                            ip,
                            RuntimeErrorType::UnsupportedOperation,
                            "opcode not implemented: Nop",
                        ),
                    );
                },
            }
        }
    }

    /// Read a big-endian two-byte operand after the opcode at `ip`.
    fn read_u16(&self, instrs: &Vec<u8>, ip: usize) -> (r: Result<usize, RuntimeError>)
        ensures
            r is Ok <==> (ip + 2 <= usize::MAX && ip + 2 < instrs@.len()),
            r matches Ok(v) ==> v < 65536 && v == 256 * (instrs@[ip + 1] as int) + (instrs@[ip
                + 2] as int),
    {
        if ip > usize::MAX - 2 {
            let mut message: String = "truncated instruction at offset ".to_owned();
            crate::render::push_usize(&mut message, ip);
            return Err(
                self.runtime_error(ip, RuntimeErrorType::UnsupportedOperation, message.as_str()),
            );
        }
        let hi = match self.byte_at(instrs, ip + 1, ip) {
            Ok(b) => b,
            Err(e) => {
                return Err(e);
            },
        };
        let lo = match self.byte_at(instrs, ip + 2, ip) {
            Ok(b) => b,
            Err(e) => {
                return Err(e);
            },
        };
        Ok((hi as usize) * 256 + (lo as usize))
    }

    /// Reject a jump target beyond the instruction stream.
    fn ensure_jump_target(&self, ip: usize, target: usize, len: usize) -> (r: Result<
        (),
        RuntimeError,
    >)
    {
        if target > len {
            let mut message: String = "jump target out of bounds: ".to_owned();
            crate::render::push_usize(&mut message, target);
            Err(self.runtime_error(ip, RuntimeErrorType::UnsupportedOperation, message.as_str()))
        } else {
            Ok(())
        }
    }
}

} // verus!
