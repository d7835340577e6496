//! The instruction set: opcode enumeration, operand-width definitions,
//! instruction encoding and decoding, disassembly, and the `Chunk`
//! compilation unit (instructions, constant pool, position map).

use crate::object::ObjectRef;
use crate::position::{position_str, Position};
use crate::render::{dec_seq, push_usize};
use vstd::prelude::*;
use vstd::string::StringExecFns;

verus! {

pub type Instructions = Vec<u8>;

/// Opcodes of the virtual machine, numbered consecutively from zero in
/// declaration order.
#[derive(Debug, Clone, Copy, PartialEq, Eq, Hash, Structural)]
pub enum Opcode {
    Constant,
    True,
    False,
    Null,
    Pop,
    Add,
    Sub,
    Mul,
    Div,
    Neg,
    Bang,
    Eq,
    Ne,
    Lt,
    Gt,
    Le,
    Ge,
    Jump,
    JumpIfFalse,
    GetGlobal,
    SetGlobal,
    GetLocal,
    SetLocal,
    GetBuiltin,
    GetFree,
    Closure,
    CurrentClosure,
    Call,
    ReturnValue,
    Return,
    Array,
    Hash,
    Index,
    InvalidBreak,
    InvalidContinue,
    Nop,
}

/// The byte value of an opcode.
pub open spec fn opcode_byte(op: Opcode) -> u8 {
    match op {
        Opcode::Constant => 0,
        Opcode::True => 1,
        Opcode::False => 2,
        Opcode::Null => 3,
        Opcode::Pop => 4,
        Opcode::Add => 5,
        Opcode::Sub => 6,
        Opcode::Mul => 7,
        Opcode::Div => 8,
        Opcode::Neg => 9,
        Opcode::Bang => 10,
        Opcode::Eq => 11,
        Opcode::Ne => 12,
        Opcode::Lt => 13,
        Opcode::Gt => 14,
        Opcode::Le => 15,
        Opcode::Ge => 16,
        Opcode::Jump => 17,
        Opcode::JumpIfFalse => 18,
        Opcode::GetGlobal => 19,
        Opcode::SetGlobal => 20,
        Opcode::GetLocal => 21,
        Opcode::SetLocal => 22,
        Opcode::GetBuiltin => 23,
        Opcode::GetFree => 24,
        Opcode::Closure => 25,
        Opcode::CurrentClosure => 26,
        Opcode::Call => 27,
        Opcode::ReturnValue => 28,
        Opcode::Return => 29,
        Opcode::Array => 30,
        Opcode::Hash => 31,
        Opcode::Index => 32,
        Opcode::InvalidBreak => 33,
        Opcode::InvalidContinue => 34,
        Opcode::Nop => 35,
    }
}

/// The opcode for a byte value, or `None` for bytes that encode no opcode.
pub open spec fn opcode_from_byte(byte: u8) -> Option<Opcode> {
    if byte == 0 {
        Some(Opcode::Constant)
    } else if byte == 1 {
        Some(Opcode::True)
    } else if byte == 2 {
        Some(Opcode::False)
    } else if byte == 3 {
        Some(Opcode::Null)
    } else if byte == 4 {
        Some(Opcode::Pop)
    } else if byte == 5 {
        Some(Opcode::Add)
    } else if byte == 6 {
        Some(Opcode::Sub)
    } else if byte == 7 {
        Some(Opcode::Mul)
    } else if byte == 8 {
        Some(Opcode::Div)
    } else if byte == 9 {
        Some(Opcode::Neg)
    } else if byte == 10 {
        Some(Opcode::Bang)
    } else if byte == 11 {
        Some(Opcode::Eq)
    } else if byte == 12 {
        Some(Opcode::Ne)
    } else if byte == 13 {
        Some(Opcode::Lt)
    } else if byte == 14 {
        Some(Opcode::Gt)
    } else if byte == 15 {
        Some(Opcode::Le)
    } else if byte == 16 {
        Some(Opcode::Ge)
    } else if byte == 17 {
        Some(Opcode::Jump)
    } else if byte == 18 {
        Some(Opcode::JumpIfFalse)
    } else if byte == 19 {
        Some(Opcode::GetGlobal)
    } else if byte == 20 {
        Some(Opcode::SetGlobal)
    } else if byte == 21 {
        Some(Opcode::GetLocal)
    } else if byte == 22 {
        Some(Opcode::SetLocal)
    } else if byte == 23 {
        Some(Opcode::GetBuiltin)
    } else if byte == 24 {
        Some(Opcode::GetFree)
    } else if byte == 25 {
        Some(Opcode::Closure)
    } else if byte == 26 {
        Some(Opcode::CurrentClosure)
    } else if byte == 27 {
        Some(Opcode::Call)
    } else if byte == 28 {
        Some(Opcode::ReturnValue)
    } else if byte == 29 {
        Some(Opcode::Return)
    } else if byte == 30 {
        Some(Opcode::Array)
    } else if byte == 31 {
        Some(Opcode::Hash)
    } else if byte == 32 {
        Some(Opcode::Index)
    } else if byte == 33 {
        Some(Opcode::InvalidBreak)
    } else if byte == 34 {
        Some(Opcode::InvalidContinue)
    } else if byte == 35 {
        Some(Opcode::Nop)
    } else {
        None
    }
}

impl Opcode {
    /// Every opcode, in byte order.
    pub fn all() -> (r: Vec<Opcode>)
        ensures
            r@.len() == 36,
            forall|i: int| 0 <= i < 36 ==> opcode_byte(#[trigger] r@[i]) == i as u8,
    {
        let ops: Vec<Opcode> = vec![
            Opcode::Constant,
            Opcode::True,
            Opcode::False,
            Opcode::Null,
            Opcode::Pop,
            Opcode::Add,
            Opcode::Sub,
            Opcode::Mul,
            Opcode::Div,
            Opcode::Neg,
            Opcode::Bang,
            Opcode::Eq,
            Opcode::Ne,
            Opcode::Lt,
            Opcode::Gt,
            Opcode::Le,
            Opcode::Ge,
            Opcode::Jump,
            Opcode::JumpIfFalse,
            Opcode::GetGlobal,
            Opcode::SetGlobal,
            Opcode::GetLocal,
            Opcode::SetLocal,
            Opcode::GetBuiltin,
            Opcode::GetFree,
            Opcode::Closure,
            Opcode::CurrentClosure,
            Opcode::Call,
            Opcode::ReturnValue,
            Opcode::Return,
            Opcode::Array,
            Opcode::Hash,
            Opcode::Index,
            Opcode::InvalidBreak,
            Opcode::InvalidContinue,
            Opcode::Nop,
        ];
        ops
    }

    /// The byte encoding of this opcode.
    pub fn to_byte(self) -> (b: u8)
        ensures
            b == opcode_byte(self),
    {
        match self {
            Opcode::Constant => 0,
            Opcode::True => 1,
            Opcode::False => 2,
            Opcode::Null => 3,
            Opcode::Pop => 4,
            Opcode::Add => 5,
            Opcode::Sub => 6,
            Opcode::Mul => 7,
            Opcode::Div => 8,
            Opcode::Neg => 9,
            Opcode::Bang => 10,
            Opcode::Eq => 11,
            Opcode::Ne => 12,
            Opcode::Lt => 13,
            Opcode::Gt => 14,
            Opcode::Le => 15,
            Opcode::Ge => 16,
            Opcode::Jump => 17,
            Opcode::JumpIfFalse => 18,
            Opcode::GetGlobal => 19,
            Opcode::SetGlobal => 20,
            Opcode::GetLocal => 21,
            Opcode::SetLocal => 22,
            Opcode::GetBuiltin => 23,
            Opcode::GetFree => 24,
            Opcode::Closure => 25,
            Opcode::CurrentClosure => 26,
            Opcode::Call => 27,
            Opcode::ReturnValue => 28,
            Opcode::Return => 29,
            Opcode::Array => 30,
            Opcode::Hash => 31,
            Opcode::Index => 32,
            Opcode::InvalidBreak => 33,
            Opcode::InvalidContinue => 34,
            Opcode::Nop => 35,
        }
    }

    /// Decode a byte into an opcode, or `None` for unknown bytes.
    pub fn from_byte(byte: u8) -> (r: Option<Opcode>)
        ensures
            r == opcode_from_byte(byte),
    {
        if byte <= 35 {
            let all = Opcode::all();
            let op = all[byte as usize];
            proof {
                assert(opcode_byte(all@[byte as int]) == byte);
                lemma_opcode_byte_injective();
            }
            Some(op)
        } else {
            None
        }
    }
}

/// Distinct opcodes have distinct bytes, every opcode's byte decodes back to
/// it, and every byte above the last opcode decodes to nothing.
pub proof fn lemma_opcode_byte_injective()
    ensures
        forall|op: Opcode| opcode_from_byte(opcode_byte(op)) == Some(op),
        forall|b: u8| b > 35 ==> opcode_from_byte(b) is None,
        forall|a: Opcode, b: Opcode| opcode_byte(a) == opcode_byte(b) ==> a == b,
{
}

/// The display name of an opcode.
pub open spec fn op_name(op: Opcode) -> Seq<char> {
    match op {
        Opcode::Constant => "Constant"@,
        Opcode::True => "True"@,
        Opcode::False => "False"@,
        Opcode::Null => "Null"@,
        Opcode::Pop => "Pop"@,
        Opcode::Add => "Add"@,
        Opcode::Sub => "Sub"@,
        Opcode::Mul => "Mul"@,
        Opcode::Div => "Div"@,
        Opcode::Neg => "Neg"@,
        Opcode::Bang => "Bang"@,
        Opcode::Eq => "Eq"@,
        Opcode::Ne => "Ne"@,
        Opcode::Lt => "Lt"@,
        Opcode::Gt => "Gt"@,
        Opcode::Le => "Le"@,
        Opcode::Ge => "Ge"@,
        Opcode::Jump => "Jump"@,
        Opcode::JumpIfFalse => "JumpIfFalse"@,
        Opcode::GetGlobal => "GetGlobal"@,
        Opcode::SetGlobal => "SetGlobal"@,
        Opcode::GetLocal => "GetLocal"@,
        Opcode::SetLocal => "SetLocal"@,
        Opcode::GetBuiltin => "GetBuiltin"@,
        Opcode::GetFree => "GetFree"@,
        Opcode::Closure => "Closure"@,
        Opcode::CurrentClosure => "CurrentClosure"@,
        Opcode::Call => "Call"@,
        Opcode::ReturnValue => "ReturnValue"@,
        Opcode::Return => "Return"@,
        Opcode::Array => "Array"@,
        Opcode::Hash => "Hash"@,
        Opcode::Index => "Index"@,
        Opcode::InvalidBreak => "InvalidBreak"@,
        Opcode::InvalidContinue => "InvalidContinue"@,
        Opcode::Nop => "Nop"@,
    }
}

/// The operand widths of an opcode, in operand order.
pub open spec fn op_widths(op: Opcode) -> Seq<usize> {
    match op {
        Opcode::Constant => seq![2usize],
        Opcode::Jump => seq![2usize],
        Opcode::JumpIfFalse => seq![2usize],
        Opcode::GetGlobal => seq![2usize],
        Opcode::SetGlobal => seq![2usize],
        Opcode::GetLocal => seq![1usize],
        Opcode::SetLocal => seq![1usize],
        Opcode::GetBuiltin => seq![1usize],
        Opcode::GetFree => seq![1usize],
        Opcode::Closure => seq![2usize, 1usize],
        Opcode::Call => seq![1usize],
        Opcode::Array => seq![2usize],
        Opcode::Hash => seq![2usize],
        _ => Seq::<usize>::empty(),
    }
}

/// Every declared operand width is one or two bytes.
pub proof fn lemma_op_widths_small(op: Opcode)
    ensures
        forall|i: int|
            0 <= i < op_widths(op).len() ==> (#[trigger] op_widths(op)[i] == 1 || op_widths(
                op,
            )[i] == 2),
{
}

/// An opcode's display name and operand widths.
#[derive(Debug, Clone, PartialEq, Eq)]
pub struct Definition {
    pub name: &'static str,
    pub operand_widths: Vec<usize>,
}

/// Look up the definition (name and operand widths) of an opcode.
pub fn lookup_definition(op: Opcode) -> (d: Definition)
    ensures
        d.name@ == op_name(op),
        d.operand_widths@ == op_widths(op),
{
    let name: &'static str = match op {
        Opcode::Constant => "Constant",
        Opcode::True => "True",
        Opcode::False => "False",
        Opcode::Null => "Null",
        Opcode::Pop => "Pop",
        Opcode::Add => "Add",
        Opcode::Sub => "Sub",
        Opcode::Mul => "Mul",
        Opcode::Div => "Div",
        Opcode::Neg => "Neg",
        Opcode::Bang => "Bang",
        Opcode::Eq => "Eq",
        Opcode::Ne => "Ne",
        Opcode::Lt => "Lt",
        Opcode::Gt => "Gt",
        Opcode::Le => "Le",
        Opcode::Ge => "Ge",
        Opcode::Jump => "Jump",
        Opcode::JumpIfFalse => "JumpIfFalse",
        Opcode::GetGlobal => "GetGlobal",
        Opcode::SetGlobal => "SetGlobal",
        Opcode::GetLocal => "GetLocal",
        Opcode::SetLocal => "SetLocal",
        Opcode::GetBuiltin => "GetBuiltin",
        Opcode::GetFree => "GetFree",
        Opcode::Closure => "Closure",
        Opcode::CurrentClosure => "CurrentClosure",
        Opcode::Call => "Call",
        Opcode::ReturnValue => "ReturnValue",
        Opcode::Return => "Return",
        Opcode::Array => "Array",
        Opcode::Hash => "Hash",
        Opcode::Index => "Index",
        Opcode::InvalidBreak => "InvalidBreak",
        Opcode::InvalidContinue => "InvalidContinue",
        Opcode::Nop => "Nop",
    };
    let operand_widths: Vec<usize> = match op {
        Opcode::Constant => vec![2],
        Opcode::Jump => vec![2],
        Opcode::JumpIfFalse => vec![2],
        Opcode::GetGlobal => vec![2],
        Opcode::SetGlobal => vec![2],
        Opcode::GetLocal => vec![1],
        Opcode::SetLocal => vec![1],
        Opcode::GetBuiltin => vec![1],
        Opcode::GetFree => vec![1],
        Opcode::Closure => vec![2, 1],
        Opcode::Call => vec![1],
        Opcode::Array => vec![2],
        Opcode::Hash => vec![2],
        _ => Vec::new(),
    };
    proof {
        assert(operand_widths@ =~= op_widths(op));
    }
    Definition { name, operand_widths }
}

/// Deterministic encoding and decoding failures.
#[derive(Debug, Clone, PartialEq, Eq)]
pub enum BytecodeError {
    UnknownOpcodeByte(u8),
    WrongOperandCount { opcode: Opcode, expected: usize, got: usize },
    OperandOutOfRange { opcode: Opcode, index: usize, width: usize, value: usize },
    TruncatedInstruction { opcode: Opcode, needed: usize, available: usize },
}

/// Whether an operand value fits in an operand slot of the given width.
pub open spec fn operand_fits(value: usize, width: usize) -> bool {
    (width == 1 && value <= 255) || (width == 2 && value <= 65535)
}

/// Big-endian encoding of one operand value in the given width.
pub open spec fn encode_one(value: usize, width: usize) -> Seq<u8> {
    if width == 1 {
        seq![value as u8]
    } else {
        seq![(value / 256) as u8, (value % 256) as u8]
    }
}

/// Encode the operand values from index `i` on, or report the first operand
/// out of range for its declared width.
pub open spec fn encode_ops(
    op: Opcode,
    operands: Seq<usize>,
    widths: Seq<usize>,
    i: int,
) -> Result<Seq<u8>, BytecodeError>
    decreases widths.len() - i,
{
    if i < 0 || i >= widths.len() {
        Ok(Seq::<u8>::empty())
    } else if !operand_fits(operands[i], widths[i]) {
        Err(
            BytecodeError::OperandOutOfRange {
                opcode: op,
                index: i as usize,
                width: widths[i],
                value: operands[i],
            },
        )
    } else {
        match encode_ops(op, operands, widths, i + 1) {
            Ok(rest) => Ok(encode_one(operands[i], widths[i]) + rest),
            Err(e) => Err(e),
        }
    }
}

/// The encoding contract of `make`: the opcode byte followed by each operand
/// in its declared width, or the deterministic error.
pub open spec fn make_spec(op: Opcode, operands: Seq<usize>) -> Result<Seq<u8>, BytecodeError> {
    if operands.len() != op_widths(op).len() {
        Err(
            BytecodeError::WrongOperandCount {
                opcode: op,
                expected: op_widths(op).len() as usize,
                got: operands.len() as usize,
            },
        )
    } else {
        match encode_ops(op, operands, op_widths(op), 0) {
            Ok(body) => Ok(seq![opcode_byte(op)] + body),
            Err(e) => Err(e),
        }
    }
}

/// Encode the operands from index `i` on, mirroring `encode_ops`.
fn encode_from(op: Opcode, operands: &[usize], widths: &Vec<usize>, i: usize) -> (r: Result<
    Vec<u8>,
    BytecodeError,
>)
    requires
        i <= widths@.len(),
        operands@.len() == widths@.len(),
    ensures
        r is Ok <==> encode_ops(op, operands@, widths@, i as int) is Ok,
        r is Ok ==> r->Ok_0@ == encode_ops(op, operands@, widths@, i as int)->Ok_0,
        r is Err ==> r->Err_0 == encode_ops(op, operands@, widths@, i as int)->Err_0,
    decreases widths@.len() - i,
{
    if i >= widths.len() {
        Ok(Vec::new())
    } else {
        let width = widths[i];
        let value = operands[i];
        if width == 1 && value <= 255 {
            match encode_from(op, operands, widths, i + 1) {
                Ok(rest) => {
                    let mut out: Vec<u8> = Vec::new();
                    out.push(value as u8);
                    let mut rest = rest;
                    out.append(&mut rest);
                    Ok(out)
                },
                Err(e) => Err(e),
            }
        } else if width == 2 && value <= 65535 {
            match encode_from(op, operands, widths, i + 1) {
                Ok(rest) => {
                    let mut out: Vec<u8> = Vec::new();
                    out.push((value / 256) as u8);
                    out.push((value % 256) as u8);
                    let mut rest = rest;
                    out.append(&mut rest);
                    Ok(out)
                },
                Err(e) => Err(e),
            }
        } else {
            Err(BytecodeError::OperandOutOfRange { opcode: op, index: i, width, value })
        }
    }
}

/// Encode an instruction: the opcode byte, then each operand big-endian in
/// its declared width. Width-1 operands must fit in a byte and width-2
/// operands in two bytes; violations are deterministic errors.
pub fn make(op: Opcode, operands: &[usize]) -> (r: Result<Vec<u8>, BytecodeError>)
    ensures
        r is Ok <==> make_spec(op, operands@) is Ok,
        r is Ok ==> r->Ok_0@ == make_spec(op, operands@)->Ok_0,
        r is Err ==> r->Err_0 == make_spec(op, operands@)->Err_0,
{
    let def = lookup_definition(op);
    if operands.len() != def.operand_widths.len() {
        return Err(
            BytecodeError::WrongOperandCount {
                opcode: op,
                expected: def.operand_widths.len(),
                got: operands.len(),
            },
        );
    }
    match encode_from(op, operands, &def.operand_widths, 0) {
        Ok(body) => {
            let mut out: Vec<u8> = Vec::new();
            out.push(op.to_byte());
            let mut body = body;
            out.append(&mut body);
            Ok(out)
        },
        Err(e) => Err(e),
    }
}

/// Decode the operands declared from width index `wi` on, reading bytes at
/// `offset`; `Ok` carries the operand values and the count of bytes
/// consumed, `Err` the byte count that would have been needed.
pub open spec fn read_ops(
    widths: Seq<usize>,
    wi: int,
    bytes: Seq<u8>,
    offset: int,
) -> Result<(Seq<usize>, int), int>
    decreases widths.len() - wi,
{
    if wi < 0 || wi >= widths.len() {
        Ok((Seq::<usize>::empty(), 0))
    } else {
        let w = widths[wi];
        if offset + w > bytes.len() || !(w == 1 || w == 2) {
            Err(offset + w)
        } else {
            let v: usize = if w == 1 {
                bytes[offset] as usize
            } else {
                ((bytes[offset] as usize) * 256 + (bytes[offset + 1] as usize)) as usize
            };
            match read_ops(widths, wi + 1, bytes, offset + w) {
                Ok((rest, consumed)) => Ok((seq![v] + rest, w + consumed)),
                Err(needed) => Err(needed),
            }
        }
    }
}

/// Decode the operand values declared by `def` from the front of `bytes`,
/// returning the values and the total bytes consumed, or reporting
/// truncation.
pub fn read_operands(def: &Definition, bytes: &[u8]) -> (r: Result<
    (Vec<usize>, usize),
    BytecodeError,
>)
    requires
        bytes@.len() + 2 < usize::MAX,
        forall|i: int|
            0 <= i < def.operand_widths@.len() ==> (#[trigger] def.operand_widths@[i] == 1
                || def.operand_widths@[i] == 2),
    ensures
        match r {
            Ok((operands, consumed)) => read_ops(def.operand_widths@, 0, bytes@, 0) == Ok::<
                _,
                int,
            >((operands@, consumed as int)),
            Err(e) => {
                &&& read_ops(def.operand_widths@, 0, bytes@, 0) is Err
                &&& e == (BytecodeError::TruncatedInstruction {
                    opcode: Opcode::Nop,
                    needed: read_ops(def.operand_widths@, 0, bytes@, 0)->Err_0 as usize,
                    available: bytes@.len() as usize,
                })
            },
        },
{
    let mut operands: Vec<usize> = Vec::new();
    let mut offset: usize = 0;
    let widths = &def.operand_widths;
    let mut wi: usize = 0;
    loop
        invariant
            widths@ == def.operand_widths@,
            wi <= widths@.len(),
            offset <= bytes@.len(),
            bytes@.len() + 2 < usize::MAX,
            forall|i: int|
                0 <= i < widths@.len() ==> (#[trigger] widths@[i] == 1 || widths@[i] == 2),
            read_ops(widths@, 0, bytes@, 0) matches Ok((vs, c)) ==> {
                &&& read_ops(widths@, wi as int, bytes@, offset as int) is Ok
                &&& vs == operands@ + read_ops(widths@, wi as int, bytes@, offset as int)->Ok_0.0
                &&& c == offset + read_ops(widths@, wi as int, bytes@, offset as int)->Ok_0.1
            },
            read_ops(widths@, 0, bytes@, 0) is Err ==> {
                &&& read_ops(widths@, wi as int, bytes@, offset as int) is Err
                &&& read_ops(widths@, wi as int, bytes@, offset as int) == read_ops(
                    widths@,
                    0,
                    bytes@,
                    0,
                )
            },
        decreases widths@.len() - wi,
    {
        if wi >= widths.len() {
            proof {
                assert(read_ops(widths@, wi as int, bytes@, offset as int) == Ok::<_, int>((
                    Seq::<usize>::empty(),
                    0int,
                )));
                assert(operands@ + Seq::<usize>::empty() =~= operands@);
            }
            return Ok((operands, offset));
        }
        let w = widths[wi];
        if (w == 1 && offset + 1 <= bytes.len()) || (w == 2 && offset + 2 <= bytes.len()) {
            let v: usize = if w == 1 {
                bytes[offset] as usize
            } else {
                (bytes[offset] as usize) * 256 + (bytes[offset + 1] as usize)
            };
            proof {
                let local = read_ops(widths@, wi as int, bytes@, offset as int);
                let next = read_ops(widths@, wi as int + 1, bytes@, offset as int + w);
                assert(local == (match next {
                    Ok((rest, c)) => Ok::<_, int>((seq![v] + rest, w + c)),
                    Err(n) => Err::<(Seq<usize>, int), _>(n),
                }));
                if next is Ok {
                    assert((operands@ + seq![v]) + next->Ok_0.0 =~= operands@ + (seq![v]
                        + next->Ok_0.0));
                }
                assert(operands@.push(v) =~= operands@ + seq![v]);
            }
            operands.push(v);
            offset = offset + w;
            wi = wi + 1;
        } else {
            proof {
                assert(read_ops(widths@, wi as int, bytes@, offset as int) == Err::<
                    (Seq<usize>, int),
                    _,
                >(offset + w));
                assert(read_ops(widths@, 0, bytes@, 0) is Err);
            }
            return Err(
                BytecodeError::TruncatedInstruction {
                    opcode: Opcode::Nop,
                    needed: offset + w,
                    available: bytes.len(),
                },
            );
        }
    }
}

/// The total number of operand bytes declared from width index `i` on.
pub open spec fn widths_total(widths: Seq<usize>, i: int) -> int
    decreases widths.len() - i,
{
    if i < 0 || i >= widths.len() {
        0
    } else {
        widths[i] + widths_total(widths, i + 1)
    }
}

/// A successful operand encoding takes exactly the declared total width.
proof fn lemma_encode_len(op: Opcode, operands: Seq<usize>, widths: Seq<usize>, i: int)
    requires
        encode_ops(op, operands, widths, i) is Ok,
    ensures
        encode_ops(op, operands, widths, i)->Ok_0.len() == widths_total(widths, i),
    decreases widths.len() - i,
{
    if 0 <= i < widths.len() {
        lemma_encode_len(op, operands, widths, i + 1);
    }
}

/// Reading back operands from their own encoding yields the original values
/// and consumes exactly the encoded bytes.
proof fn lemma_read_ops_encoded(
    op: Opcode,
    operands: Seq<usize>,
    widths: Seq<usize>,
    i: int,
    bytes: Seq<u8>,
    offset: int,
)
    requires
        0 <= i <= widths.len(),
        operands.len() == widths.len(),
        0 <= offset,
        encode_ops(op, operands, widths, i) is Ok,
        offset + encode_ops(op, operands, widths, i)->Ok_0.len() <= bytes.len(),
        bytes.subrange(offset, offset + encode_ops(op, operands, widths, i)->Ok_0.len())
            == encode_ops(op, operands, widths, i)->Ok_0,
    ensures
        read_ops(widths, i, bytes, offset) == Ok::<_, int>(
            (
                operands.subrange(i, operands.len() as int),
                encode_ops(op, operands, widths, i)->Ok_0.len() as int,
            ),
        ),
    decreases widths.len() - i,
{
    let enc = encode_ops(op, operands, widths, i)->Ok_0;
    if i == widths.len() {
        assert(operands.subrange(i, operands.len() as int) =~= Seq::<usize>::empty());
        assert(enc.len() == 0);
    } else {
        let w = widths[i];
        let v = operands[i];
        let head = encode_one(v, w);
        let rest = encode_ops(op, operands, widths, i + 1)->Ok_0;
        assert(enc =~= head + rest);
        assert(head.len() == w);
        assert(bytes[offset] == enc[0]);
        if w == 1 {
            assert(enc[0] == v as u8);
            assert((v as u8) as usize == v);
        } else {
            assert(enc[0] == (v / 256) as u8);
            assert(enc[1] == (v % 256) as u8);
            assert(bytes[offset + 1] == enc[1]);
            assert(v / 256 <= 255);
            assert(((v / 256) as u8) as usize * 256 + ((v % 256) as u8) as usize == v);
        }
        assert forall|k: int| 0 <= k < rest.len() implies bytes.subrange(
            offset + w,
            offset + enc.len() as int,
        )[k] == #[trigger] rest[k] by {
            assert(enc[w + k] == bytes.subrange(offset, offset + enc.len() as int)[w + k]);
            assert(bytes.subrange(offset + w, offset + enc.len() as int)[k] == bytes[offset + w
                + k]);
        }
        assert(bytes.subrange(offset + w, offset + enc.len() as int) =~= rest);
        lemma_read_ops_encoded(op, operands, widths, i + 1, bytes, offset + w);
        assert(seq![v] + operands.subrange(i + 1, operands.len() as int) =~= operands.subrange(
            i,
            operands.len() as int,
        ));
        lemma_encode_len(op, operands, widths, i + 1);
    }
}

/// Encoding an instruction and then decoding the operand bytes after the
/// opcode byte yields the original operand values and consumes the declared
/// total operand width.
pub proof fn lemma_operand_round_trip(op: Opcode, operands: Seq<usize>)
    requires
        make_spec(op, operands) is Ok,
    ensures
        make_spec(op, operands)->Ok_0[0] == opcode_byte(op),
        read_ops(
            op_widths(op),
            0,
            make_spec(op, operands)->Ok_0.subrange(
                1,
                make_spec(op, operands)->Ok_0.len() as int,
            ),
            0,
        ) == Ok::<_, int>((operands, widths_total(op_widths(op), 0))),
{
    let widths = op_widths(op);
    let enc = encode_ops(op, operands, widths, 0)->Ok_0;
    let bytes = make_spec(op, operands)->Ok_0;
    assert(bytes =~= seq![opcode_byte(op)] + enc);
    let body = bytes.subrange(1, bytes.len() as int);
    assert(body =~= enc);
    assert(body.subrange(0, enc.len() as int) =~= enc);
    lemma_read_ops_encoded(op, operands, widths, 0, body, 0);
    assert(operands.subrange(0, operands.len() as int) =~= operands);
    lemma_encode_len(op, operands, widths, 0);
}

/// The rendered message of an encoding or decoding error.
pub open spec fn bytecode_error_str(e: BytecodeError) -> Seq<char> {
    match e {
        BytecodeError::UnknownOpcodeByte(byte) => "unknown opcode byte "@ + dec_seq(byte as nat),
        BytecodeError::WrongOperandCount { opcode, expected, got } => "wrong operand count for "@
            + op_name(opcode) + ": expected "@ + dec_seq(expected as nat) + ", got "@ + dec_seq(
            got as nat,
        ),
        BytecodeError::OperandOutOfRange { opcode, index, width, value } => {
            "operand out of range for "@ + op_name(opcode) + " operand #"@ + dec_seq(index as nat)
                + " (width "@ + dec_seq(width as nat) + "): "@ + dec_seq(value as nat)
        },
        BytecodeError::TruncatedInstruction { opcode, needed, available } => {
            "truncated instruction for "@ + op_name(opcode) + ": needed "@ + dec_seq(needed as nat)
                + ", available "@ + dec_seq(available as nat)
        },
    }
}

impl BytecodeError {
    /// Render the error message.
    pub fn to_string(&self) -> (s: String)
        ensures
            s@ == bytecode_error_str(*self),
    {
        let mut out = String::new();
        match self {
            BytecodeError::UnknownOpcodeByte(byte) => {
                out.append("unknown opcode byte ");
                push_usize(&mut out, *byte as usize);
            },
            BytecodeError::WrongOperandCount { opcode, expected, got } => {
                out.append("wrong operand count for ");
                out.append(lookup_definition(*opcode).name);
                out.append(": expected ");
                push_usize(&mut out, *expected);
                out.append(", got ");
                push_usize(&mut out, *got);
            },
            BytecodeError::OperandOutOfRange { opcode, index, width, value } => {
                out.append("operand out of range for ");
                out.append(lookup_definition(*opcode).name);
                out.append(" operand #");
                push_usize(&mut out, *index);
                out.append(" (width ");
                push_usize(&mut out, *width);
                out.append("): ");
                push_usize(&mut out, *value);
            },
            BytecodeError::TruncatedInstruction { opcode, needed, available } => {
                out.append("truncated instruction for ");
                out.append(lookup_definition(*opcode).name);
                out.append(": needed ");
                push_usize(&mut out, *needed);
                out.append(", available ");
                push_usize(&mut out, *available);
            },
        }
        out
    }
}

/// The position recorded for the longest prefix of entries whose offsets are
/// all at most `offset`: the last entry of that prefix, or `None` when it is
/// empty.
pub open spec fn pos_lookup(entries: Seq<(usize, Position)>, offset: int) -> Option<Position>
    decreases entries.len(),
{
    if entries.len() == 0 {
        None
    } else if entries[0].0 > offset {
        None
    } else {
        match pos_lookup(entries.drop_first(), offset) {
            Some(p) => Some(p),
            None => Some(entries[0].1),
        }
    }
}

/// The recorded position for `offset` in a position map, or the default
/// start-of-input position when none is recorded at or before it.
pub open spec fn pos_or_default(entries: Seq<(usize, Position)>, offset: int) -> Position {
    match pos_lookup(entries, offset) {
        Some(p) => p,
        None => Position { line: 1, col: 1 },
    }
}

/// Whether position entries are sorted by offset.
pub open spec fn positions_sorted(entries: Seq<(usize, Position)>) -> bool {
    forall|i: int, j: int| 0 <= i < j < entries.len() ==> entries[i].0 <= entries[j].0
}

/// On a sorted position map, the lookup returns the position of the greatest
/// recorded offset at most `offset` (the last such entry), or `None` when
/// every recorded offset is greater.
pub proof fn lemma_pos_lookup_greatest(entries: Seq<(usize, Position)>, offset: int)
    requires
        positions_sorted(entries),
    ensures
        match pos_lookup(entries, offset) {
            None => forall|k: int| 0 <= k < entries.len() ==> (#[trigger] entries[k]).0 > offset,
            Some(p) => exists|k: int|
                {
                    &&& 0 <= k < entries.len()
                    &&& (#[trigger] entries[k]).0 <= offset
                    &&& p == entries[k].1
                    &&& forall|j: int|
                        0 <= j < entries.len() && (#[trigger] entries[j]).0 <= offset
                            ==> entries[j].0 <= entries[k].0
                },
        },
    decreases entries.len(),
{
    if entries.len() == 0 {
    } else if entries[0].0 > offset {
        assert(forall|k: int|
            0 <= k < entries.len() ==> (#[trigger] entries[k]).0 >= entries[0].0);
    } else {
        let rest = entries.drop_first();
        assert(positions_sorted(rest)) by {
            assert(forall|i: int, j: int|
                0 <= i < j < rest.len() ==> (#[trigger] rest[i]).0 == entries[i + 1].0
                    && (#[trigger] rest[j]).0 == entries[j + 1].0);
        }
        lemma_pos_lookup_greatest(rest, offset);
        match pos_lookup(rest, offset) {
            Some(p) => {
                let k = choose|k: int|
                    {
                        &&& 0 <= k < rest.len()
                        &&& (#[trigger] rest[k]).0 <= offset
                        &&& p == rest[k].1
                        &&& forall|j: int|
                            0 <= j < rest.len() && (#[trigger] rest[j]).0 <= offset ==> rest[j].0
                                <= rest[k].0
                    };
                assert(entries[k + 1] == rest[k]);
                assert forall|j: int|
                    0 <= j < entries.len() && (#[trigger] entries[j]).0 <= offset implies entries[j].0
                    <= entries[k + 1].0 by {
                    if j > 0 {
                        assert(rest[j - 1] == entries[j]);
                    }
                }
            },
            None => {
                assert(entries[0].0 <= offset);
                assert forall|j: int|
                    0 <= j < entries.len() && (#[trigger] entries[j]).0 <= offset implies entries[j].0
                    <= entries[0].0 by {
                    if j > 0 {
                        assert(rest[j - 1] == entries[j]);
                    }
                }
            },
        }
    }
}

/// Insertion of an entry into a sorted position map: after every entry whose
/// offset is at most the new one.
pub open spec fn sorted_insert(
    entries: Seq<(usize, Position)>,
    offset: usize,
    pos: Position,
) -> Seq<(usize, Position)>
    decreases entries.len(),
{
    if entries.len() == 0 {
        seq![(offset, pos)]
    } else if entries[0].0 > offset {
        seq![(offset, pos)] + entries
    } else {
        seq![entries[0]] + sorted_insert(entries.drop_first(), offset, pos)
    }
}

/// `sorted_insert` places the new entry at the first index whose offset
/// exceeds the new one, leaving everything else in place.
pub proof fn lemma_sorted_insert_at(
    entries: Seq<(usize, Position)>,
    offset: usize,
    pos: Position,
    k: int,
)
    requires
        0 <= k <= entries.len(),
        forall|j: int| 0 <= j < k ==> (#[trigger] entries[j]).0 <= offset,
        k < entries.len() ==> entries[k].0 > offset,
    ensures
        sorted_insert(entries, offset, pos) == entries.subrange(0, k) + seq![(offset, pos)]
            + entries.subrange(k, entries.len() as int),
    decreases entries.len(),
{
    if entries.len() == 0 {
        assert(sorted_insert(entries, offset, pos) =~= entries.subrange(0, k) + seq![(offset, pos)]
            + entries.subrange(k, entries.len() as int));
    } else if entries[0].0 > offset {
        assert(k == 0);
        assert(entries.subrange(0, entries.len() as int) =~= entries);
        assert(sorted_insert(entries, offset, pos) =~= entries.subrange(0, 0) + seq![(offset, pos)]
            + entries.subrange(0, entries.len() as int));
    } else {
        assert(k > 0);
        let rest = entries.drop_first();
        assert(forall|j: int| 0 <= j < k - 1 ==> (#[trigger] rest[j]).0 == entries[j + 1].0);
        lemma_sorted_insert_at(rest, offset, pos, k - 1);
        assert(seq![entries[0]] + (rest.subrange(0, k - 1) + seq![(offset, pos)] + rest.subrange(
            k - 1,
            rest.len() as int,
        )) =~= entries.subrange(0, k) + seq![(offset, pos)] + entries.subrange(
            k,
            entries.len() as int,
        ));
    }
}

/// A compilation unit: a byte-encoded instruction stream, a constant pool,
/// and a sparse offset-to-position map sorted by offset.
#[derive(Debug, Clone, Default)]
pub struct Chunk {
    pub instructions: Instructions,
    pub constants: Vec<ObjectRef>,
    pub positions: Vec<(usize, Position)>,
}

pub type Bytecode = Chunk;

impl Chunk {
    /// A chunk with no instructions, constants, or recorded positions.
    pub fn new() -> (c: Self)
        ensures
            c.instructions@ == Seq::<u8>::empty(),
            c.constants@ == Seq::<ObjectRef>::empty(),
            c.positions@ == Seq::<(usize, Position)>::empty(),
    {
        Chunk { instructions: Vec::new(), constants: Vec::new(), positions: Vec::new() }
    }

    /// A chunk with no instructions, constants, or recorded positions.
    pub fn empty() -> (c: Self)
        ensures
            c.instructions@ == Seq::<u8>::empty(),
            c.constants@ == Seq::<ObjectRef>::empty(),
            c.positions@ == Seq::<(usize, Position)>::empty(),
    {
        Self::new()
    }

    /// Append raw bytes to the instruction stream and return the offset at
    /// which they begin.
    pub fn push_bytes(&mut self, bytes: &[u8]) -> (offset: usize)
        ensures
            final(self).instructions@ == old(self).instructions@ + bytes@,
            offset == old(self).instructions@.len(),
            final(self).constants == old(self).constants,
            final(self).positions == old(self).positions,
    {
        let offset = self.instructions.len();
        self.instructions.extend_from_slice(bytes);
        offset
    }

    /// Append an object to the constant pool and return its index.
    pub fn add_constant(&mut self, obj: ObjectRef) -> (idx: usize)
        ensures
            final(self).constants@ == old(self).constants@.push(obj),
            idx == old(self).constants@.len(),
            final(self).instructions == old(self).instructions,
            final(self).positions == old(self).positions,
    {
        let idx = self.constants.len();
        self.constants.push(obj);
        idx
    }

    /// Record the source position of the instruction at `offset`, keeping
    /// the position map sorted by offset.
    pub fn record_pos(&mut self, offset: usize, pos: Position)
        requires
            positions_sorted(old(self).positions@),
        ensures
            final(self).positions@ == sorted_insert(old(self).positions@, offset, pos),
            positions_sorted(final(self).positions@),
            final(self).instructions == old(self).instructions,
            final(self).constants == old(self).constants,
    {
        let ghost entries = self.positions@;
        let mut k: usize = 0;
        while k < self.positions.len() && self.positions[k].0 <= offset
            invariant
                self.positions@ == entries,
                k <= entries.len(),
                forall|j: int| 0 <= j < k ==> (#[trigger] entries[j]).0 <= offset,
            decreases entries.len() - k,
        {
            k = k + 1;
        }
        self.positions.insert(k, (offset, pos));
        proof {
            lemma_sorted_insert_at(entries, offset, pos, k as int);
            assert(self.positions@ =~= entries.subrange(0, k as int) + seq![(offset, pos)]
                + entries.subrange(k as int, entries.len() as int));
            let merged = self.positions@;
            assert forall|i: int, j: int| 0 <= i < j < merged.len() implies (#[trigger] merged[i]).0
                <= (#[trigger] merged[j]).0 by {
                assert(positions_sorted(entries));
                if i < k && j < k {
                } else if i == k as int {
                    assert(merged[i].0 == offset);
                    assert(merged[j] == entries[j - 1]);
                    assert(entries[k as int].0 > offset);
                    assert(entries[k as int].0 <= entries[j - 1].0);
                } else if j == k as int {
                    assert(merged[i] == entries[i]);
                } else if i > k as int && j > k as int {
                    assert(merged[i] == entries[i - 1]);
                    assert(merged[j] == entries[j - 1]);
                } else {
                    assert(merged[i] == entries[i]);
                    assert(merged[j] == entries[j - 1]);
                }
            }
        }
    }

    /// Append each operand value preceded by one space.
    fn push_operands(out: &mut String, operands: &Vec<usize>)
        ensures
            final(out)@ == old(out)@ + operands_render(operands@),
    {
        let ghost ops_full = operands@;
        let ghost base = out@;
        let mut oi: usize = 0;
        proof {
            assert(ops_full.subrange(0, ops_full.len() as int) =~= ops_full);
        }
        while oi < operands.len()
            invariant
                oi <= ops_full.len(),
                operands@ == ops_full,
                base + operands_render(ops_full) == out@ + operands_render(
                    ops_full.subrange(oi as int, ops_full.len() as int),
                ),
            decreases ops_full.len() - oi,
        {
            proof {
                reveal_strlit(" ");
                let tail = ops_full.subrange(oi as int, ops_full.len() as int);
                assert(tail[0] == ops_full[oi as int]);
                assert(tail.drop_first() =~= ops_full.subrange(
                    oi as int + 1,
                    ops_full.len() as int,
                ));
                assert((out@ + seq![' ']) + dec_seq(ops_full[oi as int] as nat) =~= out@ + (seq![
                    ' ',
                ] + dec_seq(ops_full[oi as int] as nat)));
                assert((out@ + (seq![' '] + dec_seq(ops_full[oi as int] as nat)))
                    + operands_render(ops_full.subrange(oi as int + 1, ops_full.len() as int))
                    =~= out@ + ((seq![' '] + dec_seq(ops_full[oi as int] as nat))
                    + operands_render(ops_full.subrange(oi as int + 1, ops_full.len() as int))));
            }
            out.append(" ");
            push_usize(out, operands[oi]);
            oi = oi + 1;
        }
        proof {
            assert(ops_full.subrange(ops_full.len() as int, ops_full.len() as int) =~= Seq::<
                usize,
            >::empty());
            assert(out@ + Seq::<char>::empty() =~= out@);
        }
    }


    /// Append the rendered line of a successfully decoded instruction and
    /// return the next instruction's offset.
    #[verifier::spinoff_prover]
    #[verifier::rlimit(100)]
    fn disasm_step_decoded(
        &self,
        out: &mut String,
        offset: usize,
        first: bool,
        op: Opcode,
        operands: &Vec<usize>,
        consumed: usize,
    ) -> (next: usize)
        requires
            self.instructions@.len() + 3 < usize::MAX,
            offset < self.instructions@.len(),
            opcode_from_byte(self.instructions@[offset as int]) == Some(op),
            read_ops(
                op_widths(op),
                0,
                self.instructions@.subrange(offset + 1, self.instructions@.len() as int),
                0,
            ) == Ok::<_, int>((operands@, consumed as int)),
            offset + 1 + consumed <= self.instructions@.len(),
        ensures
            offset < next <= self.instructions@.len(),
            old(out)@ + disasm_from(
                self.instructions@,
                self.positions@,
                offset as int,
                first,
            ) == final(out)@ + disasm_from(self.instructions@, self.positions@, next as int, false),
    {
        let ghost instrs = self.instructions@;
        let ghost posns = self.positions@;
        let ghost out_entry = out@;
        let ghost sep: Seq<char> = if first { Seq::<char>::empty() } else { seq!['\n'] };
        proof {
            if !first {
                reveal_strlit("\n");
            }
        }
        if !first {
            out.append("\n");
        }
        push_pad4(out, offset);
        let def = lookup_definition(op);
        proof { reveal_strlit(" "); }
        out.append(" ");
        out.append(def.name);
        let ghost ops_full = operands@;
        Self::push_operands(out, operands);
        match self.position_for_offset(offset) {
            Some(p) => {
                proof { reveal_strlit(" @"); }
                out.append(" @");
                let ps = p.to_string();
                out.append(ps.as_str());
            },
            None => {},
        }
        let next_offset = offset + 1 + consumed;
        proof {
            let line = sep + pad4(offset as nat) + seq![' '] + op_name(op) + operands_render(
                ops_full,
            ) + pos_suffix(posns, offset as int);
            assert(disasm_from(instrs, posns, offset as int, first) == line + disasm_from(
                instrs,
                posns,
                next_offset as int,
                false,
            ));
            assert(out@ =~= out_entry + line);
            assert((out_entry + line) + disasm_from(instrs, posns, next_offset as int, false)
                =~= out_entry + (line + disasm_from(instrs, posns, next_offset as int, false)));
        }
        next_offset
    }

    /// Append one disassembly line for the instruction at `offset`,
    /// returning the offset of the next instruction, or `None` when
    /// decoding stopped at this line.
    #[verifier::spinoff_prover]
    fn disasm_step(&self, out: &mut String, offset: usize, first: bool) -> (next: Option<usize>)
        requires
            self.instructions@.len() + 3 < usize::MAX,
            offset < self.instructions@.len(),
        ensures
            next matches Some(n) ==> offset < n <= self.instructions@.len(),
            old(out)@ + disasm_from(self.instructions@, self.positions@, offset as int, first)
                == final(out)@ + (match next {
                Some(n) => disasm_from(self.instructions@, self.positions@, n as int, false),
                None => Seq::<char>::empty(),
            }),
    {
        let ghost instrs = self.instructions@;
        let ghost posns = self.positions@;
        let ghost out_entry = out@;
        let ghost sep: Seq<char> = if first { Seq::<char>::empty() } else { seq!['\n'] };
        let byte = self.instructions[offset];
        match Opcode::from_byte(byte) {
            None => {
                if !first {
                    proof { reveal_strlit("\n"); }
                    out.append("\n");
                }
                push_pad4(out, offset);
                proof { reveal_strlit(">"); }
                out.append(" <unknown opcode ");
                push_usize(out, byte as usize);
                out.append(">");
                proof {
                    let line = sep + pad4(offset as nat) + " <unknown opcode "@ + dec_seq(
                        byte as nat,
                    ) + seq!['>'];
                    assert(disasm_from(instrs, posns, offset as int, first) == line);
                    assert(out@ =~= out_entry + line);
                    assert(out_entry + line + Seq::<char>::empty() =~= out_entry + line);
                }
                None
            },
            Some(op) => {
                let def = lookup_definition(op);
                proof {
                    lemma_op_widths_small(op);
                }
                let body = vstd::slice::slice_subrange(
                    self.instructions.as_slice(),
                    offset + 1,
                    self.instructions.len(),
                );
                match read_operands(&def, body) {
                    Err(_) => {
                        if !first {
                            proof { reveal_strlit("\n"); }
                            out.append("\n");
                        }
                        push_pad4(out, offset);
                        proof { reveal_strlit(" "); }
                        out.append(" ");
                        out.append(def.name);
                        out.append(" <truncated>");
                        proof {
                            let line = sep + pad4(offset as nat) + seq![' '] + op_name(op)
                                + " <truncated>"@;
                            assert(disasm_from(instrs, posns, offset as int, first) == line);
                            assert(out@ =~= out_entry + line);
                            assert(out_entry + line + Seq::<char>::empty() =~= out_entry + line);
                        }
                        None
                    },
                    Ok((operands, consumed)) => {
                        proof {
                            lemma_read_ops_consumed_bounds(op_widths(op), 0, body@, 0);
                        }
                        let next_offset = self.disasm_step_decoded(
                            out,
                            offset,
                            first,
                            op,
                            &operands,
                            consumed,
                        );
                        Some(next_offset)
                    },
                }
            },
        }
    }

    /// Render the instruction stream, one line per instruction: the
    /// zero-padded offset, the opcode name, its decoded operands, and the
    /// recorded source position when one applies. The rendering is a pure
    /// function of the chunk.
    pub fn disassemble(&self) -> (s: String)
        requires
            self.instructions@.len() + 3 < usize::MAX,
        ensures
            s@ == disasm_from(self.instructions@, self.positions@, 0, true),
    {
        let ghost instrs = self.instructions@;
        let ghost posns = self.positions@;
        let mut out = String::new();
        let mut offset: usize = 0;
        let mut first = true;
        loop
            invariant
                self.instructions@.len() + 3 < usize::MAX,
                disasm_from(instrs, posns, 0, true) == out@ + disasm_from(
                    instrs,
                    posns,
                    offset as int,
                    first,
                ),
                self.instructions@ == instrs,
                self.positions@ == posns,
            decreases instrs.len() - offset,
        {
            if offset >= self.instructions.len() {
                proof {
                    assert(disasm_from(instrs, posns, offset as int, first) == Seq::<
                        char,
                    >::empty());
                    assert(out@ + Seq::<char>::empty() =~= out@);
                }
                return out;
            }
            match self.disasm_step(&mut out, offset, first) {
                Some(next) => {
                    proof {
                        assert(out@ + (disasm_from(instrs, posns, next as int, false)
                            + Seq::<char>::empty()) =~= out@ + disasm_from(
                            instrs,
                            posns,
                            next as int,
                            false,
                        ));
                    }
                    offset = next;
                    first = false;
                },
                None => {
                    proof {
                        assert(out@ + Seq::<char>::empty() =~= out@);
                    }
                    return out;
                },
            }
        }
    }

    /// Look up the recorded position for the instruction at `offset`: the
    /// last entry of the longest prefix whose offsets are all at most
    /// `offset`. On the sorted map this is the position of the greatest
    /// recorded offset at most `offset`.
    pub fn position_for_offset(&self, offset: usize) -> (r: Option<Position>)
        ensures
            r == pos_lookup(self.positions@, offset as int),
    {
        let entries = &self.positions;
        let ghost full = entries@;
        let mut best: Option<Position> = None;
        let mut i: usize = 0;
        proof {
            assert(full.subrange(0, full.len() as int) =~= full);
        }
        loop
            invariant
                i <= full.len(),
                entries@ == full,
                self.positions@ == full,
                forall|j: int| 0 <= j < i ==> (#[trigger] full[j]).0 <= offset,
                pos_lookup(full, offset as int) == (match pos_lookup(
                    full.subrange(i as int, full.len() as int),
                    offset as int,
                ) {
                    Some(p) => Some(p),
                    None => best,
                }),
            decreases full.len() - i,
        {
            let ghost tail = full.subrange(i as int, full.len() as int);
            if i >= entries.len() {
                proof {
                    assert(tail.len() == 0);
                    assert(pos_lookup(tail, offset as int) == None::<Position>);
                }
                return best;
            }
            if entries[i].0 > offset {
                proof {
                    assert(tail[0] == full[i as int]);
                    assert(pos_lookup(tail, offset as int) == None::<Position>);
                }
                return best;
            }
            proof {
                assert(tail[0] == full[i as int]);
                assert(tail.drop_first() =~= full.subrange(i as int + 1, full.len() as int));
            }
            best = Some(entries[i].1);
            i = i + 1;
        }
    }
}

/// A decimal rendering padded with zeros to at least four characters.
pub open spec fn pad4(n: nat) -> Seq<char> {
    if n < 10 {
        "000"@ + dec_seq(n)
    } else if n < 100 {
        "00"@ + dec_seq(n)
    } else if n < 1000 {
        "0"@ + dec_seq(n)
    } else {
        dec_seq(n)
    }
}

/// Append `pad4(n)` to `out`.
fn push_pad4(out: &mut String, n: usize)
    ensures
        final(out)@ == old(out)@ + pad4(n as nat),
{
    if n < 10 {
        out.append("000");
    } else if n < 100 {
        out.append("00");
    } else if n < 1000 {
        out.append("0");
    }
    push_usize(out, n);
}

/// Rendered operand values, each preceded by one space.
pub open spec fn operands_render(operands: Seq<usize>) -> Seq<char>
    decreases operands.len(),
{
    if operands.len() == 0 {
        Seq::<char>::empty()
    } else {
        seq![' '] + dec_seq(operands[0] as nat) + operands_render(operands.drop_first())
    }
}

/// The position suffix of a disassembly line: ` @line:col`, or nothing when
/// no position is recorded at or before the offset.
pub open spec fn pos_suffix(positions: Seq<(usize, Position)>, offset: int) -> Seq<char> {
    match pos_lookup(positions, offset) {
        Some(p) => " @"@ + position_str(p.line as nat, p.col as nat),
        None => Seq::<char>::empty(),
    }
}

/// Whether a successful operand read stays within the byte stream.
proof fn lemma_read_ops_consumed_bounds(widths: Seq<usize>, wi: int, bytes: Seq<u8>, offset: int)
    requires
        read_ops(widths, wi, bytes, offset) is Ok,
        0 <= offset <= bytes.len(),
    ensures
        0 <= read_ops(widths, wi, bytes, offset)->Ok_0.1,
        offset + read_ops(widths, wi, bytes, offset)->Ok_0.1 <= bytes.len(),
    decreases widths.len() - wi,
{
    if 0 <= wi < widths.len() {
        lemma_read_ops_consumed_bounds(widths, wi + 1, bytes, offset + widths[wi]);
    }
}

/// The disassembly text from `offset` onward; each line after the first is
/// preceded by a newline. Decoding stops after an unknown opcode byte or a
/// truncated instruction.
pub open spec fn disasm_from(
    instructions: Seq<u8>,
    positions: Seq<(usize, Position)>,
    offset: int,
    first: bool,
) -> Seq<char>
    decreases instructions.len() - offset,
    when 0 <= offset
    via disasm_from_decreases
{
    if offset >= instructions.len() {
        Seq::<char>::empty()
    } else {
        let sep: Seq<char> = if first {
            Seq::<char>::empty()
        } else {
            seq!['\n']
        };
        match opcode_from_byte(instructions[offset]) {
            None => sep + pad4(offset as nat) + " <unknown opcode "@ + dec_seq(
                instructions[offset] as nat,
            ) + seq!['>'],
            Some(op) => {
                let body = instructions.subrange(offset + 1, instructions.len() as int);
                match read_ops(op_widths(op), 0, body, 0) {
                    Err(_) => sep + pad4(offset as nat) + seq![' '] + op_name(op)
                        + " <truncated>"@,
                    Ok((operands, consumed)) => sep + pad4(offset as nat) + seq![' '] + op_name(op)
                        + operands_render(operands) + pos_suffix(positions, offset) + disasm_from(
                        instructions,
                        positions,
                        offset + 1 + consumed,
                        false,
                    ),
                }
            },
        }
    }
}

#[via_fn]
proof fn disasm_from_decreases(
    instructions: Seq<u8>,
    positions: Seq<(usize, Position)>,
    offset: int,
    first: bool,
)
{
    if 0 <= offset < instructions.len() {
        match opcode_from_byte(instructions[offset]) {
            None => {},
            Some(op) => {
                let body = instructions.subrange(offset + 1, instructions.len() as int);
                match read_ops(op_widths(op), 0, body, 0) {
                    Err(_) => {},
                    Ok((operands, consumed)) => {
                        lemma_read_ops_consumed_bounds(op_widths(op), 0, body, 0);
                    },
                }
            },
        }
    }
}

} // verus!
