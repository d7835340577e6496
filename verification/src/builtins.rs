//! The builtin function registry: fixed name ordering and the execution of
//! each builtin against its argument slice.

use crate::object::{obj_inspect, obj_type_name, Object, ObjectRef};
use crate::render::{dec_seq, push_usize, str_eq};
use crate::runtime_error::RuntimeErrorType;
use vstd::prelude::*;
use vstd::string::StringExecFns;

verus! {

/// The name of the builtin at `index`, in the fixed registry order.
pub open spec fn builtin_name_spec(index: nat) -> Option<Seq<char>> {
    if index == 0 {
        Some("len"@)
    } else if index == 1 {
        Some("first"@)
    } else if index == 2 {
        Some("last"@)
    } else if index == 3 {
        Some("rest"@)
    } else if index == 4 {
        Some("push"@)
    } else if index == 5 {
        Some("puts"@)
    } else {
        None
    }
}

/// The fixed, stable ordering of builtin names.
pub fn builtin_names() -> (r: Vec<&'static str>)
    ensures
        r@.len() == 6,
        forall|i: int| 0 <= i < 6 ==> Some(#[trigger] r@[i]@) == builtin_name_spec(i as nat),
{
    let names: Vec<&'static str> = vec!["len", "first", "last", "rest", "push", "puts"];
    proof {
        assert forall|i: int| 0 <= i < 6 implies Some(#[trigger] names@[i]@) == builtin_name_spec(
            i as nat,
        ) by {
            if i == 0 {
                assert(names@[0] == "len");
            } else if i == 1 {
                assert(names@[1] == "first");
            } else if i == 2 {
                assert(names@[2] == "last");
            } else if i == 3 {
                assert(names@[3] == "rest");
            } else if i == 4 {
                assert(names@[4] == "push");
            } else {
                assert(names@[5] == "puts");
            }
        }
    }
    names
}

/// The builtin name registered at `index`, or `None` past the registry.
pub fn builtin_name_at(index: usize) -> (r: Option<&'static str>)
    ensures
        match r {
            Some(name) => builtin_name_spec(index as nat) == Some(name@),
            None => builtin_name_spec(index as nat) is None,
        },
{
    if index == 0 {
        Some("len")
    } else if index == 1 {
        Some("first")
    } else if index == 2 {
        Some("last")
    } else if index == 3 {
        Some("rest")
    } else if index == 4 {
        Some("push")
    } else if index == 5 {
        Some("puts")
    } else {
        None
    }
}

/// A builtin failure: the runtime error category and its message.
#[derive(Debug, Clone, PartialEq, Eq)]
pub struct BuiltinError {
    pub error_type: RuntimeErrorType,
    pub message: String,
}

/// An arity failure with the message
/// `name expected <n> argument(s), got <m>`.
pub open spec fn wrong_count_err(name: Seq<char>, expected: nat, got: nat, e: BuiltinError) -> bool {
    &&& e.error_type == RuntimeErrorType::WrongArgumentCount
    &&& e.message@ == name + " expected "@ + dec_seq(expected) + " argument(s), got "@ + dec_seq(
        got,
    )
}

/// An argument-type failure with the message `name expected <t>, got <u>`.
pub open spec fn invalid_type_err(
    name: Seq<char>,
    expected: Seq<char>,
    got: Seq<char>,
    e: BuiltinError,
) -> bool {
    &&& e.error_type == RuntimeErrorType::InvalidArgumentType
    &&& e.message@ == name + " expected "@ + expected + ", got "@ + got
}

/// A collection length clamped into an `i64`.
pub open spec fn len_as_i64(n: nat) -> i64 {
    if n <= i64::MAX {
        n as i64
    } else {
        i64::MAX
    }
}

/// The single output line of `puts`: each argument's rendering, joined with
/// no separator.
pub open spec fn puts_line(args: Seq<ObjectRef>) -> Seq<char>
    decreases args.len(),
{
    if args.len() == 0 {
        Seq::<char>::empty()
    } else {
        obj_inspect(*args[0]) + puts_line(args.drop_first())
    }
}

/// The captured output lines, as character sequences.
pub open spec fn output_lines(out: Seq<String>) -> Seq<Seq<char>> {
    out.map_values(|s: String| s@)
}

/// What `execute_builtin` returns and how it changes the captured output,
/// for each builtin name and argument list.
pub open spec fn builtin_post(
    name: Seq<char>,
    args: Seq<ObjectRef>,
    out0: Seq<String>,
    r: Result<ObjectRef, BuiltinError>,
    out1: Seq<String>,
) -> bool {
    if name == "puts"@ {
        &&& r is Ok
        &&& *r->Ok_0 == Object::Null
        &&& output_lines(out1) == output_lines(out0).push(puts_line(args))
    } else {
        &&& out1 == out0
        &&& if name == "len"@ {
            if args.len() != 1 {
                r is Err && wrong_count_err(name, 1, args.len(), r->Err_0)
            } else {
                match *args[0] {
                    Object::String(v) => r is Ok && *r->Ok_0 == Object::Integer(
                        len_as_i64(v@.len()),
                    ),
                    Object::Array(vs) => r is Ok && *r->Ok_0 == Object::Integer(
                        len_as_i64(vs@.len()),
                    ),
                    _ => r is Err && invalid_type_err(
                        name,
                        "STRING or ARRAY"@,
                        obj_type_name(*args[0]),
                        r->Err_0,
                    ),
                }
            }
        } else if name == "first"@ {
            if args.len() != 1 {
                r is Err && wrong_count_err(name, 1, args.len(), r->Err_0)
            } else {
                match *args[0] {
                    Object::Array(vs) => r is Ok && if vs@.len() == 0 {
                        *r->Ok_0 == Object::Null
                    } else {
                        *r->Ok_0 == *vs@[0]
                    },
                    _ => r is Err && invalid_type_err(
                        name,
                        "ARRAY"@,
                        obj_type_name(*args[0]),
                        r->Err_0,
                    ),
                }
            }
        } else if name == "last"@ {
            if args.len() != 1 {
                r is Err && wrong_count_err(name, 1, args.len(), r->Err_0)
            } else {
                match *args[0] {
                    Object::Array(vs) => r is Ok && if vs@.len() == 0 {
                        *r->Ok_0 == Object::Null
                    } else {
                        *r->Ok_0 == *vs@[vs@.len() - 1]
                    },
                    _ => r is Err && invalid_type_err(
                        name,
                        "ARRAY"@,
                        obj_type_name(*args[0]),
                        r->Err_0,
                    ),
                }
            }
        } else if name == "rest"@ {
            if args.len() != 1 {
                r is Err && wrong_count_err(name, 1, args.len(), r->Err_0)
            } else {
                match *args[0] {
                    Object::Array(vs) => r is Ok && if vs@.len() == 0 {
                        *r->Ok_0 == Object::Null
                    } else {
                        ((*r->Ok_0) matches Object::Array(nvs) && nvs@ == vs@.drop_first())
                    },
                    _ => r is Err && invalid_type_err(
                        name,
                        "ARRAY"@,
                        obj_type_name(*args[0]),
                        r->Err_0,
                    ),
                }
            }
        } else if name == "push"@ {
            if args.len() != 2 {
                r is Err && wrong_count_err(name, 2, args.len(), r->Err_0)
            } else {
                match *args[0] {
                    Object::Array(vs) => r is Ok && ((*r->Ok_0) matches Object::Array(nvs)
                        && nvs@ == vs@.push(args[1])),
                    _ => r is Err && invalid_type_err(
                        name,
                        "ARRAY"@,
                        obj_type_name(*args[0]),
                        r->Err_0,
                    ),
                }
            }
        } else {
            &&& r is Err
            &&& r->Err_0.error_type == RuntimeErrorType::UnsupportedOperation
            &&& r->Err_0.message@ == "unknown builtin: "@ + name
        }
    }
}

/// Build the arity-failure message.
fn wrong_arg_count(name: &str, expected: usize, got: usize) -> (e: BuiltinError)
    ensures
        wrong_count_err(name@, expected as nat, got as nat, e),
{
    let mut message = name.to_owned();
    message.append(" expected ");
    push_usize(&mut message, expected);
    message.append(" argument(s), got ");
    push_usize(&mut message, got);
    BuiltinError { error_type: RuntimeErrorType::WrongArgumentCount, message }
}

/// Build the argument-type-failure message.
fn invalid_arg_type(name: &str, expected: &str, got: &str) -> (e: BuiltinError)
    ensures
        invalid_type_err(name@, expected@, got@, e),
{
    let mut message = name.to_owned();
    message.append(" expected ");
    message.append(expected);
    message.append(", got ");
    message.append(got);
    BuiltinError { error_type: RuntimeErrorType::InvalidArgumentType, message }
}

/// Execute the builtin named `name` against the argument slice, appending to
/// the captured output when the builtin writes a line.
pub fn execute_builtin(name: &str, args: &[ObjectRef], output: &mut Vec<String>) -> (r: Result<
    ObjectRef,
    BuiltinError,
>)
    ensures
        builtin_post(name@, args@, old(output)@, r, final(output)@),
{
    proof {
        reveal_strlit("len");
        reveal_strlit("first");
        reveal_strlit("last");
        reveal_strlit("rest");
        reveal_strlit("push");
        reveal_strlit("puts");
        assert("last"@[0] != "puts"@[0]);
        assert("rest"@[0] != "puts"@[0]);
        assert("push"@[2] != "puts"@[2]);
        assert("last"@[0] != "rest"@[0]);
        assert("last"@[0] != "push"@[0]);
        assert("rest"@[0] != "push"@[0]);
        assert("last"@ != "puts"@ && "rest"@ != "puts"@ && "push"@ != "puts"@);
        assert("last"@ != "rest"@ && "last"@ != "push"@ && "rest"@ != "push"@);
    }
    if str_eq(name, "len") {
        if args.len() != 1 {
            return Err(wrong_arg_count("len", 1, args.len()));
        }
        match &*args[0] {
            Object::String(v) => {
                let n = v.as_str().unicode_len();
                let len: i64 = if (n as u64) <= (i64::MAX as u64) {
                    n as i64
                } else {
                    i64::MAX
                };
                Ok(Object::Integer(len).rc())
            },
            Object::Array(values) => {
                let n = values.len();
                let len: i64 = if (n as u64) <= (i64::MAX as u64) {
                    n as i64
                } else {
                    i64::MAX
                };
                Ok(Object::Integer(len).rc())
            },
            other => Err(invalid_arg_type("len", "STRING or ARRAY", other.type_tag())),
        }
    } else if str_eq(name, "first") {
        if args.len() != 1 {
            return Err(wrong_arg_count("first", 1, args.len()));
        }
        match &*args[0] {
            Object::Array(values) => {
                if values.len() == 0 {
                    Ok(Object::Null.rc())
                } else {
                    Ok(values[0].clone())
                }
            },
            other => Err(invalid_arg_type("first", "ARRAY", other.type_tag())),
        }
    } else if str_eq(name, "last") {
        if args.len() != 1 {
            return Err(wrong_arg_count("last", 1, args.len()));
        }
        match &*args[0] {
            Object::Array(values) => {
                if values.len() == 0 {
                    Ok(Object::Null.rc())
                } else {
                    Ok(values[values.len() - 1].clone())
                }
            },
            other => Err(invalid_arg_type("last", "ARRAY", other.type_tag())),
        }
    } else if str_eq(name, "rest") {
        if args.len() != 1 {
            return Err(wrong_arg_count("rest", 1, args.len()));
        }
        match &*args[0] {
            Object::Array(values) => {
                if values.len() == 0 {
                    Ok(Object::Null.rc())
                } else {
                    let mut rest: Vec<ObjectRef> = Vec::new();
                    let mut i: usize = 1;
                    while i < values.len()
                        invariant
                            1 <= i <= values@.len(),
                            rest@ == values@.subrange(1, i as int),
                        decreases values@.len() - i,
                    {
                        rest.push(values[i].clone());
                        proof {
                            assert(values@.subrange(1, i as int).push(values@[i as int])
                                =~= values@.subrange(1, i as int + 1));
                        }
                        i = i + 1;
                    }
                    proof {
                        assert(values@.subrange(1, values@.len() as int) =~= values@.drop_first());
                    }
                    Ok(Object::Array(rest).rc())
                }
            },
            other => Err(invalid_arg_type("rest", "ARRAY", other.type_tag())),
        }
    } else if str_eq(name, "push") {
        if args.len() != 2 {
            return Err(wrong_arg_count("push", 2, args.len()));
        }
        match &*args[0] {
            Object::Array(values) => {
                let mut out_values: Vec<ObjectRef> = Vec::new();
                let mut i: usize = 0;
                while i < values.len()
                    invariant
                        i <= values@.len(),
                        out_values@ == values@.subrange(0, i as int),
                    decreases values@.len() - i,
                {
                    out_values.push(values[i].clone());
                    proof {
                        assert(values@.subrange(0, i as int).push(values@[i as int])
                            =~= values@.subrange(0, i as int + 1));
                    }
                    i = i + 1;
                }
                proof {
                    assert(values@.subrange(0, values@.len() as int) =~= values@);
                }
                out_values.push(args[1].clone());
                Ok(Object::Array(out_values).rc())
            },
            other => Err(invalid_arg_type("push", "ARRAY", other.type_tag())),
        }
    } else if str_eq(name, "puts") {
        let mut line = String::new();
        let ghost full = args@;
        let mut i: usize = 0;
        proof {
            assert(full.subrange(0, full.len() as int) =~= full);
        }
        while i < args.len()
            invariant
                i <= full.len(),
                args@ == full,
                puts_line(full) == line@ + puts_line(full.subrange(i as int, full.len() as int)),
            decreases full.len() - i,
        {
            proof {
                let tail = full.subrange(i as int, full.len() as int);
                assert(tail[0] == full[i as int]);
                assert(tail.drop_first() =~= full.subrange(i as int + 1, full.len() as int));
            }
            let rendered = (&*args[i]).inspect();
            line.append(rendered.as_str());
            i = i + 1;
        }
        proof {
            assert(full.subrange(full.len() as int, full.len() as int)
                =~= Seq::<ObjectRef>::empty());
            assert(line@ + Seq::<char>::empty() =~= line@);
        }
        output.push(line);
        proof {
            assert(output_lines(output@) =~= output_lines(old(output)@).push(puts_line(args@)));
        }
        Ok(Object::Null.rc())
    } else {
        let mut message: String = "unknown builtin: ".to_owned();
        message.append(name);
        Err(BuiltinError { error_type: RuntimeErrorType::UnsupportedOperation, message })
    }
}

} // verus!
