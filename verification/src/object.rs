//! Runtime object model: the tagged value taxonomy shared by the compiler's
//! constant pool and the virtual machine, with hashing, truthiness, and
//! canonical rendering.

use crate::position::Position;
use crate::render::{i64_string, int_seq};
use std::rc::Rc;
use vstd::prelude::*;
use vstd::string::StringExecFns;

verus! {

/// Shared reference type for runtime objects.
pub type ObjectRef = Rc<Object>;

/// Hashable Monkey runtime key types.
#[derive(Debug, Clone, PartialEq, Eq, Hash)]
pub enum HashKey {
    Integer(i64),
    Boolean(bool),
    String(String),
}

/// Compiled function metadata: bytecode plus its frame requirements.
#[derive(Debug, Clone, PartialEq, Eq)]
pub struct CompiledFunctionObject {
    pub name: Option<String>,
    pub num_params: usize,
    pub num_locals: usize,
    pub instructions: Vec<u8>,
    pub positions: Vec<(usize, Position)>,
}

/// A compiled function paired with its captured free-variable values.
#[derive(Debug, Clone, PartialEq, Eq)]
pub struct ClosureObject {
    pub function: Rc<CompiledFunctionObject>,
    pub free: Vec<ObjectRef>,
}

/// A reference to a builtin function, by name.
#[derive(Debug, Clone, PartialEq, Eq)]
pub struct BuiltinObject {
    pub name: String,
}

/// Runtime object model used by the VM.
#[derive(Debug, Clone, PartialEq, Eq)]
pub enum Object {
    Integer(i64),
    Boolean(bool),
    String(String),
    Null,
    Array(Vec<ObjectRef>),
    Hash(Vec<(ObjectRef, ObjectRef)>),
    CompiledFunction(Rc<CompiledFunctionObject>),
    Closure(Rc<ClosureObject>),
    Builtin(BuiltinObject),
}

/// The stable uppercase type tag of an object.
pub open spec fn obj_type_name(o: Object) -> Seq<char> {
    match o {
        Object::Integer(_) => "INTEGER"@,
        Object::Boolean(_) => "BOOLEAN"@,
        Object::String(_) => "STRING"@,
        Object::Null => "NULL"@,
        Object::Array(_) => "ARRAY"@,
        Object::Hash(_) => "HASH"@,
        Object::CompiledFunction(_) => "FUNCTION"@,
        Object::Closure(_) => "CLOSURE"@,
        Object::Builtin(_) => "BUILTIN"@,
    }
}

/// Truthiness: only `Boolean(false)` and `Null` are falsy.
pub open spec fn obj_truthy(o: Object) -> bool {
    !(o == Object::Boolean(false) || o == Object::Null)
}

/// The hash key of an object, defined only for integers, booleans, and
/// strings.
pub open spec fn obj_hash_key(o: Object) -> Option<HashKey> {
    match o {
        Object::Integer(v) => Some(HashKey::Integer(v)),
        Object::Boolean(v) => Some(HashKey::Boolean(v)),
        Object::String(v) => Some(HashKey::String(v)),
        _ => None,
    }
}

/// Canonical rendering of an object.
pub open spec fn obj_inspect(o: Object) -> Seq<char>
    decreases o,
{
    match o {
        Object::Integer(v) => int_seq(v as int),
        Object::Boolean(v) => if v {
            "true"@
        } else {
            "false"@
        },
        Object::String(v) => v@,
        Object::Null => "null"@,
        Object::Array(values) => seq!['['] + inspect_items(values@) + seq![']'],
        Object::Hash(pairs) => seq!['{'] + inspect_pairs(pairs@) + seq!['}'],
        Object::CompiledFunction(function) => match function.name {
            Some(name) => "<compiled fn:"@ + name@ + seq!['>'],
            None => "<compiled fn>"@,
        },
        Object::Closure(_) => "<closure>"@,
        Object::Builtin(builtin) => "<builtin: "@ + builtin.name@ + seq!['>'],
    }
}

/// Renderings of array items joined with `", "`.
pub open spec fn inspect_items(items: Seq<ObjectRef>) -> Seq<char>
    decreases items,
{
    if items.len() == 0 {
        Seq::<char>::empty()
    } else if items.len() == 1 {
        obj_inspect(*items[0])
    } else {
        obj_inspect(*items[0]) + ", "@ + inspect_items(items.drop_first())
    }
}

/// Renderings of hash pairs, each as `key: value`, joined with `", "`.
pub open spec fn inspect_pairs(pairs: Seq<(ObjectRef, ObjectRef)>) -> Seq<char>
    decreases pairs,
{
    if pairs.len() == 0 {
        Seq::<char>::empty()
    } else if pairs.len() == 1 {
        obj_inspect(*pairs[0].0) + ": "@ + obj_inspect(*pairs[0].1)
    } else {
        obj_inspect(*pairs[0].0) + ": "@ + obj_inspect(*pairs[0].1) + ", "@ + inspect_pairs(
            pairs.drop_first(),
        )
    }
}

/// Appending one item to a rendered item list extends the join by a
/// separator and the item's rendering.
proof fn lemma_inspect_items_push(items: Seq<ObjectRef>, o: ObjectRef)
    ensures
        inspect_items(items.push(o)) == if items.len() == 0 {
            obj_inspect(*o)
        } else {
            inspect_items(items) + ", "@ + obj_inspect(*o)
        },
    decreases items,
{
    if items.len() == 0 {
        assert(items.push(o).len() == 1);
        assert(items.push(o)[0] == o);
    } else {
        assert(items.push(o)[0] == items[0]);
        assert(items.push(o).drop_first() =~= items.drop_first().push(o));
        lemma_inspect_items_push(items.drop_first(), o);
        if items.len() == 1 {
            assert(items.drop_first().len() == 0);
        }
    }
}

/// Appending one pair to a rendered pair list extends the join by a
/// separator and the pair's rendering.
proof fn lemma_inspect_pairs_push(pairs: Seq<(ObjectRef, ObjectRef)>, p: (ObjectRef, ObjectRef))
    ensures
        inspect_pairs(pairs.push(p)) == if pairs.len() == 0 {
            obj_inspect(*p.0) + ": "@ + obj_inspect(*p.1)
        } else {
            inspect_pairs(pairs) + ", "@ + obj_inspect(*p.0) + ": "@ + obj_inspect(*p.1)
        },
    decreases pairs,
{
    if pairs.len() == 0 {
        assert(pairs.push(p).len() == 1);
        assert(pairs.push(p)[0] == p);
    } else {
        assert(pairs.push(p)[0] == pairs[0]);
        assert(pairs.push(p).drop_first() =~= pairs.drop_first().push(p));
        lemma_inspect_pairs_push(pairs.drop_first(), p);
        if pairs.len() == 1 {
            assert(pairs.drop_first().len() == 0);
        }
    }
}

impl Object {
    /// Wrap the object in a shared reference.
    pub fn rc(self) -> (r: ObjectRef)
        ensures
            r == self,
    {
        Rc::new(self)
    }

    /// The stable uppercase type tag of this object.
    pub fn type_tag(&self) -> (s: &'static str)
        ensures
            s@ == obj_type_name(*self),
    {
        match self {
            Object::Integer(_) => "INTEGER",
            Object::Boolean(_) => "BOOLEAN",
            Object::String(_) => "STRING",
            Object::Null => "NULL",
            Object::Array(_) => "ARRAY",
            Object::Hash(_) => "HASH",
            Object::CompiledFunction(_) => "FUNCTION",
            Object::Closure(_) => "CLOSURE",
            Object::Builtin(_) => "BUILTIN",
        }
    }

    /// Whether this object counts as true in conditions.
    pub fn is_truthy(&self) -> (r: bool)
        ensures
            r == obj_truthy(*self),
    {
        match self {
            Object::Boolean(b) => *b,
            Object::Null => false,
            _ => true,
        }
    }

    /// The hash key of this object, or `None` when it is not hashable.
    pub fn hash_key(&self) -> (r: Option<HashKey>)
        ensures
            r == obj_hash_key(*self),
    {
        match self {
            Object::Integer(v) => Some(HashKey::Integer(*v)),
            Object::Boolean(v) => Some(HashKey::Boolean(*v)),
            Object::String(v) => Some(HashKey::String(v.clone())),
            _ => None,
        }
    }

    /// Render the object in its canonical form.
    #[verifier::loop_isolation(false)]
    pub fn inspect(&self) -> (s: String)
        ensures
            s@ == obj_inspect(*self),
        decreases *self,
    {
        match self {
            Object::Integer(v) => i64_string(*v),
            Object::Boolean(v) => {
                if *v {
                    "true".to_owned()
                } else {
                    "false".to_owned()
                }
            },
            Object::String(v) => v.clone(),
            Object::Null => "null".to_owned(),
            Object::Array(values) => {
                let mut out: String = "[".to_owned();
                proof { reveal_strlit("["); }
                let mut i: usize = 0;
                while i < values.len()
                    invariant
                        i <= values.len(),
                        out@ == seq!['['] + inspect_items(values@.subrange(0, i as int)),
                    decreases values.len() - i,
                {
                    proof {
                        assert(decreases_to!(values@ => values@[i as int]));
                    }
                    if i > 0 {
                        proof { reveal_strlit(", "); }
                        out.append(", ");
                    }
                    let item = &values[i];
                    let rendered = (&**item).inspect();
                    out.append(rendered.as_str());
                    proof {
                        lemma_inspect_items_push(values@.subrange(0, i as int), values@[i as int]);
                        assert(values@.subrange(0, i as int).push(values@[i as int]) =~= values@
                            .subrange(0, i as int + 1));
                    }
                    i = i + 1;
                }
                proof {
                    assert(values@.subrange(0, values@.len() as int) =~= values@);
                    reveal_strlit("]");
                }
                out.append("]");
                out
            },
            Object::Hash(pairs) => {
                let mut out: String = "{".to_owned();
                proof { reveal_strlit("{"); }
                let mut i: usize = 0;
                while i < pairs.len()
                    invariant
                        i <= pairs.len(),
                        out@ == seq!['{'] + inspect_pairs(pairs@.subrange(0, i as int)),
                    decreases pairs.len() - i,
                {
                    proof {
                        assert(decreases_to!(pairs@ => pairs@[i as int]));
                        assert(decreases_to!(pairs@[i as int] => pairs@[i as int].0));
                        assert(decreases_to!(pairs@[i as int] => pairs@[i as int].1));
                    }
                    if i > 0 {
                        proof { reveal_strlit(", "); }
                        out.append(", ");
                    }
                    let key = &pairs[i].0;
                    let key_rendered = (&**key).inspect();
                    out.append(key_rendered.as_str());
                    proof { reveal_strlit(": "); }
                    out.append(": ");
                    let value = &pairs[i].1;
                    let value_rendered = (&**value).inspect();
                    out.append(value_rendered.as_str());
                    proof {
                        lemma_inspect_pairs_push(pairs@.subrange(0, i as int), pairs@[i as int]);
                        assert(pairs@.subrange(0, i as int).push(pairs@[i as int]) =~= pairs@
                            .subrange(0, i as int + 1));
                    }
                    i = i + 1;
                }
                proof {
                    assert(pairs@.subrange(0, pairs@.len() as int) =~= pairs@);
                    reveal_strlit("}");
                }
                out.append("}");
                out
            },
            Object::CompiledFunction(function) => {
                match &function.name {
                    Some(name) => {
                        proof { reveal_strlit(">"); }
                        let mut out: String = "<compiled fn:".to_owned();
                        out.append(name.as_str());
                        out.append(">");
                        out
                    },
                    None => "<compiled fn>".to_owned(),
                }
            },
            Object::Closure(_) => "<closure>".to_owned(),
            Object::Builtin(builtin) => {
                proof { reveal_strlit(">"); }
                let mut out: String = "<builtin: ".to_owned();
                out.append(builtin.name.as_str());
                out.append(">");
                out
            },
        }
    }
}

} // verus!
