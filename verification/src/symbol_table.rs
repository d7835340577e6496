//! Lexical symbol tables: name definition and resolution with scope
//! classification (global, local, builtin, free, function-self) and
//! free-variable lifting across nested scopes.

use crate::builtins::{builtin_name_spec, builtin_names};
use vstd::prelude::*;
use vstd::string::StringExecFns;

verus! {

/// Symbol scope classification for compiler name resolution.
#[derive(Debug, Clone, Copy, PartialEq, Eq, Hash, Structural)]
pub enum SymbolScope {
    Global,
    Local,
    Builtin,
    Free,
    Function,
}

/// The display name of a symbol scope.
pub open spec fn scope_name(s: SymbolScope) -> Seq<char> {
    match s {
        SymbolScope::Global => "Global"@,
        SymbolScope::Local => "Local"@,
        SymbolScope::Builtin => "Builtin"@,
        SymbolScope::Free => "Free"@,
        SymbolScope::Function => "Function"@,
    }
}

impl SymbolScope {
    /// The display name of this scope.
    pub fn name(&self) -> (s: &'static str)
        ensures
            s@ == scope_name(*self),
    {
        match self {
            SymbolScope::Global => "Global",
            SymbolScope::Local => "Local",
            SymbolScope::Builtin => "Builtin",
            SymbolScope::Free => "Free",
            SymbolScope::Function => "Function",
        }
    }

    /// The display name of this scope as an owned string.
    pub fn to_string(&self) -> (s: String)
        ensures
            s@ == scope_name(*self),
    {
        self.name().to_owned()
    }
}

/// A resolved symbol descriptor.
#[derive(Debug, Clone, PartialEq, Eq)]
pub struct Symbol {
    pub name: String,
    pub scope: SymbolScope,
    pub index: usize,
}

impl Symbol {
    /// Build a symbol descriptor.
    pub fn new(name: &str, scope: SymbolScope, index: usize) -> (s: Self)
        ensures
            s.name@ == name@,
            s.scope == scope,
            s.index == index,
    {
        Self { name: name.to_owned(), scope, index }
    }

    /// An equal copy of this symbol.
    fn duplicate(&self) -> (s: Self)
        ensures
            s == *self,
    {
        Symbol { name: self.name.clone(), scope: self.scope, index: self.index }
    }
}

/// The binding for `name` in a store: the latest entry wins, so later
/// definitions shadow earlier ones.
pub open spec fn store_lookup(store: Seq<(String, Symbol)>, name: Seq<char>) -> Option<Symbol>
    decreases store.len(),
{
    if store.len() == 0 {
        None
    } else if store.last().0@ == name {
        Some(store.last().1)
    } else {
        store_lookup(store.drop_last(), name)
    }
}

/// Appending a binding changes only the lookup of its own name.
pub proof fn lemma_store_lookup_push(store: Seq<(String, Symbol)>, entry: (String, Symbol), name: Seq<char>)
    ensures
        store_lookup(store.push(entry), name) == if entry.0@ == name {
            Some(entry.1)
        } else {
            store_lookup(store, name)
        },
{
    assert(store.push(entry).last() == entry);
    assert(store.push(entry).drop_last() =~= store);
}

pub type SymbolTableRef = Box<SymbolTable>;

/// Lexical symbol table: a store of bindings, an optional enclosing scope,
/// the count of global or local definitions, and the original symbols lifted
/// into this scope as free variables.
#[derive(Debug)]
pub struct SymbolTable {
    pub store: Vec<(String, Symbol)>,
    pub outer: Option<Box<SymbolTable>>,
    pub num_definitions: usize,
    pub free_symbols: Vec<Symbol>,
}

/// How `resolve` relates the table before (`t0`) and after (`t1`) the call,
/// the name looked up, and the result:
/// - a name bound in the current store resolves to that binding, unchanged;
/// - otherwise it is resolved in the enclosing chain; a global or builtin
///   symbol passes through unchanged, while a local, free, or function-self
///   symbol is lifted: the original symbol joins `free_symbols` and a new
///   `Free` binding for the name is recorded in this scope's store.
pub open spec fn resolve_rel(
    t0: SymbolTable,
    t1: SymbolTable,
    name: Seq<char>,
    r: Option<Symbol>,
) -> bool
    decreases t0,
{
    match store_lookup(t0.store@, name) {
        Some(sym) => r == Some(sym) && t1 == t0,
        None => match t0.outer {
            None => r == None::<Symbol> && t1 == t0,
            Some(outer0) => match r {
                None => resolve_rel(*outer0, *outer0, name, None) && t1 == t0,
                Some(sym) => match sym.scope {
                    SymbolScope::Global | SymbolScope::Builtin => {
                        &&& t1.outer matches Some(outer1) && resolve_rel(
                            *outer0,
                            *outer1,
                            name,
                            Some(sym),
                        )
                        &&& t1.store == t0.store
                        &&& t1.num_definitions == t0.num_definitions
                        &&& t1.free_symbols == t0.free_symbols
                    },
                    SymbolScope::Free => {
                        &&& t1.free_symbols@.len() == t0.free_symbols@.len() + 1
                        &&& t1.free_symbols@.drop_last() == t0.free_symbols@
                        &&& {
                            let orig = t1.free_symbols@.last();
                            &&& (orig.scope == SymbolScope::Local || orig.scope
                                == SymbolScope::Free || orig.scope == SymbolScope::Function)
                            &&& t1.outer matches Some(outer1) && resolve_rel(
                                *outer0,
                                *outer1,
                                name,
                                Some(orig),
                            )
                        }
                        &&& sym.name@ == name
                        &&& sym.index == t0.free_symbols@.len()
                        &&& t1.store@ == t0.store@.push((sym.name, sym))
                        &&& t1.num_definitions == t0.num_definitions
                    },
                    _ => false,
                },
            },
        },
    }
}

impl SymbolTable {
    /// A root table: empty store, no enclosing scope.
    pub fn new() -> (t: Self)
        ensures
            t.store@ == Seq::<(String, Symbol)>::empty(),
            t.outer is None,
            t.num_definitions == 0,
            t.free_symbols@ == Seq::<Symbol>::empty(),
    {
        Self { store: Vec::new(), outer: None, num_definitions: 0, free_symbols: Vec::new() }
    }

    /// A fresh table enclosed in `outer`.
    pub fn new_enclosed(outer: SymbolTableRef) -> (t: Self)
        ensures
            t.store@ == Seq::<(String, Symbol)>::empty(),
            t.outer == Some(outer),
            t.num_definitions == 0,
            t.free_symbols@ == Seq::<Symbol>::empty(),
    {
        Self { store: Vec::new(), outer: Some(outer), num_definitions: 0, free_symbols: Vec::new() }
    }

    /// Box the table so it can serve as an enclosing scope.
    pub fn into_ref(self) -> (r: SymbolTableRef)
        ensures
            *r == self,
    {
        Box::new(self)
    }

    /// The binding for `name` in this scope's own store.
    fn find_local(&self, name: &str) -> (r: Option<Symbol>)
        ensures
            r == store_lookup(self.store@, name@),
    {
        let ghost full = self.store@;
        let mut i: usize = self.store.len();
        proof {
            assert(full.subrange(0, full.len() as int) =~= full);
        }
        while i > 0
            invariant
                i <= full.len(),
                self.store@ == full,
                store_lookup(full, name@) == store_lookup(full.subrange(0, i as int), name@),
            decreases i,
        {
            i = i - 1;
            let entry = &self.store[i];
            proof {
                let prefix = full.subrange(0, i as int + 1);
                assert(prefix.last() == full[i as int]);
                assert(prefix.drop_last() =~= full.subrange(0, i as int));
            }
            if crate::render::str_eq(entry.0.as_str(), name) {
                return Some(entry.1.duplicate());
            }
        }
        proof {
            assert(full.subrange(0, 0) =~= Seq::<(String, Symbol)>::empty());
        }
        None
    }

    /// Define `name` in this scope: a global slot in a root table, a local
    /// slot otherwise. Redefining a name already bound in the same scope
    /// returns the existing symbol and assigns no new slot.
    pub fn define(&mut self, name: &str) -> (r: Symbol)
        requires
            old(self).num_definitions <= old(self).store@.len(),
        ensures
            final(self).num_definitions <= final(self).store@.len(),
            ({
                let scope = if old(self).outer is None {
                    SymbolScope::Global
                } else {
                    SymbolScope::Local
                };
                let prev = store_lookup(old(self).store@, name@);
                if prev is Some && prev->Some_0.scope == scope {
                    &&& r == prev->Some_0
                    &&& *final(self) == *old(self)
                } else {
                    &&& r.name@ == name@
                    &&& r.scope == scope
                    &&& r.index == old(self).num_definitions
                    &&& final(self).store@ == old(self).store@.push((r.name, r))
                    &&& final(self).num_definitions == old(self).num_definitions + 1
                    &&& final(self).outer == old(self).outer
                    &&& final(self).free_symbols == old(self).free_symbols
                }
            }),
    {
        let scope = if self.outer.is_none() {
            SymbolScope::Global
        } else {
            SymbolScope::Local
        };
        let prev = self.find_local(name);
        match prev {
            Some(existing) => {
                if existing.scope == scope {
                    return existing;
                }
            },
            None => {},
        }
        let symbol = Symbol::new(name, scope, self.num_definitions);
        self.store.push((symbol.name.clone(), symbol.duplicate()));
        let stored = self.store.len();
        proof {
            assert(self.num_definitions < stored);
        }
        self.num_definitions = self.num_definitions + 1;
        proof {
            assert(self.store@ =~= old(self).store@.push((symbol.name, symbol)));
        }
        symbol
    }

    /// Bind `name` as the builtin registered at `index`.
    pub fn define_builtin(&mut self, index: usize, name: &str) -> (r: Symbol)
        ensures
            r.name@ == name@,
            r.scope == SymbolScope::Builtin,
            r.index == index,
            final(self).store@ == old(self).store@.push((r.name, r)),
            final(self).num_definitions == old(self).num_definitions,
            final(self).outer == old(self).outer,
            final(self).free_symbols == old(self).free_symbols,
    {
        let symbol = Symbol::new(name, SymbolScope::Builtin, index);
        self.store.push((symbol.name.clone(), symbol.duplicate()));
        proof {
            assert(self.store@ =~= old(self).store@.push((symbol.name, symbol)));
        }
        symbol
    }

    /// Bind `name` as the current function itself, for self-recursion.
    pub fn define_function_name(&mut self, name: &str) -> (r: Symbol)
        ensures
            r.name@ == name@,
            r.scope == SymbolScope::Function,
            r.index == 0,
            final(self).store@ == old(self).store@.push((r.name, r)),
            final(self).num_definitions == old(self).num_definitions,
            final(self).outer == old(self).outer,
            final(self).free_symbols == old(self).free_symbols,
    {
        let symbol = Symbol::new(name, SymbolScope::Function, 0);
        self.store.push((symbol.name.clone(), symbol.duplicate()));
        proof {
            assert(self.store@ =~= old(self).store@.push((symbol.name, symbol)));
        }
        symbol
    }

    /// Resolve `name` in this scope or its enclosing chain, lifting local,
    /// free, and function-self symbols of enclosing scopes into this scope
    /// as free variables.
    pub fn resolve(&mut self, name: &str) -> (r: Option<Symbol>)
        ensures
            resolve_rel(*old(self), *final(self), name@, r),
        decreases *old(self),
    {
        match self.find_local(name) {
            Some(symbol) => {
                return Some(symbol);
            },
            None => {},
        }
        match &mut self.outer {
            None => None,
            Some(outer) => {
                let resolved = outer.resolve(name);
                match resolved {
                    None => None,
                    Some(resolved) => match resolved.scope {
                        SymbolScope::Global | SymbolScope::Builtin => Some(resolved),
                        SymbolScope::Local | SymbolScope::Free | SymbolScope::Function => {
                            let symbol = Symbol::new(
                                name,
                                SymbolScope::Free,
                                self.free_symbols.len(),
                            );
                            self.free_symbols.push(resolved);
                            self.store.push((symbol.name.clone(), symbol.duplicate()));
                            proof {
                                assert(self.store@ =~= old(self).store@.push(
                                    (symbol.name, symbol),
                                ));
                                assert(self.free_symbols@.drop_last() =~= old(
                                    self,
                                ).free_symbols@);
                            }
                            Some(symbol)
                        },
                    },
                }
            },
        }
    }
}

/// For an identifier bound neither in the innermost nor in the intervening
/// scope, but bound in the scope outside those as a local, free, or
/// function-self symbol, the innermost resolution returns a `Free` symbol
/// for the name, and the intervening scope comes to record the same name as
/// `Free` in its own store: the capture chains through every scope between
/// the reference and the binding.
pub proof fn lemma_free_lifting_through_scopes(
    t0: SymbolTable,
    t1: SymbolTable,
    name: Seq<char>,
    r: Option<Symbol>,
)
    requires
        resolve_rel(t0, t1, name, r),
        store_lookup(t0.store@, name) is None,
        t0.outer matches Some(o) && store_lookup(o.store@, name) is None,
        ({
            let o = *t0.outer->Some_0;
            o.outer matches Some(oo) && store_lookup(oo.store@, name) matches Some(sym) && (
            sym.scope == SymbolScope::Local || sym.scope == SymbolScope::Free || sym.scope
                == SymbolScope::Function)
        }),
    ensures
        r matches Some(f) && f.scope == SymbolScope::Free && f.name@ == name,
        ({
            let o1 = *t1.outer->Some_0;
            &&& t1.outer is Some
            &&& store_lookup(o1.store@, name) matches Some(g) && g.scope == SymbolScope::Free
                && g.name@ == name
        }),
{
    let o = *t0.outer->Some_0;
    let oo = *o.outer->Some_0;
    let oo_sym = store_lookup(oo.store@, name)->Some_0;
    match r {
        None => {
            assert(resolve_rel(o, o, name, None::<Symbol>));
            assert(resolve_rel(oo, oo, name, None::<Symbol>));
            assert(false);
        },
        Some(f) => {
            match f.scope {
                SymbolScope::Global | SymbolScope::Builtin => {
                    // the binding found outside is local, free, or function-self,
                    // so a global or builtin result cannot come back
                    let o1 = *t1.outer->Some_0;
                    assert(resolve_rel(o, o1, name, Some(f)));
                    assert(resolve_rel(oo, *o1.outer->Some_0, name, Some(f)));
                    assert(false);
                },
                SymbolScope::Free => {
                    let o1 = *t1.outer->Some_0;
                    let orig = t1.free_symbols@.last();
                    assert(resolve_rel(o, o1, name, Some(orig)));
                    assert(orig.scope == SymbolScope::Local || orig.scope == SymbolScope::Free
                        || orig.scope == SymbolScope::Function);
                    match orig.scope {
                        SymbolScope::Free => {
                            let m_orig = o1.free_symbols@.last();
                            assert(o1.store@ == o.store@.push((orig.name, orig)));
                            lemma_store_lookup_push(o.store@, (orig.name, orig), name);
                            assert(orig.name@ == name);
                        },
                        _ => {
                            // a local or function-self result cannot come back from the
                            // intervening scope: its own store does not bind the name,
                            // so only a passthrough or a lifted Free symbol returns
                            assert(false);
                        },
                    }
                },
                _ => {
                    assert(false);
                },
            }
        },
    }
}

impl SymbolTable {
    /// An equal copy of the symbols lifted into this scope as free
    /// variables, in lifting order.
    pub fn free_symbols_list(&self) -> (r: Vec<Symbol>)
        ensures
            r@ == self.free_symbols@,
    {
        let mut out: Vec<Symbol> = Vec::new();
        let mut i: usize = 0;
        while i < self.free_symbols.len()
            invariant
                i <= self.free_symbols@.len(),
                out@ == self.free_symbols@.subrange(0, i as int),
            decreases self.free_symbols@.len() - i,
        {
            out.push(self.free_symbols[i].duplicate());
            proof {
                assert(self.free_symbols@.subrange(0, i as int).push(
                    self.free_symbols@[i as int],
                ) =~= self.free_symbols@.subrange(0, i as int + 1));
            }
            i = i + 1;
        }
        proof {
            assert(self.free_symbols@.subrange(0, self.free_symbols@.len() as int)
                =~= self.free_symbols@);
        }
        out
    }
}

/// A symbol table chain is well formed: in every scope the definition count
/// stays within the store.
pub open spec fn table_wf(t: SymbolTable) -> bool
    decreases t,
{
    &&& t.num_definitions <= t.store@.len()
    &&& match t.outer {
        Some(o) => table_wf(*o),
        None => true,
    }
}

/// Resolution preserves chain well-formedness.
pub proof fn lemma_resolve_preserves_wf(
    t0: SymbolTable,
    t1: SymbolTable,
    name: Seq<char>,
    r: Option<Symbol>,
)
    requires
        resolve_rel(t0, t1, name, r),
        table_wf(t0),
    ensures
        table_wf(t1),
    decreases t0,
{
    match store_lookup(t0.store@, name) {
        Some(_) => {},
        None => match t0.outer {
            None => {},
            Some(outer0) => match r {
                None => {},
                Some(sym) => match sym.scope {
                    SymbolScope::Global | SymbolScope::Builtin => {
                        let outer1 = t1.outer->Some_0;
                        lemma_resolve_preserves_wf(*outer0, *outer1, name, Some(sym));
                    },
                    SymbolScope::Free => {
                        let orig = t1.free_symbols@.last();
                        let outer1 = t1.outer->Some_0;
                        lemma_resolve_preserves_wf(*outer0, *outer1, name, Some(orig));
                    },
                    _ => {},
                },
            },
        },
    }
}

/// Register every builtin name, in registry order, in `table`.
pub fn define_builtins(table: &mut SymbolTable)
    ensures
        final(table).num_definitions == old(table).num_definitions,
        final(table).outer == old(table).outer,
        final(table).free_symbols == old(table).free_symbols,
        forall|i: int|
            0 <= i < 6 ==> {
                let found = store_lookup(
                    final(table).store@,
                    (#[trigger] builtin_name_spec(i as nat))->Some_0,
                );
                &&& found matches Some(sym)
                &&& sym.name@ == builtin_name_spec(i as nat)->Some_0
                &&& sym.scope == SymbolScope::Builtin
                &&& sym.index == i
            },
        forall|other: Seq<char>|
            (forall|i: int| 0 <= i < 6 ==> (#[trigger] builtin_name_spec(i as nat))->Some_0
                != other) ==> #[trigger] store_lookup(final(table).store@, other) == store_lookup(
                old(table).store@,
                other,
            ),
{
    let names = builtin_names();
    let mut index: usize = 0;
    while index < names.len()
        invariant
            names@.len() == 6,
            forall|i: int| 0 <= i < 6 ==> Some(#[trigger] names@[i]@) == builtin_name_spec(i as nat),
            index <= 6,
            table.num_definitions == old(table).num_definitions,
            table.outer == old(table).outer,
            table.free_symbols == old(table).free_symbols,
            forall|i: int|
                0 <= i < index ==> {
                    let found = store_lookup(
                        table.store@,
                        (#[trigger] builtin_name_spec(i as nat))->Some_0,
                    );
                    &&& found matches Some(sym)
                    &&& sym.name@ == builtin_name_spec(i as nat)->Some_0
                    &&& sym.scope == SymbolScope::Builtin
                    &&& sym.index == i
                },
            forall|other: Seq<char>|
                (forall|i: int| 0 <= i < 6 ==> (#[trigger] builtin_name_spec(i as nat))->Some_0
                    != other) ==> #[trigger] store_lookup(table.store@, other) == store_lookup(
                    old(table).store@,
                    other,
                ),
        decreases 6 - index,
    {
        let ghost before = table.store@;
        let name = names[index];
        let sym = table.define_builtin(index, name);
        proof {
            reveal_strlit("len");
            reveal_strlit("first");
            reveal_strlit("last");
            reveal_strlit("rest");
            reveal_strlit("push");
            reveal_strlit("puts");
            assert("last"@[0] != "puts"@[0]);
            assert("rest"@[0] != "puts"@[0]);
            assert("push"@[2] != "puts"@[2]);
            assert("last"@[0] != "rest"@[0]);
            assert("last"@[0] != "push"@[0]);
            assert("rest"@[0] != "push"@[0]);
            assert forall|m: Seq<char>| true implies #[trigger] store_lookup(table.store@, m) == (
            if name@ == m {
                Some(sym)
            } else {
                store_lookup(before, m)
            }) by {
                lemma_store_lookup_push(before, (sym.name, sym), m);
                assert(sym.name@ == name@);
            }
        }
        index = index + 1;
    }
}

} // verus!
