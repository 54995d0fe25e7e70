//! A named collection of values: what a module declaration gathers.
//! Module resolution is not part of the evaluator; this type only stores
//! and hands back definitions under their names.

use vstd::prelude::*;

use crate::ast::Name;
use crate::value::{Value, clone_value};

verus! {

/// The bindings of a module, most recent first.
#[derive(Debug, PartialEq, Eq)]
pub enum ModuleList {
    Nil,
    Cons(Name, Value, Box<ModuleList>),
}

/// The value bound to `n`, most recent binding first.
pub open spec fn module_get(l: ModuleList, n: Name) -> Option<Value>
    decreases l,
{
    match l {
        ModuleList::Nil => Option::None,
        ModuleList::Cons(m, v, rest) => if m == n {
            Option::Some(v)
        } else {
            module_get(*rest, n)
        },
    }
}

fn module_list_lookup(l: &ModuleList, n: Name) -> (r: Option<Value>)
    ensures
        r == module_get(*l, n),
    decreases *l,
{
    match l {
        ModuleList::Nil => Option::None,
        ModuleList::Cons(m, v, rest) => if *m == n {
            Option::Some(clone_value(v))
        } else {
            module_list_lookup(rest, n)
        },
    }
}

/// A named collection of definitions.
#[derive(Debug, PartialEq, Eq)]
pub struct Module {
    pub ident: Name,
    pub stmts: ModuleList,
}

impl Module {
    /// An empty module named `ident`.
    pub fn new(ident: Name) -> (r: Module)
        ensures
            r == (Module { ident, stmts: ModuleList::Nil }),
    {
        Module { ident, stmts: ModuleList::Nil }
    }

    /// Binds `n` to `v`, replacing what a lookup of `n` sees.
    pub fn insert(&mut self, n: Name, v: Value)
        ensures
            final(self).ident == old(self).ident,
            final(self).stmts == ModuleList::Cons(n, v, Box::new(old(self).stmts)),
    {
        let mut taken = ModuleList::Nil;
        core::mem::swap(&mut self.stmts, &mut taken);
        self.stmts = ModuleList::Cons(n, v, Box::new(taken));
    }

    /// The value bound to `n`, if any.
    pub fn get(&self, n: Name) -> (r: Option<Value>)
        ensures
            r == module_get(self.stmts, n),
    {
        module_list_lookup(&self.stmts, n)
    }
}

} // verus!
