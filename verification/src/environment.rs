//! Environments bind names to cells.
//!
//! A cell is a slot in the machine's store ([`crate::machine::Machine`])
//! that may be shared between several names across scopes; that sharing is
//! how by-reference parameters see their caller's writes.  An environment
//! is an association list from names to cell indices: inserting a binding
//! prepends it, and lookup takes the most recent entry, so inserting under
//! an existing name replaces what a lookup sees.

use vstd::prelude::*;

use crate::ast::Name;

verus! {

/// The index of a cell in the machine's store.
pub type CellId = usize;

/// An association list of name bindings, most recent first.
#[derive(Debug, PartialEq, Eq)]
pub enum ScopeList {
    Nil,
    Cons(Name, CellId, Box<ScopeList>),
}

/// The cell bound to `n` in `s`: the most recently inserted binding wins.
pub open spec fn scope_get(s: ScopeList, n: Name) -> Option<CellId>
    decreases s,
{
    match s {
        ScopeList::Nil => Option::None,
        ScopeList::Cons(m, c, rest) => if m == n {
            Option::Some(c)
        } else {
            scope_get(*rest, n)
        },
    }
}

/// Looks `n` up in `s`.
pub fn scope_lookup(s: &ScopeList, n: Name) -> (r: Option<CellId>)
    ensures
        r == scope_get(*s, n),
    decreases *s,
{
    match s {
        ScopeList::Nil => Option::None,
        ScopeList::Cons(m, c, rest) => if *m == n {
            Option::Some(*c)
        } else {
            scope_lookup(rest, n)
        },
    }
}

/// A deep copy of a scope list, equal to the original.
pub fn clone_scope_list(s: &ScopeList) -> (r: ScopeList)
    ensures
        r == *s,
    decreases *s,
{
    match s {
        ScopeList::Nil => ScopeList::Nil,
        ScopeList::Cons(n, c, rest) => ScopeList::Cons(*n, *c, Box::new(clone_scope_list(rest))),
    }
}

/// The scope of one function activation.
#[derive(Debug, PartialEq, Eq)]
pub struct LocalEnvironment {
    pub variables: ScopeList,
}

impl LocalEnvironment {
    /// An empty scope.
    pub fn new() -> (r: LocalEnvironment)
        ensures
            r.variables == ScopeList::Nil,
    {
        LocalEnvironment { variables: ScopeList::Nil }
    }

    /// Binds `n` to cell `c`, replacing what a lookup of `n` sees.
    pub fn insert(&mut self, n: Name, c: CellId)
        ensures
            final(self).variables == ScopeList::Cons(n, c, Box::new(old(self).variables)),
    {
        let mut taken = ScopeList::Nil;
        core::mem::swap(&mut self.variables, &mut taken);
        self.variables = ScopeList::Cons(n, c, Box::new(taken));
    }

    /// The cell bound to `n`, if any.
    pub fn lookup(&self, n: Name) -> (r: Option<CellId>)
        ensures
            r == scope_get(self.variables, n),
    {
        scope_lookup(&self.variables, n)
    }
}

/// A deep copy of a local environment, equal to the original.
pub fn clone_local_environment(e: &LocalEnvironment) -> (r: LocalEnvironment)
    ensures
        r == *e,
{
    LocalEnvironment { variables: clone_scope_list(&e.variables) }
}

/// The global environment: bindings installed by program bootstrap.
#[derive(Debug, PartialEq, Eq)]
pub struct Environment {
    pub global_stmts: ScopeList,
}

impl Environment {
    /// An empty global environment.
    pub fn new() -> (r: Environment)
        ensures
            r.global_stmts == ScopeList::Nil,
    {
        Environment { global_stmts: ScopeList::Nil }
    }

    /// Binds `n` to cell `c` globally, replacing what a lookup of `n` sees.
    pub fn insert_stmt(&mut self, n: Name, c: CellId)
        ensures
            final(self).global_stmts == ScopeList::Cons(n, c, Box::new(old(self).global_stmts)),
    {
        let mut taken = ScopeList::Nil;
        core::mem::swap(&mut self.global_stmts, &mut taken);
        self.global_stmts = ScopeList::Cons(n, c, Box::new(taken));
    }

    /// The cell bound to `n`, if any.
    pub fn lookup(&self, n: Name) -> (r: Option<CellId>)
        ensures
            r == scope_get(self.global_stmts, n),
    {
        scope_lookup(&self.global_stmts, n)
    }
}

/// Name resolution: the local scope first, falling back to the global one.
pub open spec fn spec_resolve(env: LocalEnvironment, globals: Environment, n: Name) -> Option<
    CellId,
> {
    match scope_get(env.variables, n) {
        Option::Some(c) => Option::Some(c),
        Option::None => scope_get(globals.global_stmts, n),
    }
}

/// Resolves `n` local-before-global.
pub fn resolve(env: &LocalEnvironment, globals: &Environment, n: Name) -> (r: Option<CellId>)
    ensures
        r == spec_resolve(*env, *globals, n),
{
    match env.lookup(n) {
        Option::Some(c) => Option::Some(c),
        Option::None => globals.lookup(n),
    }
}

} // verus!
