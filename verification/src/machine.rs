//! The interpreter's mutable state: the cell store, the global
//! environment, the anonymous-function cache, the fresh-name counter, and
//! the text channels.
//!
//! Output is collected rather than written: each completed print call
//! appends one line.  Input is supplied up front as a sequence of lines
//! (already trimmed by the embedder); reading past the end yields empty
//! strings, as reading an exhausted stream does.

use vstd::prelude::*;
use vstd::pervasive::VecAdditionalExecFns;

use crate::ast::{AnonymousFunc, Name, same_anonymous_func};
use crate::environment::{CellId, Environment, ScopeList};
use crate::function::{Function, clone_function};
use crate::value::{RunError, Value};

verus! {

/// The anonymous-function cache: an association list from anonymous
/// syntax to the function it reified to, most recent first.
#[derive(Debug, PartialEq, Eq)]
pub enum CacheList {
    Nil,
    Cons(AnonymousFunc, Function, Box<CacheList>),
}

/// The cached function for syntax `a`, under syntactic identity.
pub open spec fn cache_get(c: CacheList, a: AnonymousFunc) -> Option<Function>
    decreases c,
{
    match c {
        CacheList::Nil => Option::None,
        CacheList::Cons(k, f, rest) => if same_anonymous_func(k, a) {
            Option::Some(f)
        } else {
            cache_get(*rest, a)
        },
    }
}

/// Looks anonymous syntax up in the cache.
pub fn cache_lookup(c: &CacheList, a: &AnonymousFunc) -> (r: Option<Function>)
    ensures
        r == cache_get(*c, *a),
    decreases *c,
{
    match c {
        CacheList::Nil => Option::None,
        CacheList::Cons(k, f, rest) => if crate::ast::anonymous_func_same(k, a) {
            Option::Some(clone_function(f))
        } else {
            cache_lookup(rest, a)
        },
    }
}

/// The mathematical image of a machine: what every contract of the
/// evaluator speaks about.
pub struct StateG {
    /// The cells, indexed by [`CellId`].
    pub store: Seq<Value>,
    /// The global environment.
    pub globals: Environment,
    /// The anonymous-function cache.
    pub cache: CacheList,
    /// The next fresh anonymous name.
    pub next_anon: u64,
    /// The partially built output line.
    pub line: Seq<char>,
    /// The completed output lines.
    pub output: Seq<Seq<char>>,
    /// The input lines.
    pub input: Seq<String>,
    /// How many input lines were consumed.
    pub input_at: int,
    /// The canonical empty line handed out once input is exhausted.
    pub empty_line: String,
}

/// The interpreter state.
#[derive(Debug)]
pub struct Machine {
    pub store: Vec<Value>,
    pub globals: Environment,
    pub cache: CacheList,
    pub next_anon: u64,
    pub line: String,
    pub output: Vec<String>,
    pub input: Vec<String>,
    pub input_at: usize,
    pub empty_line: String,
}

impl View for Machine {
    type V = StateG;

    open spec fn view(&self) -> StateG {
        StateG {
            store: self.store@,
            globals: self.globals,
            cache: self.cache,
            next_anon: self.next_anon,
            line: self.line@,
            output: self.output.deep_view(),
            input: self.input@,
            input_at: self.input_at as int,
            empty_line: self.empty_line,
        }
    }
}

/// The value of cell `c`.
pub open spec fn spec_cell_read(store: Seq<Value>, c: CellId) -> Result<Value, RunError> {
    if c < store.len() {
        Result::Ok(store[c as int])
    } else {
        Result::Err(RunError::BadCell)
    }
}

/// The store with cell `c` replaced by `v`.
pub open spec fn spec_cell_write(g: StateG, c: CellId, v: Value) -> Result<StateG, RunError> {
    if c < g.store.len() {
        Result::Ok(StateG { store: g.store.update(c as int, v), ..g })
    } else {
        Result::Err(RunError::BadCell)
    }
}

/// One line of input and the state after taking it: the next unread line,
/// or the canonical empty line once the input is exhausted.
pub open spec fn spec_take_input(g: StateG) -> (StateG, String) {
    if g.input_at < g.input.len() {
        (StateG { input_at: g.input_at + 1, ..g }, g.input[g.input_at])
    } else {
        (g, g.empty_line)
    }
}

/// The state after a value is installed globally: a fresh cell holds it
/// and the name binds to that cell.
pub open spec fn spec_install(g: StateG, n: Name, v: Value) -> StateG {
    StateG {
        store: g.store.push(v),
        globals: Environment {
            global_stmts: ScopeList::Cons(
                n,
                g.store.len() as CellId,
                Box::new(g.globals.global_stmts),
            ),
        },
        ..g
    }
}

impl Machine {
    /// A machine with empty store, scopes and channels.
    pub fn new() -> (r: Machine)
        ensures
            r@.store == Seq::<Value>::empty(),
            r@.globals == (Environment { global_stmts: ScopeList::Nil }),
            r@.cache == CacheList::Nil,
            r@.next_anon == 0u64,
            r@.line == Seq::<char>::empty(),
            r@.output == Seq::<Seq<char>>::empty(),
            r@.input == Seq::<String>::empty(),
            r@.input_at == 0int,
            r@.empty_line@ == Seq::<char>::empty(),
    {
        let r = Machine {
            store: Vec::new(),
            globals: Environment::new(),
            cache: CacheList::Nil,
            next_anon: 0,
            line: String::new(),
            output: Vec::new(),
            input: Vec::new(),
            input_at: 0,
            empty_line: String::new(),
        };
        proof {
            assert(r@.output =~= Seq::<Seq<char>>::empty());
        }
        r
    }

    /// Allocates a fresh cell holding `v` and returns its index.
    pub fn new_cell(&mut self, v: Value) -> (c: CellId)
        ensures
            c == old(self)@.store.len(),
            final(self)@ == (StateG { store: old(self)@.store.push(v), ..old(self)@ }),
    {
        let c = self.store.len();
        self.store.push(v);
        c
    }

    /// Reads cell `c`, yielding a copy of its value.
    pub fn cell_read(&self, c: CellId) -> (r: Result<Value, RunError>)
        ensures
            r == spec_cell_read(self@.store, c),
    {
        if c < self.store.len() {
            Result::Ok(crate::value::clone_value(&self.store[c]))
        } else {
            Result::Err(RunError::BadCell)
        }
    }

    /// Overwrites cell `c` with `v`.
    pub fn cell_write(&mut self, c: CellId, v: Value) -> (r: Result<(), RunError>)
        ensures
            match spec_cell_write(old(self)@, c, v) {
                Result::Ok(g) => r is Ok && final(self)@ == g,
                Result::Err(e) => r == Result::<(), RunError>::Err(e) && final(self)@ == old(
                    self,
                )@,
            },
    {
        if c < self.store.len() {
            self.store.set(c, v);
            Result::Ok(())
        } else {
            Result::Err(RunError::BadCell)
        }
    }

    /// Allocates a cell for `v` and binds `n` to it globally.
    pub fn install_global(&mut self, n: Name, v: Value)
        ensures
            final(self)@ == spec_install(old(self)@, n, v),
    {
        let c = self.new_cell(v);
        self.globals.insert_stmt(n, c);
    }

    /// Coins a fresh anonymous name.
    pub fn fresh_anon(&mut self) -> (r: Result<Name, RunError>)
        ensures
            if old(self)@.next_anon < u64::MAX {
                r == Result::<Name, RunError>::Ok(Name::Anon(old(self)@.next_anon))
                    && final(self)@ == (StateG {
                    next_anon: (old(self)@.next_anon + 1) as u64,
                    ..old(self)@
                })
            } else {
                r == Result::<Name, RunError>::Err(RunError::NameOverflow) && final(self)@ == old(
                    self,
                )@
            },
    {
        if self.next_anon < u64::MAX {
            let n = Name::Anon(self.next_anon);
            self.next_anon = self.next_anon + 1;
            Result::Ok(n)
        } else {
            Result::Err(RunError::NameOverflow)
        }
    }

    /// Records that anonymous syntax `a` reified to `f`.
    pub fn cache_insert(&mut self, a: AnonymousFunc, f: Function)
        ensures
            final(self)@ == (StateG {
                cache: CacheList::Cons(a, f, Box::new(old(self)@.cache)),
                ..old(self)@
            }),
    {
        let mut taken = CacheList::Nil;
        core::mem::swap(&mut self.cache, &mut taken);
        self.cache = CacheList::Cons(a, f, Box::new(taken));
    }

    /// Appends text to the line being built.
    pub fn line_append(&mut self, s: &str)
        ensures
            final(self)@ == (StateG { line: old(self)@.line + s@, ..old(self)@ }),
    {
        self.line.append(s);
    }

    /// Completes the current line: moves it to the output.
    pub fn end_line(&mut self)
        ensures
            final(self)@ == (StateG {
                line: Seq::<char>::empty(),
                output: old(self)@.output.push(old(self)@.line),
                ..old(self)@
            }),
    {
        let mut done = String::new();
        core::mem::swap(&mut self.line, &mut done);
        let ghost before = self.output.deep_view();
        let ghost text = done@;
        self.output.push(done);
        proof {
            assert(self.output.deep_view() =~= before.push(text));
        }
    }

    /// Takes the next line of input, or an empty line once the input is
    /// exhausted.
    pub fn take_input(&mut self) -> (r: String)
        ensures
            spec_take_input(old(self)@) == (final(self)@, r),
    {
        if self.input_at < self.input.len() {
            let s = self.input[self.input_at].clone();
            self.input_at = self.input_at + 1;
            s
        } else {
            self.empty_line.clone()
        }
    }

    /// Supplies the input lines, before the program runs.
    pub fn set_input(&mut self, input: Vec<String>)
        ensures
            final(self)@ == (StateG { input: input@, input_at: 0int, ..old(self)@ }),
    {
        self.input = input;
        self.input_at = 0;
    }
}

} // verus!
