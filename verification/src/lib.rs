//! A tree-walking interpreter for a small, expression-oriented scripting
//! language in which control flow is not a keyword but a regular function
//! call: `if`, `for` and `while` are ordinary callables whose branch and body
//! arguments are function references.  Comparisons and calls that appear in
//! argument position are deferred as thunks and re-evaluated in the scope of
//! whoever finally drives them; bindings live in shared cells so that
//! by-reference parameters alias their caller's slot.
//!
//! Identifiers are interned: the embedder maps source names to [`ast::Name`]
//! symbols before handing a program to the interpreter, and supplies input
//! lines up front.  Output is collected as lines of text in the machine state
//! rather than written to a stream, so the whole evaluator is a function from
//! values to values.

pub mod ast;
pub mod environment;
pub mod function;
pub mod machine;
pub mod module;
pub mod primitive_functions;
pub mod program;
pub mod laws;
pub mod render;
pub mod eval;
pub mod value;

use vstd::prelude::*;

verus! {

} // verus!
