//! Runtime values and their algebra.
//!
//! Arithmetic is defined on matching numeric operands only and yields
//! `Void` on any other combination; the logical connectives demand
//! booleans and any other operand is a fatal error.  A `RefValue` operand
//! is transparently dereferenced, to any depth, before an operator looks
//! at it.  Integer arithmetic wraps (two's complement); division and
//! remainder fail fatally on a zero divisor and on the one overflowing
//! dividend/divisor pair.

use vstd::prelude::*;

use crate::ast::{CallExpr, Expr, Name, Prim, TypeName, clone_call_expr, clone_expr};
use crate::environment::CellId;
use crate::function::{Function, clone_function};

verus! {

/// The kind of a deferred comparison or logical connective.
#[derive(Clone, Copy, Debug, PartialEq, Eq, Structural)]
pub enum CondType {
    Eq,
    Ne,
    Gt,
    Lt,
    Ge,
    Le,
    Or,
    And,
}

/// A fatal runtime condition.  Every one of these terminates the program;
/// no recovery is attempted anywhere.
#[derive(Clone, Copy, Debug, PartialEq, Eq, Structural)]
pub enum RunError {
    /// A name was found in neither the local nor the global scope.
    UnboundName(Name),
    /// A parameter or return type did not match the value's reified type.
    TypeMismatch,
    /// A call supplied fewer arguments than the callee has parameters, or
    /// a built-in was handed too few arguments.
    ArityMismatch,
    /// The callee resolved to a value that is not callable.
    NotCallable,
    /// A logical connective met an operand that is not a boolean.
    ExpectedBool,
    /// Integer division or remainder by zero.
    DivisionByZero,
    /// Integer division or remainder overflowed (the most negative value
    /// divided by minus one).
    ArithmeticOverflow,
    /// A chain of references closed on itself.
    RefCycle,
    /// A reference named a cell outside the store.
    BadCell,
    /// A function-pointer literal without pre-bound arguments, or an
    /// anonymous function without a body, was invoked.
    MissingBody,
    /// A statement form the evaluator does not drive (a nested function
    /// definition or a stray body).
    UnhandledStatement,
    /// The program has no `main` function.
    MissingMain,
    /// The evaluator ran out of fresh names for anonymous functions.
    NameOverflow,
    /// The recursion budget was exhausted.
    OutOfFuel,
}

/// A runtime value.
#[derive(Debug, PartialEq, Eq)]
pub enum Value {
    Str(String),
    Int(i64),
    Bool(bool),
    /// A built-in callable.
    FuncPtr(Prim),
    /// An aliasing handle on a store cell.
    RefValue(CellId),
    /// A user-defined callable.
    Func(Function),
    /// A deferred call: callee name plus unevaluated argument expressions,
    /// re-evaluated by whoever invokes it.
    CallFunc(CallExpr),
    /// A reified type.
    Type(TypeName),
    /// An anonymous iteration source, half-open.
    Range(i64, i64),
    /// A named iteration source, half-open.
    Counter(Name, i64, i64),
    /// A deferred comparison: both operand expressions unevaluated.
    Cond(CondType, Box<Expr>, Box<Expr>),
    /// The absence of a value.
    Void,
}

/// A deep copy of a value, equal to the original.
pub fn clone_value(v: &Value) -> (r: Value)
    ensures
        r == *v,
{
    match v {
        Value::Str(s) => Value::Str(s.clone()),
        Value::Int(i) => Value::Int(*i),
        Value::Bool(b) => Value::Bool(*b),
        Value::FuncPtr(p) => Value::FuncPtr(*p),
        Value::RefValue(c) => Value::RefValue(*c),
        Value::Func(f) => Value::Func(clone_function(f)),
        Value::CallFunc(c) => Value::CallFunc(clone_call_expr(c)),
        Value::Type(t) => Value::Type(*t),
        Value::Range(s, e) => Value::Range(*s, *e),
        Value::Counter(n, s, e) => Value::Counter(*n, *s, *e),
        Value::Cond(ct, l, r2) => Value::Cond(
            *ct,
            Box::new(clone_expr(l)),
            Box::new(clone_expr(r2)),
        ),
        Value::Void => Value::Void,
    }
}

/// Follows reference values through the store for at most `depth` hops.
pub open spec fn spec_deref_n(store: Seq<Value>, v: Value, depth: nat) -> Result<Value, RunError>
    decreases depth,
{
    match v {
        Value::RefValue(c) => if c >= store.len() {
            Result::Err(RunError::BadCell)
        } else if depth == 0 {
            Result::Err(RunError::RefCycle)
        } else {
            spec_deref_n(store, store[c as int], (depth - 1) as nat)
        },
        _ => Result::Ok(v),
    }
}

/// The value behind `v`: `v` itself unless it is a reference, in which
/// case the chain of references is followed to a non-reference.  A chain
/// longer than the store has closed on itself and is a fatal error.
pub open spec fn spec_deref(store: Seq<Value>, v: Value) -> Result<Value, RunError> {
    spec_deref_n(store, v, store.len())
}

fn deref_value_n(store: &Vec<Value>, v: Value, depth: usize) -> (r: Result<Value, RunError>)
    ensures
        r == spec_deref_n(store@, v, depth as nat),
    decreases depth,
{
    match v {
        Value::RefValue(c) => if c >= store.len() {
            Result::Err(RunError::BadCell)
        } else if depth == 0 {
            Result::Err(RunError::RefCycle)
        } else {
            deref_value_n(store, clone_value(&store[c]), depth - 1)
        },
        _ => Result::Ok(v),
    }
}

/// Dereferences `v` against `store`, to any depth.
pub fn deref_value(store: &Vec<Value>, v: Value) -> (r: Result<Value, RunError>)
    ensures
        r == spec_deref(store@, v),
{
    let depth = store.len();
    deref_value_n(store, v, depth)
}

/// The reified type of a value that is not a reference.
pub open spec fn spec_shallow_type(v: Value) -> TypeName {
    match v {
        Value::Str(_) => TypeName::TString,
        Value::Int(_) => TypeName::TInt,
        Value::Bool(_) => TypeName::TBool,
        Value::FuncPtr(p) => TypeName::TPrim(p),
        Value::Func(f) => f.rty,
        Value::CallFunc(_) => TypeName::TFunc,
        Value::Type(t) => t,
        Value::Range(s, e) => TypeName::TRange(s, e),
        Value::Counter(n, s, e) => TypeName::TCounter(n, s, e),
        Value::Cond(_, _, _) => TypeName::TBool,
        Value::RefValue(_) => TypeName::TVoid,
        Value::Void => TypeName::TVoid,
    }
}

/// The reified type of `v`: a reference has the type of the cell it
/// finally designates.
pub open spec fn spec_type_of(store: Seq<Value>, v: Value) -> Result<TypeName, RunError> {
    match spec_deref(store, v) {
        Result::Err(e) => Result::Err(e),
        Result::Ok(dv) => Result::Ok(spec_shallow_type(dv)),
    }
}

/// Computes the reified type of `v`.
pub fn type_of_value(store: &Vec<Value>, v: &Value) -> (r: Result<TypeName, RunError>)
    ensures
        r == spec_type_of(store@, *v),
{
    match deref_value(store, clone_value(v)) {
        Result::Err(e) => Result::Err(e),
        Result::Ok(dv) => Result::Ok(
            match dv {
                Value::Str(_) => TypeName::TString,
                Value::Int(_) => TypeName::TInt,
                Value::Bool(_) => TypeName::TBool,
                Value::FuncPtr(p) => TypeName::TPrim(p),
                Value::Func(f) => f.rty,
                Value::CallFunc(_) => TypeName::TFunc,
                Value::Type(t) => t,
                Value::Range(s, e) => TypeName::TRange(s, e),
                Value::Counter(n, s, e) => TypeName::TCounter(n, s, e),
                Value::Cond(_, _, _) => TypeName::TBool,
                Value::RefValue(_) => TypeName::TVoid,
                Value::Void => TypeName::TVoid,
            },
        ),
    }
}

/// Structural equality of values: same-variant primitives compare by
/// content (strings by their characters), built-ins by identity, reified
/// types structurally, and two functions are equal exactly when their
/// declared return types are; everything else, references included, is
/// unequal.
pub open spec fn spec_value_eq(a: Value, b: Value) -> bool {
    match (a, b) {
        (Value::Str(x), Value::Str(y)) => x@ == y@,
        (Value::Int(x), Value::Int(y)) => x == y,
        (Value::Bool(x), Value::Bool(y)) => x == y,
        (Value::FuncPtr(p), Value::FuncPtr(q)) => p == q,
        (Value::Type(t), Value::Type(u)) => t == u,
        (Value::Func(f), Value::Func(g)) => f.rty == g.rty,
        _ => false,
    }
}

/// Decides [`spec_value_eq`].
pub fn value_eq(a: &Value, b: &Value) -> (r: bool)
    ensures
        r == spec_value_eq(*a, *b),
{
    match (a, b) {
        (Value::Str(x), Value::Str(y)) => x.eq(y),
        (Value::Int(x), Value::Int(y)) => x == y,
        (Value::Bool(x), Value::Bool(y)) => x == y,
        (Value::FuncPtr(p), Value::FuncPtr(q)) => p == q,
        (Value::Type(t), Value::Type(u)) => t == u,
        (Value::Func(f), Value::Func(g)) => f.rty == g.rty,
        _ => false,
    }
}

/// Whether comparison `ct` holds of `a` and `b`.  Ordering is defined only
/// between two integers and between two booleans (`false` below `true`);
/// any other pair is unordered, so all four order comparisons are false on
/// it.  Only the six comparison kinds are meaningful here; the two logical
/// connectives never reach this relation.
pub open spec fn spec_compare(ct: CondType, a: Value, b: Value) -> bool {
    match ct {
        CondType::Eq => spec_value_eq(a, b),
        CondType::Ne => !spec_value_eq(a, b),
        CondType::Gt => match (a, b) {
            (Value::Int(x), Value::Int(y)) => x > y,
            (Value::Bool(x), Value::Bool(y)) => x && !y,
            _ => false,
        },
        CondType::Lt => match (a, b) {
            (Value::Int(x), Value::Int(y)) => x < y,
            (Value::Bool(x), Value::Bool(y)) => !x && y,
            _ => false,
        },
        CondType::Ge => match (a, b) {
            (Value::Int(x), Value::Int(y)) => x >= y,
            (Value::Bool(x), Value::Bool(y)) => x || !y,
            _ => false,
        },
        CondType::Le => match (a, b) {
            (Value::Int(x), Value::Int(y)) => x <= y,
            (Value::Bool(x), Value::Bool(y)) => !x || y,
            _ => false,
        },
        CondType::Or => false,
        CondType::And => false,
    }
}

/// Decides [`spec_compare`].
pub fn compare_values(ct: CondType, a: &Value, b: &Value) -> (r: bool)
    ensures
        r == spec_compare(ct, *a, *b),
{
    match ct {
        CondType::Eq => value_eq(a, b),
        CondType::Ne => !value_eq(a, b),
        CondType::Gt => match (a, b) {
            (Value::Int(x), Value::Int(y)) => *x > *y,
            (Value::Bool(x), Value::Bool(y)) => *x && !*y,
            _ => false,
        },
        CondType::Lt => match (a, b) {
            (Value::Int(x), Value::Int(y)) => *x < *y,
            (Value::Bool(x), Value::Bool(y)) => !*x && *y,
            _ => false,
        },
        CondType::Ge => match (a, b) {
            (Value::Int(x), Value::Int(y)) => *x >= *y,
            (Value::Bool(x), Value::Bool(y)) => *x || !*y,
            _ => false,
        },
        CondType::Le => match (a, b) {
            (Value::Int(x), Value::Int(y)) => *x <= *y,
            (Value::Bool(x), Value::Bool(y)) => !*x || *y,
            _ => false,
        },
        CondType::Or => false,
        CondType::And => false,
    }
}

/// The sum of two values: wrapping addition on two integers, `Void` on any
/// other (dereferenced) pair.
pub open spec fn spec_value_add(store: Seq<Value>, a: Value, b: Value) -> Result<
    Value,
    RunError,
> {
    match (spec_deref(store, a), spec_deref(store, b)) {
        (Result::Err(e), _) => Result::Err(e),
        (Result::Ok(_), Result::Err(e)) => Result::Err(e),
        (Result::Ok(da), Result::Ok(db)) => match (da, db) {
            (Value::Int(x), Value::Int(y)) => Result::Ok(Value::Int(x.wrapping_add(y))),
            _ => Result::Ok(Value::Void),
        },
    }
}

/// Computes [`spec_value_add`].
pub fn value_add(store: &Vec<Value>, a: Value, b: Value) -> (r: Result<Value, RunError>)
    ensures
        r == spec_value_add(store@, a, b),
{
    match deref_value(store, a) {
        Result::Err(e) => Result::Err(e),
        Result::Ok(da) => match deref_value(store, b) {
            Result::Err(e) => Result::Err(e),
            Result::Ok(db) => match (da, db) {
                (Value::Int(x), Value::Int(y)) => Result::Ok(Value::Int(x.wrapping_add(y))),
                _ => Result::Ok(Value::Void),
            },
        },
    }
}

/// The difference of two values, as [`spec_value_add`] with subtraction.
pub open spec fn spec_value_sub(store: Seq<Value>, a: Value, b: Value) -> Result<
    Value,
    RunError,
> {
    match (spec_deref(store, a), spec_deref(store, b)) {
        (Result::Err(e), _) => Result::Err(e),
        (Result::Ok(_), Result::Err(e)) => Result::Err(e),
        (Result::Ok(da), Result::Ok(db)) => match (da, db) {
            (Value::Int(x), Value::Int(y)) => Result::Ok(Value::Int(x.wrapping_sub(y))),
            _ => Result::Ok(Value::Void),
        },
    }
}

/// Computes [`spec_value_sub`].
pub fn value_sub(store: &Vec<Value>, a: Value, b: Value) -> (r: Result<Value, RunError>)
    ensures
        r == spec_value_sub(store@, a, b),
{
    match deref_value(store, a) {
        Result::Err(e) => Result::Err(e),
        Result::Ok(da) => match deref_value(store, b) {
            Result::Err(e) => Result::Err(e),
            Result::Ok(db) => match (da, db) {
                (Value::Int(x), Value::Int(y)) => Result::Ok(Value::Int(x.wrapping_sub(y))),
                _ => Result::Ok(Value::Void),
            },
        },
    }
}

/// The product of two values, as [`spec_value_add`] with multiplication.
pub open spec fn spec_value_mul(store: Seq<Value>, a: Value, b: Value) -> Result<
    Value,
    RunError,
> {
    match (spec_deref(store, a), spec_deref(store, b)) {
        (Result::Err(e), _) => Result::Err(e),
        (Result::Ok(_), Result::Err(e)) => Result::Err(e),
        (Result::Ok(da), Result::Ok(db)) => match (da, db) {
            (Value::Int(x), Value::Int(y)) => Result::Ok(Value::Int(x.wrapping_mul(y))),
            _ => Result::Ok(Value::Void),
        },
    }
}

/// Computes [`spec_value_mul`].
pub fn value_mul(store: &Vec<Value>, a: Value, b: Value) -> (r: Result<Value, RunError>)
    ensures
        r == spec_value_mul(store@, a, b),
{
    match deref_value(store, a) {
        Result::Err(e) => Result::Err(e),
        Result::Ok(da) => match deref_value(store, b) {
            Result::Err(e) => Result::Err(e),
            Result::Ok(db) => match (da, db) {
                (Value::Int(x), Value::Int(y)) => Result::Ok(Value::Int(x.wrapping_mul(y))),
                _ => Result::Ok(Value::Void),
            },
        },
    }
}

/// The quotient of two values: truncating division on two integers, fatal
/// on a zero divisor and on the overflowing pair, `Void` on any other
/// (dereferenced) pair.
pub open spec fn spec_value_div(store: Seq<Value>, a: Value, b: Value) -> Result<
    Value,
    RunError,
> {
    match (spec_deref(store, a), spec_deref(store, b)) {
        (Result::Err(e), _) => Result::Err(e),
        (Result::Ok(_), Result::Err(e)) => Result::Err(e),
        (Result::Ok(da), Result::Ok(db)) => match (da, db) {
            (Value::Int(x), Value::Int(y)) => match x.checked_div(y) {
                Option::Some(q) => Result::Ok(Value::Int(q)),
                Option::None => if y == 0 {
                    Result::Err(RunError::DivisionByZero)
                } else {
                    Result::Err(RunError::ArithmeticOverflow)
                },
            },
            _ => Result::Ok(Value::Void),
        },
    }
}

/// Computes [`spec_value_div`].
pub fn value_div(store: &Vec<Value>, a: Value, b: Value) -> (r: Result<Value, RunError>)
    ensures
        r == spec_value_div(store@, a, b),
{
    match deref_value(store, a) {
        Result::Err(e) => Result::Err(e),
        Result::Ok(da) => match deref_value(store, b) {
            Result::Err(e) => Result::Err(e),
            Result::Ok(db) => match (da, db) {
                (Value::Int(x), Value::Int(y)) => match x.checked_div(y) {
                    Option::Some(q) => Result::Ok(Value::Int(q)),
                    Option::None => if y == 0 {
                        Result::Err(RunError::DivisionByZero)
                    } else {
                        Result::Err(RunError::ArithmeticOverflow)
                    },
                },
                _ => Result::Ok(Value::Void),
            },
        },
    }
}

/// The remainder of two values, with the same domain as
/// [`spec_value_div`].
pub open spec fn spec_value_rem(store: Seq<Value>, a: Value, b: Value) -> Result<
    Value,
    RunError,
> {
    match (spec_deref(store, a), spec_deref(store, b)) {
        (Result::Err(e), _) => Result::Err(e),
        (Result::Ok(_), Result::Err(e)) => Result::Err(e),
        (Result::Ok(da), Result::Ok(db)) => match (da, db) {
            (Value::Int(x), Value::Int(y)) => match x.checked_rem(y) {
                Option::Some(q) => Result::Ok(Value::Int(q)),
                Option::None => if y == 0 {
                    Result::Err(RunError::DivisionByZero)
                } else {
                    Result::Err(RunError::ArithmeticOverflow)
                },
            },
            _ => Result::Ok(Value::Void),
        },
    }
}

/// Computes [`spec_value_rem`].
pub fn value_rem(store: &Vec<Value>, a: Value, b: Value) -> (r: Result<Value, RunError>)
    ensures
        r == spec_value_rem(store@, a, b),
{
    match deref_value(store, a) {
        Result::Err(e) => Result::Err(e),
        Result::Ok(da) => match deref_value(store, b) {
            Result::Err(e) => Result::Err(e),
            Result::Ok(db) => match (da, db) {
                (Value::Int(x), Value::Int(y)) => match x.checked_rem(y) {
                    Option::Some(q) => Result::Ok(Value::Int(q)),
                    Option::None => if y == 0 {
                        Result::Err(RunError::DivisionByZero)
                    } else {
                        Result::Err(RunError::ArithmeticOverflow)
                    },
                },
                _ => Result::Ok(Value::Void),
            },
        },
    }
}

/// The bitwise exclusive-or of two values: defined on two integers only,
/// `Void` on any other (dereferenced) pair.
pub open spec fn spec_value_xor(store: Seq<Value>, a: Value, b: Value) -> Result<
    Value,
    RunError,
> {
    match (spec_deref(store, a), spec_deref(store, b)) {
        (Result::Err(e), _) => Result::Err(e),
        (Result::Ok(_), Result::Err(e)) => Result::Err(e),
        (Result::Ok(da), Result::Ok(db)) => match (da, db) {
            (Value::Int(x), Value::Int(y)) => Result::Ok(Value::Int(x ^ y)),
            _ => Result::Ok(Value::Void),
        },
    }
}

/// Computes [`spec_value_xor`].
pub fn value_xor(store: &Vec<Value>, a: Value, b: Value) -> (r: Result<Value, RunError>)
    ensures
        r == spec_value_xor(store@, a, b),
{
    match deref_value(store, a) {
        Result::Err(e) => Result::Err(e),
        Result::Ok(da) => match deref_value(store, b) {
            Result::Err(e) => Result::Err(e),
            Result::Ok(db) => match (da, db) {
                (Value::Int(x), Value::Int(y)) => Result::Ok(Value::Int(x ^ y)),
                _ => Result::Ok(Value::Void),
            },
        },
    }
}

/// The negation of a value: wrapping negation of an integer (a reference
/// is dereferenced first), `Void` otherwise.
pub open spec fn spec_value_neg(store: Seq<Value>, a: Value) -> Result<Value, RunError> {
    match spec_deref(store, a) {
        Result::Err(e) => Result::Err(e),
        Result::Ok(da) => match da {
            Value::Int(x) => Result::Ok(Value::Int((0i64).wrapping_sub(x))),
            _ => Result::Ok(Value::Void),
        },
    }
}

/// Computes [`spec_value_neg`].
pub fn value_neg(store: &Vec<Value>, a: Value) -> (r: Result<Value, RunError>)
    ensures
        r == spec_value_neg(store@, a),
{
    match deref_value(store, a) {
        Result::Err(e) => Result::Err(e),
        Result::Ok(da) => match da {
            Value::Int(x) => Result::Ok(Value::Int((0i64).wrapping_sub(x))),
            _ => Result::Ok(Value::Void),
        },
    }
}

/// The logical or bitwise complement of a value: boolean negation of a
/// boolean, bitwise complement of an integer (a reference is dereferenced
/// first), `Void` otherwise.
pub open spec fn spec_value_not(store: Seq<Value>, a: Value) -> Result<Value, RunError> {
    match spec_deref(store, a) {
        Result::Err(e) => Result::Err(e),
        Result::Ok(da) => match da {
            Value::Int(x) => Result::Ok(Value::Int(!x)),
            Value::Bool(b) => Result::Ok(Value::Bool(!b)),
            _ => Result::Ok(Value::Void),
        },
    }
}

/// Computes [`spec_value_not`].
pub fn value_not(store: &Vec<Value>, a: Value) -> (r: Result<Value, RunError>)
    ensures
        r == spec_value_not(store@, a),
{
    match deref_value(store, a) {
        Result::Err(e) => Result::Err(e),
        Result::Ok(da) => match da {
            Value::Int(x) => Result::Ok(Value::Int(!x)),
            Value::Bool(b) => Result::Ok(Value::Bool(!b)),
            _ => Result::Ok(Value::Void),
        },
    }
}

/// The conjunction of two values: defined on two booleans (through
/// references); any other pair is a fatal error.
pub open spec fn spec_logical_and(store: Seq<Value>, a: Value, b: Value) -> Result<
    bool,
    RunError,
> {
    match (spec_deref(store, a), spec_deref(store, b)) {
        (Result::Err(e), _) => Result::Err(e),
        (Result::Ok(_), Result::Err(e)) => Result::Err(e),
        (Result::Ok(da), Result::Ok(db)) => match (da, db) {
            (Value::Bool(x), Value::Bool(y)) => Result::Ok(x && y),
            _ => Result::Err(RunError::ExpectedBool),
        },
    }
}

/// Computes [`spec_logical_and`].
pub fn logical_and_values(store: &Vec<Value>, a: Value, b: Value) -> (r: Result<bool, RunError>)
    ensures
        r == spec_logical_and(store@, a, b),
{
    match deref_value(store, a) {
        Result::Err(e) => Result::Err(e),
        Result::Ok(da) => match deref_value(store, b) {
            Result::Err(e) => Result::Err(e),
            Result::Ok(db) => match (da, db) {
                (Value::Bool(x), Value::Bool(y)) => Result::Ok(x && y),
                _ => Result::Err(RunError::ExpectedBool),
            },
        },
    }
}

} // verus!
