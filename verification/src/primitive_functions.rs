//! The built-in control functions.
//!
//! Each receives already-evaluated positional arguments, so it sees
//! deferred comparisons, call thunks, ranges and counters as values and
//! interprets them: `if` collapses its condition here and fires a branch
//! thunk, `for` and `while` drive a body thunk, `print` renders a line,
//! `input` takes the next input line.  Every one is proved to do exactly
//! what its specification twin in [`crate::eval`] defines.

use vstd::prelude::*;

use crate::ast::{CallExpr, Expr, Name, Prim};
use crate::environment::{CellId, LocalEnvironment, resolve};
use crate::eval::{call_func, display_value, eval_args, spec_display, spec_for_loop, spec_prim, spec_prim_for,
    spec_prim_if, spec_prim_print, spec_prim_while, spec_for_source, spec_if_branch,
    spec_while_loop};
use crate::machine::{Machine, StateG};
use crate::value::{CondType, RunError, Value, clone_value};

verus! {

/// Copies a vector of values, each equal to the original.
pub fn clone_values(v: &Vec<Value>) -> (r: Vec<Value>)
    ensures
        r@ == v@,
{
    let r = clone_values_from(v, 0);
    proof {
        assert(v@.skip(0) =~= v@);
    }
    r
}

fn clone_values_from(v: &Vec<Value>, i: usize) -> (r: Vec<Value>)
    requires
        i <= v.len(),
    ensures
        r@ == v@.skip(i as int),
    decreases v.len() - i,
{
    if i == v.len() {
        let r: Vec<Value> = Vec::new();
        proof {
            assert(r@ =~= v@.skip(i as int));
        }
        r
    } else {
        let mut rest = clone_values_from(v, i + 1);
        rest.insert(0, clone_value(&v[i]));
        proof {
            assert(rest@ =~= v@.skip(i as int));
        }
        rest
    }
}

/// Dispatches a built-in on already-evaluated arguments, mirroring
/// [`spec_prim`].
pub fn run_primitive(
    p: Prim,
    args: Vec<Value>,
    m: &mut Machine,
    env: &mut LocalEnvironment,
    fuel: u64,
) -> (r: Result<Value, RunError>)
    ensures
        match spec_prim(p, args@, old(m)@, *old(env), fuel as nat) {
            Result::Ok((g2, env2, v)) => r == Result::<Value, RunError>::Ok(v) && final(m)@ == g2
                && *final(env) == env2,
            Result::Err(er) => r == Result::<Value, RunError>::Err(er),
        },
    decreases fuel, 6int, 0int, 0int,
{
    match p {
        Prim::Print => print_func(args, m, env, fuel),
        Prim::If => if_func(args, m, env, fuel),
        Prim::For => for_func(args, m, env, fuel),
        Prim::While => while_func(args, m, env, fuel),
        Prim::Input => input_func(args, m, env),
    }
}

/// `print`: renders its arguments separated by single spaces and
/// completes one output line.  Mirrors [`spec_prim_print`].
pub fn print_func(args: Vec<Value>, m: &mut Machine, env: &mut LocalEnvironment, fuel: u64) -> (r:
    Result<Value, RunError>)
    ensures
        match spec_prim_print(old(m)@, *old(env), args@, 0, fuel as nat) {
            Result::Ok((g2, env2, v)) => r == Result::<Value, RunError>::Ok(v) && final(m)@ == g2
                && *final(env) == env2,
            Result::Err(er) => r == Result::<Value, RunError>::Err(er),
        },
    decreases fuel, 5int, args@.len() + 1, 0int,
{
    print_from(m, env, &args, 0, fuel)
}

fn print_from(
    m: &mut Machine,
    env: &mut LocalEnvironment,
    args: &Vec<Value>,
    i: usize,
    fuel: u64,
) -> (r: Result<Value, RunError>)
    ensures
        match spec_prim_print(old(m)@, *old(env), args@, i as int, fuel as nat) {
            Result::Ok((g2, env2, v)) => r == Result::<Value, RunError>::Ok(v) && final(m)@ == g2
                && *final(env) == env2,
            Result::Err(er) => r == Result::<Value, RunError>::Err(er),
        },
    decreases fuel, 5int, (if (i as int) < args@.len() {
        args@.len() - i
    } else {
        0int
    }), 0int,
{
    if args.len() == 0 {
        Result::Err(RunError::ArityMismatch)
    } else if i >= args.len() {
        m.end_line();
        Result::Ok(Value::Void)
    } else {
        match display_value(m, env, &args[i], fuel) {
            Result::Err(e) => Result::Err(e),
            Result::Ok(text) => {
                m.line_append(text.as_str());
                if i + 1 < args.len() {
                    m.line_append(" ");
                }
                print_from(m, env, args, i + 1, fuel)
            },
        }
    }
}

/// `if`: collapses its condition in the current scope and fires the
/// chosen branch thunk.  A condition that is neither a deferred
/// comparison nor a boolean yields `Void`, as does a branch that is not a
/// call thunk or a missing else branch; a missing then branch is a fatal
/// arity error.  Mirrors [`spec_prim_if`].
pub fn if_func(args: Vec<Value>, m: &mut Machine, env: &mut LocalEnvironment, fuel: u64) -> (r:
    Result<Value, RunError>)
    ensures
        match spec_prim_if(old(m)@, *old(env), args@, fuel as nat) {
            Result::Ok((g2, env2, v)) => r == Result::<Value, RunError>::Ok(v) && final(m)@ == g2
                && *final(env) == env2,
            Result::Err(er) => r == Result::<Value, RunError>::Err(er),
        },
    decreases fuel, 5int, 0int, 1int,
{
    if args.len() == 0 {
        Result::Err(RunError::ArityMismatch)
    } else {
        match &args[0] {
            Value::Cond(ct, l, r2) => {
                let ct = *ct;
                let l = crate::ast::clone_expr(l);
                let r2 = crate::ast::clone_expr(r2);
                match ct.eval_cond(m, env, &l, &r2, fuel) {
                    Result::Err(e) => Result::Err(e),
                    Result::Ok(b) => if_branch(m, env, &args, b, fuel),
                }
            },
            Value::Bool(b) => {
                let b = *b;
                if_branch(m, env, &args, b, fuel)
            },
            _ => Result::Ok(Value::Void),
        }
    }
}

fn if_branch(m: &mut Machine, env: &mut LocalEnvironment, args: &Vec<Value>, b: bool, fuel: u64) -> (r:
    Result<Value, RunError>)
    ensures
        match spec_if_branch(old(m)@, *old(env), args@, b, fuel as nat) {
            Result::Ok((g2, env2, v)) => r == Result::<Value, RunError>::Ok(v) && final(m)@ == g2
                && *final(env) == env2,
            Result::Err(er) => r == Result::<Value, RunError>::Err(er),
        },
    decreases fuel, 5int, 0int, 0int,
{
    let idx: usize = if b {
        1
    } else {
        2
    };
    if idx >= args.len() {
        if b {
            Result::Err(RunError::ArityMismatch)
        } else {
            Result::Ok(Value::Void)
        }
    } else {
        match &args[idx] {
            Value::CallFunc(c) => {
                let c = crate::ast::clone_call_expr(c);
                call_func(m, env, &c, fuel)
            },
            _ => Result::Ok(Value::Void),
        }
    }
}

/// `for`: iterates a range or counter source half-open, firing the body
/// thunk each step; a counter's cell sees the current index before each
/// step.  Mirrors [`spec_prim_for`].
pub fn for_func(args: Vec<Value>, m: &mut Machine, env: &mut LocalEnvironment, fuel: u64) -> (r:
    Result<Value, RunError>)
    ensures
        match spec_prim_for(old(m)@, *old(env), args@, fuel as nat) {
            Result::Ok((g2, env2, v)) => r == Result::<Value, RunError>::Ok(v) && final(m)@ == g2
                && *final(env) == env2,
            Result::Err(er) => r == Result::<Value, RunError>::Err(er),
        },
    decreases fuel, 5int, 0int, 1int,
{
    if args.len() == 0 {
        Result::Err(RunError::ArityMismatch)
    } else {
        match &args[0] {
            Value::Range(s, e) => {
                let s = *s;
                let e = *e;
                for_source(m, env, &args, Option::None, s, e, fuel)
            },
            Value::Counter(n, s, e) => {
                let n = *n;
                let s = *s;
                let e = *e;
                for_source(m, env, &args, Option::Some(n), s, e, fuel)
            },
            _ => Result::Ok(Value::Void),
        }
    }
}

fn for_source(
    m: &mut Machine,
    env: &mut LocalEnvironment,
    args: &Vec<Value>,
    counter: Option<Name>,
    s: i64,
    e: i64,
    fuel: u64,
) -> (r: Result<Value, RunError>)
    ensures
        match spec_for_source(old(m)@, *old(env), args@, counter, s, e, fuel as nat) {
            Result::Ok((g2, env2, v)) => r == Result::<Value, RunError>::Ok(v) && final(m)@ == g2
                && *final(env) == env2,
            Result::Err(er) => r == Result::<Value, RunError>::Err(er),
        },
    decreases fuel, 5int, 0int, 0int,
{
    if args.len() < 2 {
        Result::Err(RunError::ArityMismatch)
    } else {
        match &args[1] {
            Value::CallFunc(c) => {
                let c = crate::ast::clone_call_expr(c);
                let ccell: Option<CellId> = match counter {
                    Option::None => Option::None,
                    Option::Some(n) => match resolve(env, &m.globals, n) {
                        Option::None => {
                            return Result::Err(RunError::UnboundName(n));
                        },
                        Option::Some(cl) => Option::Some(cl),
                    },
                };
                match eval_args(m, env, &c.args, fuel) {
                    Result::Err(e2) => Result::Err(e2),
                    Result::Ok(parsed) => {
                        let body_prim: Option<Prim> = match resolve(env, &m.globals, c.func_name) {
                            Option::Some(cell) => match m.cell_read(cell) {
                                Result::Ok(Value::FuncPtr(p)) => Option::Some(p),
                                _ => Option::None,
                            },
                            Option::None => Option::None,
                        };
                        for_loop(m, env, ccell, s, e, &c, body_prim, &parsed, fuel)
                    },
                }
            },
            _ => Result::Ok(Value::Void),
        }
    }
}

fn for_loop(
    m: &mut Machine,
    env: &mut LocalEnvironment,
    ccell: Option<CellId>,
    i: i64,
    end: i64,
    c: &CallExpr,
    body_prim: Option<Prim>,
    parsed: &Vec<Value>,
    fuel: u64,
) -> (r: Result<Value, RunError>)
    ensures
        match spec_for_loop(old(m)@, *old(env), ccell, i, end, *c, body_prim, parsed@, fuel as nat) {
            Result::Ok((g2, env2, v)) => r == Result::<Value, RunError>::Ok(v) && final(m)@ == g2
                && *final(env) == env2,
            Result::Err(er) => r == Result::<Value, RunError>::Err(er),
        },
    decreases fuel, 4int, (if i < end {
        (end - i) as int
    } else {
        0int
    }), 0int,
{
    if i >= end {
        Result::Ok(Value::Void)
    } else {
        match ccell {
            Option::Some(cl) => match m.cell_write(cl, Value::Int(i)) {
                Result::Err(e) => {
                    return Result::Err(e);
                },
                Result::Ok(_) => {},
            },
            Option::None => {},
        }
        let stepped = match body_prim {
            Option::Some(p) => if fuel == 0 {
                return Result::Err(RunError::OutOfFuel);
            } else {
                run_primitive(p, clone_values(parsed), m, env, fuel - 1)
            },
            Option::None => call_func(m, env, c, fuel),
        };
        match stepped {
            Result::Err(e) => Result::Err(e),
            Result::Ok(_) => for_loop(m, env, ccell, i + 1, end, c, body_prim, parsed, fuel),
        }
    }
}

/// `while`: re-evaluates its deferred comparison against the current
/// scope before every iteration and fires the body thunk while it holds.
/// Mirrors [`spec_prim_while`].
pub fn while_func(args: Vec<Value>, m: &mut Machine, env: &mut LocalEnvironment, fuel: u64) -> (r:
    Result<Value, RunError>)
    ensures
        match spec_prim_while(old(m)@, *old(env), args@, fuel as nat) {
            Result::Ok((g2, env2, v)) => r == Result::<Value, RunError>::Ok(v) && final(m)@ == g2
                && *final(env) == env2,
            Result::Err(er) => r == Result::<Value, RunError>::Err(er),
        },
    decreases fuel, 5int, 0int, 1int,
{
    if args.len() == 0 {
        Result::Err(RunError::ArityMismatch)
    } else {
        match &args[0] {
            Value::Cond(ct, l, r2) => {
                if args.len() < 2 {
                    Result::Err(RunError::ArityMismatch)
                } else {
                    let ct = *ct;
                    let l = crate::ast::clone_expr(l);
                    let r2 = crate::ast::clone_expr(r2);
                    match &args[1] {
                        Value::CallFunc(c) => {
                            let c = crate::ast::clone_call_expr(c);
                            match eval_args(m, env, &c.args, fuel) {
                                Result::Err(e2) => Result::Err(e2),
                                Result::Ok(parsed) => {
                                    let body_prim: Option<Prim> = match resolve(
                                        env,
                                        &m.globals,
                                        c.func_name,
                                    ) {
                                        Option::Some(cell) => match m.cell_read(cell) {
                                            Result::Ok(Value::FuncPtr(p)) => Option::Some(p),
                                            _ => Option::None,
                                        },
                                        Option::None => Option::None,
                                    };
                                    while_loop(m, env, ct, &l, &r2, &c, body_prim, &parsed, fuel)
                                },
                            }
                        },
                        _ => Result::Ok(Value::Void),
                    }
                }
            },
            _ => Result::Ok(Value::Void),
        }
    }
}

fn while_loop(
    m: &mut Machine,
    env: &mut LocalEnvironment,
    ct: CondType,
    l: &Expr,
    r2: &Expr,
    c: &CallExpr,
    body_prim: Option<Prim>,
    parsed: &Vec<Value>,
    fuel: u64,
) -> (r: Result<Value, RunError>)
    ensures
        match spec_while_loop(old(m)@, *old(env), ct, *l, *r2, *c, body_prim, parsed@,
            fuel as nat) {
            Result::Ok((g2, env2, v)) => r == Result::<Value, RunError>::Ok(v) && final(m)@ == g2
                && *final(env) == env2,
            Result::Err(er) => r == Result::<Value, RunError>::Err(er),
        },
    decreases fuel, 4int, 0int, 0int,
{
    if fuel == 0 {
        Result::Err(RunError::OutOfFuel)
    } else {
        match ct.eval_cond(m, env, l, r2, fuel) {
            Result::Err(e) => Result::Err(e),
            Result::Ok(b) => if !b {
                Result::Ok(Value::Void)
            } else {
                let stepped = match body_prim {
                    Option::Some(p) => run_primitive(p, clone_values(parsed), m, env, fuel - 1),
                    Option::None => call_func(m, env, c, fuel),
                };
                match stepped {
                    Result::Err(e) => Result::Err(e),
                    Result::Ok(_) => while_loop(m, env, ct, l, r2, c, body_prim, parsed, fuel - 1),
                }
            },
        }
    }
}

/// `input`: takes the next input line, trimmed by the embedder, as a
/// string; once input is exhausted, every further call yields the empty
/// line.  Any arguments are ignored.
pub fn input_func(args: Vec<Value>, m: &mut Machine, env: &mut LocalEnvironment) -> (r: Result<
    Value,
    RunError,
>)
    ensures
        match spec_prim(Prim::Input, args@, old(m)@, *old(env), 0nat) {
            Result::Ok((g2, env2, v)) => r == Result::<Value, RunError>::Ok(v) && final(m)@ == g2
                && *final(env) == env2,
            Result::Err(er) => r == Result::<Value, RunError>::Err(er),
        },
{
    let s = m.take_input();
    Result::Ok(Value::Str(s))
}

impl Value {
    /// Appends this value's printed text to the line being built: a
    /// deferred comparison prints the boolean it evaluates to in the
    /// current scope; anything else prints its rendering, through
    /// references.
    pub fn print(&self, m: &mut Machine, env: &mut LocalEnvironment, fuel: u64) -> (r: Result<
        (),
        RunError,
    >)
        ensures
            match spec_display(old(m)@, *old(env), *self, fuel as nat) {
                Result::Ok((g2, env2, text)) => r is Ok && final(m)@ == (StateG {
                    line: g2.line + text,
                    ..g2
                }) && *final(env) == env2,
                Result::Err(er) => r == Result::<(), RunError>::Err(er),
            },
    {
        match display_value(m, env, self, fuel) {
            Result::Err(e) => Result::Err(e),
            Result::Ok(text) => {
                m.line_append(text.as_str());
                Result::Ok(())
            },
        }
    }

    /// Prints this value and completes the output line.
    pub fn println(&self, m: &mut Machine, env: &mut LocalEnvironment, fuel: u64) -> (r: Result<
        (),
        RunError,
    >)
        ensures
            match spec_display(old(m)@, *old(env), *self, fuel as nat) {
                Result::Ok((g2, env2, text)) => r is Ok && final(m)@ == (StateG {
                    line: Seq::<char>::empty(),
                    output: g2.output.push(g2.line + text),
                    ..g2
                }) && *final(env) == env2,
                Result::Err(er) => r == Result::<(), RunError>::Err(er),
            },
    {
        match display_value(m, env, self, fuel) {
            Result::Err(e) => Result::Err(e),
            Result::Ok(text) => {
                m.line_append(text.as_str());
                m.end_line();
                Result::Ok(())
            },
        }
    }
}

} // verus!
