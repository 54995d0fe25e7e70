//! The laws of the evaluator: what scoping, aliasing, deferral, the
//! anonymous-function cache and iteration guarantee of every program,
//! proved against the semantics in [`crate::eval`].

use vstd::prelude::*;

use crate::ast::{AnonymousFunc, CallExpr, Expr, Name, Prim, lemma_same_anonymous_func_refl};
use crate::environment::{CellId, LocalEnvironment, ScopeList, scope_get, spec_resolve};
use crate::eval::{binds_exprs, flat, gseq, spec_do_assign, spec_eval_anon, spec_eval_cond,
    spec_eval_expr, spec_eval_stack, spec_for_loop, spec_logical_or};
use crate::machine::{StateG, cache_get, spec_cell_read, spec_cell_write};
use crate::value::{CondType, RunError, Value, spec_compare, spec_logical_and};

verus! {

/// How an identifier expression evaluates: the name resolves local before
/// global, the cell is read, and nothing else changes.
pub proof fn lemma_eval_ident(g: StateG, env: LocalEnvironment, x: Name, fuel: nat)
    ensures
        spec_eval_expr(g, env, Expr::Ident(x), fuel) == (match spec_resolve(env, g.globals, x) {
            Option::None => Result::<(StateG, LocalEnvironment, Value), RunError>::Err(
                RunError::UnboundName(x),
            ),
            Option::Some(c) => match spec_cell_read(g.store, c) {
                Result::Err(e) => Result::<(StateG, LocalEnvironment, Value), RunError>::Err(e),
                Result::Ok(v) => Result::<(StateG, LocalEnvironment, Value), RunError>::Ok(
                    (g, env, v),
                ),
            },
        }),
{
    let e = Expr::Ident(x);
    assert(gseq(e) =~= Seq::<Expr>::empty());
    assert(flat(e) =~= seq![e]);
    assert(seq![e].last() == e);
    assert(seq![e].drop_last() =~= Seq::<Expr>::empty());
    match spec_resolve(env, g.globals, x) {
        Option::None => {},
        Option::Some(c) => {
            match spec_cell_read(g.store, c) {
                Result::Err(_) => {},
                Result::Ok(v) => {
                    assert(spec_eval_stack(g, env, Seq::<Expr>::empty(), Value::Void, v, fuel)
                        == Result::<(StateG, LocalEnvironment, Value), RunError>::Ok((g, env, v)));
                },
            }
        },
    }
}

/// Scope shadowing: in the state a `let x = v` leaves behind -- a fresh
/// cell holding `v`, with `x` bound to it in front of the local scope --
/// reading `x` yields `v` and changes nothing, whatever the global scope
/// (part of `g`) binds `x` to.
pub proof fn lemma_scope_shadowing(g: StateG, env: LocalEnvironment, x: Name, v: Value, fuel: nat)
    requires
        g.store.len() < usize::MAX,
    ensures
        ({
            let c = g.store.len() as CellId;
            let g2 = StateG { store: g.store.push(v), ..g };
            let env2 = LocalEnvironment { variables: ScopeList::Cons(x, c, Box::new(env.variables)) };
            spec_eval_expr(g2, env2, Expr::Ident(x), fuel) == Result::<
                (StateG, LocalEnvironment, Value),
                RunError,
            >::Ok((g2, env2, v))
        }),
{
    let c = g.store.len() as CellId;
    let g2 = StateG { store: g.store.push(v), ..g };
    let env2 = LocalEnvironment { variables: ScopeList::Cons(x, c, Box::new(env.variables)) };
    lemma_eval_ident(g2, env2, x, fuel);
    assert(scope_get(env2.variables, x) == Option::Some(c));
    assert(spec_cell_read(g2.store, c) == Result::<Value, RunError>::Ok(v));
}

/// By-value isolation: a parameter bound from a non-reference argument
/// gets a freshly allocated cell, exactly as the by-value case of
/// parameter binding builds it; assigning through the parameter then
/// writes that fresh cell and leaves every cell the caller already held
/// untouched.
pub proof fn lemma_by_value_isolation(
    g: StateG,
    callee_env: LocalEnvironment,
    x: Name,
    v: Value,
    w: Value,
    i: CellId,
)
    requires
        !(v is RefValue),
        i < g.store.len(),
        g.store.len() < usize::MAX,
    ensures
        ({
            let c = g.store.len() as CellId;
            let g2 = StateG { store: g.store.push(v), ..g };
            let env2 = LocalEnvironment {
                variables: ScopeList::Cons(x, c, Box::new(callee_env.variables)),
            };
            match spec_do_assign(g2, env2, x, w) {
                Result::Ok(g3) => {
                    &&& g3.store[i as int] == g.store[i as int]
                    &&& g3.store[c as int] == w
                    &&& g3.store.len() == g2.store.len()
                },
                Result::Err(_) => false,
            }
        }),
{
    let c = g.store.len() as CellId;
    let g2 = StateG { store: g.store.push(v), ..g };
    let env2 = LocalEnvironment {
        variables: ScopeList::Cons(x, c, Box::new(callee_env.variables)),
    };
    assert(scope_get(env2.variables, x) == Option::Some(c));
    assert(spec_cell_read(g2.store, c) == Result::<Value, RunError>::Ok(v));
}

/// By-reference coupling: a parameter bound from a `&y` argument aliases
/// the caller's cell, exactly as the reference case of parameter binding
/// builds it; assigning through the parameter writes that very cell, so
/// the caller's own read of `y` afterwards yields the assigned value.
pub proof fn lemma_by_reference_coupling(
    g: StateG,
    callee_env: LocalEnvironment,
    caller_env: LocalEnvironment,
    x: Name,
    y: Name,
    cc: CellId,
    w: Value,
    fuel: nat,
)
    requires
        cc < g.store.len(),
        !(g.store[cc as int] is RefValue),
        scope_get(caller_env.variables, y) == Option::Some(cc),
    ensures
        ({
            let env2 = LocalEnvironment {
                variables: ScopeList::Cons(x, cc, Box::new(callee_env.variables)),
            };
            match spec_do_assign(g, env2, x, w) {
                Result::Ok(g3) => {
                    &&& g3.store[cc as int] == w
                    &&& g3.store.len() == g.store.len()
                    &&& spec_eval_expr(g3, caller_env, Expr::Ident(y), fuel) == Result::<
                        (StateG, LocalEnvironment, Value),
                        RunError,
                    >::Ok((g3, caller_env, w))
                },
                Result::Err(_) => false,
            }
        }),
{
    let env2 = LocalEnvironment {
        variables: ScopeList::Cons(x, cc, Box::new(callee_env.variables)),
    };
    assert(scope_get(env2.variables, x) == Option::Some(cc));
    match spec_do_assign(g, env2, x, w) {
        Result::Ok(g3) => {
            lemma_eval_ident(g3, caller_env, y, fuel);
            assert(spec_cell_read(g3.store, cc) == Result::<Value, RunError>::Ok(w));
        },
        Result::Err(_) => {
            assert(false);
        },
    }
}

/// The comparison or connective expression of a given kind.
pub open spec fn cmp_expr(ct: CondType, l: Expr, r: Expr) -> Expr {
    match ct {
        CondType::Eq => Expr::Eq(Box::new(l), Box::new(r)),
        CondType::Ne => Expr::NotEq(Box::new(l), Box::new(r)),
        CondType::Gt => Expr::Gt(Box::new(l), Box::new(r)),
        CondType::Lt => Expr::Lt(Box::new(l), Box::new(r)),
        CondType::Ge => Expr::Ge(Box::new(l), Box::new(r)),
        CondType::Le => Expr::Le(Box::new(l), Box::new(r)),
        CondType::Or => Expr::Or(Box::new(l), Box::new(r)),
        CondType::And => Expr::And(Box::new(l), Box::new(r)),
    }
}

/// Deferred comparison: a comparison or connective expression of any of
/// the eight kinds evaluates, in any scope, to a thunk that carries both
/// operand expressions unevaluated, changing neither the state nor the
/// scope; and collapsing that thunk later evaluates the operands, left
/// first, against whatever scope the collapsing callee supplies.
pub proof fn lemma_deferred_comparison(
    g: StateG,
    env: LocalEnvironment,
    ct: CondType,
    l: Expr,
    r: Expr,
    fuel: nat,
)
    ensures
        spec_eval_expr(g, env, cmp_expr(ct, l, r), fuel) == Result::<
            (StateG, LocalEnvironment, Value),
            RunError,
        >::Ok((g, env, Value::Cond(ct, Box::new(l), Box::new(r)))),
        spec_eval_cond(g, env, ct, l, r, fuel) == (match spec_eval_expr(g, env, l, fuel) {
            Result::Err(e) => Result::<(StateG, LocalEnvironment, bool), RunError>::Err(e),
            Result::Ok((g1, env1, vl)) => match spec_eval_expr(g1, env1, r, fuel) {
                Result::Err(e) => Result::<(StateG, LocalEnvironment, bool), RunError>::Err(e),
                Result::Ok((g2, env2, vr)) => match ct {
                    CondType::Or => spec_logical_or(g2, env2, vl, vr, fuel),
                    CondType::And => match spec_logical_and(g2.store, vl, vr) {
                        Result::Err(e) => Result::<(StateG, LocalEnvironment, bool), RunError>::Err(
                            e,
                        ),
                        Result::Ok(b) => Result::<(StateG, LocalEnvironment, bool), RunError>::Ok(
                            (g2, env2, b),
                        ),
                    },
                    _ => Result::<(StateG, LocalEnvironment, bool), RunError>::Ok(
                        (g2, env2, spec_compare(ct, vl, vr)),
                    ),
                },
            },
        }),
{
    let e = cmp_expr(ct, l, r);
    assert(gseq(e) =~= Seq::<Expr>::empty());
    assert(flat(e) =~= seq![e]);
    assert(seq![e].last() == e);
    assert(seq![e].drop_last() =~= Seq::<Expr>::empty());
    let v = Value::Cond(ct, Box::new(l), Box::new(r));
    assert(spec_eval_stack(g, env, Seq::<Expr>::empty(), Value::Void, v, fuel) == Result::<
        (StateG, LocalEnvironment, Value),
        RunError,
    >::Ok((g, env, v)));
}

/// Anonymous-function identity: once an anonymous expression has been
/// reified, its function object sits in the cache under the syntax, and
/// reifying the same syntax again -- in any later state and scope --
/// reuses that very object: the thunk produced is identical, nothing is
/// re-evaluated, the cache and name counter do not move; only the
/// function's name is re-bound in the current scope.
pub proof fn lemma_anonymous_identity(
    g: StateG,
    env: LocalEnvironment,
    env3: LocalEnvironment,
    a: AnonymousFunc,
    fuel: nat,
    fuel3: nat,
)
    requires
        spec_eval_anon(g, env, a, fuel) is Ok,
    ensures
        ({
            let first = spec_eval_anon(g, env, a, fuel)->Ok_0;
            let g2 = first.0;
            let v = first.2;
            &&& cache_get(g2.cache, a) is Some
            &&& ({
                let f = cache_get(g2.cache, a)->Some_0;
                &&& v == Value::CallFunc(CallExpr { func_name: f.ident, args: binds_exprs(a.args) })
                &&& spec_eval_anon(g2, env3, a, fuel3) == Result::<
                    (StateG, LocalEnvironment, Value),
                    RunError,
                >::Ok(
                    (
                        StateG { store: g2.store.push(Value::Func(f)), ..g2 },
                        LocalEnvironment {
                            variables: ScopeList::Cons(
                                f.ident,
                                g2.store.len() as CellId,
                                Box::new(env3.variables),
                            ),
                        },
                        v,
                    ),
                )
            })
        }),
{
    lemma_same_anonymous_func_refl(a);
    match cache_get(g.cache, a) {
        Option::Some(f0) => {},
        Option::None => {},
    }
}

/// The `max(0, e-s)` iterations a range `s..e` drives.
pub open spec fn iter_count(s: i64, e: i64) -> nat {
    if s < e {
        (e - s) as nat
    } else {
        0
    }
}

/// A `for` body fired a fixed number of times: zero steps leave the state
/// alone and yield `Void`; one step writes the counter cell (when there
/// is one), fires the body once, and continues with one step fewer.
pub open spec fn spec_for_steps(
    g: StateG,
    env: LocalEnvironment,
    ccell: Option<CellId>,
    i: i64,
    n: nat,
    c: CallExpr,
    body_prim: Option<Prim>,
    parsed: Seq<Value>,
    fuel: nat,
) -> Result<(StateG, LocalEnvironment, Value), RunError>
    decreases n,
{
    if n == 0 {
        Result::Ok((g, env, Value::Void))
    } else {
        let wrote = match ccell {
            Option::Some(cl) => spec_cell_write(g, cl, Value::Int(i)),
            Option::None => Result::Ok(g),
        };
        match wrote {
            Result::Err(e) => Result::Err(e),
            Result::Ok(g1) => {
                let stepped = match body_prim {
                    Option::Some(p) => if fuel == 0 {
                        Result::Err(RunError::OutOfFuel)
                    } else {
                        crate::eval::spec_prim(p, parsed, g1, env, (fuel - 1) as nat)
                    },
                    Option::None => crate::eval::spec_call_func(g1, env, c, fuel),
                };
                match stepped {
                    Result::Err(e) => Result::Err(e),
                    Result::Ok((g2, env2, _)) => spec_for_steps(
                        g2,
                        env2,
                        ccell,
                        (i + 1) as i64,
                        (n - 1) as nat,
                        c,
                        body_prim,
                        parsed,
                        fuel,
                    ),
                }
            },
        }
    }
}

/// Range iteration count: iterating `s..e` is exactly the
/// `max(0, e-s)`-fold composition of one body step -- the body of a `for`
/// fires exactly `max(0, e-s)` times.
pub proof fn lemma_range_iteration_count(
    g: StateG,
    env: LocalEnvironment,
    ccell: Option<CellId>,
    s: i64,
    e: i64,
    c: CallExpr,
    body_prim: Option<Prim>,
    parsed: Seq<Value>,
    fuel: nat,
)
    ensures
        spec_for_loop(g, env, ccell, s, e, c, body_prim, parsed, fuel) == spec_for_steps(
            g,
            env,
            ccell,
            s,
            iter_count(s, e),
            c,
            body_prim,
            parsed,
            fuel,
        ),
    decreases iter_count(s, e),
{
    if s >= e {
    } else {
        let wrote = match ccell {
            Option::Some(cl) => spec_cell_write(g, cl, Value::Int(s)),
            Option::None => Result::Ok(g),
        };
        match wrote {
            Result::Err(_) => {},
            Result::Ok(g1) => {
                let stepped = match body_prim {
                    Option::Some(p) => if fuel == 0 {
                        Result::Err(RunError::OutOfFuel)
                    } else {
                        crate::eval::spec_prim(p, parsed, g1, env, (fuel - 1) as nat)
                    },
                    Option::None => crate::eval::spec_call_func(g1, env, c, fuel),
                };
                match stepped {
                    Result::Err(_) => {},
                    Result::Ok((g2, env2, _)) => {
                        lemma_range_iteration_count(
                            g2,
                            env2,
                            ccell,
                            (s + 1) as i64,
                            e,
                            c,
                            body_prim,
                            parsed,
                            fuel,
                        );
                    },
                }
            },
        }
    }
}

/// Counter visibility: the write a counter-driven `for` performs before
/// each step makes the counter's name read as exactly the current index,
/// in the scope the loop runs in -- so a body whose thunk mentions the
/// name receives the index when its arguments are re-evaluated there.
pub proof fn lemma_counter_visibility(
    g: StateG,
    env: LocalEnvironment,
    name: Name,
    cc: CellId,
    i: i64,
    fuel: nat,
)
    requires
        spec_resolve(env, g.globals, name) == Option::Some(cc),
        cc < g.store.len(),
    ensures
        match spec_cell_write(g, cc, Value::Int(i)) {
            Result::Ok(g1) => spec_eval_expr(g1, env, Expr::Ident(name), fuel) == Result::<
                (StateG, LocalEnvironment, Value),
                RunError,
            >::Ok((g1, env, Value::Int(i))),
            Result::Err(_) => false,
        },
{
    match spec_cell_write(g, cc, Value::Int(i)) {
        Result::Ok(g1) => {
            lemma_eval_ident(g1, env, name, fuel);
            assert(spec_resolve(env, g1.globals, name) == Option::Some(cc));
            assert(spec_cell_read(g1.store, cc) == Result::<Value, RunError>::Ok(Value::Int(i)));
        },
        Result::Err(_) => {
            assert(false);
        },
    }
}

} // verus!
