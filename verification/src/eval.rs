//! The expression evaluator, the call protocol, and the statement driver.
//!
//! Everything here comes in pairs: a `spec` function that defines the
//! semantics as a mathematical function of the machine state, and an
//! executable twin proved to return exactly what the definition says.
//! The whole group is mutually recursive; termination rests on a fuel
//! budget that shrinks whenever control enters a callable (or re-enters a
//! deferred comparison), with a lexicographic measure below it for the
//! structural recursion inside one activation.
//!
//! Nestable operator expressions are not evaluated by tree recursion:
//! following the source language, an expression is first flattened to a
//! stack in reverse Polish order ([`flat`]), and the stack is then
//! consumed from the top against two operand registers (`lhs`, `rhs`).  A
//! freshly produced value fills `rhs` when `rhs` is empty and `lhs`
//! otherwise; an operator folds both registers into `rhs`.  The final
//! `rhs` is the expression's value.

use vstd::prelude::*;

use crate::ast::{AnonymousFunc, BindList, CallExpr, Expr, ExprList, Name, ParamList, Prim,
    PrivacyType, Stmt, StmtList, TypeName, clone_expr};
use crate::environment::{CellId, LocalEnvironment, ScopeList, resolve, scope_get, spec_resolve};
use crate::function::{Function, clone_function};
use crate::machine::{CacheList, Machine, StateG, cache_get, cache_lookup, spec_cell_read,
    spec_cell_write, spec_take_input};
use crate::render::{shallow_chars, push_shallow_text};
use crate::value::{CondType, RunError, Value, clone_value, compare_values, deref_value,
    logical_and_values, spec_compare, spec_deref, spec_logical_and, spec_type_of, spec_value_add,
    spec_value_div, spec_value_mul, spec_value_neg, spec_value_not, spec_value_rem,
    spec_value_sub, spec_value_xor, type_of_value, value_add, value_div, value_mul,
    value_neg, value_not, value_rem, value_sub, value_xor};

verus! {

/// The evaluation weight of an expression: one for the node itself, plus
/// the weight of every part that evaluating the node walks into.
pub open spec fn esize(e: Expr) -> nat
    decreases e,
{
    match e {
        Expr::Add(l, r) => 1 + esize(*l) + esize(*r),
        Expr::Sub(l, r) => 1 + esize(*l) + esize(*r),
        Expr::Mul(l, r) => 1 + esize(*l) + esize(*r),
        Expr::Div(l, r) => 1 + esize(*l) + esize(*r),
        Expr::Xor(l, r) => 1 + esize(*l) + esize(*r),
        Expr::Mod(l, r) => 1 + esize(*l) + esize(*r),
        Expr::Not(x) => 1 + esize(*x),
        Expr::Neg(x) => 1 + esize(*x),
        Expr::Ref(x) => 1 + esize(*x),
        Expr::Call(c) => 1 + lsize(c.args),
        Expr::AnonFunc(a) => 1 + bsize(a.args),
        _ => 1,
    }
}

/// The total weight of an argument list.
pub open spec fn lsize(l: ExprList) -> nat
    decreases l,
{
    match l {
        ExprList::Nil => 0,
        ExprList::Cons(e, rest) => esize(*e) + lsize(*rest),
    }
}

/// The total weight of an anonymous function's binding expressions.
pub open spec fn bsize(l: BindList) -> nat
    decreases l,
{
    match l {
        BindList::Nil => 0,
        BindList::Cons(_, e, rest) => esize(*e) + bsize(*rest),
    }
}

/// The number of statements in a list.
pub open spec fn slen(l: StmtList) -> nat
    decreases l,
{
    match l {
        StmtList::Nil => 0,
        StmtList::Cons(_, rest) => 1 + slen(*rest),
    }
}

/// The weight of one stack entry.  An operator node's operands appear as
/// separate entries below it, so the node itself weighs one; any other
/// entry is evaluated in place and weighs its full size.
pub open spec fn wsize(e: Expr) -> nat {
    match e {
        Expr::Add(_, _) => 1,
        Expr::Sub(_, _) => 1,
        Expr::Mul(_, _) => 1,
        Expr::Div(_, _) => 1,
        Expr::Xor(_, _) => 1,
        Expr::Mod(_, _) => 1,
        Expr::Not(_) => 1,
        Expr::Neg(_) => 1,
        _ => esize(e),
    }
}

/// The total weight of an evaluation stack.
pub open spec fn seq_esize(s: Seq<Expr>) -> nat
    decreases s.len(),
{
    if s.len() == 0 {
        0
    } else {
        seq_esize(s.drop_last()) + wsize(s.last())
    }
}

/// The stack entries appended below `e` when the flattener expands it: an
/// operator contributes its operands, the right one's expansion before
/// the left one's; anything else is a leaf for the stack's purposes.
pub open spec fn gseq(e: Expr) -> Seq<Expr>
    decreases e,
{
    match e {
        Expr::Add(l, r) => seq![*l, *r] + gseq(*r) + gseq(*l),
        Expr::Sub(l, r) => seq![*l, *r] + gseq(*r) + gseq(*l),
        Expr::Mul(l, r) => seq![*l, *r] + gseq(*r) + gseq(*l),
        Expr::Div(l, r) => seq![*l, *r] + gseq(*r) + gseq(*l),
        Expr::Xor(l, r) => seq![*l, *r] + gseq(*r) + gseq(*l),
        Expr::Mod(l, r) => seq![*l, *r] + gseq(*r) + gseq(*l),
        Expr::Not(x) => seq![*x] + gseq(*x),
        Expr::Neg(x) => seq![*x] + gseq(*x),
        _ => seq![],
    }
}

/// The evaluation stack of an expression: the node itself, then its
/// expansion.  The stack is consumed from its last entry towards its
/// first.
pub open spec fn flat(e: Expr) -> Seq<Expr> {
    seq![e] + gseq(e)
}

/// Every expression weighs at least one.
pub proof fn lemma_esize_pos(e: Expr)
    ensures
        esize(e) >= 1,
{
}

/// Stack weight distributes over concatenation.
pub proof fn lemma_seq_esize_concat(a: Seq<Expr>, b: Seq<Expr>)
    ensures
        seq_esize(a + b) == seq_esize(a) + seq_esize(b),
    decreases b.len(),
{
    if b.len() == 0 {
        assert(a + b =~= a);
    } else {
        lemma_seq_esize_concat(a, b.drop_last());
        assert((a + b).drop_last() =~= a + b.drop_last());
        assert((a + b).last() == b.last());
    }
}

/// The weight of a one-entry stack is the entry's weight.
pub proof fn lemma_seq_esize_single(e: Expr)
    ensures
        seq_esize(seq![e]) == wsize(e),
{
    assert(seq![e].drop_last() =~= Seq::<Expr>::empty());
    assert(seq_esize(Seq::<Expr>::empty()) == 0);
    assert(seq![e].last() == e);
}

/// A flattened expression weighs exactly the expression's size: what the
/// stack machine is about to consume is bounded by the syntax it came
/// from.
pub proof fn lemma_flat_esize(e: Expr)
    ensures
        seq_esize(flat(e)) == esize(e),
    decreases e,
{
    lemma_seq_esize_single(e);
    lemma_seq_esize_concat(seq![e], gseq(e));
    match e {
        Expr::Add(l, r) => {
            lemma_flat_esize(*l);
            lemma_flat_esize(*r);
            lemma_gseq_bin(e, *l, *r);
        },
        Expr::Sub(l, r) => {
            lemma_flat_esize(*l);
            lemma_flat_esize(*r);
            lemma_gseq_bin(e, *l, *r);
        },
        Expr::Mul(l, r) => {
            lemma_flat_esize(*l);
            lemma_flat_esize(*r);
            lemma_gseq_bin(e, *l, *r);
        },
        Expr::Div(l, r) => {
            lemma_flat_esize(*l);
            lemma_flat_esize(*r);
            lemma_gseq_bin(e, *l, *r);
        },
        Expr::Xor(l, r) => {
            lemma_flat_esize(*l);
            lemma_flat_esize(*r);
            lemma_gseq_bin(e, *l, *r);
        },
        Expr::Mod(l, r) => {
            lemma_flat_esize(*l);
            lemma_flat_esize(*r);
            lemma_gseq_bin(e, *l, *r);
        },
        Expr::Not(x) => {
            lemma_flat_esize(*x);
            lemma_gseq_un(e, *x);
        },
        Expr::Neg(x) => {
            lemma_flat_esize(*x);
            lemma_gseq_un(e, *x);
        },
        _ => {
            assert(gseq(e) =~= Seq::<Expr>::empty());
        },
    }
}

/// Helper for [`lemma_flat_esize`]: a binary operator's expansion weighs
/// the sum of its operands' sizes, given the claim for the operands.
proof fn lemma_gseq_bin(e: Expr, l: Expr, r: Expr)
    requires
        gseq(e) == seq![l, r] + gseq(r) + gseq(l),
        esize(e) == 1 + esize(l) + esize(r),
        wsize(e) == 1,
        seq_esize(flat(l)) == esize(l),
        seq_esize(flat(r)) == esize(r),
    ensures
        seq_esize(flat(e)) == esize(e),
{
    lemma_seq_esize_single(e);
    lemma_seq_esize_single(l);
    lemma_seq_esize_single(r);
    lemma_seq_esize_concat(seq![e], gseq(e));
    lemma_seq_esize_concat(seq![l, r] + gseq(r), gseq(l));
    lemma_seq_esize_concat(seq![l, r], gseq(r));
    assert(seq![l, r] =~= seq![l] + seq![r]);
    lemma_seq_esize_concat(seq![l], seq![r]);
    lemma_seq_esize_concat(seq![l], gseq(l));
    lemma_seq_esize_concat(seq![r], gseq(r));
    assert(seq_esize(flat(l)) == wsize(l) + seq_esize(gseq(l)));
    assert(seq_esize(flat(r)) == wsize(r) + seq_esize(gseq(r)));
}

/// Helper for [`lemma_flat_esize`]: a unary operator's expansion weighs
/// its operand's size, given the claim for the operand.
proof fn lemma_gseq_un(e: Expr, x: Expr)
    requires
        gseq(e) == seq![x] + gseq(x),
        esize(e) == 1 + esize(x),
        wsize(e) == 1,
        seq_esize(flat(x)) == esize(x),
    ensures
        seq_esize(flat(e)) == esize(e),
{
    lemma_seq_esize_single(e);
    lemma_seq_esize_single(x);
    lemma_seq_esize_concat(seq![e], gseq(e));
    lemma_seq_esize_concat(seq![x], gseq(x));
}

/// The result of evaluating an expression: the new state, the caller's
/// scope after any side effects, and the value.
pub type EvalR = Result<(StateG, LocalEnvironment, Value), RunError>;

/// The result of evaluating an argument list.
pub type ArgsR = Result<(StateG, LocalEnvironment, Seq<Value>), RunError>;

/// The result of collapsing a condition to a boolean.
pub type CondR = Result<(StateG, LocalEnvironment, bool), RunError>;

/// The result of running a statement list: the returned value, or `None`
/// when the body ran off its end.
pub type StmtsR = Result<(StateG, Option<Value>), RunError>;

/// The register discipline: a fresh value fills `rhs` while `rhs` is
/// empty, and `lhs` otherwise.
pub open spec fn spec_place(lhs: Value, rhs: Value, v: Value) -> (Value, Value) {
    match rhs {
        Value::Void => (lhs, v),
        _ => (v, rhs),
    }
}

/// The argument expressions of an anonymous function's bindings: what its
/// call thunk re-evaluates at each invocation.
pub open spec fn binds_exprs(l: BindList) -> ExprList
    decreases l,
{
    match l {
        BindList::Nil => ExprList::Nil,
        BindList::Cons(_, e, rest) => ExprList::Cons(e, Box::new(binds_exprs(*rest))),
    }
}

/// The parameter list an anonymous function infers: each binding's name
/// with the reified type of the value its expression produced.
pub open spec fn spec_param_types(
    store: Seq<Value>,
    binds: BindList,
    vals: Seq<Value>,
    i: int,
) -> Result<ParamList, RunError>
    decreases binds,
{
    match binds {
        BindList::Nil => Result::Ok(ParamList::Nil),
        BindList::Cons(n, _, rest) => if i >= vals.len() {
            Result::Err(RunError::ArityMismatch)
        } else {
            match spec_type_of(store, vals[i]) {
                Result::Err(e) => Result::Err(e),
                Result::Ok(t) => match spec_param_types(store, *rest, vals, i + 1) {
                    Result::Err(e) => Result::Err(e),
                    Result::Ok(ps) => Result::Ok(ParamList::Cons(n, t, Box::new(ps))),
                },
            }
        },
    }
}

/// Binds positional parameters to evaluated arguments in a fresh scope.
/// Each parameter type must equal the argument's reified type.  A
/// reference argument aliases: the parameter points at the caller's cell;
/// any other argument gets a freshly allocated cell.  Missing arguments
/// are fatal; extra ones are ignored.
pub open spec fn spec_bind_params(
    g: StateG,
    params: ParamList,
    args: Seq<Value>,
    i: int,
    env: LocalEnvironment,
) -> Result<(StateG, LocalEnvironment), RunError>
    decreases params,
{
    match params {
        ParamList::Nil => Result::Ok((g, env)),
        ParamList::Cons(n, ty, rest) => if i >= args.len() {
            Result::Err(RunError::ArityMismatch)
        } else {
            match spec_type_of(g.store, args[i]) {
                Result::Err(e) => Result::Err(e),
                Result::Ok(t) => if t != ty {
                    Result::Err(RunError::TypeMismatch)
                } else {
                    match args[i] {
                        Value::RefValue(c) => spec_bind_params(
                            g,
                            *rest,
                            args,
                            i + 1,
                            LocalEnvironment {
                                variables: ScopeList::Cons(n, c, Box::new(env.variables)),
                            },
                        ),
                        _ => spec_bind_params(
                            StateG { store: g.store.push(args[i]), ..g },
                            *rest,
                            args,
                            i + 1,
                            LocalEnvironment {
                                variables: ScopeList::Cons(
                                    n,
                                    g.store.len() as CellId,
                                    Box::new(env.variables),
                                ),
                            },
                        ),
                    }
                },
            }
        },
    }
}

/// Evaluates an expression: flattens it and consumes the stack.
pub open spec fn spec_eval_expr(g: StateG, env: LocalEnvironment, e: Expr, fuel: nat) -> EvalR
    decreases fuel, 1int, esize(e), 1int,
        via spec_eval_expr_dec
{
    spec_eval_stack(g, env, flat(e), Value::Void, Value::Void, fuel)
}

#[via_fn]
proof fn spec_eval_expr_dec(g: StateG, env: LocalEnvironment, e: Expr, fuel: nat) {
    lemma_flat_esize(e);
}

/// Consumes an evaluation stack from its last entry, maintaining the two
/// operand registers.  When the stack is empty, the value is `rhs`.
pub open spec fn spec_eval_stack(
    g: StateG,
    env: LocalEnvironment,
    stack: Seq<Expr>,
    lhs: Value,
    rhs: Value,
    fuel: nat,
) -> EvalR
    decreases fuel, 1int, seq_esize(stack), 0int,
{
    if stack.len() == 0 {
        Result::Ok((g, env, rhs))
    } else {
        let x = stack.last();
        let rest = stack.drop_last();
        match x {
            Expr::Integer(v) => {
                let (l2, r2) = spec_place(lhs, rhs, Value::Int(v));
                spec_eval_stack(g, env, rest, l2, r2, fuel)
            },
            Expr::Bool(b) => {
                let (l2, r2) = spec_place(lhs, rhs, Value::Bool(b));
                spec_eval_stack(g, env, rest, l2, r2, fuel)
            },
            Expr::StringLit(s) => {
                let (l2, r2) = spec_place(lhs, rhs, Value::Str(s));
                spec_eval_stack(g, env, rest, l2, r2, fuel)
            },
            Expr::Add(_, _) => match spec_value_add(g.store, lhs, rhs) {
                Result::Err(e) => Result::Err(e),
                Result::Ok(v) => spec_eval_stack(g, env, rest, Value::Void, v, fuel),
            },
            Expr::Sub(_, _) => match spec_value_sub(g.store, lhs, rhs) {
                Result::Err(e) => Result::Err(e),
                Result::Ok(v) => spec_eval_stack(g, env, rest, Value::Void, v, fuel),
            },
            Expr::Mul(_, _) => match spec_value_mul(g.store, lhs, rhs) {
                Result::Err(e) => Result::Err(e),
                Result::Ok(v) => spec_eval_stack(g, env, rest, Value::Void, v, fuel),
            },
            Expr::Div(_, _) => match spec_value_div(g.store, lhs, rhs) {
                Result::Err(e) => Result::Err(e),
                Result::Ok(v) => spec_eval_stack(g, env, rest, Value::Void, v, fuel),
            },
            Expr::Xor(_, _) => match spec_value_xor(g.store, lhs, rhs) {
                Result::Err(e) => Result::Err(e),
                Result::Ok(v) => spec_eval_stack(g, env, rest, Value::Void, v, fuel),
            },
            Expr::Mod(_, _) => match spec_value_rem(g.store, lhs, rhs) {
                Result::Err(e) => Result::Err(e),
                Result::Ok(v) => spec_eval_stack(g, env, rest, Value::Void, v, fuel),
            },
            Expr::Not(_) => match rhs {
                Value::Void => match spec_value_not(g.store, lhs) {
                    Result::Err(e) => Result::Err(e),
                    Result::Ok(v) => spec_eval_stack(g, env, rest, v, rhs, fuel),
                },
                _ => match spec_value_not(g.store, rhs) {
                    Result::Err(e) => Result::Err(e),
                    Result::Ok(v) => spec_eval_stack(g, env, rest, lhs, v, fuel),
                },
            },
            Expr::Neg(_) => match rhs {
                Value::Void => match spec_value_neg(g.store, lhs) {
                    Result::Err(e) => Result::Err(e),
                    Result::Ok(v) => spec_eval_stack(g, env, rest, v, rhs, fuel),
                },
                _ => match spec_value_neg(g.store, rhs) {
                    Result::Err(e) => Result::Err(e),
                    Result::Ok(v) => spec_eval_stack(g, env, rest, lhs, v, fuel),
                },
            },
            Expr::Eq(l, r) => {
                let (l2, r2) = spec_place(lhs, rhs, Value::Cond(CondType::Eq, l, r));
                spec_eval_stack(g, env, rest, l2, r2, fuel)
            },
            Expr::NotEq(l, r) => {
                let (l2, r2) = spec_place(lhs, rhs, Value::Cond(CondType::Ne, l, r));
                spec_eval_stack(g, env, rest, l2, r2, fuel)
            },
            Expr::Gt(l, r) => {
                let (l2, r2) = spec_place(lhs, rhs, Value::Cond(CondType::Gt, l, r));
                spec_eval_stack(g, env, rest, l2, r2, fuel)
            },
            Expr::Lt(l, r) => {
                let (l2, r2) = spec_place(lhs, rhs, Value::Cond(CondType::Lt, l, r));
                spec_eval_stack(g, env, rest, l2, r2, fuel)
            },
            Expr::Ge(l, r) => {
                let (l2, r2) = spec_place(lhs, rhs, Value::Cond(CondType::Ge, l, r));
                spec_eval_stack(g, env, rest, l2, r2, fuel)
            },
            Expr::Le(l, r) => {
                let (l2, r2) = spec_place(lhs, rhs, Value::Cond(CondType::Le, l, r));
                spec_eval_stack(g, env, rest, l2, r2, fuel)
            },
            Expr::Or(l, r) => {
                let (l2, r2) = spec_place(lhs, rhs, Value::Cond(CondType::Or, l, r));
                spec_eval_stack(g, env, rest, l2, r2, fuel)
            },
            Expr::And(l, r) => {
                let (l2, r2) = spec_place(lhs, rhs, Value::Cond(CondType::And, l, r));
                spec_eval_stack(g, env, rest, l2, r2, fuel)
            },
            Expr::Call(c) => match spec_call_func(g, env, c, fuel) {
                Result::Err(e) => Result::Err(e),
                Result::Ok((g2, env2, v)) => {
                    let (l2, r2) = spec_place(lhs, rhs, v);
                    spec_eval_stack(g2, env2, rest, l2, r2, fuel)
                },
            },
            Expr::Ident(n) => match spec_resolve(env, g.globals, n) {
                Option::None => Result::Err(RunError::UnboundName(n)),
                Option::Some(c) => match spec_cell_read(g.store, c) {
                    Result::Err(e) => Result::Err(e),
                    Result::Ok(v) => {
                        let (l2, r2) = spec_place(lhs, rhs, v);
                        spec_eval_stack(g, env, rest, l2, r2, fuel)
                    },
                },
            },
            Expr::Func(fp) => match fp.args {
                Option::None => Result::Err(RunError::MissingBody),
                Option::Some(args) => {
                    let (l2, r2) = spec_place(
                        lhs,
                        rhs,
                        Value::CallFunc(CallExpr { func_name: fp.ident, args }),
                    );
                    spec_eval_stack(g, env, rest, l2, r2, fuel)
                },
            },
            Expr::AnonFunc(a) => match spec_eval_anon(g, env, a, fuel) {
                Result::Err(e) => Result::Err(e),
                Result::Ok((g2, env2, v)) => {
                    let (l2, r2) = spec_place(lhs, rhs, v);
                    spec_eval_stack(g2, env2, rest, l2, r2, fuel)
                },
            },
            Expr::Range(s, e) => {
                let (l2, r2) = spec_place(lhs, rhs, Value::Range(s, e));
                spec_eval_stack(g, env, rest, l2, r2, fuel)
            },
            Expr::Counter(n, s, e) => {
                let v = Value::Counter(n, s, e);
                match scope_get(env.variables, n) {
                    Option::Some(c) => match spec_cell_write(g, c, Value::Int(s)) {
                        Result::Err(e2) => Result::Err(e2),
                        Result::Ok(g2) => {
                            let (l2, r2) = spec_place(lhs, rhs, v);
                            spec_eval_stack(g2, env, rest, l2, r2, fuel)
                        },
                    },
                    Option::None => {
                        let c = g.store.len() as CellId;
                        let g2 = StateG { store: g.store.push(Value::Int(s)), ..g };
                        let env2 = LocalEnvironment {
                            variables: ScopeList::Cons(n, c, Box::new(env.variables)),
                        };
                        let (l2, r2) = spec_place(lhs, rhs, v);
                        spec_eval_stack(g2, env2, rest, l2, r2, fuel)
                    },
                }
            },
            Expr::Ref(inner) => match *inner {
                Expr::Ident(n) => match spec_resolve(env, g.globals, n) {
                    Option::None => Result::Err(RunError::UnboundName(n)),
                    Option::Some(c) => {
                        let (l2, r2) = spec_place(lhs, rhs, Value::RefValue(c));
                        spec_eval_stack(g, env, rest, l2, r2, fuel)
                    },
                },
                _ => match spec_eval_expr(g, env, *inner, fuel) {
                    Result::Err(e) => Result::Err(e),
                    Result::Ok((g2, env2, v)) => {
                        let c = g2.store.len() as CellId;
                        let g3 = StateG { store: g2.store.push(v), ..g2 };
                        let (l2, r2) = spec_place(lhs, rhs, Value::RefValue(c));
                        spec_eval_stack(g3, env2, rest, l2, r2, fuel)
                    },
                },
            },
            Expr::Array(_) => spec_eval_stack(g, env, rest, lhs, rhs, fuel),
            Expr::Dictionary(_) => spec_eval_stack(g, env, rest, lhs, rhs, fuel),
        }
    }
}

/// Evaluates an argument list left to right.
pub open spec fn spec_eval_args(g: StateG, env: LocalEnvironment, args: ExprList, fuel: nat) -> ArgsR
    decreases fuel, 1int, lsize(args), 2int,
        via spec_eval_args_dec
{
    match args {
        ExprList::Nil => Result::Ok((g, env, Seq::<Value>::empty())),
        ExprList::Cons(e, rest) => match spec_eval_expr(g, env, *e, fuel) {
            Result::Err(e2) => Result::Err(e2),
            Result::Ok((g1, env1, v)) => match spec_eval_args(g1, env1, *rest, fuel) {
                Result::Err(e2) => Result::Err(e2),
                Result::Ok((g2, env2, vs)) => Result::Ok((g2, env2, seq![v] + vs)),
            },
        },
    }
}

#[via_fn]
proof fn spec_eval_args_dec(g: StateG, env: LocalEnvironment, args: ExprList, fuel: nat) {
    match args {
        ExprList::Cons(e, _) => lemma_esize_pos(*e),
        _ => {},
    }
}

/// Evaluates an anonymous function's binding expressions left to right.
pub open spec fn spec_eval_binds(g: StateG, env: LocalEnvironment, binds: BindList, fuel: nat) -> ArgsR
    decreases fuel, 1int, bsize(binds), 2int,
        via spec_eval_binds_dec
{
    match binds {
        BindList::Nil => Result::Ok((g, env, Seq::<Value>::empty())),
        BindList::Cons(_, e, rest) => match spec_eval_expr(g, env, *e, fuel) {
            Result::Err(e2) => Result::Err(e2),
            Result::Ok((g1, env1, v)) => match spec_eval_binds(g1, env1, *rest, fuel) {
                Result::Err(e2) => Result::Err(e2),
                Result::Ok((g2, env2, vs)) => Result::Ok((g2, env2, seq![v] + vs)),
            },
        },
    }
}

#[via_fn]
proof fn spec_eval_binds_dec(g: StateG, env: LocalEnvironment, binds: BindList, fuel: nat) {
    match binds {
        BindList::Cons(_, e, _) => lemma_esize_pos(*e),
        _ => {},
    }
}

/// Reifies an anonymous function expression to a call thunk.
///
/// On the first encounter the binding expressions are evaluated (their
/// values supply the inferred parameter types), a fresh name is coined,
/// the function object is built, cached under the syntax, and bound in
/// the current scope; the value is a thunk that calls the fresh name with
/// the binding expressions.  A later encounter of syntactically identical
/// anonymous syntax reuses the cached function object: nothing is
/// re-evaluated, only the binding of its name in the current scope is
/// renewed.
pub open spec fn spec_eval_anon(g: StateG, env: LocalEnvironment, a: AnonymousFunc, fuel: nat) -> EvalR
    decreases fuel, 1int, bsize(a.args), 3int,
{
    match cache_get(g.cache, a) {
        Option::Some(f) => {
            let c = g.store.len() as CellId;
            let g2 = StateG { store: g.store.push(Value::Func(f)), ..g };
            let env2 = LocalEnvironment {
                variables: ScopeList::Cons(f.ident, c, Box::new(env.variables)),
            };
            Result::Ok(
                (
                    g2,
                    env2,
                    Value::CallFunc(CallExpr { func_name: f.ident, args: binds_exprs(a.args) }),
                ),
            )
        },
        Option::None => match a.stmt {
            Option::None => Result::Err(RunError::MissingBody),
            Option::Some(body) => match spec_eval_binds(g, env, a.args, fuel) {
                Result::Err(e) => Result::Err(e),
                Result::Ok((g1, env1, vals)) => match spec_param_types(g1.store, a.args, vals, 0) {
                    Result::Err(e) => Result::Err(e),
                    Result::Ok(params) => if g1.next_anon == u64::MAX {
                        Result::Err(RunError::NameOverflow)
                    } else {
                        let ident = Name::Anon(g1.next_anon);
                        let f = Function {
                            privacy: PrivacyType::Private,
                            environment: env1,
                            ident,
                            args: params,
                            rty: a.rty,
                            body: body.stmt,
                        };
                        let c = g1.store.len() as CellId;
                        let g2 = StateG {
                            store: g1.store.push(Value::Func(f)),
                            cache: CacheList::Cons(a, f, Box::new(g1.cache)),
                            next_anon: (g1.next_anon + 1) as u64,
                            ..g1
                        };
                        let env2 = LocalEnvironment {
                            variables: ScopeList::Cons(ident, c, Box::new(env1.variables)),
                        };
                        Result::Ok(
                            (
                                g2,
                                env2,
                                Value::CallFunc(
                                    CallExpr { func_name: ident, args: binds_exprs(a.args) },
                                ),
                            ),
                        )
                    },
                },
            },
        },
    }
}

/// The call protocol: resolve the callee local-before-global, evaluate
/// the arguments in the caller's scope, then dispatch: a built-in runs on
/// the evaluated arguments; a user function binds its parameters in a
/// fresh scope and runs its body.  Anything else is not callable.
pub open spec fn spec_call_func(g: StateG, env: LocalEnvironment, c: CallExpr, fuel: nat) -> EvalR
    decreases fuel, 1int, lsize(c.args), 3int,
{
    match spec_resolve(env, g.globals, c.func_name) {
        Option::None => Result::Err(RunError::UnboundName(c.func_name)),
        Option::Some(cell) => match spec_cell_read(g.store, cell) {
            Result::Err(e) => Result::Err(e),
            Result::Ok(callee) => match spec_eval_args(g, env, c.args, fuel) {
                Result::Err(e) => Result::Err(e),
                Result::Ok((g2, env2, vals)) => match callee {
                    Value::FuncPtr(p) => if fuel == 0 {
                        Result::Err(RunError::OutOfFuel)
                    } else {
                        spec_prim(p, vals, g2, env2, (fuel - 1) as nat)
                    },
                    Value::Func(f) => if fuel == 0 {
                        Result::Err(RunError::OutOfFuel)
                    } else {
                        match spec_bind_params(
                            g2,
                            f.args,
                            vals,
                            0,
                            LocalEnvironment { variables: ScopeList::Nil },
                        ) {
                            Result::Err(e) => Result::Err(e),
                            Result::Ok((g3, env_f)) => match spec_run_func(
                                g3,
                                f,
                                env_f,
                                (fuel - 1) as nat,
                            ) {
                                Result::Err(e) => Result::Err(e),
                                Result::Ok((g4, v)) => Result::Ok((g4, env2, v)),
                            },
                        }
                    },
                    _ => Result::Err(RunError::NotCallable),
                },
            },
        },
    }
}

/// The disjunction of two condition operands.  Two deferred comparisons
/// short-circuit: the right one is evaluated only when the left one is
/// false.  Otherwise both operands must dereference to booleans.
pub open spec fn spec_logical_or(
    g: StateG,
    env: LocalEnvironment,
    a: Value,
    b: Value,
    fuel: nat,
) -> CondR
    decreases fuel, 0int, 0int, 0int,
{
    match (a, b) {
        (Value::Cond(t1, l1, r1), Value::Cond(t2, l2, r2)) => if fuel == 0 {
            Result::Err(RunError::OutOfFuel)
        } else {
            match spec_eval_cond(g, env, t1, *l1, *r1, (fuel - 1) as nat) {
                Result::Err(e) => Result::Err(e),
                Result::Ok((g1, env1, b1)) => if b1 {
                    Result::Ok((g1, env1, true))
                } else {
                    spec_eval_cond(g1, env1, t2, *l2, *r2, (fuel - 1) as nat)
                },
            }
        },
        _ => match (spec_deref(g.store, a), spec_deref(g.store, b)) {
            (Result::Err(e), _) => Result::Err(e),
            (Result::Ok(_), Result::Err(e)) => Result::Err(e),
            (Result::Ok(da), Result::Ok(db)) => match (da, db) {
                (Value::Bool(x), Value::Bool(y)) => Result::Ok((g, env, x || y)),
                _ => Result::Err(RunError::ExpectedBool),
            },
        },
    }
}

/// Collapses a deferred comparison: both operand expressions are
/// evaluated, left first, in the scope given here -- the scope of whoever
/// drives the thunk, not the scope where the comparison was written.
pub open spec fn spec_eval_cond(
    g: StateG,
    env: LocalEnvironment,
    ct: CondType,
    l: Expr,
    r: Expr,
    fuel: nat,
) -> CondR
    decreases fuel, 2int, 0int, 0int,
{
    match spec_eval_expr(g, env, l, fuel) {
        Result::Err(e) => Result::Err(e),
        Result::Ok((g1, env1, vl)) => match spec_eval_expr(g1, env1, r, fuel) {
            Result::Err(e) => Result::Err(e),
            Result::Ok((g2, env2, vr)) => match ct {
                CondType::Or => spec_logical_or(g2, env2, vl, vr, fuel),
                CondType::And => match spec_logical_and(g2.store, vl, vr) {
                    Result::Err(e) => Result::Err(e),
                    Result::Ok(b) => Result::Ok((g2, env2, b)),
                },
                _ => Result::Ok((g2, env2, spec_compare(ct, vl, vr))),
            },
        },
    }
}

/// Assignment: the cell bound to the name (local before global) is
/// overwritten in place, except that a cell holding a reference redirects
/// the write through that one reference hop.  An unbound name is fatal.
pub open spec fn spec_do_assign(g: StateG, env: LocalEnvironment, n: Name, v: Value) -> Result<
    StateG,
    RunError,
> {
    match spec_resolve(env, g.globals, n) {
        Option::None => Result::Err(RunError::UnboundName(n)),
        Option::Some(c) => match spec_cell_read(g.store, c) {
            Result::Err(e) => Result::Err(e),
            Result::Ok(cur) => {
                let target = match cur {
                    Value::RefValue(inner) => inner,
                    _ => c,
                };
                spec_cell_write(g, target, v)
            },
        },
    }
}

/// Collapses a value for a binding: a deferred comparison becomes the
/// boolean it evaluates to; anything else is kept as is.
pub open spec fn spec_collapse(g: StateG, env: LocalEnvironment, v: Value, fuel: nat) -> EvalR
    decreases fuel, 2int, 0int, 1int,
{
    match v {
        Value::Cond(ct, l, r) => match spec_eval_cond(g, env, ct, *l, *r, fuel) {
            Result::Err(e) => Result::Err(e),
            Result::Ok((g2, env2, b)) => Result::Ok((g2, env2, Value::Bool(b))),
        },
        _ => Result::Ok((g, env, v)),
    }
}

/// Runs a statement list in order.
///
/// `let` collapses the value and installs a fresh cell; assignment
/// collapses and writes the resolved cell, through one reference hop when
/// the cell holds a reference; an expression statement evaluates and
/// discards; `return` evaluates, demands that the value's reified type
/// equal the declared return type, and stops.  A nested function
/// definition is not driven here and is fatal.
pub open spec fn spec_run_stmts(
    g: StateG,
    env: LocalEnvironment,
    stmts: StmtList,
    rty: TypeName,
    fuel: nat,
) -> StmtsR
    decreases fuel, 3int, slen(stmts), 0int,
{
    match stmts {
        StmtList::Nil => Result::Ok((g, Option::None)),
        StmtList::Cons(s, rest) => match *s {
            Stmt::Expr(e) => match spec_eval_expr(g, env, *e, fuel) {
                Result::Err(e2) => Result::Err(e2),
                Result::Ok((g1, env1, _)) => spec_run_stmts(g1, env1, *rest, rty, fuel),
            },
            Stmt::VarIdent(vi) => match spec_eval_expr(g, env, vi.expr, fuel) {
                Result::Err(e2) => Result::Err(e2),
                Result::Ok((g1, env1, v)) => match spec_collapse(g1, env1, v, fuel) {
                    Result::Err(e2) => Result::Err(e2),
                    Result::Ok((g2, env2, v2)) => {
                        let c = g2.store.len() as CellId;
                        let g3 = StateG { store: g2.store.push(v2), ..g2 };
                        let env3 = LocalEnvironment {
                            variables: ScopeList::Cons(vi.ident, c, Box::new(env2.variables)),
                        };
                        spec_run_stmts(g3, env3, *rest, rty, fuel)
                    },
                },
            },
            Stmt::VarAssign(va) => match spec_eval_expr(g, env, va.expr, fuel) {
                Result::Err(e2) => Result::Err(e2),
                Result::Ok((g1, env1, v)) => match spec_collapse(g1, env1, v, fuel) {
                    Result::Err(e2) => Result::Err(e2),
                    Result::Ok((g2, env2, v2)) => match spec_do_assign(g2, env2, va.ident, v2) {
                        Result::Err(e2) => Result::Err(e2),
                        Result::Ok(g3) => spec_run_stmts(g3, env2, *rest, rty, fuel),
                    },
                },
            },
            Stmt::ReturnValue(e) => match spec_eval_expr(g, env, *e, fuel) {
                Result::Err(e2) => Result::Err(e2),
                Result::Ok((g1, env1, v)) => match spec_type_of(g1.store, v) {
                    Result::Err(e2) => Result::Err(e2),
                    Result::Ok(t) => if t == rty {
                        Result::Ok((g1, Option::Some(v)))
                    } else {
                        Result::Err(RunError::TypeMismatch)
                    },
                },
            },
            Stmt::FuncIdent(_) => Result::Err(RunError::UnhandledStatement),
            Stmt::FuncBody(_) => Result::Err(RunError::UnhandledStatement),
        },
    }
}

/// Runs a function body in an activation scope.  A body that runs off its
/// end yields `Void` (no return-type check applies then).
pub open spec fn spec_run_func(g: StateG, f: Function, env: LocalEnvironment, fuel: nat) -> Result<
    (StateG, Value),
    RunError,
>
    decreases fuel, 3int, slen(f.body), 1int,
{
    match spec_run_stmts(g, env, f.body, f.rty, fuel) {
        Result::Err(e) => Result::Err(e),
        Result::Ok((g2, ret)) => Result::Ok(
            (
                g2,
                match ret {
                    Option::Some(v) => v,
                    Option::None => Value::Void,
                },
            ),
        ),
    }
}

/// The text a value prints as: a deferred comparison prints the boolean
/// it evaluates to in the current scope; anything else prints its
/// rendering, through references.
pub open spec fn spec_display(g: StateG, env: LocalEnvironment, v: Value, fuel: nat) -> Result<
    (StateG, LocalEnvironment, Seq<char>),
    RunError,
>
    decreases fuel, 3int, 0int, 0int,
{
    match v {
        Value::Cond(ct, l, r) => match spec_eval_cond(g, env, ct, *l, *r, fuel) {
            Result::Err(e) => Result::Err(e),
            Result::Ok((g2, env2, b)) => Result::Ok(
                (
                    g2,
                    env2,
                    if b {
                        "true"@
                    } else {
                        "false"@
                    },
                ),
            ),
        },
        _ => match spec_deref(g.store, v) {
            Result::Err(e) => Result::Err(e),
            Result::Ok(dv) => Result::Ok((g, env, shallow_chars(dv))),
        },
    }
}

/// One iteration step of `for`, then the rest of the loop.  Before each
/// step, a counter loop writes the index into the counter's cell; then
/// the body thunk fires: a built-in body runs on the pre-evaluated
/// arguments, a user body goes through the full call protocol, so its
/// arguments are re-evaluated against the current scope every iteration.
pub open spec fn spec_for_loop(
    g: StateG,
    env: LocalEnvironment,
    ccell: Option<CellId>,
    i: i64,
    end: i64,
    c: CallExpr,
    body_prim: Option<Prim>,
    parsed: Seq<Value>,
    fuel: nat,
) -> EvalR
    decreases fuel, 4int, (if i < end { (end - i) as int } else { 0int }), 0int,
{
    if i >= end {
        Result::Ok((g, env, Value::Void))
    } else {
        let wrote = match ccell {
            Option::Some(cl) => spec_cell_write(g, cl, Value::Int(i)),
            Option::None => Result::Ok(g),
        };
        match wrote {
            Result::Err(e) => Result::Err(e),
            Result::Ok(g1) => {
                let stepped = match body_prim {
                    Option::Some(p) => if fuel == 0 {
                        Result::Err(RunError::OutOfFuel)
                    } else {
                        spec_prim(p, parsed, g1, env, (fuel - 1) as nat)
                    },
                    Option::None => spec_call_func(g1, env, c, fuel),
                };
                match stepped {
                    Result::Err(e) => Result::Err(e),
                    Result::Ok((g2, env2, _)) => spec_for_loop(
                        g2,
                        env2,
                        ccell,
                        (i + 1) as i64,
                        end,
                        c,
                        body_prim,
                        parsed,
                        fuel,
                    ),
                }
            },
        }
    }
}

/// One test-and-step of `while`, then the rest of the loop.  The
/// condition is re-evaluated against the current scope before every
/// iteration; each iteration consumes fuel.
pub open spec fn spec_while_loop(
    g: StateG,
    env: LocalEnvironment,
    ct: CondType,
    l: Expr,
    r: Expr,
    c: CallExpr,
    body_prim: Option<Prim>,
    parsed: Seq<Value>,
    fuel: nat,
) -> EvalR
    decreases fuel, 4int, 0int, 0int,
{
    if fuel == 0 {
        Result::Err(RunError::OutOfFuel)
    } else {
        match spec_eval_cond(g, env, ct, l, r, fuel) {
            Result::Err(e) => Result::Err(e),
            Result::Ok((g1, env1, b)) => if !b {
                Result::Ok((g1, env1, Value::Void))
            } else {
                let stepped = match body_prim {
                    Option::Some(p) => spec_prim(p, parsed, g1, env1, (fuel - 1) as nat),
                    Option::None => spec_call_func(g1, env1, c, fuel),
                };
                match stepped {
                    Result::Err(e) => Result::Err(e),
                    Result::Ok((g2, env2, _)) => spec_while_loop(
                        g2,
                        env2,
                        ct,
                        l,
                        r,
                        c,
                        body_prim,
                        parsed,
                        (fuel - 1) as nat,
                    ),
                }
            },
        }
    }
}

/// `print`: renders the argument at `i` and the later ones, separated by
/// single spaces, and completes the line.  Called with no arguments at
/// all, `print` is a fatal arity error.
pub open spec fn spec_prim_print(
    g: StateG,
    env: LocalEnvironment,
    args: Seq<Value>,
    i: int,
    fuel: nat,
) -> EvalR
    decreases fuel, 5int, (if i < args.len() { args.len() - i } else { 0int }), 0int,
{
    if args.len() == 0 {
        Result::Err(RunError::ArityMismatch)
    } else if i >= args.len() {
        Result::Ok(
            (
                StateG { line: Seq::empty(), output: g.output.push(g.line), ..g },
                env,
                Value::Void,
            ),
        )
    } else {
        match spec_display(g, env, args[i], fuel) {
            Result::Err(e) => Result::Err(e),
            Result::Ok((g1, env1, text)) => {
                let with_sep = if i + 1 < args.len() {
                    g1.line + text + " "@
                } else {
                    g1.line + text
                };
                spec_prim_print(StateG { line: with_sep, ..g1 }, env1, args, i + 1, fuel)
            },
        }
    }
}

/// `if`: the first argument must be a deferred comparison (evaluated
/// here, in the current scope) or a boolean; anything else yields `Void`.
/// The chosen branch must be a call thunk, which fires through the call
/// protocol; a branch that is any other value yields `Void`.  A missing
/// else branch yields `Void`; a missing then branch is a fatal arity
/// error.
pub open spec fn spec_prim_if(g: StateG, env: LocalEnvironment, args: Seq<Value>, fuel: nat) -> EvalR
    decreases fuel, 5int, 0int, 1int,
{
    if args.len() == 0 {
        Result::Err(RunError::ArityMismatch)
    } else {
        match args[0] {
            Value::Cond(ct, l, r) => match spec_eval_cond(g, env, ct, *l, *r, fuel) {
                Result::Err(e) => Result::Err(e),
                Result::Ok((g1, env1, b)) => spec_if_branch(g1, env1, args, b, fuel),
            },
            Value::Bool(b) => spec_if_branch(g, env, args, b, fuel),
            _ => Result::Ok((g, env, Value::Void)),
        }
    }
}

/// The branch half of `if`, once the condition's boolean is known.
pub open spec fn spec_if_branch(
    g: StateG,
    env: LocalEnvironment,
    args: Seq<Value>,
    b: bool,
    fuel: nat,
) -> EvalR
    decreases fuel, 5int, 0int, 0int,
{
    let idx: int = if b {
        1
    } else {
        2
    };
    if idx >= args.len() {
        if b {
            Result::Err(RunError::ArityMismatch)
        } else {
            Result::Ok((g, env, Value::Void))
        }
    } else {
        match args[idx] {
            Value::CallFunc(c) => spec_call_func(g, env, c, fuel),
            _ => Result::Ok((g, env, Value::Void)),
        }
    }
}

/// `for`: the first argument must be a range or a counter (anything else
/// yields `Void`), the second a call thunk (anything else yields `Void`).
/// The thunk's arguments are evaluated once up front; a body whose callee
/// resolves to a built-in is then driven in a tight loop on those values,
/// while a user body is re-dispatched in full every iteration.  A
/// counter's cell is resolved once, and the current index is written into
/// it before every step.
pub open spec fn spec_prim_for(g: StateG, env: LocalEnvironment, args: Seq<Value>, fuel: nat) -> EvalR
    decreases fuel, 5int, 0int, 1int,
{
    if args.len() == 0 {
        Result::Err(RunError::ArityMismatch)
    } else {
        match args[0] {
            Value::Range(s, e) => spec_for_source(g, env, args, Option::None, s, e, fuel),
            Value::Counter(n, s, e) => spec_for_source(g, env, args, Option::Some(n), s, e, fuel),
            _ => Result::Ok((g, env, Value::Void)),
        }
    }
}

/// The body half of `for`, once the iteration source is known.
pub open spec fn spec_for_source(
    g: StateG,
    env: LocalEnvironment,
    args: Seq<Value>,
    counter: Option<Name>,
    s: i64,
    e: i64,
    fuel: nat,
) -> EvalR
    decreases fuel, 5int, 0int, 0int,
{
    if args.len() < 2 {
        Result::Err(RunError::ArityMismatch)
    } else {
        match args[1] {
            Value::CallFunc(c) => {
                let ccell = match counter {
                    Option::None => Result::Ok(Option::None),
                    Option::Some(n) => match spec_resolve(env, g.globals, n) {
                        Option::None => Result::Err(RunError::UnboundName(n)),
                        Option::Some(cl) => Result::Ok(Option::Some(cl)),
                    },
                };
                match ccell {
                    Result::Err(e2) => Result::Err(e2),
                    Result::Ok(cc) => match spec_eval_args(g, env, c.args, fuel) {
                        Result::Err(e2) => Result::Err(e2),
                        Result::Ok((g1, env1, parsed)) => {
                            let body_prim = match spec_resolve(env1, g1.globals, c.func_name) {
                                Option::Some(cell) => match spec_cell_read(g1.store, cell) {
                                    Result::Ok(Value::FuncPtr(p)) => Option::Some(p),
                                    _ => Option::None,
                                },
                                Option::None => Option::None,
                            };
                            spec_for_loop(g1, env1, cc, s, e, c, body_prim, parsed, fuel)
                        },
                    },
                }
            },
            _ => Result::Ok((g, env, Value::Void)),
        }
    }
}

/// `while`: the first argument must be a deferred comparison, the second
/// a call thunk; anything else yields `Void`.  The thunk's arguments are
/// evaluated once up front, the callee resolved once; then the condition
/// drives the loop.
pub open spec fn spec_prim_while(
    g: StateG,
    env: LocalEnvironment,
    args: Seq<Value>,
    fuel: nat,
) -> EvalR
    decreases fuel, 5int, 0int, 1int,
{
    if args.len() == 0 {
        Result::Err(RunError::ArityMismatch)
    } else {
        match args[0] {
            Value::Cond(ct, l, r) => if args.len() < 2 {
                Result::Err(RunError::ArityMismatch)
            } else {
                match args[1] {
                    Value::CallFunc(c) => match spec_eval_args(g, env, c.args, fuel) {
                        Result::Err(e2) => Result::Err(e2),
                        Result::Ok((g1, env1, parsed)) => {
                            let body_prim = match spec_resolve(env1, g1.globals, c.func_name) {
                                Option::Some(cell) => match spec_cell_read(g1.store, cell) {
                                    Result::Ok(Value::FuncPtr(p)) => Option::Some(p),
                                    _ => Option::None,
                                },
                                Option::None => Option::None,
                            };
                            spec_while_loop(g1, env1, ct, *l, *r, c, body_prim, parsed, fuel)
                        },
                    },
                    _ => Result::Ok((g, env, Value::Void)),
                }
            },
            _ => Result::Ok((g, env, Value::Void)),
        }
    }
}

/// Dispatches a built-in on already-evaluated arguments.  `input` takes
/// the next input line and yields it as a string.
pub open spec fn spec_prim(
    p: Prim,
    args: Seq<Value>,
    g: StateG,
    env: LocalEnvironment,
    fuel: nat,
) -> EvalR
    decreases fuel, 6int, 0int, 0int,
{
    match p {
        Prim::Print => spec_prim_print(g, env, args, 0, fuel),
        Prim::If => spec_prim_if(g, env, args, fuel),
        Prim::For => spec_prim_for(g, env, args, fuel),
        Prim::While => spec_prim_while(g, env, args, fuel),
        Prim::Input => {
            let (g2, s) = spec_take_input(g);
            Result::Ok((g2, env, Value::Str(s)))
        },
    }
}

/// The register discipline, executably.
fn place_value(lhs: Value, rhs: Value, v: Value) -> (r: (Value, Value))
    ensures
        r == spec_place(lhs, rhs, v),
{
    if matches!(rhs, Value::Void) {
        (lhs, v)
    } else {
        (v, rhs)
    }
}

/// Appends the flattener's expansion of `e` to `out`.
fn build_gseq(e: &Expr, out: &mut Vec<Expr>)
    ensures
        final(out)@ == old(out)@ + gseq(*e),
    decreases *e,
{
    let ghost start = out@;
    match e {
        Expr::Add(l, r) | Expr::Sub(l, r) | Expr::Mul(l, r) | Expr::Div(l, r) | Expr::Xor(l, r)
            | Expr::Mod(l, r) => {
            out.push(clone_expr(l));
            out.push(clone_expr(r));
            build_gseq(r, out);
            build_gseq(l, out);
            proof {
                assert(out@ =~= start + gseq(*e));
            }
        },
        Expr::Not(x) | Expr::Neg(x) => {
            out.push(clone_expr(x));
            build_gseq(x, out);
            proof {
                assert(out@ =~= start + gseq(*e));
            }
        },
        _ => {
            proof {
                assert(out@ =~= start + gseq(*e));
            }
        },
    }
}

/// Evaluates an expression against the machine and the current scope.
/// The result, and every effect on the machine and the scope, is exactly
/// what [`spec_eval_expr`] defines.
pub fn eval_expr(m: &mut Machine, env: &mut LocalEnvironment, e: &Expr, fuel: u64) -> (r: Result<
    Value,
    RunError,
>)
    ensures
        match spec_eval_expr(old(m)@, *old(env), *e, fuel as nat) {
            Result::Ok((g2, env2, v)) => r == Result::<Value, RunError>::Ok(v) && final(m)@ == g2
                && *final(env) == env2,
            Result::Err(er) => r == Result::<Value, RunError>::Err(er),
        },
    decreases fuel, 1int, esize(*e), 1int,
{
    let mut stack: Vec<Expr> = Vec::new();
    stack.push(clone_expr(e));
    build_gseq(e, &mut stack);
    proof {
        assert(stack@ =~= flat(*e));
        lemma_flat_esize(*e);
    }
    eval_stack(m, env, stack, Value::Void, Value::Void, fuel)
}

/// Consumes an evaluation stack, mirroring [`spec_eval_stack`].
fn eval_stack(
    m: &mut Machine,
    env: &mut LocalEnvironment,
    stack: Vec<Expr>,
    lhs: Value,
    rhs: Value,
    fuel: u64,
) -> (r: Result<Value, RunError>)
    ensures
        match spec_eval_stack(old(m)@, *old(env), stack@, lhs, rhs, fuel as nat) {
            Result::Ok((g2, env2, v)) => r == Result::<Value, RunError>::Ok(v) && final(m)@ == g2
                && *final(env) == env2,
            Result::Err(er) => r == Result::<Value, RunError>::Err(er),
        },
    decreases fuel, 1int, seq_esize(stack@), 0int,
{
    let ghost stack0 = stack@;
    let mut stack = stack;
    match stack.pop() {
        Option::None => Result::Ok(rhs),
        Option::Some(x) => {
            proof {
                assert(stack@ =~= stack0.drop_last());
                assert(x == stack0.last());
            }
            match x {
                Expr::Integer(v) => {
                    let (l2, r2) = place_value(lhs, rhs, Value::Int(v));
                    eval_stack(m, env, stack, l2, r2, fuel)
                },
                Expr::Bool(b) => {
                    let (l2, r2) = place_value(lhs, rhs, Value::Bool(b));
                    eval_stack(m, env, stack, l2, r2, fuel)
                },
                Expr::StringLit(s) => {
                    let (l2, r2) = place_value(lhs, rhs, Value::Str(s));
                    eval_stack(m, env, stack, l2, r2, fuel)
                },
                Expr::Add(_, _) => match value_add(&m.store, lhs, rhs) {
                    Result::Err(e) => Result::Err(e),
                    Result::Ok(v) => eval_stack(m, env, stack, Value::Void, v, fuel),
                },
                Expr::Sub(_, _) => match value_sub(&m.store, lhs, rhs) {
                    Result::Err(e) => Result::Err(e),
                    Result::Ok(v) => eval_stack(m, env, stack, Value::Void, v, fuel),
                },
                Expr::Mul(_, _) => match value_mul(&m.store, lhs, rhs) {
                    Result::Err(e) => Result::Err(e),
                    Result::Ok(v) => eval_stack(m, env, stack, Value::Void, v, fuel),
                },
                Expr::Div(_, _) => match value_div(&m.store, lhs, rhs) {
                    Result::Err(e) => Result::Err(e),
                    Result::Ok(v) => eval_stack(m, env, stack, Value::Void, v, fuel),
                },
                Expr::Xor(_, _) => match value_xor(&m.store, lhs, rhs) {
                    Result::Err(e) => Result::Err(e),
                    Result::Ok(v) => eval_stack(m, env, stack, Value::Void, v, fuel),
                },
                Expr::Mod(_, _) => match value_rem(&m.store, lhs, rhs) {
                    Result::Err(e) => Result::Err(e),
                    Result::Ok(v) => eval_stack(m, env, stack, Value::Void, v, fuel),
                },
                Expr::Not(_) => {
                    if matches!(rhs, Value::Void) {
                        match value_not(&m.store, lhs) {
                            Result::Err(e) => Result::Err(e),
                            Result::Ok(v) => eval_stack(m, env, stack, v, rhs, fuel),
                        }
                    } else {
                        match value_not(&m.store, rhs) {
                            Result::Err(e) => Result::Err(e),
                            Result::Ok(v) => eval_stack(m, env, stack, lhs, v, fuel),
                        }
                    }
                },
                Expr::Neg(_) => {
                    if matches!(rhs, Value::Void) {
                        match value_neg(&m.store, lhs) {
                            Result::Err(e) => Result::Err(e),
                            Result::Ok(v) => eval_stack(m, env, stack, v, rhs, fuel),
                        }
                    } else {
                        match value_neg(&m.store, rhs) {
                            Result::Err(e) => Result::Err(e),
                            Result::Ok(v) => eval_stack(m, env, stack, lhs, v, fuel),
                        }
                    }
                },
                Expr::Eq(l, r2) => {
                    let (l2, r3) = place_value(lhs, rhs, Value::Cond(CondType::Eq, l, r2));
                    eval_stack(m, env, stack, l2, r3, fuel)
                },
                Expr::NotEq(l, r2) => {
                    let (l2, r3) = place_value(lhs, rhs, Value::Cond(CondType::Ne, l, r2));
                    eval_stack(m, env, stack, l2, r3, fuel)
                },
                Expr::Gt(l, r2) => {
                    let (l2, r3) = place_value(lhs, rhs, Value::Cond(CondType::Gt, l, r2));
                    eval_stack(m, env, stack, l2, r3, fuel)
                },
                Expr::Lt(l, r2) => {
                    let (l2, r3) = place_value(lhs, rhs, Value::Cond(CondType::Lt, l, r2));
                    eval_stack(m, env, stack, l2, r3, fuel)
                },
                Expr::Ge(l, r2) => {
                    let (l2, r3) = place_value(lhs, rhs, Value::Cond(CondType::Ge, l, r2));
                    eval_stack(m, env, stack, l2, r3, fuel)
                },
                Expr::Le(l, r2) => {
                    let (l2, r3) = place_value(lhs, rhs, Value::Cond(CondType::Le, l, r2));
                    eval_stack(m, env, stack, l2, r3, fuel)
                },
                Expr::Or(l, r2) => {
                    let (l2, r3) = place_value(lhs, rhs, Value::Cond(CondType::Or, l, r2));
                    eval_stack(m, env, stack, l2, r3, fuel)
                },
                Expr::And(l, r2) => {
                    let (l2, r3) = place_value(lhs, rhs, Value::Cond(CondType::And, l, r2));
                    eval_stack(m, env, stack, l2, r3, fuel)
                },
                Expr::Call(c) => match call_func(m, env, &c, fuel) {
                    Result::Err(e) => Result::Err(e),
                    Result::Ok(v) => {
                        let (l2, r2) = place_value(lhs, rhs, v);
                        eval_stack(m, env, stack, l2, r2, fuel)
                    },
                },
                Expr::Ident(n) => match resolve(env, &m.globals, n) {
                    Option::None => Result::Err(RunError::UnboundName(n)),
                    Option::Some(c) => match m.cell_read(c) {
                        Result::Err(e) => Result::Err(e),
                        Result::Ok(v) => {
                            let (l2, r2) = place_value(lhs, rhs, v);
                            eval_stack(m, env, stack, l2, r2, fuel)
                        },
                    },
                },
                Expr::Func(fp) => match fp.args {
                    Option::None => Result::Err(RunError::MissingBody),
                    Option::Some(args) => {
                        let (l2, r2) = place_value(
                            lhs,
                            rhs,
                            Value::CallFunc(CallExpr { func_name: fp.ident, args }),
                        );
                        eval_stack(m, env, stack, l2, r2, fuel)
                    },
                },
                Expr::AnonFunc(a) => match eval_anon(m, env, &a, fuel) {
                    Result::Err(e) => Result::Err(e),
                    Result::Ok(v) => {
                        let (l2, r2) = place_value(lhs, rhs, v);
                        eval_stack(m, env, stack, l2, r2, fuel)
                    },
                },
                Expr::Range(st, en) => {
                    let (l2, r2) = place_value(lhs, rhs, Value::Range(st, en));
                    eval_stack(m, env, stack, l2, r2, fuel)
                },
                Expr::Counter(n, st, en) => match env.lookup(n) {
                    Option::Some(c) => match m.cell_write(c, Value::Int(st)) {
                        Result::Err(e) => Result::Err(e),
                        Result::Ok(_) => {
                            let (l2, r2) = place_value(lhs, rhs, Value::Counter(n, st, en));
                            eval_stack(m, env, stack, l2, r2, fuel)
                        },
                    },
                    Option::None => {
                        let c = m.new_cell(Value::Int(st));
                        env.insert(n, c);
                        let (l2, r2) = place_value(lhs, rhs, Value::Counter(n, st, en));
                        eval_stack(m, env, stack, l2, r2, fuel)
                    },
                },
                Expr::Ref(inner) => match *inner {
                    Expr::Ident(n) => match resolve(env, &m.globals, n) {
                        Option::None => Result::Err(RunError::UnboundName(n)),
                        Option::Some(c) => {
                            let (l2, r2) = place_value(lhs, rhs, Value::RefValue(c));
                            eval_stack(m, env, stack, l2, r2, fuel)
                        },
                    },
                    other => match eval_expr(m, env, &other, fuel) {
                        Result::Err(e) => Result::Err(e),
                        Result::Ok(v) => {
                            let c = m.new_cell(v);
                            let (l2, r2) = place_value(lhs, rhs, Value::RefValue(c));
                            eval_stack(m, env, stack, l2, r2, fuel)
                        },
                    },
                },
                Expr::Array(_) => eval_stack(m, env, stack, lhs, rhs, fuel),
                Expr::Dictionary(_) => eval_stack(m, env, stack, lhs, rhs, fuel),
            }
        },
    }
}

/// Evaluates an argument list left to right, mirroring [`spec_eval_args`].
pub(crate) fn eval_args(m: &mut Machine, env: &mut LocalEnvironment, args: &ExprList, fuel: u64) -> (r: Result<
    Vec<Value>,
    RunError,
>)
    ensures
        match spec_eval_args(old(m)@, *old(env), *args, fuel as nat) {
            Result::Ok((g2, env2, vs)) => r is Ok && r->Ok_0@ == vs && final(m)@ == g2 && *final(env)
                == env2,
            Result::Err(er) => r == Result::<Vec<Value>, RunError>::Err(er),
        },
    decreases fuel, 1int, lsize(*args), 2int,
{
    proof {
        match args {
            ExprList::Cons(e, _) => lemma_esize_pos(**e),
            _ => {},
        }
    }
    match args {
        ExprList::Nil => {
            let r: Vec<Value> = Vec::new();
            proof {
                assert(r@ =~= Seq::<Value>::empty());
            }
            Result::Ok(r)
        },
        ExprList::Cons(e, rest) => match eval_expr(m, env, e, fuel) {
            Result::Err(e2) => Result::Err(e2),
            Result::Ok(v) => match eval_args(m, env, rest, fuel) {
                Result::Err(e2) => Result::Err(e2),
                Result::Ok(vs) => {
                    let mut vs = vs;
                    vs.insert(0, v);
                    proof {
                        assert(vs@ =~= seq![v] + vs@.skip(1));
                    }
                    Result::Ok(vs)
                },
            },
        },
    }
}

/// Evaluates an anonymous function's bindings left to right, mirroring
/// [`spec_eval_binds`].
fn eval_binds(m: &mut Machine, env: &mut LocalEnvironment, binds: &BindList, fuel: u64) -> (r:
    Result<Vec<Value>, RunError>)
    ensures
        match spec_eval_binds(old(m)@, *old(env), *binds, fuel as nat) {
            Result::Ok((g2, env2, vs)) => r is Ok && r->Ok_0@ == vs && final(m)@ == g2 && *final(env)
                == env2,
            Result::Err(er) => r == Result::<Vec<Value>, RunError>::Err(er),
        },
    decreases fuel, 1int, bsize(*binds), 2int,
{
    proof {
        match binds {
            BindList::Cons(_, e, _) => lemma_esize_pos(**e),
            _ => {},
        }
    }
    match binds {
        BindList::Nil => {
            let r: Vec<Value> = Vec::new();
            proof {
                assert(r@ =~= Seq::<Value>::empty());
            }
            Result::Ok(r)
        },
        BindList::Cons(_, e, rest) => match eval_expr(m, env, e, fuel) {
            Result::Err(e2) => Result::Err(e2),
            Result::Ok(v) => match eval_binds(m, env, rest, fuel) {
                Result::Err(e2) => Result::Err(e2),
                Result::Ok(vs) => {
                    let mut vs = vs;
                    vs.insert(0, v);
                    proof {
                        assert(vs@ =~= seq![v] + vs@.skip(1));
                    }
                    Result::Ok(vs)
                },
            },
        },
    }
}

/// Copies the binding expressions of an anonymous function into an
/// argument list.
fn exprs_of_binds(l: &BindList) -> (r: ExprList)
    ensures
        r == binds_exprs(*l),
    decreases *l,
{
    match l {
        BindList::Nil => ExprList::Nil,
        BindList::Cons(_, e, rest) => ExprList::Cons(
            Box::new(clone_expr(e)),
            Box::new(exprs_of_binds(rest)),
        ),
    }
}

/// Computes the inferred parameter list, mirroring [`spec_param_types`].
fn param_types(store: &Vec<Value>, binds: &BindList, vals: &Vec<Value>, i: usize) -> (r: Result<
    ParamList,
    RunError,
>)
    ensures
        r == spec_param_types(store@, *binds, vals@, i as int),
    decreases *binds,
{
    match binds {
        BindList::Nil => Result::Ok(ParamList::Nil),
        BindList::Cons(n, _, rest) => if i >= vals.len() {
            Result::Err(RunError::ArityMismatch)
        } else {
            match type_of_value(store, &vals[i]) {
                Result::Err(e) => Result::Err(e),
                Result::Ok(t) => match param_types(store, rest, vals, i + 1) {
                    Result::Err(e) => Result::Err(e),
                    Result::Ok(ps) => Result::Ok(ParamList::Cons(*n, t, Box::new(ps))),
                },
            }
        },
    }
}

/// Reifies an anonymous function, mirroring [`spec_eval_anon`].
fn eval_anon(m: &mut Machine, env: &mut LocalEnvironment, a: &AnonymousFunc, fuel: u64) -> (r:
    Result<Value, RunError>)
    ensures
        match spec_eval_anon(old(m)@, *old(env), *a, fuel as nat) {
            Result::Ok((g2, env2, v)) => r == Result::<Value, RunError>::Ok(v) && final(m)@ == g2
                && *final(env) == env2,
            Result::Err(er) => r == Result::<Value, RunError>::Err(er),
        },
    decreases fuel, 1int, bsize(a.args), 3int,
{
    match cache_lookup(&m.cache, a) {
        Option::Some(f) => {
            let ident = f.ident;
            let thunk_args = exprs_of_binds(&a.args);
            let c = m.new_cell(Value::Func(f));
            env.insert(ident, c);
            Result::Ok(Value::CallFunc(CallExpr { func_name: ident, args: thunk_args }))
        },
        Option::None => match &a.stmt {
            Option::None => Result::Err(RunError::MissingBody),
            Option::Some(body) => match eval_binds(m, env, &a.args, fuel) {
                Result::Err(e) => Result::Err(e),
                Result::Ok(vals) => match param_types(&m.store, &a.args, &vals, 0) {
                    Result::Err(e) => Result::Err(e),
                    Result::Ok(params) => match m.fresh_anon() {
                        Result::Err(e) => Result::Err(e),
                        Result::Ok(ident) => {
                            let f = Function {
                                privacy: PrivacyType::Private,
                                environment: crate::environment::clone_local_environment(env),
                                ident,
                                args: params,
                                rty: a.rty,
                                body: crate::ast::clone_stmt_list(&body.stmt),
                            };
                            let c = m.new_cell(Value::Func(clone_function(&f)));
                            m.cache_insert(crate::ast::clone_anonymous_func(a), f);
                            env.insert(ident, c);
                            Result::Ok(
                                Value::CallFunc(
                                    CallExpr { func_name: ident, args: exprs_of_binds(&a.args) },
                                ),
                            )
                        },
                    },
                },
            },
        },
    }
}

/// Binds positional parameters, mirroring [`spec_bind_params`].
fn bind_params(
    m: &mut Machine,
    params: &ParamList,
    args: &Vec<Value>,
    i: usize,
    env: &mut LocalEnvironment,
) -> (r: Result<(), RunError>)
    ensures
        match spec_bind_params(old(m)@, *params, args@, i as int, *old(env)) {
            Result::Ok((g2, env2)) => r is Ok && final(m)@ == g2 && *final(env) == env2,
            Result::Err(er) => r == Result::<(), RunError>::Err(er),
        },
    decreases *params,
{
    match params {
        ParamList::Nil => Result::Ok(()),
        ParamList::Cons(n, ty, rest) => if i >= args.len() {
            Result::Err(RunError::ArityMismatch)
        } else {
            match type_of_value(&m.store, &args[i]) {
                Result::Err(e) => Result::Err(e),
                Result::Ok(t) => if t != *ty {
                    Result::Err(RunError::TypeMismatch)
                } else {
                    match &args[i] {
                        Value::RefValue(c) => {
                            env.insert(*n, *c);
                            bind_params(m, rest, args, i + 1, env)
                        },
                        _ => {
                            let c = m.new_cell(clone_value(&args[i]));
                            env.insert(*n, c);
                            bind_params(m, rest, args, i + 1, env)
                        },
                    }
                },
            }
        },
    }
}

/// Calls the function a call expression names, mirroring
/// [`spec_call_func`]: the callee resolves local-before-global, the
/// arguments evaluate in the caller's scope, and dispatch follows the
/// callee's kind.
pub fn call_func(m: &mut Machine, env: &mut LocalEnvironment, c: &CallExpr, fuel: u64) -> (r:
    Result<Value, RunError>)
    ensures
        match spec_call_func(old(m)@, *old(env), *c, fuel as nat) {
            Result::Ok((g2, env2, v)) => r == Result::<Value, RunError>::Ok(v) && final(m)@ == g2
                && *final(env) == env2,
            Result::Err(er) => r == Result::<Value, RunError>::Err(er),
        },
    decreases fuel, 1int, lsize(c.args), 3int,
{
    match resolve(env, &m.globals, c.func_name) {
        Option::None => Result::Err(RunError::UnboundName(c.func_name)),
        Option::Some(cell) => match m.cell_read(cell) {
            Result::Err(e) => Result::Err(e),
            Result::Ok(callee) => match eval_args(m, env, &c.args, fuel) {
                Result::Err(e) => Result::Err(e),
                Result::Ok(vals) => match callee {
                    Value::FuncPtr(p) => if fuel == 0 {
                        Result::Err(RunError::OutOfFuel)
                    } else {
                        crate::primitive_functions::run_primitive(p, vals, m, env, fuel - 1)
                    },
                    Value::Func(f) => if fuel == 0 {
                        Result::Err(RunError::OutOfFuel)
                    } else {
                        let mut env_f = LocalEnvironment::new();
                        match bind_params(m, &f.args, &vals, 0, &mut env_f) {
                            Result::Err(e) => Result::Err(e),
                            Result::Ok(_) => f.run(m, env_f, fuel - 1),
                        }
                    },
                    _ => Result::Err(RunError::NotCallable),
                },
            },
        },
    }
}

impl CondType {
    /// Collapses a deferred comparison against the given scope, mirroring
    /// [`spec_eval_cond`]: both operand expressions are evaluated here and
    /// now, left first.
    pub fn eval_cond(
        &self,
        m: &mut Machine,
        env: &mut LocalEnvironment,
        l: &Expr,
        r: &Expr,
        fuel: u64,
    ) -> (res: Result<bool, RunError>)
        ensures
            match spec_eval_cond(old(m)@, *old(env), *self, *l, *r, fuel as nat) {
                Result::Ok((g2, env2, b)) => res == Result::<bool, RunError>::Ok(b) && final(m)@ == g2
                    && *final(env) == env2,
                Result::Err(er) => res == Result::<bool, RunError>::Err(er),
            },
        decreases fuel, 2int, 0int, 0int,
    {
        match eval_expr(m, env, l, fuel) {
            Result::Err(e) => Result::Err(e),
            Result::Ok(vl) => match eval_expr(m, env, r, fuel) {
                Result::Err(e) => Result::Err(e),
                Result::Ok(vr) => match self {
                    CondType::Or => logical_or_values(m, env, vl, vr, fuel),
                    CondType::And => logical_and_values(&m.store, vl, vr),
                    _ => Result::Ok(compare_values(*self, &vl, &vr)),
                },
            },
        }
    }
}

/// The disjunction of two condition operands, mirroring
/// [`spec_logical_or`].
fn logical_or_values(
    m: &mut Machine,
    env: &mut LocalEnvironment,
    a: Value,
    b: Value,
    fuel: u64,
) -> (r: Result<bool, RunError>)
    ensures
        match spec_logical_or(old(m)@, *old(env), a, b, fuel as nat) {
            Result::Ok((g2, env2, res)) => r == Result::<bool, RunError>::Ok(res) && final(m)@ == g2
                && *final(env) == env2,
            Result::Err(er) => r == Result::<bool, RunError>::Err(er),
        },
    decreases fuel, 0int, 0int, 0int,
{
    match (a, b) {
        (Value::Cond(t1, l1, r1), Value::Cond(t2, l2, r2)) => if fuel == 0 {
            Result::Err(RunError::OutOfFuel)
        } else {
            match t1.eval_cond(m, env, &l1, &r1, fuel - 1) {
                Result::Err(e) => Result::Err(e),
                Result::Ok(b1) => if b1 {
                    Result::Ok(true)
                } else {
                    t2.eval_cond(m, env, &l2, &r2, fuel - 1)
                },
            }
        },
        (a2, b2) => match deref_value(&m.store, a2) {
            Result::Err(e) => Result::Err(e),
            Result::Ok(da) => match deref_value(&m.store, b2) {
                Result::Err(e) => Result::Err(e),
                Result::Ok(db) => match (da, db) {
                    (Value::Bool(x), Value::Bool(y)) => Result::Ok(x || y),
                    _ => Result::Err(RunError::ExpectedBool),
                },
            },
        },
    }
}

impl Value {
    /// The disjunction of two values, as the `||` of a collapsing
    /// condition computes it.
    pub fn logical_or(&self, m: &mut Machine, env: &mut LocalEnvironment, other: &Value, fuel: u64) -> (r:
        Result<bool, RunError>)
        ensures
            match spec_logical_or(old(m)@, *old(env), *self, *other, fuel as nat) {
                Result::Ok((g2, env2, res)) => r == Result::<bool, RunError>::Ok(res) && final(m)@ == g2
                    && *final(env) == env2,
                Result::Err(er) => r == Result::<bool, RunError>::Err(er),
            },
    {
        logical_or_values(m, env, clone_value(self), clone_value(other), fuel)
    }

    /// The conjunction of two values: booleans only, through references.
    pub fn logical_and(&self, store: &Vec<Value>, other: &Value) -> (r: Result<bool, RunError>)
        ensures
            r == spec_logical_and(store@, *self, *other),
    {
        logical_and_values(store, clone_value(self), clone_value(other))
    }
}

/// Collapses a binding's value, mirroring [`spec_collapse`].
fn collapse_value(m: &mut Machine, env: &mut LocalEnvironment, v: Value, fuel: u64) -> (r: Result<
    Value,
    RunError,
>)
    ensures
        match spec_collapse(old(m)@, *old(env), v, fuel as nat) {
            Result::Ok((g2, env2, v2)) => r == Result::<Value, RunError>::Ok(v2) && final(m)@ == g2
                && *final(env) == env2,
            Result::Err(er) => r == Result::<Value, RunError>::Err(er),
        },
    decreases fuel, 2int, 0int, 1int,
{
    match v {
        Value::Cond(ct, l, r2) => match ct.eval_cond(m, env, &l, &r2, fuel) {
            Result::Err(e) => Result::Err(e),
            Result::Ok(b) => Result::Ok(Value::Bool(b)),
        },
        v2 => Result::Ok(v2),
    }
}

/// The text a value prints as, mirroring [`spec_display`].
pub fn display_value(m: &mut Machine, env: &mut LocalEnvironment, v: &Value, fuel: u64) -> (r:
    Result<String, RunError>)
    ensures
        match spec_display(old(m)@, *old(env), *v, fuel as nat) {
            Result::Ok((g2, env2, text)) => r is Ok && r->Ok_0@ == text && final(m)@ == g2 && *final(env)
                == env2,
            Result::Err(er) => r == Result::<String, RunError>::Err(er),
        },
    decreases fuel, 3int, 0int, 0int,
{
    match v {
        Value::Cond(ct, l, r2) => match ct.eval_cond(m, env, l, r2, fuel) {
            Result::Err(e) => Result::Err(e),
            Result::Ok(b) => Result::Ok(
                if b {
                    String::from_str("true")
                } else {
                    String::from_str("false")
                },
            ),
        },
        _ => match deref_value(&m.store, clone_value(v)) {
            Result::Err(e) => Result::Err(e),
            Result::Ok(dv) => {
                let mut out = String::new();
                push_shallow_text(&dv, &mut out);
                proof {
                    assert(out@ =~= shallow_chars(dv));
                }
                Result::Ok(out)
            },
        },
    }
}

/// Runs a statement list, mirroring [`spec_run_stmts`].
pub fn run_stmts(
    m: &mut Machine,
    env: &mut LocalEnvironment,
    stmts: &StmtList,
    rty: TypeName,
    fuel: u64,
) -> (r: Result<Option<Value>, RunError>)
    ensures
        match spec_run_stmts(old(m)@, *old(env), *stmts, rty, fuel as nat) {
            Result::Ok((g2, ret)) => r == Result::<Option<Value>, RunError>::Ok(ret) && final(m)@ == g2,
            Result::Err(er) => r == Result::<Option<Value>, RunError>::Err(er),
        },
    decreases fuel, 3int, slen(*stmts), 0int,
{
    match stmts {
        StmtList::Nil => Result::Ok(Option::None),
        StmtList::Cons(s, rest) => match &**s {
            Stmt::Expr(e) => match eval_expr(m, env, e, fuel) {
                Result::Err(e2) => Result::Err(e2),
                Result::Ok(_) => run_stmts(m, env, rest, rty, fuel),
            },
            Stmt::VarIdent(vi) => match eval_expr(m, env, &vi.expr, fuel) {
                Result::Err(e2) => Result::Err(e2),
                Result::Ok(v) => match collapse_value(m, env, v, fuel) {
                    Result::Err(e2) => Result::Err(e2),
                    Result::Ok(v2) => {
                        let c = m.new_cell(v2);
                        env.insert(vi.ident, c);
                        run_stmts(m, env, rest, rty, fuel)
                    },
                },
            },
            Stmt::VarAssign(va) => match eval_expr(m, env, &va.expr, fuel) {
                Result::Err(e2) => Result::Err(e2),
                Result::Ok(v) => match collapse_value(m, env, v, fuel) {
                    Result::Err(e2) => Result::Err(e2),
                    Result::Ok(v2) => match resolve(env, &m.globals, va.ident) {
                        Option::None => Result::Err(RunError::UnboundName(va.ident)),
                        Option::Some(c) => match m.cell_read(c) {
                            Result::Err(e2) => Result::Err(e2),
                            Result::Ok(cur) => {
                                let target = match cur {
                                    Value::RefValue(inner) => inner,
                                    _ => c,
                                };
                                match m.cell_write(target, v2) {
                                    Result::Err(e2) => Result::Err(e2),
                                    Result::Ok(_) => run_stmts(m, env, rest, rty, fuel),
                                }
                            },
                        },
                    },
                },
            },
            Stmt::ReturnValue(e) => match eval_expr(m, env, e, fuel) {
                Result::Err(e2) => Result::Err(e2),
                Result::Ok(v) => match type_of_value(&m.store, &v) {
                    Result::Err(e2) => Result::Err(e2),
                    Result::Ok(t) => if t == rty {
                        Result::Ok(Option::Some(v))
                    } else {
                        Result::Err(RunError::TypeMismatch)
                    },
                },
            },
            Stmt::FuncIdent(_) => Result::Err(RunError::UnhandledStatement),
            Stmt::FuncBody(_) => Result::Err(RunError::UnhandledStatement),
        },
    }
}

impl Function {
    /// Runs the function's body in the given activation scope, mirroring
    /// [`spec_run_func`]: the returned value, or `Void` when the body
    /// runs off its end.
    pub fn run(&self, m: &mut Machine, env: LocalEnvironment, fuel: u64) -> (r: Result<
        Value,
        RunError,
    >)
        ensures
            match spec_run_func(old(m)@, *self, env, fuel as nat) {
                Result::Ok((g2, v)) => r == Result::<Value, RunError>::Ok(v) && final(m)@ == g2,
                Result::Err(er) => r == Result::<Value, RunError>::Err(er),
            },
        decreases fuel, 3int, slen(self.body), 1int,
    {
        let mut env = env;
        match run_stmts(m, &mut env, &self.body, self.rty, fuel) {
            Result::Err(e) => Result::Err(e),
            Result::Ok(Option::Some(v)) => Result::Ok(v),
            Result::Ok(Option::None) => Result::Ok(Value::Void),
        }
    }
}

} // verus!
