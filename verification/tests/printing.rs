//! Rendering and the print protocol: decimal integers, keywords, spans,
//! space separation, and deferred comparisons collapsing under `print`.

use morpho_c::ast::{CallExpr, Expr, FuncBody, FuncIdent, Name, ParamList, Prim, Prog, Stmt,
    VarIdent};
use morpho_c::program::eval_program;
use morpho_c::value::RunError;

fn main_with(body: Vec<Stmt>) -> Vec<Stmt> {
    vec![Stmt::FuncIdent(FuncIdent::new_wo_rty(
        Name::Main,
        ParamList::Nil,
        Some(FuncBody::new(body)),
    ))]
}

fn print_stmt(args: Vec<Expr>) -> Stmt {
    Stmt::Expr(Box::new(Expr::Call(CallExpr::new(Name::Builtin(Prim::Print), args))))
}

fn run(stmts: Vec<Stmt>) -> Result<Vec<String>, RunError> {
    eval_program(Prog::new(stmts), Vec::new(), 10_000)
}

#[test]
fn prints_are_space_separated_lines() {
    let out = run(main_with(vec![
        print_stmt(vec![
            Expr::StringLit("a".to_string()),
            Expr::StringLit("b".to_string()),
            Expr::StringLit("c".to_string()),
        ]),
        print_stmt(vec![Expr::StringLit("d".to_string())]),
    ]))
    .unwrap();
    assert_eq!(out, vec!["a b c".to_string(), "d".to_string()]);
}

#[test]
fn integers_render_in_decimal() {
    let out = run(main_with(vec![print_stmt(vec![
        Expr::Integer(0),
        Expr::Integer(-5),
        Expr::Integer(1234567890),
        Expr::Integer(i64::MIN),
        Expr::Integer(i64::MAX),
    ])]))
    .unwrap();
    assert_eq!(
        out,
        vec!["0 -5 1234567890 -9223372036854775808 9223372036854775807".to_string()]
    );
}

#[test]
fn booleans_and_builtins_render_by_keyword() {
    let out = run(main_with(vec![print_stmt(vec![
        Expr::Bool(true),
        Expr::Bool(false),
        Expr::Ident(Name::Builtin(Prim::Print)),
        Expr::Ident(Name::Builtin(Prim::While)),
    ])]))
    .unwrap();
    assert_eq!(out, vec!["true false print while".to_string()]);
}

#[test]
fn ranges_and_counters_render_as_spans() {
    let out = run(main_with(vec![
        print_stmt(vec![Expr::Range(1, 3)]),
        print_stmt(vec![Expr::Counter(Name::User(0), 0, 9)]),
    ]))
    .unwrap();
    assert_eq!(out, vec!["range<1, 3>".to_string(), "counter<#0, 0, 9>".to_string()]);
}

#[test]
fn printed_comparison_collapses_to_its_boolean() {
    let out = run(main_with(vec![
        print_stmt(vec![Expr::Eq(Box::new(Expr::Integer(1)), Box::new(Expr::Integer(1)))]),
        print_stmt(vec![Expr::Gt(Box::new(Expr::Integer(1)), Box::new(Expr::Integer(2)))]),
    ]))
    .unwrap();
    assert_eq!(out, vec!["true".to_string(), "false".to_string()]);
}

#[test]
fn let_collapses_connectives_and_disjunction_nests() {
    // let b = (1 == 2) || (3 == 3); print(b)
    let cond = Expr::Or(
        Box::new(Expr::Eq(Box::new(Expr::Integer(1)), Box::new(Expr::Integer(2)))),
        Box::new(Expr::Eq(Box::new(Expr::Integer(3)), Box::new(Expr::Integer(3)))),
    );
    let out = run(main_with(vec![
        Stmt::VarIdent(VarIdent::new(Name::User(0), cond)),
        print_stmt(vec![Expr::Ident(Name::User(0))]),
    ]))
    .unwrap();
    assert_eq!(out, vec!["true".to_string()]);
}

#[test]
fn conjunction_takes_booleans_only() {
    // a conjunction of two boolean literals collapses fine
    let plain = Expr::And(Box::new(Expr::Bool(true)), Box::new(Expr::Bool(false)));
    let out = run(main_with(vec![
        Stmt::VarIdent(VarIdent::new(Name::User(0), plain)),
        print_stmt(vec![Expr::Ident(Name::User(0))]),
    ]))
    .unwrap();
    assert_eq!(out, vec!["false".to_string()]);
    // but a conjunction whose operand is itself a still-deferred
    // comparison is not a pair of booleans, and `&&` is strict about
    // that, unlike `||`
    let nested = Expr::And(
        Box::new(Expr::Eq(Box::new(Expr::Integer(1)), Box::new(Expr::Integer(1)))),
        Box::new(Expr::Bool(true)),
    );
    let r = run(main_with(vec![Stmt::VarIdent(VarIdent::new(Name::User(0), nested))]));
    assert_eq!(r, Err(RunError::ExpectedBool));
}

#[test]
fn print_without_arguments_is_fatal() {
    let r = run(main_with(vec![print_stmt(vec![])]));
    assert_eq!(r, Err(RunError::ArityMismatch));
}

#[test]
fn void_prints_the_unprintable_notice() {
    let out = run(main_with(vec![print_stmt(vec![Expr::Add(
        Box::new(Expr::Bool(true)),
        Box::new(Expr::Bool(false)),
    )])]))
    .unwrap();
    assert_eq!(out, vec!["Not printable".to_string()]);
}
