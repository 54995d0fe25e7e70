//! End-to-end programs: whole sources expressed as syntax trees, run
//! through bootstrap and `main`, with the exact output lines expected.

use morpho_c::ast::{AnonymousFunc, BindList, CallExpr, Expr, FuncBody, FuncIdent, FuncPtr, Name,
    ParamList, Prim, Prog, Stmt, TypeName, VarAssign, VarIdent};
use morpho_c::program::eval_program;
use morpho_c::value::RunError;

const FUEL: u64 = 100_000;

fn user(k: u64) -> Name {
    Name::User(k)
}

fn ident(k: u64) -> Expr {
    Expr::Ident(Name::User(k))
}

fn num(i: i64) -> Expr {
    Expr::Integer(i)
}

fn text(s: &str) -> Expr {
    Expr::StringLit(s.to_string())
}

fn call(name: Name, args: Vec<Expr>) -> Expr {
    Expr::Call(CallExpr::new(name, args))
}

fn call_stmt(name: Name, args: Vec<Expr>) -> Stmt {
    Stmt::Expr(Box::new(call(name, args)))
}

fn print_name() -> Name {
    Name::Builtin(Prim::Print)
}

fn let_stmt(k: u64, e: Expr) -> Stmt {
    Stmt::VarIdent(VarIdent::new(user(k), e))
}

fn assign_stmt(k: u64, e: Expr) -> Stmt {
    Stmt::VarAssign(VarAssign::new(user(k), e))
}

fn fptr(name: Name, args: Vec<Expr>) -> Expr {
    Expr::Func(FuncPtr::new(name, Some(args)))
}

fn func_def(name: Name, params: ParamList, rty: Option<TypeName>, body: Vec<Stmt>) -> Stmt {
    let b = Some(FuncBody::new(body));
    Stmt::FuncIdent(match rty {
        Some(t) => FuncIdent::new_w_rty(name, params, t, b),
        None => FuncIdent::new_wo_rty(name, params, b),
    })
}

fn param1(k: u64, t: TypeName) -> ParamList {
    ParamList::Cons(user(k), t, Box::new(ParamList::Nil))
}

fn bind(k: u64, e: Expr, rest: BindList) -> BindList {
    BindList::Cons(user(k), Box::new(e), Box::new(rest))
}

fn anon(binds: BindList, rty: Option<TypeName>, body: Vec<Stmt>) -> Expr {
    let b = Some(FuncBody::new(body));
    Expr::AnonFunc(match rty {
        Some(t) => AnonymousFunc::new_w_rty(binds, t, b),
        None => AnonymousFunc::new_wo_rty(binds, b),
    })
}

fn run(stmts: Vec<Stmt>) -> Result<Vec<String>, RunError> {
    eval_program(Prog::new(stmts), Vec::new(), FUEL)
}

fn run_with_input(stmts: Vec<Stmt>, input: Vec<&str>) -> Result<Vec<String>, RunError> {
    eval_program(Prog::new(stmts), input.into_iter().map(|s| s.to_string()).collect(), FUEL)
}

/// `func main = () { print("Hello"); }` prints `Hello`.
#[test]
fn hello() {
    let out = run(vec![func_def(
        Name::Main,
        ParamList::Nil,
        None,
        vec![call_stmt(print_name(), vec![text("Hello")])],
    )])
    .unwrap();
    assert_eq!(out, vec!["Hello".to_string()]);
}

/// `func main = () { let x = 10; let y = x + 5; print(y); }` prints `15`.
#[test]
fn let_and_add() {
    let out = run(vec![func_def(
        Name::Main,
        ParamList::Nil,
        None,
        vec![
            let_stmt(0, num(10)),
            let_stmt(1, Expr::Add(Box::new(ident(0)), Box::new(num(5)))),
            call_stmt(print_name(), vec![ident(1)]),
        ],
    )])
    .unwrap();
    assert_eq!(out, vec!["15".to_string()]);
}

/// Recursion through `if` with function-pointer literals:
/// `func main = () { foo(3); }
///  func foo = (a: int) { if(a == 0, $print|"end"|, $foo|a - 1|); }`
/// prints `end`.
#[test]
fn countdown_through_if() {
    let foo = user(10);
    let a = 0;
    let out = run(vec![
        func_def(Name::Main, ParamList::Nil, None, vec![call_stmt(foo, vec![num(3)])]),
        func_def(
            foo,
            param1(a, TypeName::TInt),
            None,
            vec![call_stmt(
                Name::Builtin(Prim::If),
                vec![
                    Expr::Eq(Box::new(ident(a)), Box::new(num(0))),
                    fptr(print_name(), vec![text("end")]),
                    fptr(foo, vec![Expr::Sub(Box::new(ident(a)), Box::new(num(1)))]),
                ],
            )],
        ),
    ])
    .unwrap();
    assert_eq!(out, vec!["end".to_string()]);
}

/// `func main = () { for(i in 0..3, $|i: i| { print(i); }); }` prints the
/// indices `0`, `1`, `2`, one per line.
#[test]
fn counter_for() {
    let i = 0;
    let out = run(vec![func_def(
        Name::Main,
        ParamList::Nil,
        None,
        vec![call_stmt(
            Name::Builtin(Prim::For),
            vec![
                Expr::Counter(user(i), 0, 3),
                anon(
                    bind(i, ident(i), BindList::Nil),
                    None,
                    vec![call_stmt(print_name(), vec![ident(i)])],
                ),
            ],
        )],
    )])
    .unwrap();
    assert_eq!(out, vec!["0".to_string(), "1".to_string(), "2".to_string()]);
}

/// A by-reference loop body doubles the caller's binding at each step:
/// `func main = () { let a = 10; for(i in 0..3, $|a: &a, i: i| { a = a + a;
/// print(i, ":", a); }); }` prints `0 : 20`, `1 : 40`, `2 : 80`.
#[test]
fn by_ref_doubling_loop() {
    let a = 0;
    let i = 1;
    let out = run(vec![func_def(
        Name::Main,
        ParamList::Nil,
        None,
        vec![
            let_stmt(a, num(10)),
            call_stmt(
                Name::Builtin(Prim::For),
                vec![
                    Expr::Counter(user(i), 0, 3),
                    anon(
                        bind(
                            a,
                            Expr::Ref(Box::new(ident(a))),
                            bind(i, ident(i), BindList::Nil),
                        ),
                        None,
                        vec![
                            assign_stmt(a, Expr::Add(Box::new(ident(a)), Box::new(ident(a)))),
                            call_stmt(print_name(), vec![ident(i), text(":"), ident(a)]),
                        ],
                    ),
                ],
            ),
        ],
    )])
    .unwrap();
    assert_eq!(out, vec!["0 : 20".to_string(), "1 : 40".to_string(), "2 : 80".to_string()]);
}

/// Fibonacci through an `if` whose branches are anonymous functions that
/// close over `n`:
/// `func fib = (n: int) -> int { return if(n <= 1, $|n: n| -> int
/// { return n; }, $|n: n| -> int { return fib(n-1) + fib(n-2); }); }`;
/// `fib(5)` is `5`, observed by printing.
#[test]
fn fib_through_if() {
    let fib = user(20);
    let n = 0;
    let out = run(vec![
        func_def(
            Name::Main,
            ParamList::Nil,
            None,
            vec![call_stmt(print_name(), vec![call(fib, vec![num(5)])])],
        ),
        func_def(
            fib,
            param1(n, TypeName::TInt),
            Some(TypeName::TInt),
            vec![Stmt::ReturnValue(Box::new(call(
                Name::Builtin(Prim::If),
                vec![
                    Expr::Le(Box::new(ident(n)), Box::new(num(1))),
                    anon(
                        bind(n, ident(n), BindList::Nil),
                        Some(TypeName::TInt),
                        vec![Stmt::ReturnValue(Box::new(ident(n)))],
                    ),
                    anon(
                        bind(n, ident(n), BindList::Nil),
                        Some(TypeName::TInt),
                        vec![Stmt::ReturnValue(Box::new(Expr::Add(
                            Box::new(call(
                                fib,
                                vec![Expr::Sub(Box::new(ident(n)), Box::new(num(1)))],
                            )),
                            Box::new(call(
                                fib,
                                vec![Expr::Sub(Box::new(ident(n)), Box::new(num(2)))],
                            )),
                        )))],
                    ),
                ],
            )))],
        ),
    ])
    .unwrap();
    assert_eq!(out, vec!["5".to_string()]);
}

/// Scope shadowing: `x` read after `let x = 7` is the local `7`, even
/// though a global of the same name exists.
#[test]
fn shadowing_local_over_global() {
    let x = 0;
    let out = run(vec![
        func_def(user(x), ParamList::Nil, None, vec![]),
        func_def(
            Name::Main,
            ParamList::Nil,
            None,
            vec![let_stmt(x, num(7)), call_stmt(print_name(), vec![ident(x)])],
        ),
    ])
    .unwrap();
    assert_eq!(out, vec!["7".to_string()]);
}

/// By-value isolation: assigning to a plain parameter does not move the
/// caller's binding of the same name.
#[test]
fn by_value_parameter_is_isolated() {
    let touch = user(9);
    let a = 0;
    let out = run(vec![
        func_def(
            Name::Main,
            ParamList::Nil,
            None,
            vec![
                let_stmt(a, num(1)),
                call_stmt(touch, vec![ident(a)]),
                call_stmt(print_name(), vec![ident(a)]),
            ],
        ),
        func_def(touch, param1(a, TypeName::TInt), None, vec![assign_stmt(a, num(5))]),
    ])
    .unwrap();
    assert_eq!(out, vec!["1".to_string()]);
}

/// By-reference coupling: assigning to an `&a` parameter updates the
/// caller's cell, observably after the call returns.
#[test]
fn by_ref_parameter_updates_caller() {
    let touch = user(9);
    let a = 0;
    let out = run(vec![
        func_def(
            Name::Main,
            ParamList::Nil,
            None,
            vec![
                let_stmt(a, num(1)),
                call_stmt(touch, vec![Expr::Ref(Box::new(ident(a)))]),
                call_stmt(print_name(), vec![ident(a)]),
            ],
        ),
        func_def(touch, param1(a, TypeName::TInt), None, vec![assign_stmt(a, num(5))]),
    ])
    .unwrap();
    assert_eq!(out, vec!["5".to_string()]);
}

/// Deferred comparison: the operands of `x == 10`, passed to a callee
/// that binds its own `x = 10`, are evaluated in the callee's scope, so
/// the comparison is true there.
#[test]
fn comparison_defers_to_callee_scope() {
    let check = user(5);
    let x = 0;
    let c = 1;
    let out = run(vec![
        func_def(
            Name::Main,
            ParamList::Nil,
            None,
            vec![
                let_stmt(x, num(1)),
                call_stmt(check, vec![Expr::Eq(Box::new(ident(x)), Box::new(num(10)))]),
            ],
        ),
        func_def(
            check,
            param1(c, TypeName::TBool),
            None,
            vec![
                let_stmt(x, num(10)),
                call_stmt(
                    Name::Builtin(Prim::If),
                    vec![
                        ident(c),
                        fptr(print_name(), vec![text("yes")]),
                        fptr(print_name(), vec![text("no")]),
                    ],
                ),
            ],
        ),
    ])
    .unwrap();
    assert_eq!(out, vec!["yes".to_string()]);
}

/// Anonymous-function identity: reifying the same anonymous expression
/// twice hands back the same compiled function, so the printed thunk
/// names one generated function both times.
#[test]
fn anonymous_function_cache_hit() {
    let f = user(3);
    let out = run(vec![
        func_def(
            Name::Main,
            ParamList::Nil,
            None,
            vec![call_stmt(f, vec![]), call_stmt(f, vec![])],
        ),
        func_def(
            f,
            ParamList::Nil,
            None,
            vec![call_stmt(print_name(), vec![anon(BindList::Nil, None, vec![])])],
        ),
    ])
    .unwrap();
    assert_eq!(out.len(), 2);
    assert_eq!(out[0], out[1]);
    assert_eq!(out[0], "$0".to_string());
}

/// Range iteration count: a `for` over `s..e` fires its body exactly
/// `max(0, e-s)` times; an empty and a backwards range fire it not at
/// all.
#[test]
fn range_iteration_counts() {
    let body = |range: Expr| {
        vec![call_stmt(
            Name::Builtin(Prim::For),
            vec![range, fptr(print_name(), vec![text("x")])],
        )]
    };
    let out = run(vec![func_def(Name::Main, ParamList::Nil, None, body(Expr::Range(0, 3)))])
        .unwrap();
    assert_eq!(out, vec!["x".to_string(), "x".to_string(), "x".to_string()]);
    let out = run(vec![func_def(Name::Main, ParamList::Nil, None, body(Expr::Range(3, 3)))])
        .unwrap();
    assert_eq!(out, Vec::<String>::new());
    let out = run(vec![func_def(Name::Main, ParamList::Nil, None, body(Expr::Range(5, 2)))])
        .unwrap();
    assert_eq!(out, Vec::<String>::new());
}

/// `while` re-evaluates its condition in the caller's scope and stops
/// when it turns false; the body mutates the tested binding through a
/// reference parameter.
#[test]
fn while_counts_up() {
    let bump = user(8);
    let i = 0;
    let out = run(vec![
        func_def(
            Name::Main,
            ParamList::Nil,
            None,
            vec![
                let_stmt(i, num(0)),
                call_stmt(
                    Name::Builtin(Prim::While),
                    vec![
                        Expr::Lt(Box::new(ident(i)), Box::new(num(3))),
                        fptr(bump, vec![Expr::Ref(Box::new(ident(i)))]),
                    ],
                ),
                call_stmt(print_name(), vec![ident(i)]),
            ],
        ),
        func_def(
            bump,
            param1(i, TypeName::TInt),
            None,
            vec![assign_stmt(i, Expr::Add(Box::new(ident(i)), Box::new(num(1))))],
        ),
    ])
    .unwrap();
    assert_eq!(out, vec!["3".to_string()]);
}

/// `input` takes the supplied lines in order and yields empty strings
/// once they are exhausted.
#[test]
fn input_lines_in_order() {
    let s = 0;
    let t = 1;
    let stmts = vec![func_def(
        Name::Main,
        ParamList::Nil,
        None,
        vec![
            let_stmt(s, call(Name::Builtin(Prim::Input), vec![])),
            let_stmt(t, call(Name::Builtin(Prim::Input), vec![])),
            call_stmt(print_name(), vec![ident(s), ident(t)]),
            call_stmt(print_name(), vec![call(Name::Builtin(Prim::Input), vec![])]),
        ],
    )];
    let out = run_with_input(stmts, vec!["alpha", "beta"]).unwrap();
    assert_eq!(out, vec!["alpha beta".to_string(), "".to_string()]);
}

/// A program without `main` is rejected at bootstrap.
#[test]
fn missing_main_is_fatal() {
    let r = run(vec![func_def(user(0), ParamList::Nil, None, vec![])]);
    assert_eq!(r, Err(RunError::MissingMain));
}

/// Reading a never-bound name is fatal.
#[test]
fn unbound_name_is_fatal() {
    let r = run(vec![func_def(
        Name::Main,
        ParamList::Nil,
        None,
        vec![call_stmt(print_name(), vec![ident(42)])],
    )]);
    assert_eq!(r, Err(RunError::UnboundName(Name::User(42))));
}

/// A parameter whose declared type is not the argument's reified type is
/// fatal.
#[test]
fn call_type_mismatch_is_fatal() {
    let foo = user(1);
    let r = run(vec![
        func_def(Name::Main, ParamList::Nil, None, vec![call_stmt(foo, vec![Expr::Bool(true)])]),
        func_def(foo, param1(0, TypeName::TInt), None, vec![]),
    ]);
    assert_eq!(r, Err(RunError::TypeMismatch));
}

/// Too few arguments for the parameter list is fatal.
#[test]
fn arity_mismatch_is_fatal() {
    let foo = user(1);
    let r = run(vec![
        func_def(Name::Main, ParamList::Nil, None, vec![call_stmt(foo, vec![])]),
        func_def(foo, param1(0, TypeName::TInt), None, vec![]),
    ]);
    assert_eq!(r, Err(RunError::ArityMismatch));
}

/// A `return` whose value's reified type differs from the declared return
/// type is fatal.
#[test]
fn return_type_mismatch_is_fatal() {
    let f = user(1);
    let r = run(vec![
        func_def(Name::Main, ParamList::Nil, None, vec![call_stmt(f, vec![])]),
        func_def(
            f,
            ParamList::Nil,
            Some(TypeName::TInt),
            vec![Stmt::ReturnValue(Box::new(Expr::Bool(true)))],
        ),
    ]);
    assert_eq!(r, Err(RunError::TypeMismatch));
}

/// Calling through a name bound to a plain value is fatal.
#[test]
fn calling_a_non_function_is_fatal() {
    let x = 0;
    let r = run(vec![func_def(
        Name::Main,
        ParamList::Nil,
        None,
        vec![let_stmt(x, num(1)), call_stmt(user(x), vec![])],
    )]);
    assert_eq!(r, Err(RunError::NotCallable));
}

/// Unbounded recursion exhausts the budget instead of overrunning the
/// host stack.
#[test]
fn runaway_recursion_exhausts_fuel() {
    let f = user(1);
    let r = eval_program(
        Prog::new(vec![
            func_def(Name::Main, ParamList::Nil, None, vec![call_stmt(f, vec![])]),
            func_def(f, ParamList::Nil, None, vec![call_stmt(f, vec![])]),
        ]),
        Vec::new(),
        100,
    );
    assert_eq!(r, Err(RunError::OutOfFuel));
}

/// The logical connectives demand booleans: `1 && 2` is fatal.
#[test]
fn logical_and_on_integers_is_fatal() {
    let r = run(vec![func_def(
        Name::Main,
        ParamList::Nil,
        None,
        vec![let_stmt(0, Expr::And(Box::new(num(1)), Box::new(num(2))))],
    )]);
    assert_eq!(r, Err(RunError::ExpectedBool));
}

/// Division by zero is fatal, and the one overflowing division is too.
#[test]
fn division_edges_are_fatal() {
    let div_prog = |a: i64, b: i64| {
        vec![func_def(
            Name::Main,
            ParamList::Nil,
            None,
            vec![let_stmt(0, Expr::Div(Box::new(num(a)), Box::new(num(b))))],
        )]
    };
    assert_eq!(run(div_prog(1, 0)), Err(RunError::DivisionByZero));
    assert_eq!(run(div_prog(i64::MIN, -1)), Err(RunError::ArithmeticOverflow));
    let ok = run(vec![func_def(
        Name::Main,
        ParamList::Nil,
        None,
        vec![
            let_stmt(0, Expr::Div(Box::new(num(-7)), Box::new(num(2)))),
            call_stmt(print_name(), vec![ident(0)]),
        ],
    )])
    .unwrap();
    assert_eq!(ok, vec!["-3".to_string()]);
}

/// Arithmetic on mismatched operands is silently `Void`; printing it
/// shows the unprintable notice.
#[test]
fn mixed_arithmetic_yields_void() {
    let out = run(vec![func_def(
        Name::Main,
        ParamList::Nil,
        None,
        vec![
            let_stmt(0, Expr::Add(Box::new(num(1)), Box::new(Expr::Bool(true)))),
            call_stmt(print_name(), vec![ident(0)]),
        ],
    )])
    .unwrap();
    assert_eq!(out, vec!["Not printable".to_string()]);
}

/// An `if` whose condition is neither a comparison nor a boolean yields
/// `Void` and fires no branch.
#[test]
fn if_ignores_non_boolean_condition() {
    let out = run(vec![func_def(
        Name::Main,
        ParamList::Nil,
        None,
        vec![
            call_stmt(
                Name::Builtin(Prim::If),
                vec![
                    num(1),
                    fptr(print_name(), vec![text("then")]),
                    fptr(print_name(), vec![text("else")]),
                ],
            ),
            call_stmt(print_name(), vec![text("after")]),
        ],
    )])
    .unwrap();
    assert_eq!(out, vec!["after".to_string()]);
}

/// An `if` without an else branch yields `Void` when the condition is
/// false.
#[test]
fn if_without_else_is_void_on_false() {
    let out = run(vec![func_def(
        Name::Main,
        ParamList::Nil,
        None,
        vec![
            call_stmt(
                Name::Builtin(Prim::If),
                vec![
                    Expr::Eq(Box::new(num(1)), Box::new(num(2))),
                    fptr(print_name(), vec![text("then")]),
                ],
            ),
            call_stmt(print_name(), vec![text("after")]),
        ],
    )])
    .unwrap();
    assert_eq!(out, vec!["after".to_string()]);
}
