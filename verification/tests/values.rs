//! The value algebra and the machine pieces, exercised directly.

use morpho_c::ast::{CallExpr, Expr, Name, Prim, TypeName, clone_expr};
use morpho_c::environment::{Environment, LocalEnvironment};
use morpho_c::eval::eval_expr;
use morpho_c::machine::Machine;
use morpho_c::module::Module;
use morpho_c::value::{CondType, RunError, Value, compare_values, deref_value, type_of_value,
    value_add, value_div, value_eq, value_mul, value_neg, value_not, value_rem, value_sub,
    value_xor};

fn empty_store() -> Vec<Value> {
    Vec::new()
}

#[test]
fn integer_arithmetic() {
    let s = empty_store();
    assert_eq!(value_add(&s, Value::Int(2), Value::Int(3)), Ok(Value::Int(5)));
    assert_eq!(value_sub(&s, Value::Int(2), Value::Int(3)), Ok(Value::Int(-1)));
    assert_eq!(value_mul(&s, Value::Int(4), Value::Int(5)), Ok(Value::Int(20)));
    assert_eq!(value_div(&s, Value::Int(7), Value::Int(2)), Ok(Value::Int(3)));
    assert_eq!(value_rem(&s, Value::Int(7), Value::Int(2)), Ok(Value::Int(1)));
    assert_eq!(value_rem(&s, Value::Int(-7), Value::Int(2)), Ok(Value::Int(-1)));
    assert_eq!(value_xor(&s, Value::Int(6), Value::Int(3)), Ok(Value::Int(5)));
    assert_eq!(value_neg(&s, Value::Int(9)), Ok(Value::Int(-9)));
    assert_eq!(value_not(&s, Value::Int(0)), Ok(Value::Int(-1)));
    assert_eq!(value_not(&s, Value::Bool(true)), Ok(Value::Bool(false)));
}

#[test]
fn arithmetic_wraps_two_complement() {
    let s = empty_store();
    assert_eq!(value_add(&s, Value::Int(i64::MAX), Value::Int(1)), Ok(Value::Int(i64::MIN)));
    assert_eq!(value_sub(&s, Value::Int(i64::MIN), Value::Int(1)), Ok(Value::Int(i64::MAX)));
    assert_eq!(value_neg(&s, Value::Int(i64::MIN)), Ok(Value::Int(i64::MIN)));
}

#[test]
fn arithmetic_division_edges() {
    let s = empty_store();
    assert_eq!(value_div(&s, Value::Int(1), Value::Int(0)), Err(RunError::DivisionByZero));
    assert_eq!(value_rem(&s, Value::Int(1), Value::Int(0)), Err(RunError::DivisionByZero));
    assert_eq!(
        value_div(&s, Value::Int(i64::MIN), Value::Int(-1)),
        Err(RunError::ArithmeticOverflow)
    );
    assert_eq!(
        value_rem(&s, Value::Int(i64::MIN), Value::Int(-1)),
        Err(RunError::ArithmeticOverflow)
    );
}

#[test]
fn arithmetic_domain_errors_yield_void() {
    let s = empty_store();
    assert_eq!(value_add(&s, Value::Int(1), Value::Bool(true)), Ok(Value::Void));
    assert_eq!(value_mul(&s, Value::Str("a".to_string()), Value::Int(2)), Ok(Value::Void));
    assert_eq!(value_neg(&s, Value::Bool(true)), Ok(Value::Void));
    assert_eq!(value_not(&s, Value::Str("a".to_string())), Ok(Value::Void));
}

#[test]
fn references_are_transparent_to_operators() {
    let store = vec![Value::Int(7), Value::RefValue(0)];
    assert_eq!(value_add(&store, Value::RefValue(0), Value::Int(1)), Ok(Value::Int(8)));
    assert_eq!(value_add(&store, Value::Int(1), Value::RefValue(1)), Ok(Value::Int(8)));
    assert_eq!(
        value_add(&store, Value::RefValue(1), Value::RefValue(0)),
        Ok(Value::Int(14))
    );
    assert_eq!(deref_value(&store, Value::RefValue(1)), Ok(Value::Int(7)));
}

#[test]
fn reference_cycles_are_fatal() {
    let store = vec![Value::RefValue(0)];
    assert_eq!(value_add(&store, Value::RefValue(0), Value::Int(1)), Err(RunError::RefCycle));
    let bad = vec![Value::Int(1)];
    assert_eq!(deref_value(&bad, Value::RefValue(9)), Err(RunError::BadCell));
}

#[test]
fn equality_is_structural_and_coarse_on_functions() {
    assert!(value_eq(&Value::Int(3), &Value::Int(3)));
    assert!(!value_eq(&Value::Int(3), &Value::Int(4)));
    assert!(value_eq(&Value::Str("ab".to_string()), &Value::Str("ab".to_string())));
    assert!(!value_eq(&Value::Str("ab".to_string()), &Value::Str("ba".to_string())));
    assert!(value_eq(&Value::Bool(true), &Value::Bool(true)));
    assert!(!value_eq(&Value::Int(1), &Value::Bool(true)));
    assert!(value_eq(&Value::FuncPtr(Prim::Print), &Value::FuncPtr(Prim::Print)));
    assert!(!value_eq(&Value::FuncPtr(Prim::Print), &Value::FuncPtr(Prim::If)));
    assert!(value_eq(
        &Value::Type(TypeName::TRange(1, 2)),
        &Value::Type(TypeName::TRange(1, 2))
    ));
    // references do not compare equal, not even to themselves
    assert!(!value_eq(&Value::RefValue(0), &Value::RefValue(0)));
}

#[test]
fn ordering_is_integers_and_booleans_only() {
    let gt = CondType::Gt;
    let le = CondType::Le;
    assert!(compare_values(gt, &Value::Int(3), &Value::Int(2)));
    assert!(!compare_values(gt, &Value::Int(2), &Value::Int(3)));
    assert!(compare_values(le, &Value::Int(2), &Value::Int(2)));
    assert!(compare_values(gt, &Value::Bool(true), &Value::Bool(false)));
    assert!(compare_values(le, &Value::Bool(false), &Value::Bool(true)));
    // unordered pairs fail every order comparison, both ways
    assert!(!compare_values(CondType::Gt, &Value::Int(1), &Value::Bool(true)));
    assert!(!compare_values(CondType::Lt, &Value::Int(1), &Value::Bool(true)));
    assert!(!compare_values(CondType::Ge, &Value::Int(1), &Value::Bool(true)));
    assert!(!compare_values(CondType::Le, &Value::Int(1), &Value::Bool(true)));
    assert!(compare_values(CondType::Ne, &Value::Int(1), &Value::Bool(true)));
}

#[test]
fn reified_types() {
    let store = vec![Value::Int(7)];
    assert_eq!(type_of_value(&store, &Value::Int(1)), Ok(TypeName::TInt));
    assert_eq!(type_of_value(&store, &Value::Bool(true)), Ok(TypeName::TBool));
    assert_eq!(type_of_value(&store, &Value::Str("x".to_string())), Ok(TypeName::TString));
    assert_eq!(type_of_value(&store, &Value::Void), Ok(TypeName::TVoid));
    assert_eq!(type_of_value(&store, &Value::Range(1, 5)), Ok(TypeName::TRange(1, 5)));
    assert_eq!(
        type_of_value(&store, &Value::Counter(Name::User(3), 0, 9)),
        Ok(TypeName::TCounter(Name::User(3), 0, 9))
    );
    assert_eq!(type_of_value(&store, &Value::FuncPtr(Prim::For)), Ok(TypeName::TPrim(Prim::For)));
    assert_eq!(
        type_of_value(&store, &Value::CallFunc(CallExpr::new(Name::User(0), vec![]))),
        Ok(TypeName::TFunc)
    );
    assert_eq!(
        type_of_value(
            &store,
            &Value::Cond(CondType::Eq, Box::new(Expr::Integer(1)), Box::new(Expr::Integer(1)))
        ),
        Ok(TypeName::TBool)
    );
    // a reference reifies as the type of the cell it designates
    assert_eq!(type_of_value(&store, &Value::RefValue(0)), Ok(TypeName::TInt));
}

#[test]
fn register_discipline_is_the_source_languages() {
    // the two-register stack machine folds 2 + 2 * 9 to 20 ...
    let mut m = Machine::new();
    let mut env = LocalEnvironment::new();
    let e = Expr::Add(
        Box::new(Expr::Integer(2)),
        Box::new(Expr::Mul(Box::new(Expr::Integer(2)), Box::new(Expr::Integer(9)))),
    );
    assert_eq!(eval_expr(&mut m, &mut env, &e, 10), Ok(Value::Int(20)));
    // ... and clobbers a tree whose operands are both compound: with only
    // two operand slots, (1+2)+(3+4) does not evaluate arithmetically
    let e2 = Expr::Add(
        Box::new(Expr::Add(Box::new(Expr::Integer(1)), Box::new(Expr::Integer(2)))),
        Box::new(Expr::Add(Box::new(Expr::Integer(3)), Box::new(Expr::Integer(4)))),
    );
    assert_eq!(eval_expr(&mut m, &mut env, &e2, 10), Ok(Value::Void));
}

#[test]
fn comparison_expression_evaluates_to_a_thunk() {
    let mut m = Machine::new();
    let mut env = LocalEnvironment::new();
    let e = Expr::Eq(Box::new(Expr::Integer(1)), Box::new(Expr::Integer(2)));
    let v = eval_expr(&mut m, &mut env, &e, 10).unwrap();
    match v {
        Value::Cond(CondType::Eq, l, r) => {
            assert_eq!(*l, Expr::Integer(1));
            assert_eq!(*r, Expr::Integer(2));
        }
        other => panic!("expected a deferred comparison, got {:?}", other),
    }
}

#[test]
fn eval_cond_collapses_against_given_scope() {
    let mut m = Machine::new();
    let mut env = LocalEnvironment::new();
    let c = m.new_cell(Value::Int(10));
    env.insert(Name::User(0), c);
    let l = Expr::Ident(Name::User(0));
    let r = Expr::Integer(10);
    assert_eq!(CondType::Eq.eval_cond(&mut m, &mut env, &l, &r, 10), Ok(true));
    assert_eq!(CondType::Ne.eval_cond(&mut m, &mut env, &l, &r, 10), Ok(false));
    assert_eq!(CondType::Le.eval_cond(&mut m, &mut env, &l, &r, 10), Ok(true));
}

#[test]
fn logical_connectives_demand_booleans() {
    let mut m = Machine::new();
    let mut env = LocalEnvironment::new();
    let t = Value::Bool(true);
    let f = Value::Bool(false);
    assert_eq!(t.logical_or(&mut m, &mut env, &f, 10), Ok(true));
    assert_eq!(f.logical_or(&mut m, &mut env, &f, 10), Ok(false));
    assert_eq!(t.logical_and(&m.store, &f), Ok(false));
    assert_eq!(t.logical_and(&m.store, &t), Ok(true));
    assert_eq!(t.logical_and(&m.store, &Value::Int(1)), Err(RunError::ExpectedBool));
    assert_eq!(
        Value::Int(1).logical_or(&mut m, &mut env, &t, 10),
        Err(RunError::ExpectedBool)
    );
}

#[test]
fn environments_resolve_local_before_global() {
    let mut m = Machine::new();
    let mut env = LocalEnvironment::new();
    m.install_global(Name::User(0), Value::Int(1));
    let global_cell = m.globals.lookup(Name::User(0)).unwrap();
    assert_eq!(m.cell_read(global_cell), Ok(Value::Int(1)));
    // a local binding shadows the global one for evaluation
    let local = m.new_cell(Value::Int(2));
    env.insert(Name::User(0), local);
    assert_eq!(
        eval_expr(&mut m, &mut env, &Expr::Ident(Name::User(0)), 10),
        Ok(Value::Int(2))
    );
    // without the local binding, the global one answers
    let mut fresh = LocalEnvironment::new();
    assert_eq!(
        eval_expr(&mut m, &mut fresh, &Expr::Ident(Name::User(0)), 10),
        Ok(Value::Int(1))
    );
}

#[test]
fn environment_insert_replaces() {
    let mut env = Environment::new();
    env.insert_stmt(Name::User(1), 4);
    env.insert_stmt(Name::User(1), 9);
    assert_eq!(env.lookup(Name::User(1)), Some(9));
    assert_eq!(env.lookup(Name::User(2)), None);
}

#[test]
fn module_stores_and_replaces_bindings() {
    let mut module = Module::new(Name::User(0));
    assert_eq!(module.get(Name::User(1)), None);
    module.insert(Name::User(1), Value::Int(4));
    module.insert(Name::User(2), Value::Bool(true));
    assert_eq!(module.get(Name::User(1)), Some(Value::Int(4)));
    assert_eq!(module.get(Name::User(2)), Some(Value::Bool(true)));
    module.insert(Name::User(1), Value::Int(8));
    assert_eq!(module.get(Name::User(1)), Some(Value::Int(8)));
}

#[test]
fn clones_are_deep_and_equal() {
    let e = Expr::Add(
        Box::new(Expr::StringLit("hi".to_string())),
        Box::new(Expr::Call(CallExpr::new(Name::User(1), vec![Expr::Integer(3)]))),
    );
    assert_eq!(clone_expr(&e), e);
}

#[test]
fn counter_reevaluation_updates_the_same_cell() {
    // after `i` is bound by a counter, an alias of `i` taken in between
    // still sees a later counter evaluation: the binding's cell is
    // written, not replaced
    let mut m = Machine::new();
    let mut env = LocalEnvironment::new();
    let first = eval_expr(&mut m, &mut env, &Expr::Counter(Name::User(0), 0, 3), 10).unwrap();
    assert_eq!(first, Value::Counter(Name::User(0), 0, 3));
    let alias = eval_expr(&mut m, &mut env, &Expr::Ref(Box::new(Expr::Ident(Name::User(0)))), 10)
        .unwrap();
    let cell = match alias {
        Value::RefValue(c) => c,
        other => panic!("expected a reference, got {:?}", other),
    };
    assert_eq!(m.cell_read(cell), Ok(Value::Int(0)));
    // write something else, then re-evaluate the counter: same cell again
    m.cell_write(cell, Value::Int(9)).unwrap();
    eval_expr(&mut m, &mut env, &Expr::Counter(Name::User(0), 5, 8), 10).unwrap();
    assert_eq!(m.cell_read(cell), Ok(Value::Int(5)));
}

#[test]
fn assignment_falls_back_to_the_global_scope() {
    // a name bound only globally can be assigned to; resolution is
    // local before global
    let mut m = Machine::new();
    let mut env = LocalEnvironment::new();
    m.install_global(Name::User(0), Value::Int(1));
    let out = morpho_c::eval::run_stmts(
        &mut m,
        &mut env,
        &morpho_c::ast::StmtList::Cons(
            Box::new(morpho_c::ast::Stmt::VarAssign(morpho_c::ast::VarAssign::new(
                Name::User(0),
                Expr::Integer(5),
            ))),
            Box::new(morpho_c::ast::StmtList::Nil),
        ),
        TypeName::TVoid,
        10,
    );
    assert_eq!(out, Ok(None));
    assert_eq!(
        eval_expr(&mut m, &mut env, &Expr::Ident(Name::User(0)), 10),
        Ok(Value::Int(5))
    );
}
