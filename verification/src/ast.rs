//! The abstract syntax the evaluator consumes.
//!
//! Identifiers are interned symbols: the embedder (parser, test harness)
//! maps each source name to a [`Name`] before constructing a program.  The
//! entry point interns as [`Name::Main`], the built-in callables as
//! [`Name::Builtin`], every other source identifier as [`Name::User`] with
//! an index of the embedder's choosing, and the evaluator itself coins
//! [`Name::Anon`] names for anonymous functions, so generated names can
//! never collide with user ones.
//!
//! Expression and statement lists are cons lists rather than vectors so
//! that whole syntax trees are plain structural data: equality, cloning and
//! recursion over them need no view indirection.

use vstd::prelude::*;

verus! {

/// The built-in callables installed by program bootstrap.
#[derive(Clone, Copy, Debug, PartialEq, Eq, Structural)]
pub enum Prim {
    Print,
    If,
    For,
    While,
    Input,
}

/// An interned identifier.
#[derive(Clone, Copy, Debug, PartialEq, Eq, Structural)]
pub enum Name {
    /// The program entry point, `main`.
    Main,
    /// The name of a built-in callable (`print`, `if`, ...).
    Builtin(Prim),
    /// Any other source identifier, numbered by the embedder.
    User(u64),
    /// A generated name for an anonymous function, numbered by the
    /// evaluator; the embedder never produces these.
    Anon(u64),
}

/// Whether a function definition is visible beyond its module.  Privacy
/// does not affect evaluation.
#[derive(Clone, Copy, Debug, PartialEq, Eq, Structural)]
pub enum PrivacyType {
    Public,
    Private,
}

/// A reified type: the string-shaped type descriptor of the source
/// language, interned into structural form.  Parameter binding and return
/// checking compare these for equality.
#[derive(Clone, Copy, Debug, PartialEq, Eq, Structural)]
pub enum TypeName {
    TInt,
    TBool,
    TString,
    TVoid,
    /// The type of a deferred call (`func`).
    TFunc,
    /// `range<start, end>`.
    TRange(i64, i64),
    /// `counter<name, start, end>`.
    TCounter(Name, i64, i64),
    /// The opaque handle of a built-in callable.
    TPrim(Prim),
    /// A declared type name that is none of the built-in ones.
    TNamed(Name),
}

/// An expression node.
#[derive(Debug, PartialEq, Eq)]
pub enum Expr {
    Ident(Name),
    Integer(i64),
    Bool(bool),
    StringLit(String),
    /// `&expr`: request an aliasable handle.
    Ref(Box<Expr>),
    /// `[e, ...]`; carried through parsing but not meaningful as a value.
    Array(ExprList),
    /// `{k: v, ...}`; carried through parsing but not meaningful as a value.
    Dictionary(PairList),
    Call(CallExpr),
    /// `$name|args|`: a function-pointer literal.
    Func(FuncPtr),
    /// `name in s..e`: an iteration source that also binds `name`.
    Counter(Name, i64, i64),
    /// `s..e`: a half-open iteration source.
    Range(i64, i64),
    /// `$|name: bind, ...| -> rty { ... }`.
    AnonFunc(AnonymousFunc),
    Add(Box<Expr>, Box<Expr>),
    Sub(Box<Expr>, Box<Expr>),
    Mul(Box<Expr>, Box<Expr>),
    Div(Box<Expr>, Box<Expr>),
    Eq(Box<Expr>, Box<Expr>),
    NotEq(Box<Expr>, Box<Expr>),
    Gt(Box<Expr>, Box<Expr>),
    Lt(Box<Expr>, Box<Expr>),
    Ge(Box<Expr>, Box<Expr>),
    Le(Box<Expr>, Box<Expr>),
    Or(Box<Expr>, Box<Expr>),
    And(Box<Expr>, Box<Expr>),
    Not(Box<Expr>),
    Neg(Box<Expr>),
    Xor(Box<Expr>, Box<Expr>),
    Mod(Box<Expr>, Box<Expr>),
}

/// A list of expressions.
#[derive(Debug, PartialEq, Eq)]
pub enum ExprList {
    Nil,
    Cons(Box<Expr>, Box<ExprList>),
}

/// A list of key/value expression pairs.
#[derive(Debug, PartialEq, Eq)]
pub enum PairList {
    Nil,
    Cons(Box<Expr>, Box<Expr>, Box<PairList>),
}

/// The parameter bindings of an anonymous function: each parameter name
/// with the expression that supplies both its value and its inferred type.
#[derive(Debug, PartialEq, Eq)]
pub enum BindList {
    Nil,
    Cons(Name, Box<Expr>, Box<BindList>),
}

/// The typed parameter list of a declared function.
#[derive(Debug, PartialEq, Eq)]
pub enum ParamList {
    Nil,
    Cons(Name, TypeName, Box<ParamList>),
}

/// A call: callee name and positional argument expressions.
#[derive(Debug, PartialEq, Eq)]
pub struct CallExpr {
    pub func_name: Name,
    pub args: ExprList,
}

/// A function-pointer literal `$name|args|`.
#[derive(Debug, PartialEq, Eq)]
pub struct FuncPtr {
    pub ident: Name,
    pub args: Option<ExprList>,
}

/// An anonymous function expression.
#[derive(Debug, PartialEq, Eq)]
pub struct AnonymousFunc {
    pub args: BindList,
    pub rty: TypeName,
    pub stmt: Option<FuncBody>,
}

/// A top-level or nested function definition.
#[derive(Debug, PartialEq, Eq)]
pub struct FuncIdent {
    pub ident: Name,
    pub args: ParamList,
    pub rty: TypeName,
    pub stmt: Option<FuncBody>,
}

/// The braced statement list of a function.
#[derive(Debug, PartialEq, Eq)]
pub struct FuncBody {
    pub stmt: StmtList,
}

/// `let name = expr;`
#[derive(Debug, PartialEq, Eq)]
pub struct VarIdent {
    pub ident: Name,
    pub expr: Expr,
}

/// `name = expr;`
#[derive(Debug, PartialEq, Eq)]
pub struct VarAssign {
    pub ident: Name,
    pub expr: Expr,
}

/// A statement.
#[derive(Debug, PartialEq, Eq)]
pub enum Stmt {
    FuncIdent(FuncIdent),
    FuncBody(FuncBody),
    VarIdent(VarIdent),
    VarAssign(VarAssign),
    ReturnValue(Box<Expr>),
    Expr(Box<Expr>),
}

/// A list of statements.
#[derive(Debug, PartialEq, Eq)]
pub enum StmtList {
    Nil,
    Cons(Box<Stmt>, Box<StmtList>),
}

/// A whole parsed program: its top-level statements.
#[derive(Debug, PartialEq, Eq)]
pub struct Prog(pub StmtList);

/// A deep copy of an expression, equal to the original.
pub fn clone_expr(e: &Expr) -> (r: Expr)
    ensures
        r == *e,
    decreases *e,
{
    match e {
        Expr::Ident(n) => Expr::Ident(*n),
        Expr::Integer(i) => Expr::Integer(*i),
        Expr::Bool(b) => Expr::Bool(*b),
        Expr::StringLit(s) => Expr::StringLit(s.clone()),
        Expr::Ref(x) => Expr::Ref(Box::new(clone_expr(x))),
        Expr::Array(l) => Expr::Array(clone_expr_list(l)),
        Expr::Dictionary(l) => Expr::Dictionary(clone_pair_list(l)),
        Expr::Call(c) => Expr::Call(clone_call_expr(c)),
        Expr::Func(f) => Expr::Func(clone_func_ptr(f)),
        Expr::Counter(n, s, e2) => Expr::Counter(*n, *s, *e2),
        Expr::Range(s, e2) => Expr::Range(*s, *e2),
        Expr::AnonFunc(a) => Expr::AnonFunc(clone_anonymous_func(a)),
        Expr::Add(l, r2) => Expr::Add(Box::new(clone_expr(l)), Box::new(clone_expr(r2))),
        Expr::Sub(l, r2) => Expr::Sub(Box::new(clone_expr(l)), Box::new(clone_expr(r2))),
        Expr::Mul(l, r2) => Expr::Mul(Box::new(clone_expr(l)), Box::new(clone_expr(r2))),
        Expr::Div(l, r2) => Expr::Div(Box::new(clone_expr(l)), Box::new(clone_expr(r2))),
        Expr::Eq(l, r2) => Expr::Eq(Box::new(clone_expr(l)), Box::new(clone_expr(r2))),
        Expr::NotEq(l, r2) => Expr::NotEq(Box::new(clone_expr(l)), Box::new(clone_expr(r2))),
        Expr::Gt(l, r2) => Expr::Gt(Box::new(clone_expr(l)), Box::new(clone_expr(r2))),
        Expr::Lt(l, r2) => Expr::Lt(Box::new(clone_expr(l)), Box::new(clone_expr(r2))),
        Expr::Ge(l, r2) => Expr::Ge(Box::new(clone_expr(l)), Box::new(clone_expr(r2))),
        Expr::Le(l, r2) => Expr::Le(Box::new(clone_expr(l)), Box::new(clone_expr(r2))),
        Expr::Or(l, r2) => Expr::Or(Box::new(clone_expr(l)), Box::new(clone_expr(r2))),
        Expr::And(l, r2) => Expr::And(Box::new(clone_expr(l)), Box::new(clone_expr(r2))),
        Expr::Not(x) => Expr::Not(Box::new(clone_expr(x))),
        Expr::Neg(x) => Expr::Neg(Box::new(clone_expr(x))),
        Expr::Xor(l, r2) => Expr::Xor(Box::new(clone_expr(l)), Box::new(clone_expr(r2))),
        Expr::Mod(l, r2) => Expr::Mod(Box::new(clone_expr(l)), Box::new(clone_expr(r2))),
    }
}

/// A deep copy of an expression list, equal to the original.
pub fn clone_expr_list(l: &ExprList) -> (r: ExprList)
    ensures
        r == *l,
    decreases *l,
{
    match l {
        ExprList::Nil => ExprList::Nil,
        ExprList::Cons(e, rest) => ExprList::Cons(
            Box::new(clone_expr(e)),
            Box::new(clone_expr_list(rest)),
        ),
    }
}

/// A deep copy of a pair list, equal to the original.
pub fn clone_pair_list(l: &PairList) -> (r: PairList)
    ensures
        r == *l,
    decreases *l,
{
    match l {
        PairList::Nil => PairList::Nil,
        PairList::Cons(k, v, rest) => PairList::Cons(
            Box::new(clone_expr(k)),
            Box::new(clone_expr(v)),
            Box::new(clone_pair_list(rest)),
        ),
    }
}

/// A deep copy of an anonymous-function binding list, equal to the original.
pub fn clone_bind_list(l: &BindList) -> (r: BindList)
    ensures
        r == *l,
    decreases *l,
{
    match l {
        BindList::Nil => BindList::Nil,
        BindList::Cons(n, e, rest) => BindList::Cons(
            *n,
            Box::new(clone_expr(e)),
            Box::new(clone_bind_list(rest)),
        ),
    }
}

/// A deep copy of a parameter list, equal to the original.
pub fn clone_param_list(l: &ParamList) -> (r: ParamList)
    ensures
        r == *l,
    decreases *l,
{
    match l {
        ParamList::Nil => ParamList::Nil,
        ParamList::Cons(n, t, rest) => ParamList::Cons(*n, *t, Box::new(clone_param_list(rest))),
    }
}

/// A deep copy of a call expression, equal to the original.
pub fn clone_call_expr(c: &CallExpr) -> (r: CallExpr)
    ensures
        r == *c,
    decreases *c,
{
    CallExpr { func_name: c.func_name, args: clone_expr_list(&c.args) }
}

/// A deep copy of a function-pointer literal, equal to the original.
pub fn clone_func_ptr(f: &FuncPtr) -> (r: FuncPtr)
    ensures
        r == *f,
    decreases *f,
{
    FuncPtr {
        ident: f.ident,
        args: match &f.args {
            Option::None => Option::None,
            Option::Some(l) => Option::Some(clone_expr_list(l)),
        },
    }
}

/// A deep copy of an anonymous function, equal to the original.
pub fn clone_anonymous_func(a: &AnonymousFunc) -> (r: AnonymousFunc)
    ensures
        r == *a,
    decreases *a,
{
    AnonymousFunc {
        args: clone_bind_list(&a.args),
        rty: a.rty,
        stmt: match &a.stmt {
            Option::None => Option::None,
            Option::Some(b) => Option::Some(clone_func_body(b)),
        },
    }
}

/// A deep copy of a function body, equal to the original.
pub fn clone_func_body(b: &FuncBody) -> (r: FuncBody)
    ensures
        r == *b,
    decreases *b,
{
    FuncBody { stmt: clone_stmt_list(&b.stmt) }
}

/// A deep copy of a statement, equal to the original.
pub fn clone_stmt(s: &Stmt) -> (r: Stmt)
    ensures
        r == *s,
    decreases *s,
{
    match s {
        Stmt::FuncIdent(f) => Stmt::FuncIdent(FuncIdent {
            ident: f.ident,
            args: clone_param_list(&f.args),
            rty: f.rty,
            stmt: match &f.stmt {
                Option::None => Option::None,
                Option::Some(b) => Option::Some(clone_func_body(b)),
            },
        }),
        Stmt::FuncBody(b) => Stmt::FuncBody(clone_func_body(b)),
        Stmt::VarIdent(v) => Stmt::VarIdent(VarIdent { ident: v.ident, expr: clone_expr(&v.expr) }),
        Stmt::VarAssign(v) => Stmt::VarAssign(
            VarAssign { ident: v.ident, expr: clone_expr(&v.expr) },
        ),
        Stmt::ReturnValue(e) => Stmt::ReturnValue(Box::new(clone_expr(e))),
        Stmt::Expr(e) => Stmt::Expr(Box::new(clone_expr(e))),
    }
}

/// A deep copy of a statement list, equal to the original.
pub fn clone_stmt_list(l: &StmtList) -> (r: StmtList)
    ensures
        r == *l,
    decreases *l,
{
    match l {
        StmtList::Nil => StmtList::Nil,
        StmtList::Cons(s, rest) => StmtList::Cons(
            Box::new(clone_stmt(s)),
            Box::new(clone_stmt_list(rest)),
        ),
    }
}

/// The expression list holding the elements of `s`, in order.
pub open spec fn expr_list_of_seq(s: Seq<Expr>) -> ExprList
    decreases s.len(),
{
    if s.len() == 0 {
        ExprList::Nil
    } else {
        ExprList::Cons(Box::new(s[0]), Box::new(expr_list_of_seq(s.skip(1))))
    }
}

/// The statement list holding the elements of `s`, in order.
pub open spec fn stmt_list_of_seq(s: Seq<Stmt>) -> StmtList
    decreases s.len(),
{
    if s.len() == 0 {
        StmtList::Nil
    } else {
        StmtList::Cons(Box::new(s[0]), Box::new(stmt_list_of_seq(s.skip(1))))
    }
}

/// Turns a vector of expressions into the equivalent cons list.
pub fn expr_list_from_vec(v: Vec<Expr>) -> (r: ExprList)
    ensures
        r == expr_list_of_seq(v@),
{
    proof {
        assert(v@.skip(0) =~= v@);
    }
    expr_list_from_vec_at(&v, 0)
}

fn expr_list_from_vec_at(v: &Vec<Expr>, i: usize) -> (r: ExprList)
    requires
        i <= v.len(),
    ensures
        r == expr_list_of_seq(v@.skip(i as int)),
    decreases v.len() - i,
{
    if i == v.len() {
        assert(v@.skip(i as int).len() == 0);
        ExprList::Nil
    } else {
        let head = clone_expr(&v[i]);
        let tail = expr_list_from_vec_at(v, i + 1);
        proof {
            assert(v@.skip(i as int).skip(1) =~= v@.skip(i as int + 1));
            assert(v@.skip(i as int)[0] == v@[i as int]);
        }
        ExprList::Cons(Box::new(head), Box::new(tail))
    }
}

/// Turns a vector of statements into the equivalent cons list.
pub fn stmt_list_from_vec(v: Vec<Stmt>) -> (r: StmtList)
    ensures
        r == stmt_list_of_seq(v@),
{
    proof {
        assert(v@.skip(0) =~= v@);
    }
    stmt_list_from_vec_at(&v, 0)
}

fn stmt_list_from_vec_at(v: &Vec<Stmt>, i: usize) -> (r: StmtList)
    requires
        i <= v.len(),
    ensures
        r == stmt_list_of_seq(v@.skip(i as int)),
    decreases v.len() - i,
{
    if i == v.len() {
        assert(v@.skip(i as int).len() == 0);
        StmtList::Nil
    } else {
        let head = clone_stmt(&v[i]);
        let tail = stmt_list_from_vec_at(v, i + 1);
        proof {
            assert(v@.skip(i as int).skip(1) =~= v@.skip(i as int + 1));
            assert(v@.skip(i as int)[0] == v@[i as int]);
        }
        StmtList::Cons(Box::new(head), Box::new(tail))
    }
}

impl CallExpr {
    /// A call of `func_name` on `args`.
    pub fn new(func_name: Name, args: Vec<Expr>) -> (r: CallExpr)
        ensures
            r == (CallExpr { func_name, args: expr_list_of_seq(args@) }),
    {
        CallExpr { func_name, args: expr_list_from_vec(args) }
    }

    /// The callee name.
    pub fn get_name(&self) -> (r: Name)
        ensures
            r == self.func_name,
    {
        self.func_name
    }

    /// The argument expressions.
    pub fn get_args(&self) -> (r: &ExprList)
        ensures
            *r == self.args,
    {
        &self.args
    }
}

impl FuncPtr {
    /// A function-pointer literal naming `ident` with pre-bound `args`.
    pub fn new(ident: Name, args: Option<Vec<Expr>>) -> (r: FuncPtr)
        ensures
            r.ident == ident,
            match args {
                Option::None => r.args is None,
                Option::Some(v) => r.args == Option::Some(expr_list_of_seq(v@)),
            },
    {
        match args {
            Option::None => FuncPtr { ident, args: Option::None },
            Option::Some(v) => FuncPtr { ident, args: Option::Some(expr_list_from_vec(v)) },
        }
    }
}

impl AnonymousFunc {
    /// An anonymous function with a declared return type.
    pub fn new_w_rty(args: BindList, rty: TypeName, stmt: Option<FuncBody>) -> (r: AnonymousFunc)
        ensures
            r == (AnonymousFunc { args, rty, stmt }),
    {
        AnonymousFunc { args, stmt, rty }
    }

    /// An anonymous function without a declared return type: it returns
    /// `void`.
    pub fn new_wo_rty(args: BindList, stmt: Option<FuncBody>) -> (r: AnonymousFunc)
        ensures
            r == (AnonymousFunc { args, rty: TypeName::TVoid, stmt }),
    {
        AnonymousFunc { args, stmt, rty: TypeName::TVoid }
    }
}

impl FuncIdent {
    /// A function definition with a declared return type.
    pub fn new_w_rty(ident: Name, args: ParamList, rty: TypeName, stmt: Option<FuncBody>) -> (r:
        FuncIdent)
        ensures
            r == (FuncIdent { ident, args, rty, stmt }),
    {
        FuncIdent { ident, args, stmt, rty }
    }

    /// A function definition without a declared return type: it returns
    /// `void`.
    pub fn new_wo_rty(ident: Name, args: ParamList, stmt: Option<FuncBody>) -> (r: FuncIdent)
        ensures
            r == (FuncIdent { ident, args, rty: TypeName::TVoid, stmt }),
    {
        FuncIdent { ident, args, stmt, rty: TypeName::TVoid }
    }
}

impl FuncBody {
    /// A function body holding `stmt`.
    pub fn new(stmt: Vec<Stmt>) -> (r: FuncBody)
        ensures
            r == (FuncBody { stmt: stmt_list_of_seq(stmt@) }),
    {
        FuncBody { stmt: stmt_list_from_vec(stmt) }
    }
}

impl VarIdent {
    /// `let ident = expr;`
    pub fn new(ident: Name, expr: Expr) -> (r: VarIdent)
        ensures
            r == (VarIdent { ident, expr }),
    {
        VarIdent { ident, expr }
    }
}

impl VarAssign {
    /// `ident = expr;`
    pub fn new(ident: Name, expr: Expr) -> (r: VarAssign)
        ensures
            r == (VarAssign { ident, expr }),
    {
        VarAssign { ident, expr }
    }
}

impl Prog {
    /// A program made of `stmts`.
    pub fn new(stmts: Vec<Stmt>) -> (r: Prog)
        ensures
            r == Prog(stmt_list_of_seq(stmts@)),
    {
        Prog(stmt_list_from_vec(stmts))
    }
}

/// Syntactic identity of expressions: structural equality with string
/// literals compared by their characters.  This is the key equality of the
/// anonymous-function cache.
pub open spec fn same_expr(a: Expr, b: Expr) -> bool
    decreases a,
{
    match (a, b) {
        (Expr::Ident(m), Expr::Ident(n)) => m == n,
        (Expr::Integer(x), Expr::Integer(y)) => x == y,
        (Expr::Bool(x), Expr::Bool(y)) => x == y,
        (Expr::StringLit(x), Expr::StringLit(y)) => x@ == y@,
        (Expr::Ref(x), Expr::Ref(y)) => same_expr(*x, *y),
        (Expr::Array(x), Expr::Array(y)) => same_expr_list(x, y),
        (Expr::Dictionary(x), Expr::Dictionary(y)) => same_pair_list(x, y),
        (Expr::Call(x), Expr::Call(y)) => same_call_expr(x, y),
        (Expr::Func(x), Expr::Func(y)) => same_func_ptr(x, y),
        (Expr::Counter(m, s, e), Expr::Counter(n, s2, e2)) => m == n && s == s2 && e == e2,
        (Expr::Range(s, e), Expr::Range(s2, e2)) => s == s2 && e == e2,
        (Expr::AnonFunc(x), Expr::AnonFunc(y)) => same_anonymous_func(x, y),
        (Expr::Add(l, r), Expr::Add(l2, r2)) => same_expr(*l, *l2) && same_expr(*r, *r2),
        (Expr::Sub(l, r), Expr::Sub(l2, r2)) => same_expr(*l, *l2) && same_expr(*r, *r2),
        (Expr::Mul(l, r), Expr::Mul(l2, r2)) => same_expr(*l, *l2) && same_expr(*r, *r2),
        (Expr::Div(l, r), Expr::Div(l2, r2)) => same_expr(*l, *l2) && same_expr(*r, *r2),
        (Expr::Eq(l, r), Expr::Eq(l2, r2)) => same_expr(*l, *l2) && same_expr(*r, *r2),
        (Expr::NotEq(l, r), Expr::NotEq(l2, r2)) => same_expr(*l, *l2) && same_expr(*r, *r2),
        (Expr::Gt(l, r), Expr::Gt(l2, r2)) => same_expr(*l, *l2) && same_expr(*r, *r2),
        (Expr::Lt(l, r), Expr::Lt(l2, r2)) => same_expr(*l, *l2) && same_expr(*r, *r2),
        (Expr::Ge(l, r), Expr::Ge(l2, r2)) => same_expr(*l, *l2) && same_expr(*r, *r2),
        (Expr::Le(l, r), Expr::Le(l2, r2)) => same_expr(*l, *l2) && same_expr(*r, *r2),
        (Expr::Or(l, r), Expr::Or(l2, r2)) => same_expr(*l, *l2) && same_expr(*r, *r2),
        (Expr::And(l, r), Expr::And(l2, r2)) => same_expr(*l, *l2) && same_expr(*r, *r2),
        (Expr::Not(x), Expr::Not(y)) => same_expr(*x, *y),
        (Expr::Neg(x), Expr::Neg(y)) => same_expr(*x, *y),
        (Expr::Xor(l, r), Expr::Xor(l2, r2)) => same_expr(*l, *l2) && same_expr(*r, *r2),
        (Expr::Mod(l, r), Expr::Mod(l2, r2)) => same_expr(*l, *l2) && same_expr(*r, *r2),
        _ => false,
    }
}

/// Syntactic identity of expression lists.
pub open spec fn same_expr_list(a: ExprList, b: ExprList) -> bool
    decreases a,
{
    match (a, b) {
        (ExprList::Nil, ExprList::Nil) => true,
        (ExprList::Cons(x, r), ExprList::Cons(y, r2)) => same_expr(*x, *y) && same_expr_list(
            *r,
            *r2,
        ),
        _ => false,
    }
}

/// Syntactic identity of pair lists.
pub open spec fn same_pair_list(a: PairList, b: PairList) -> bool
    decreases a,
{
    match (a, b) {
        (PairList::Nil, PairList::Nil) => true,
        (PairList::Cons(k, v, r), PairList::Cons(k2, v2, r2)) => same_expr(*k, *k2) && same_expr(
            *v,
            *v2,
        ) && same_pair_list(*r, *r2),
        _ => false,
    }
}

/// Syntactic identity of anonymous-function binding lists.
pub open spec fn same_bind_list(a: BindList, b: BindList) -> bool
    decreases a,
{
    match (a, b) {
        (BindList::Nil, BindList::Nil) => true,
        (BindList::Cons(m, x, r), BindList::Cons(n, y, r2)) => m == n && same_expr(*x, *y)
            && same_bind_list(*r, *r2),
        _ => false,
    }
}

/// Syntactic identity of call expressions.
pub open spec fn same_call_expr(a: CallExpr, b: CallExpr) -> bool
    decreases a,
{
    a.func_name == b.func_name && same_expr_list(a.args, b.args)
}

/// Syntactic identity of function-pointer literals.
pub open spec fn same_func_ptr(a: FuncPtr, b: FuncPtr) -> bool
    decreases a,
{
    a.ident == b.ident && match (a.args, b.args) {
        (Option::None, Option::None) => true,
        (Option::Some(x), Option::Some(y)) => same_expr_list(x, y),
        _ => false,
    }
}

/// Syntactic identity of anonymous functions.
pub open spec fn same_anonymous_func(a: AnonymousFunc, b: AnonymousFunc) -> bool
    decreases a,
{
    same_bind_list(a.args, b.args) && a.rty == b.rty && match (a.stmt, b.stmt) {
        (Option::None, Option::None) => true,
        (Option::Some(x), Option::Some(y)) => same_func_body(x, y),
        _ => false,
    }
}

/// Syntactic identity of function bodies.
pub open spec fn same_func_body(a: FuncBody, b: FuncBody) -> bool
    decreases a,
{
    same_stmt_list(a.stmt, b.stmt)
}

/// Syntactic identity of statements.
pub open spec fn same_stmt(a: Stmt, b: Stmt) -> bool
    decreases a,
{
    match (a, b) {
        (Stmt::FuncIdent(x), Stmt::FuncIdent(y)) => x.ident == y.ident && x.args == y.args
            && x.rty == y.rty && match (x.stmt, y.stmt) {
            (Option::None, Option::None) => true,
            (Option::Some(bx), Option::Some(by)) => same_func_body(bx, by),
            _ => false,
        },
        (Stmt::FuncBody(x), Stmt::FuncBody(y)) => same_func_body(x, y),
        (Stmt::VarIdent(x), Stmt::VarIdent(y)) => x.ident == y.ident && same_expr(x.expr, y.expr),
        (Stmt::VarAssign(x), Stmt::VarAssign(y)) => x.ident == y.ident && same_expr(x.expr, y.expr),
        (Stmt::ReturnValue(x), Stmt::ReturnValue(y)) => same_expr(*x, *y),
        (Stmt::Expr(x), Stmt::Expr(y)) => same_expr(*x, *y),
        _ => false,
    }
}

/// Syntactic identity of statement lists.
pub open spec fn same_stmt_list(a: StmtList, b: StmtList) -> bool
    decreases a,
{
    match (a, b) {
        (StmtList::Nil, StmtList::Nil) => true,
        (StmtList::Cons(x, r), StmtList::Cons(y, r2)) => same_stmt(*x, *y) && same_stmt_list(
            *r,
            *r2,
        ),
        _ => false,
    }
}

/// Decides [`same_expr`].
pub fn expr_same(a: &Expr, b: &Expr) -> (r: bool)
    ensures
        r == same_expr(*a, *b),
    decreases *a,
{
    match (a, b) {
        (Expr::Ident(m), Expr::Ident(n)) => *m == *n,
        (Expr::Integer(x), Expr::Integer(y)) => *x == *y,
        (Expr::Bool(x), Expr::Bool(y)) => *x == *y,
        (Expr::StringLit(x), Expr::StringLit(y)) => x.eq(y),
        (Expr::Ref(x), Expr::Ref(y)) => expr_same(x, y),
        (Expr::Array(x), Expr::Array(y)) => expr_list_same(x, y),
        (Expr::Dictionary(x), Expr::Dictionary(y)) => pair_list_same(x, y),
        (Expr::Call(x), Expr::Call(y)) => call_expr_same(x, y),
        (Expr::Func(x), Expr::Func(y)) => func_ptr_same(x, y),
        (Expr::Counter(m, s, e), Expr::Counter(n, s2, e2)) => *m == *n && *s == *s2 && *e == *e2,
        (Expr::Range(s, e), Expr::Range(s2, e2)) => *s == *s2 && *e == *e2,
        (Expr::AnonFunc(x), Expr::AnonFunc(y)) => anonymous_func_same(x, y),
        (Expr::Add(l, r2), Expr::Add(l2, r3)) => expr_same(l, l2) && expr_same(r2, r3),
        (Expr::Sub(l, r2), Expr::Sub(l2, r3)) => expr_same(l, l2) && expr_same(r2, r3),
        (Expr::Mul(l, r2), Expr::Mul(l2, r3)) => expr_same(l, l2) && expr_same(r2, r3),
        (Expr::Div(l, r2), Expr::Div(l2, r3)) => expr_same(l, l2) && expr_same(r2, r3),
        (Expr::Eq(l, r2), Expr::Eq(l2, r3)) => expr_same(l, l2) && expr_same(r2, r3),
        (Expr::NotEq(l, r2), Expr::NotEq(l2, r3)) => expr_same(l, l2) && expr_same(r2, r3),
        (Expr::Gt(l, r2), Expr::Gt(l2, r3)) => expr_same(l, l2) && expr_same(r2, r3),
        (Expr::Lt(l, r2), Expr::Lt(l2, r3)) => expr_same(l, l2) && expr_same(r2, r3),
        (Expr::Ge(l, r2), Expr::Ge(l2, r3)) => expr_same(l, l2) && expr_same(r2, r3),
        (Expr::Le(l, r2), Expr::Le(l2, r3)) => expr_same(l, l2) && expr_same(r2, r3),
        (Expr::Or(l, r2), Expr::Or(l2, r3)) => expr_same(l, l2) && expr_same(r2, r3),
        (Expr::And(l, r2), Expr::And(l2, r3)) => expr_same(l, l2) && expr_same(r2, r3),
        (Expr::Not(x), Expr::Not(y)) => expr_same(x, y),
        (Expr::Neg(x), Expr::Neg(y)) => expr_same(x, y),
        (Expr::Xor(l, r2), Expr::Xor(l2, r3)) => expr_same(l, l2) && expr_same(r2, r3),
        (Expr::Mod(l, r2), Expr::Mod(l2, r3)) => expr_same(l, l2) && expr_same(r2, r3),
        _ => false,
    }
}

/// Decides [`same_expr_list`].
pub fn expr_list_same(a: &ExprList, b: &ExprList) -> (r: bool)
    ensures
        r == same_expr_list(*a, *b),
    decreases *a,
{
    match (a, b) {
        (ExprList::Nil, ExprList::Nil) => true,
        (ExprList::Cons(x, r2), ExprList::Cons(y, r3)) => expr_same(x, y) && expr_list_same(
            r2,
            r3,
        ),
        _ => false,
    }
}

/// Decides [`same_pair_list`].
pub fn pair_list_same(a: &PairList, b: &PairList) -> (r: bool)
    ensures
        r == same_pair_list(*a, *b),
    decreases *a,
{
    match (a, b) {
        (PairList::Nil, PairList::Nil) => true,
        (PairList::Cons(k, v, r2), PairList::Cons(k2, v2, r3)) => expr_same(k, k2) && expr_same(
            v,
            v2,
        ) && pair_list_same(r2, r3),
        _ => false,
    }
}

/// Decides [`same_bind_list`].
pub fn bind_list_same(a: &BindList, b: &BindList) -> (r: bool)
    ensures
        r == same_bind_list(*a, *b),
    decreases *a,
{
    match (a, b) {
        (BindList::Nil, BindList::Nil) => true,
        (BindList::Cons(m, x, r2), BindList::Cons(n, y, r3)) => *m == *n && expr_same(x, y)
            && bind_list_same(r2, r3),
        _ => false,
    }
}

/// Decides [`same_call_expr`].
pub fn call_expr_same(a: &CallExpr, b: &CallExpr) -> (r: bool)
    ensures
        r == same_call_expr(*a, *b),
    decreases *a,
{
    a.func_name == b.func_name && expr_list_same(&a.args, &b.args)
}

/// Decides [`same_func_ptr`].
pub fn func_ptr_same(a: &FuncPtr, b: &FuncPtr) -> (r: bool)
    ensures
        r == same_func_ptr(*a, *b),
    decreases *a,
{
    a.ident == b.ident && match (&a.args, &b.args) {
        (Option::None, Option::None) => true,
        (Option::Some(x), Option::Some(y)) => expr_list_same(x, y),
        _ => false,
    }
}

/// Decides [`same_anonymous_func`].
pub fn anonymous_func_same(a: &AnonymousFunc, b: &AnonymousFunc) -> (r: bool)
    ensures
        r == same_anonymous_func(*a, *b),
    decreases *a,
{
    bind_list_same(&a.args, &b.args) && a.rty == b.rty && match (&a.stmt, &b.stmt) {
        (Option::None, Option::None) => true,
        (Option::Some(x), Option::Some(y)) => func_body_same(x, y),
        _ => false,
    }
}

/// Decides [`same_func_body`].
pub fn func_body_same(a: &FuncBody, b: &FuncBody) -> (r: bool)
    ensures
        r == same_func_body(*a, *b),
    decreases *a,
{
    stmt_list_same(&a.stmt, &b.stmt)
}

/// Decides equality of parameter lists.
pub fn param_list_same(a: &ParamList, b: &ParamList) -> (r: bool)
    ensures
        r == (*a == *b),
    decreases *a,
{
    match (a, b) {
        (ParamList::Nil, ParamList::Nil) => true,
        (ParamList::Cons(m, t, r2), ParamList::Cons(n, u, r3)) => *m == *n && *t == *u
            && param_list_same(r2, r3),
        _ => false,
    }
}

/// Decides [`same_stmt`].
pub fn stmt_same(a: &Stmt, b: &Stmt) -> (r: bool)
    ensures
        r == same_stmt(*a, *b),
    decreases *a,
{
    match (a, b) {
        (Stmt::FuncIdent(x), Stmt::FuncIdent(y)) => x.ident == y.ident && param_list_same(
            &x.args,
            &y.args,
        ) && x.rty == y.rty && match (&x.stmt, &y.stmt) {
            (Option::None, Option::None) => true,
            (Option::Some(bx), Option::Some(by)) => func_body_same(bx, by),
            _ => false,
        },
        (Stmt::FuncBody(x), Stmt::FuncBody(y)) => func_body_same(x, y),
        (Stmt::VarIdent(x), Stmt::VarIdent(y)) => x.ident == y.ident && expr_same(&x.expr, &y.expr),
        (Stmt::VarAssign(x), Stmt::VarAssign(y)) => x.ident == y.ident && expr_same(
            &x.expr,
            &y.expr,
        ),
        (Stmt::ReturnValue(x), Stmt::ReturnValue(y)) => expr_same(x, y),
        (Stmt::Expr(x), Stmt::Expr(y)) => expr_same(x, y),
        _ => false,
    }
}

/// Decides [`same_stmt_list`].
pub fn stmt_list_same(a: &StmtList, b: &StmtList) -> (r: bool)
    ensures
        r == same_stmt_list(*a, *b),
    decreases *a,
{
    match (a, b) {
        (StmtList::Nil, StmtList::Nil) => true,
        (StmtList::Cons(x, r2), StmtList::Cons(y, r3)) => stmt_same(x, y) && stmt_list_same(
            r2,
            r3,
        ),
        _ => false,
    }
}

/// Syntactic identity is reflexive: every expression is identical to
/// itself.
pub proof fn lemma_same_expr_refl(e: Expr)
    ensures
        same_expr(e, e),
    decreases e,
{
    match e {
        Expr::Ref(x) => lemma_same_expr_refl(*x),
        Expr::Array(l) => lemma_same_expr_list_refl(l),
        Expr::Dictionary(l) => lemma_same_pair_list_refl(l),
        Expr::Call(c) => lemma_same_call_expr_refl(c),
        Expr::Func(f) => lemma_same_func_ptr_refl(f),
        Expr::AnonFunc(a) => lemma_same_anonymous_func_refl(a),
        Expr::Add(l, r) => {
            lemma_same_expr_refl(*l);
            lemma_same_expr_refl(*r);
        },
        Expr::Sub(l, r) => {
            lemma_same_expr_refl(*l);
            lemma_same_expr_refl(*r);
        },
        Expr::Mul(l, r) => {
            lemma_same_expr_refl(*l);
            lemma_same_expr_refl(*r);
        },
        Expr::Div(l, r) => {
            lemma_same_expr_refl(*l);
            lemma_same_expr_refl(*r);
        },
        Expr::Eq(l, r) => {
            lemma_same_expr_refl(*l);
            lemma_same_expr_refl(*r);
        },
        Expr::NotEq(l, r) => {
            lemma_same_expr_refl(*l);
            lemma_same_expr_refl(*r);
        },
        Expr::Gt(l, r) => {
            lemma_same_expr_refl(*l);
            lemma_same_expr_refl(*r);
        },
        Expr::Lt(l, r) => {
            lemma_same_expr_refl(*l);
            lemma_same_expr_refl(*r);
        },
        Expr::Ge(l, r) => {
            lemma_same_expr_refl(*l);
            lemma_same_expr_refl(*r);
        },
        Expr::Le(l, r) => {
            lemma_same_expr_refl(*l);
            lemma_same_expr_refl(*r);
        },
        Expr::Or(l, r) => {
            lemma_same_expr_refl(*l);
            lemma_same_expr_refl(*r);
        },
        Expr::And(l, r) => {
            lemma_same_expr_refl(*l);
            lemma_same_expr_refl(*r);
        },
        Expr::Not(x) => lemma_same_expr_refl(*x),
        Expr::Neg(x) => lemma_same_expr_refl(*x),
        Expr::Xor(l, r) => {
            lemma_same_expr_refl(*l);
            lemma_same_expr_refl(*r);
        },
        Expr::Mod(l, r) => {
            lemma_same_expr_refl(*l);
            lemma_same_expr_refl(*r);
        },
        _ => {},
    }
}

/// Syntactic identity of expression lists is reflexive.
pub proof fn lemma_same_expr_list_refl(l: ExprList)
    ensures
        same_expr_list(l, l),
    decreases l,
{
    match l {
        ExprList::Nil => {},
        ExprList::Cons(e, rest) => {
            lemma_same_expr_refl(*e);
            lemma_same_expr_list_refl(*rest);
        },
    }
}

/// Syntactic identity of pair lists is reflexive.
pub proof fn lemma_same_pair_list_refl(l: PairList)
    ensures
        same_pair_list(l, l),
    decreases l,
{
    match l {
        PairList::Nil => {},
        PairList::Cons(k, v, rest) => {
            lemma_same_expr_refl(*k);
            lemma_same_expr_refl(*v);
            lemma_same_pair_list_refl(*rest);
        },
    }
}

/// Syntactic identity of binding lists is reflexive.
pub proof fn lemma_same_bind_list_refl(l: BindList)
    ensures
        same_bind_list(l, l),
    decreases l,
{
    match l {
        BindList::Nil => {},
        BindList::Cons(_, e, rest) => {
            lemma_same_expr_refl(*e);
            lemma_same_bind_list_refl(*rest);
        },
    }
}

/// Syntactic identity of call expressions is reflexive.
pub proof fn lemma_same_call_expr_refl(c: CallExpr)
    ensures
        same_call_expr(c, c),
    decreases c,
{
    lemma_same_expr_list_refl(c.args);
}

/// Syntactic identity of function-pointer literals is reflexive.
pub proof fn lemma_same_func_ptr_refl(f: FuncPtr)
    ensures
        same_func_ptr(f, f),
    decreases f,
{
    match f.args {
        Option::Some(l) => lemma_same_expr_list_refl(l),
        Option::None => {},
    }
}

/// Syntactic identity of anonymous functions is reflexive.
pub proof fn lemma_same_anonymous_func_refl(a: AnonymousFunc)
    ensures
        same_anonymous_func(a, a),
    decreases a,
{
    lemma_same_bind_list_refl(a.args);
    match a.stmt {
        Option::Some(b) => lemma_same_func_body_refl(b),
        Option::None => {},
    }
}

/// Syntactic identity of function bodies is reflexive.
pub proof fn lemma_same_func_body_refl(b: FuncBody)
    ensures
        same_func_body(b, b),
    decreases b,
{
    lemma_same_stmt_list_refl(b.stmt);
}

/// Syntactic identity of statements is reflexive.
pub proof fn lemma_same_stmt_refl(s: Stmt)
    ensures
        same_stmt(s, s),
    decreases s,
{
    match s {
        Stmt::FuncIdent(f) => {
            match f.stmt {
                Option::Some(b) => lemma_same_func_body_refl(b),
                Option::None => {},
            }
        },
        Stmt::FuncBody(b) => lemma_same_func_body_refl(b),
        Stmt::VarIdent(v) => lemma_same_expr_refl(v.expr),
        Stmt::VarAssign(v) => lemma_same_expr_refl(v.expr),
        Stmt::ReturnValue(e) => lemma_same_expr_refl(*e),
        Stmt::Expr(e) => lemma_same_expr_refl(*e),
    }
}

/// Syntactic identity of statement lists is reflexive.
pub proof fn lemma_same_stmt_list_refl(l: StmtList)
    ensures
        same_stmt_list(l, l),
    decreases l,
{
    match l {
        StmtList::Nil => {},
        StmtList::Cons(s, rest) => {
            lemma_same_stmt_refl(*s);
            lemma_same_stmt_list_refl(*rest);
        },
    }
}

} // verus!
