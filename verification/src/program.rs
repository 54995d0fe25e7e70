//! Program bootstrap: install the built-ins, hoist the top-level function
//! definitions into the global environment, locate `main`, and run it
//! with an empty local scope.

use vstd::prelude::*;

use crate::ast::{Name, Prim, PrivacyType, Prog, Stmt, StmtList, clone_func_body,
    clone_param_list};
use crate::environment::{Environment, LocalEnvironment, ScopeList, scope_get};
use crate::function::Function;
use crate::machine::{CacheList, Machine, StateG, spec_cell_read, spec_install};
use crate::value::{RunError, Value};

verus! {

/// The function a top-level statement defines, if it is a definition with
/// a body.  Top-level functions are public; their captured scope starts
/// empty.
pub open spec fn spec_extract_func(s: Stmt) -> Option<(Name, Function)> {
    match s {
        Stmt::FuncIdent(fi) => match fi.stmt {
            Option::Some(body) => Option::Some(
                (
                    fi.ident,
                    Function {
                        privacy: PrivacyType::Public,
                        environment: LocalEnvironment { variables: ScopeList::Nil },
                        ident: fi.ident,
                        args: fi.args,
                        rty: fi.rty,
                        body: body.stmt,
                    },
                ),
            ),
            Option::None => Option::None,
        },
        _ => Option::None,
    }
}

/// Extracts the function a top-level statement defines.
pub fn extract_func(s: &Stmt) -> (r: Option<(Name, Function)>)
    ensures
        r == spec_extract_func(*s),
{
    match s {
        Stmt::FuncIdent(fi) => match &fi.stmt {
            Option::Some(body) => Option::Some(
                (
                    fi.ident,
                    Function {
                        privacy: PrivacyType::Public,
                        environment: LocalEnvironment::new(),
                        ident: fi.ident,
                        args: clone_param_list(&fi.args),
                        rty: fi.rty,
                        body: clone_func_body(body).stmt,
                    },
                ),
            ),
            Option::None => Option::None,
        },
        _ => Option::None,
    }
}

/// The state after the built-ins are installed, in order: `print`, `if`,
/// `for`, `while`, `input`.
pub open spec fn spec_install_builtins(g: StateG) -> StateG {
    let g1 = spec_install(g, Name::Builtin(Prim::Print), Value::FuncPtr(Prim::Print));
    let g2 = spec_install(g1, Name::Builtin(Prim::If), Value::FuncPtr(Prim::If));
    let g3 = spec_install(g2, Name::Builtin(Prim::For), Value::FuncPtr(Prim::For));
    let g4 = spec_install(g3, Name::Builtin(Prim::While), Value::FuncPtr(Prim::While));
    spec_install(g4, Name::Builtin(Prim::Input), Value::FuncPtr(Prim::Input))
}

/// The state after every top-level function definition is installed, in
/// source order; a later definition of the same name shadows an earlier
/// one.
pub open spec fn spec_install_funcs(g: StateG, stmts: StmtList) -> StateG
    decreases stmts,
{
    match stmts {
        StmtList::Nil => g,
        StmtList::Cons(s, rest) => {
            let g2 = match spec_extract_func(*s) {
                Option::Some((n, f)) => spec_install(g, n, Value::Func(f)),
                Option::None => g,
            };
            spec_install_funcs(g2, *rest)
        },
    }
}

/// The bootstrapped state: built-ins, then the program's functions.
pub open spec fn spec_bootstrap(g: StateG, prog: Prog) -> StateG {
    spec_install_funcs(spec_install_builtins(g), prog.0)
}

/// The `main` function of a bootstrapped state: the global binding of the
/// entry name, provided it holds a user function.
pub open spec fn spec_main_of(g: StateG) -> Option<Function> {
    match scope_get(g.globals.global_stmts, Name::Main) {
        Option::None => Option::None,
        Option::Some(c) => match spec_cell_read(g.store, c) {
            Result::Ok(Value::Func(f)) => Option::Some(f),
            _ => Option::None,
        },
    }
}

fn install_funcs(m: &mut Machine, stmts: &StmtList)
    ensures
        final(m)@ == spec_install_funcs(old(m)@, *stmts),
    decreases *stmts,
{
    match stmts {
        StmtList::Nil => {},
        StmtList::Cons(s, rest) => {
            match extract_func(s) {
                Option::Some((n, f)) => {
                    m.install_global(n, Value::Func(f));
                },
                Option::None => {},
            }
            install_funcs(m, rest);
        },
    }
}

/// A bootstrapped program, ready to run.
pub struct Program {
    pub machine: Machine,
    pub main_function: Function,
}

/// The empty state a program boots from, up to the identity of its
/// canonical empty line.
pub open spec fn spec_initial_state(empty_line: String) -> StateG {
    StateG {
        store: Seq::<Value>::empty(),
        globals: Environment { global_stmts: ScopeList::Nil },
        cache: CacheList::Nil,
        next_anon: 0u64,
        line: Seq::<char>::empty(),
        output: Seq::<Seq<char>>::empty(),
        input: Seq::<String>::empty(),
        input_at: 0int,
        empty_line,
    }
}

impl Program {
    /// Bootstraps a program: installs the built-ins and the top-level
    /// functions into a fresh machine and locates `main`.  A program
    /// whose entry name is unbound, or bound to anything but a user
    /// function, is rejected.
    pub fn new(prog: Prog) -> (r: Result<Program, RunError>)
        ensures
            ({
                match r {
                    Result::Ok(p) => {
                        let g = spec_bootstrap(spec_initial_state(p.machine@.empty_line), prog);
                        &&& p.machine@ == g
                        &&& p.machine@.empty_line@ == Seq::<char>::empty()
                        &&& spec_main_of(g) == Option::Some(p.main_function)
                    },
                    Result::Err(e) => {
                        &&& e == RunError::MissingMain
                        &&& forall|el: String|
                            el@ == Seq::<char>::empty() ==> spec_main_of(
                                #[trigger] spec_bootstrap(spec_initial_state(el), prog),
                            ) is None
                    },
                }
            }),
    {
        let mut m = Machine::new();
        let ghost g0 = m@;
        proof {
            assert(g0 == spec_initial_state(g0.empty_line));
        }
        m.install_global(Name::Builtin(Prim::Print), Value::FuncPtr(Prim::Print));
        m.install_global(Name::Builtin(Prim::If), Value::FuncPtr(Prim::If));
        m.install_global(Name::Builtin(Prim::For), Value::FuncPtr(Prim::For));
        m.install_global(Name::Builtin(Prim::While), Value::FuncPtr(Prim::While));
        m.install_global(Name::Builtin(Prim::Input), Value::FuncPtr(Prim::Input));
        install_funcs(&mut m, &prog.0);
        proof {
            lemma_install_funcs_preserves(spec_install_builtins(g0), prog.0);
            assert(m@.empty_line == g0.empty_line);
            assert(m@ == spec_bootstrap(spec_initial_state(m@.empty_line), prog));
            lemma_bootstrap_independent_of_empty_line(m@, prog);
        }
        match m.globals.lookup(Name::Main) {
            Option::None => Result::Err(RunError::MissingMain),
            Option::Some(c) => match m.cell_read(c) {
                Result::Ok(Value::Func(f)) => Result::Ok(Program { machine: m, main_function: f }),
                _ => Result::Err(RunError::MissingMain),
            },
        }
    }

    /// Runs `main` with the given input lines and recursion budget, with
    /// an empty local scope; the result is the output, one line per
    /// completed `print`.
    pub fn run(self, input: Vec<String>, fuel: u64) -> (r: Result<Vec<String>, RunError>)
        ensures
            ({
                let g0 = StateG { input: input@, input_at: 0int, ..self.machine@ };
                match crate::eval::spec_run_func(
                    g0,
                    self.main_function,
                    LocalEnvironment { variables: ScopeList::Nil },
                    fuel as nat,
                ) {
                    Result::Ok((g2, _)) => r is Ok && r->Ok_0.deep_view() == g2.output,
                    Result::Err(e) => r == Result::<Vec<String>, RunError>::Err(e),
                }
            }),
    {
        let Program { machine: mut m, main_function } = self;
        m.set_input(input);
        let env = LocalEnvironment::new();
        match main_function.run(&mut m, env, fuel) {
            Result::Err(e) => Result::Err(e),
            Result::Ok(_) => Result::Ok(m.output),
        }
    }
}

/// Installing definitions never touches the text channels, the cache,
/// the name counter or the canonical empty line.
proof fn lemma_install_funcs_preserves(g: StateG, stmts: StmtList)
    ensures
        spec_install_funcs(g, stmts).empty_line == g.empty_line,
        spec_install_funcs(g, stmts).input == g.input,
        spec_install_funcs(g, stmts).input_at == g.input_at,
        spec_install_funcs(g, stmts).output == g.output,
        spec_install_funcs(g, stmts).line == g.line,
        spec_install_funcs(g, stmts).cache == g.cache,
        spec_install_funcs(g, stmts).next_anon == g.next_anon,
    decreases stmts,
{
    match stmts {
        StmtList::Nil => {},
        StmtList::Cons(s, rest) => {
            match spec_extract_func(*s) {
                Option::Some((n, f)) => {
                    lemma_install_funcs_preserves(spec_install(g, n, Value::Func(f)), *rest);
                },
                Option::None => {
                    lemma_install_funcs_preserves(g, *rest);
                },
            }
        },
    }
}

/// Bootstrapping only installs bindings: it touches neither the text
/// channels nor the identity of the canonical empty line, so which empty
/// string a machine was born with cannot decide whether `main` exists.
proof fn lemma_bootstrap_independent_of_empty_line(g: StateG, prog: Prog)
    ensures
        forall|el: String|
            spec_main_of(#[trigger] spec_bootstrap(spec_initial_state(el), prog)).is_some()
                == spec_main_of(spec_bootstrap(spec_initial_state(g.empty_line), prog)).is_some(),
{
    assert forall|el: String|
        spec_main_of(#[trigger] spec_bootstrap(spec_initial_state(el), prog)).is_some()
            == spec_main_of(spec_bootstrap(spec_initial_state(g.empty_line), prog)).is_some() by {
        lemma_install_funcs_same_bindings(
            spec_install_builtins(spec_initial_state(el)),
            spec_install_builtins(spec_initial_state(g.empty_line)),
            prog.0,
        );
    }
}

/// Installing the same definitions over two states with equal stores and
/// globals yields equal stores and globals.
proof fn lemma_install_funcs_same_bindings(a: StateG, b: StateG, stmts: StmtList)
    requires
        a.store == b.store,
        a.globals == b.globals,
    ensures
        spec_install_funcs(a, stmts).store == spec_install_funcs(b, stmts).store,
        spec_install_funcs(a, stmts).globals == spec_install_funcs(b, stmts).globals,
    decreases stmts,
{
    match stmts {
        StmtList::Nil => {},
        StmtList::Cons(s, rest) => {
            match spec_extract_func(*s) {
                Option::Some((n, f)) => {
                    lemma_install_funcs_same_bindings(
                        spec_install(a, n, Value::Func(f)),
                        spec_install(b, n, Value::Func(f)),
                        *rest,
                    );
                },
                Option::None => {
                    lemma_install_funcs_same_bindings(a, b, *rest);
                },
            }
        },
    }
}

/// Bootstraps and runs a whole program: the output lines, or the fatal
/// error that stopped it.  There is an initial machine state, empty but
/// for its canonical empty line, from which the run proceeds exactly as
/// the semantics defines.
pub fn eval_program(prog: Prog, input: Vec<String>, fuel: u64) -> (r: Result<Vec<String>, RunError>)
    ensures
        exists|el: String|
            el@ == Seq::<char>::empty() && ({
                let g = spec_bootstrap(spec_initial_state(el), prog);
                match spec_main_of(g) {
                    Option::None => r == Result::<Vec<String>, RunError>::Err(
                        RunError::MissingMain,
                    ),
                    Option::Some(f) => match crate::eval::spec_run_func(
                        StateG { input: input@, input_at: 0int, ..g },
                        f,
                        LocalEnvironment { variables: ScopeList::Nil },
                        fuel as nat,
                    ) {
                        Result::Ok((g2, _)) => r is Ok && r->Ok_0.deep_view() == g2.output,
                        Result::Err(e) => r == Result::<Vec<String>, RunError>::Err(e),
                    },
                }
            }),
{
    match Program::new(prog) {
        Result::Err(e) => {
            let w = String::new();
            proof {
                assert(spec_main_of(spec_bootstrap(spec_initial_state(w), prog)) is None);
                assert(w@ == Seq::<char>::empty() && ({
                    let g = spec_bootstrap(spec_initial_state(w), prog);
                    match spec_main_of(g) {
                        Option::None => Result::<Vec<String>, RunError>::Err(e) == Result::<
                            Vec<String>,
                            RunError,
                        >::Err(RunError::MissingMain),
                        Option::Some(_) => false,
                    }
                }));
            }
            Result::Err(e)
        },
        Result::Ok(p) => {
            let ghost el = p.machine@.empty_line;
            let r = p.run(input, fuel);
            proof {
                assert(el@ == Seq::<char>::empty() && ({
                    let g = spec_bootstrap(spec_initial_state(el), prog);
                    match spec_main_of(g) {
                        Option::None => r == Result::<Vec<String>, RunError>::Err(
                            RunError::MissingMain,
                        ),
                        Option::Some(f) => match crate::eval::spec_run_func(
                            StateG { input: input@, input_at: 0int, ..g },
                            f,
                            LocalEnvironment { variables: ScopeList::Nil },
                            fuel as nat,
                        ) {
                            Result::Ok((g2, _)) => r is Ok && r->Ok_0.deep_view() == g2.output,
                            Result::Err(e) => r == Result::<Vec<String>, RunError>::Err(e),
                        },
                    }
                }));
            }
            r
        },
    }
}

} // verus!
