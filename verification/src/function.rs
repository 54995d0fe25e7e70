//! The function object: what a `func` definition or an anonymous function
//! reifies to.
//!
//! A function carries its privacy tag, a captured scope, its name, its
//! typed parameter list, its declared return type and its body.  It is
//! immutable after creation except that each invocation replaces its
//! environment with the activation's fresh scope, so the captured scope
//! never outlives a call.

use vstd::prelude::*;

use crate::ast::{Name, ParamList, PrivacyType, StmtList, TypeName, clone_param_list,
    clone_stmt_list};
use crate::environment::{LocalEnvironment, clone_local_environment};

verus! {

/// A user-defined callable.
#[derive(Debug, PartialEq, Eq)]
pub struct Function {
    pub privacy: PrivacyType,
    pub environment: LocalEnvironment,
    pub ident: Name,
    pub args: ParamList,
    pub rty: TypeName,
    pub body: StmtList,
}

impl Function {
    /// A function built from its parts.
    pub fn new(
        privacy: PrivacyType,
        environment: LocalEnvironment,
        ident: Name,
        args: ParamList,
        rty: TypeName,
        body: StmtList,
    ) -> (r: Function)
        ensures
            r == (Function { privacy, environment, ident, args, rty, body }),
    {
        Function { privacy, environment, ident, args, rty, body }
    }

    /// The function's name.
    pub fn get_ident(&self) -> (r: Name)
        ensures
            r == self.ident,
    {
        self.ident
    }

    /// The typed parameter list.
    pub fn get_args(&self) -> (r: &ParamList)
        ensures
            *r == self.args,
    {
        &self.args
    }

    /// Replaces the environment with an activation's scope.
    pub fn set_env(&mut self, env: LocalEnvironment)
        ensures
            *final(self) == (Function { environment: env, ..*old(self) }),
    {
        self.environment = env;
    }
}

/// A deep copy of a function, equal to the original.
pub fn clone_function(f: &Function) -> (r: Function)
    ensures
        r == *f,
{
    Function {
        privacy: f.privacy,
        environment: clone_local_environment(&f.environment),
        ident: f.ident,
        args: clone_param_list(&f.args),
        rty: f.rty,
        body: clone_stmt_list(&f.body),
    }
}

} // verus!
