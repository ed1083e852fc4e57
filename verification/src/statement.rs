//! Statements: the lines that change the environment.

use vstd::prelude::*;
use crate::environment::{Environment, EnvironmentView};
use crate::error::{CalcError, CalcErrorView, CalcResult};
use crate::expression::{Expression, ExpressionView};
use crate::number::{computes, Number, Operation};

verus! {

/// What a statement does.
#[derive(Clone, Copy, Debug, PartialEq, Eq, Structural)]
pub enum StmtType {
    /// Sets a variable.
    Assign,
    /// Defines a function.
    FuncDef,
}

/// A statement: what it does, the name it does it to, and the expression on its
/// right-hand side.
pub struct Statement {
    pub stmt_type: StmtType,
    pub name: String,
    pub rhs: Expression,
}

/// A statement as a value of specifications.
pub struct StatementView {
    pub stmt_type: StmtType,
    pub name: Seq<char>,
    pub rhs: ExpressionView,
}

impl View for Statement {
    type V = StatementView;

    open spec fn view(&self) -> StatementView {
        StatementView { stmt_type: self.stmt_type, name: self.name@, rhs: self.rhs@ }
    }
}

impl StatementView {
    /// The environment that the statement leaves where it starts from `env`, or
    /// the error that stops it.
    ///
    /// An assignment evaluates its right-hand side in `env` and binds the name to
    /// the value, whatever the name stood for before. A definition of a function
    /// is not carried out.
    pub open spec fn executed(self, f: spec_fn(Operation) -> Number, env: EnvironmentView) -> Result<
        EnvironmentView,
        CalcErrorView,
    > {
        match self.stmt_type {
            StmtType::Assign => match self.rhs.value(f, env) {
                Ok(x) => Ok(env.with_variable(self.name, x)),
                Err(error) => Err(error),
            },
            StmtType::FuncDef => Err(CalcErrorView::NotImplemented),
        }
    }
}

impl Statement {
    /// Carries the statement out on `env`, with `arith` for every operation that
    /// rounds. Where it fails, `env` stays as it was.
    pub fn exec<A: Fn(Operation) -> Number>(&self, env: &mut Environment, arith: &A) -> (r:
        CalcResult<()>)
        requires
            forall|q: Operation| arith.requires((q,)),
        ensures
            r is Err ==> final(env)@ == old(env)@,
            r is Ok ==> exists|x: Number|
                final(env)@ == #[trigger] old(env)@.with_variable(self@.name, x),
            forall|f: spec_fn(Operation) -> Number| #[trigger]
                computes(arith, f) ==> match self@.executed(f, old(env)@) {
                    Ok(after) => r is Ok && final(env)@ == after,
                    Err(error) => r is Err && r->Err_0@ == error,
                },
    {
        match self.stmt_type {
            StmtType::Assign => {
                let x = self.rhs.eval(env, arith)?;
                env.set_var(self.name.as_str(), x);
                Ok(())
            },
            StmtType::FuncDef => Err(CalcError::NotImplemented),
        }
    }
}

} // verus!
