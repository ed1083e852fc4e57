//! The functions of the calculator and their rules.

use vstd::prelude::*;
use crate::environment::{Environment, EnvironmentView};
use crate::error::{CalcError, CalcErrorView, CalcResult, lift};
use crate::expression::{expression_views, Expression, ExpressionView};
use crate::number::{computes, Number, Operation};
use crate::text::same_text;

verus! {

/// A function, called by its name at the head of an expression.
#[derive(Clone, Copy, Debug, PartialEq, Eq, Structural)]
pub enum Function {
    Sqrt,
    Pow,
    If,
}

impl Function {
    /// The function that a word names. Any other word is an unknown function.
    pub open spec fn named(word: Seq<char>) -> Result<Function, CalcErrorView> {
        if word == "sqrt"@ {
            Ok(Function::Sqrt)
        } else if word == "pow"@ {
            Ok(Function::Pow)
        } else if word == "if"@ {
            Ok(Function::If)
        } else {
            Err(CalcErrorView::UnknownFunction(word))
        }
    }

    /// What is said of a function that was given a number of arguments that it
    /// does not take.
    pub open spec fn spec_demand(self) -> Seq<char> {
        match self {
            Function::Sqrt => "'sqrt' requires one argument"@,
            Function::Pow => "'pow' requires two arguments"@,
            Function::If => "'if' requires three arguments"@,
        }
    }

    /// What is said of a function that was given a number of arguments that it
    /// does not take.
    pub fn demand(self) -> (s: &'static str)
        ensures
            s@ == self.spec_demand(),
    {
        match self {
            Function::Sqrt => "'sqrt' requires one argument",
            Function::Pow => "'pow' requires two arguments",
            Function::If => "'if' requires three arguments",
        }
    }

    /// The number of arguments that the function takes.
    pub open spec fn arity(self) -> nat {
        match self {
            Function::Sqrt => 1,
            Function::Pow => 2,
            Function::If => 3,
        }
    }

    /// The value of the function applied to `args` in `env` under the arithmetic
    /// `f`.
    ///
    /// The number of arguments is checked first. `sqrt` and `pow` evaluate their
    /// arguments from left to right. `if` evaluates its first argument, and then the
    /// third where that is zero and the second where it is anything else; the other
    /// one is not evaluated and cannot fail.
    pub open spec fn value(
        self,
        f: spec_fn(Operation) -> Number,
        args: Seq<ExpressionView>,
        env: EnvironmentView,
    ) -> Result<Number, CalcErrorView>
        decreases args, 1int,
    {
        if args.len() != self.arity() {
            Err(CalcErrorView::FunctionArity(self))
        } else {
            match self {
                Function::Sqrt => match args[0].value(f, env) {
                    Err(error) => Err(error),
                    Ok(x) => Ok(f(Operation::Sqrt(x))),
                },
                Function::Pow => match args[0].value(f, env) {
                    Err(error) => Err(error),
                    Ok(base) => match args[1].value(f, env) {
                        Err(error) => Err(error),
                        Ok(exponent) => Ok(f(Operation::Pow(base, exponent))),
                    },
                },
                Function::If => match args[0].value(f, env) {
                    Err(error) => Err(error),
                    Ok(condition) => if condition.is_zero() {
                        args[2].value(f, env)
                    } else {
                        args[1].value(f, env)
                    },
                },
            }
        }
    }

    /// Evaluates the function applied to `args` in `env`, with `arith` for every
    /// operation that rounds. Of the two branches of an `if` only the one that the
    /// condition selects is evaluated.
    pub fn eval<A: Fn(Operation) -> Number>(
        &self,
        args: &[Expression],
        env: &Environment,
        arith: &A,
    ) -> (r: CalcResult)
        requires
            forall|q: Operation| arith.requires((q,)),
        ensures
            forall|f: spec_fn(Operation) -> Number| #[trigger]
                computes(arith, f) ==> lift(r) == self.value(f, expression_views(args@), env@),
        decreases args@, 1int,
    {
        match *self {
            Function::Sqrt => {
                if args.len() != 1 {
                    Err(CalcError::FunctionArity(Function::Sqrt))
                } else {
                    let x = args[0].eval(env, arith)?;
                    Ok(arith(Operation::Sqrt(x)))
                }
            },
            Function::Pow => {
                if args.len() != 2 {
                    Err(CalcError::FunctionArity(Function::Pow))
                } else {
                    let base = args[0].eval(env, arith)?;
                    let exponent = args[1].eval(env, arith)?;
                    Ok(arith(Operation::Pow(base, exponent)))
                }
            },
            Function::If => {
                if args.len() != 3 {
                    Err(CalcError::FunctionArity(Function::If))
                } else {
                    let condition = args[0].eval(env, arith)?;
                    // Zero means false, any other number means true.
                    if condition.is_zero() {
                        args[2].eval(env, arith)
                    } else {
                        args[1].eval(env, arith)
                    }
                }
            },
        }
    }

    /// The function that `s` names.
    pub fn from_str(s: &str) -> (r: CalcResult<Function>)
        ensures
            crate::error::lift(r) == Function::named(s@),
    {
        if same_text(s, "sqrt") {
            Ok(Function::Sqrt)
        } else if same_text(s, "pow") {
            Ok(Function::Pow)
        } else if same_text(s, "if") {
            Ok(Function::If)
        } else {
            Err(CalcError::UnknownFunction(s.to_owned()))
        }
    }
}

} // verus!
