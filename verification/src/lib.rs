//! A calculator for fully parenthesised prefix notation, such as `(+ 2 (* 3 4))`.
//!
//! A line of text is scanned into tokens, parsed into a syntax tree and evaluated
//! against an environment of variables. Numbers are IEEE 754 doubles held by their
//! bit pattern. Operations that round, and the reading of literals, are supplied by
//! the caller as two functions; every contract holds for whatever they compute.

use vstd::prelude::*;

pub mod buffer;
pub mod constant;
pub mod environment;
pub mod error;
pub mod expression;
pub mod function;
pub mod grammar;
pub mod laws;
pub mod number;
pub mod operator;
pub mod parser;
pub mod scanner;
pub mod statement;
pub mod text;
pub mod util;

pub use crate::environment::Environment;
pub use crate::error::CalcError;
pub use crate::number::{Number, Operation};

use crate::environment::EnvironmentView;
use crate::error::{CalcErrorView, CalcResult, lift};
use crate::number::{computes, reads};
use crate::parser::{parse, parsed, AstView, AST};
use crate::scanner::{scan, scanned};

verus! {

/// What a line makes of an environment: its result, and the environment that it
/// leaves, where `g` reads the literals and `f` is the arithmetic.
///
/// The line is scanned, parsed and then evaluated or carried out; the first error
/// ends it. An expression results in its value and leaves the environment as it
/// was. A statement results in zero and leaves the environment changed. A line
/// that fails leaves the environment as it was.
pub open spec fn ran(
    g: spec_fn(Seq<char>) -> Option<Number>,
    f: spec_fn(Operation) -> Number,
    line: Seq<char>,
    env: EnvironmentView,
) -> (Result<Number, CalcErrorView>, EnvironmentView) {
    match scanned(g, line) {
        Err(error) => (Err(error), env),
        Ok(tokens) => match parsed(tokens) {
            Err(error) => (Err(error), env),
            Ok(AstView::Expression(e)) => (e.value(f, env), env),
            Ok(AstView::Statement(s)) => match s.executed(f, env) {
                Ok(after) => (Ok(Number::zero()), after),
                Err(error) => (Err(error), env),
            },
        },
    }
}

/// The result of a line in an environment in which no name is defined.
pub open spec fn evaluated(
    g: spec_fn(Seq<char>) -> Option<Number>,
    f: spec_fn(Operation) -> Number,
    line: Seq<char>,
) -> Result<Number, CalcErrorView> {
    ran(g, f, line, EnvironmentView::empty()).0
}

/// Evaluates a line in an environment of its own, in which no name is defined,
/// with `number` to read the literals and `arith` for every operation that rounds.
pub fn eval<P: Fn(&str) -> Option<Number>, A: Fn(Operation) -> Number>(
    s: &str,
    number: &P,
    arith: &A,
) -> (r: CalcResult)
    requires
        forall|w: &str| number.requires((w,)),
        forall|q: Operation| arith.requires((q,)),
    ensures
        forall|g: spec_fn(Seq<char>) -> Option<Number>, f: spec_fn(Operation) -> Number|
            #![trigger reads(number, g), computes(arith, f)]
            reads(number, g) && computes(arith, f) ==> lift(r) == evaluated(g, f, s@),
{
    let mut env = Environment::new();
    run(s, &mut env, number, arith)
}

/// Runs a line in `env`, with `number` to read the literals and `arith` for every
/// operation that rounds. An expression results in its value, a statement in
/// zero. Only a statement that succeeds changes `env`.
pub fn run<P: Fn(&str) -> Option<Number>, A: Fn(Operation) -> Number>(
    s: &str,
    env: &mut Environment,
    number: &P,
    arith: &A,
) -> (r: CalcResult)
    requires
        forall|w: &str| number.requires((w,)),
        forall|q: Operation| arith.requires((q,)),
    ensures
        r is Err ==> final(env)@ == old(env)@,
        forall|g: spec_fn(Seq<char>) -> Option<Number>, f: spec_fn(Operation) -> Number|
            #![trigger reads(number, g), computes(arith, f)]
            reads(number, g) && computes(arith, f) ==> lift(r) == ran(g, f, s@, old(env)@).0
                && final(env)@ == ran(g, f, s@, old(env)@).1,
{
    let tokens = scan(s, number)?;
    let ast = parse(tokens.as_slice())?;
    match ast {
        AST::Expression(e) => e.eval(env, arith),
        AST::Statement(s) => {
            s.exec(env, arith)?;
            Ok(Number::zero())
        },
    }
}

} // verus!
