//! Expressions: the trees that a line is parsed into, and their values.

use vstd::prelude::*;
use crate::constant::Constant;
use crate::environment::{Environment, EnvironmentView};
use crate::error::{CalcError, CalcErrorView, CalcResult, lift};
use crate::function::Function;
use crate::number::{computes, Number, Operation};
use crate::operator::Operator;

verus! {

/// What a node of an expression is.
#[derive(Debug)]
pub enum ExprType {
    /// An operator applied to the arguments.
    Operator(Operator),
    /// The function of this name applied to the arguments.
    Function(String),
    /// A number.
    Number(Number),
    /// The variable or constant of this name.
    Variable(String),
}

/// A node of an expression with the expressions below it. Numbers and variables
/// have none below them.
pub struct Expression {
    pub expr_type: ExprType,
    pub args: Vec<Expression>,
}

/// The kind of a node as a value of specifications.
pub enum ExprTypeView {
    Operator(Operator),
    Function(Seq<char>),
    Number(Number),
    Variable(Seq<char>),
}

/// An expression as a value of specifications.
pub struct ExpressionView {
    pub expr_type: ExprTypeView,
    pub args: Seq<ExpressionView>,
}

impl View for ExprType {
    type V = ExprTypeView;

    open spec fn view(&self) -> ExprTypeView {
        match *self {
            ExprType::Operator(op) => ExprTypeView::Operator(op),
            ExprType::Function(name) => ExprTypeView::Function(name@),
            ExprType::Number(x) => ExprTypeView::Number(x),
            ExprType::Variable(name) => ExprTypeView::Variable(name@),
        }
    }
}

impl Expression {
    /// The expression as a value of specifications, node by node.
    pub open spec fn model(self) -> ExpressionView
        decreases self,
    {
        ExpressionView {
            expr_type: self.expr_type@,
            args: Seq::new(
                self.args@.len(),
                |i: int|
                    if 0 <= i < self.args@.len() {
                        self.args@[i].model()
                    } else {
                        arbitrary()
                    },
            ),
        }
    }
}

impl View for Expression {
    type V = ExpressionView;

    open spec fn view(&self) -> ExpressionView {
        self.model()
    }
}

/// The views of a sequence of expressions, in order.
pub open spec fn expression_views(args: Seq<Expression>) -> Seq<ExpressionView> {
    args.map_values(|e: Expression| e@)
}

/// The arguments of an expression's view are the views of its arguments.
pub proof fn lemma_view_of_arguments(e: Expression)
    ensures
        e@.args == expression_views(e.args@),
{
    assert(e@.args.len() == e.args@.len());
    assert forall|i: int| 0 <= i < e.args@.len() implies e@.args[i] == expression_views(
        e.args@,
    )[i] by {}
    assert(e@.args =~= expression_views(e.args@));
}

impl Expression {
    /// A node of the given kind with nothing below it.
    pub fn from_type(ty: ExprType) -> (e: Expression)
        ensures
            e@ == (ExpressionView { expr_type: ty@, args: Seq::empty() }),
    {
        let e = Expression { expr_type: ty, args: Vec::new() };
        proof {
            assert(e@.args =~= Seq::empty());
        }
        e
    }

    /// Evaluates the expression in `env`, with `arith` for every operation that
    /// rounds. For whatever arithmetic `arith` computes, the result is the value of
    /// the expression under it.
    pub fn eval<A: Fn(Operation) -> Number>(&self, env: &Environment, arith: &A) -> (r: CalcResult)
        requires
            forall|q: Operation| arith.requires((q,)),
        ensures
            forall|f: spec_fn(Operation) -> Number| #[trigger]
                computes(arith, f) ==> lift(r) == self@.value(f, env@),
        decreases self, 0int,
    {
        proof {
            lemma_view_of_arguments(*self);
        }
        match &self.expr_type {
            ExprType::Operator(op) => op.eval(self.args.as_slice(), env, arith),
            ExprType::Function(name) => {
                // A function that the user has defined comes first.
                match env.get_fn(name.as_str()) {
                    Some(func) => func.eval(self.args.as_slice(), env, arith),
                    None => match Function::from_str(name.as_str()) {
                        Ok(func) => func.eval(self.args.as_slice(), env, arith),
                        Err(error) => Err(error),
                    },
                }
            },
            ExprType::Number(x) => Ok(*x),
            ExprType::Variable(name) => {
                // A variable that the user has set comes first.
                match env.get_var(name.as_str()) {
                    Some(x) => Ok(x),
                    None => match Constant::from_str(name.as_str()) {
                        Ok(constant) => constant.eval(),
                        Err(error) => Err(error),
                    },
                }
            },
        }
    }
}

/// Evaluates `args` from left to right and stops at the first that fails.
pub fn eval_arguments<A: Fn(Operation) -> Number>(
    args: &[Expression],
    env: &Environment,
    arith: &A,
) -> (r: CalcResult<Vec<Number>>)
    requires
        forall|q: Operation| arith.requires((q,)),
    ensures
        forall|f: spec_fn(Operation) -> Number| #[trigger]
            computes(arith, f) ==> match r {
                Ok(vals) => values(f, expression_views(args@), env@) == Ok::<
                    Seq<Number>,
                    CalcErrorView,
                >(vals@),
                Err(error) => values(f, expression_views(args@), env@) == Err::<
                    Seq<Number>,
                    CalcErrorView,
                >(error@),
            },
    decreases args@, 0int,
{
    let ghost views = expression_views(args@);
    let mut vals: Vec<Number> = Vec::new();
    let mut i: usize = 0;
    while i < args.len()
        invariant
            i <= args.len(),
            views == expression_views(args@),
            forall|q: Operation| arith.requires((q,)),
            forall|f: spec_fn(Operation) -> Number| #[trigger]
                computes(arith, f) ==> values(f, views.take(i as int), env@) == Ok::<
                    Seq<Number>,
                    CalcErrorView,
                >(vals@),
        decreases args.len() - i,
    {
        match args[i].eval(env, arith) {
            Ok(x) => {
                vals.push(x);
                proof {
                    assert(views.take(i + 1).drop_last() =~= views.take(i as int));
                    assert(views.take(i + 1).last() == args@[i as int]@);
                }
            },
            Err(error) => {
                proof {
                    assert forall|f: spec_fn(Operation) -> Number| #[trigger]
                        computes(arith, f) implies values(f, views, env@) == Err::<
                        Seq<Number>,
                        CalcErrorView,
                    >(error@) by {
                        lemma_values_stop_at_error(f, views, env@, i as int);
                    }
                }
                return Err(error);
            },
        }
        i = i + 1;
    }
    proof {
        assert(views.take(args.len() as int) =~= views);
    }
    Ok(vals)
}

/// Where the arguments before the one at `i` have values and that one has none,
/// its error is the error of the whole sequence.
pub proof fn lemma_values_stop_at_error(
    f: spec_fn(Operation) -> Number,
    args: Seq<ExpressionView>,
    env: EnvironmentView,
    i: int,
)
    requires
        0 <= i < args.len(),
        values(f, args.take(i), env) is Ok,
        args[i].value(f, env) is Err,
    ensures
        values(f, args, env) == Err::<Seq<Number>, CalcErrorView>(args[i].value(f, env)->Err_0),
    decreases args.len(),
{
    if i == args.len() - 1 {
        assert(args.drop_last() =~= args.take(i));
    } else {
        assert(args.drop_last().take(i) =~= args.take(i));
        lemma_values_stop_at_error(f, args.drop_last(), env, i);
    }
}

impl ExpressionView {
    /// The value of the expression in `env` under the arithmetic `f`, or the first
    /// error that evaluating it runs into.
    ///
    /// A name is looked up among the variables and functions of `env` first, and
    /// among the constants and functions of the language after that.
    pub open spec fn value(self, f: spec_fn(Operation) -> Number, env: EnvironmentView) -> Result<
        Number,
        CalcErrorView,
    >
        decreases self, 0int,
    {
        match self.expr_type {
            ExprTypeView::Operator(op) => op.value(f, self.args, env),
            ExprTypeView::Function(name) => match env.function(name) {
                Some(func) => func.value(f, self.args, env),
                None => match Function::named(name) {
                    Ok(func) => func.value(f, self.args, env),
                    Err(error) => Err(error),
                },
            },
            ExprTypeView::Number(x) => Ok(x),
            ExprTypeView::Variable(name) => match env.variable(name) {
                Some(x) => Ok(x),
                None => match Constant::named(name) {
                    Ok(constant) => Ok(constant.value()),
                    Err(error) => Err(error),
                },
            },
        }
    }
}

/// The values of `args` in order, or the error of the first of them that has none.
pub open spec fn values(
    f: spec_fn(Operation) -> Number,
    args: Seq<ExpressionView>,
    env: EnvironmentView,
) -> Result<Seq<Number>, CalcErrorView>
    decreases args, 0int,
{
    if args.len() == 0 {
        Ok(Seq::empty())
    } else {
        match values(f, args.drop_last(), env) {
            Err(error) => Err(error),
            Ok(front) => match args.last().value(f, env) {
                Err(error) => Err(error),
                Ok(x) => Ok(front.push(x)),
            },
        }
    }
}

} // verus!
