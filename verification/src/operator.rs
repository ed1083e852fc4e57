//! The operators of the calculator and their rules.

use vstd::prelude::*;
use crate::environment::{Environment, EnvironmentView};
use crate::error::{CalcError, CalcErrorView, CalcResult, lift};
use crate::expression::{eval_arguments, expression_views, values, Expression, ExpressionView};
use crate::number::{computes, Number, Operation};
use crate::text::same_text;

verus! {

/// An operator, written as a symbol at the head of an expression.
#[derive(Clone, Copy, Debug, PartialEq, Eq, Structural)]
pub enum Operator {
    Add,
    Sub,
    Mul,
    Div,
    Eq,
    Lt,
    LtEq,
    Gt,
    GtEq,
    NotEq,
}

impl Operator {
    /// The operator that a word spells, if it spells one.
    pub open spec fn named(word: Seq<char>) -> Option<Operator> {
        if word == "+"@ {
            Some(Operator::Add)
        } else if word == "-"@ {
            Some(Operator::Sub)
        } else if word == "*"@ {
            Some(Operator::Mul)
        } else if word == "/"@ {
            Some(Operator::Div)
        } else if word == "=="@ {
            Some(Operator::Eq)
        } else if word == "<"@ {
            Some(Operator::Lt)
        } else if word == "<="@ {
            Some(Operator::LtEq)
        } else if word == ">"@ {
            Some(Operator::Gt)
        } else if word == ">="@ {
            Some(Operator::GtEq)
        } else if word == "!="@ {
            Some(Operator::NotEq)
        } else {
            None
        }
    }

    /// The name of the operator.
    pub open spec fn spec_name(self) -> Seq<char> {
        match self {
            Operator::Add => "Add"@,
            Operator::Sub => "Sub"@,
            Operator::Mul => "Mul"@,
            Operator::Div => "Div"@,
            Operator::Eq => "Eq"@,
            Operator::Lt => "Lt"@,
            Operator::LtEq => "LtEq"@,
            Operator::Gt => "Gt"@,
            Operator::GtEq => "GtEq"@,
            Operator::NotEq => "NotEq"@,
        }
    }

    /// What is said of an operator that was given a number of arguments that it
    /// does not take.
    pub open spec fn spec_demand(self) -> Seq<char> {
        match self {
            Operator::Add => "+ takes any number of arguments"@,
            Operator::Sub => "Substraction requires at least one argument"@,
            Operator::Mul => "* takes any number of arguments"@,
            Operator::Div => "Division requires two arguments"@,
            Operator::Eq => "== requires at least two arguments"@,
            Operator::Lt => "< requires two arguments"@,
            Operator::LtEq => "<= requires two arguments"@,
            Operator::Gt => "> requires two arguments"@,
            Operator::GtEq => ">= requires two arguments"@,
            Operator::NotEq => "!= requires two arguments"@,
        }
    }

    /// Whether the operator takes `n` arguments.
    pub open spec fn takes(self, n: nat) -> bool {
        match self {
            Operator::Add | Operator::Mul => true,
            Operator::Sub => n >= 1,
            Operator::Eq => n >= 2,
            _ => n == 2,
        }
    }

    /// Whether the operator rounds: the four of arithmetic do, comparisons do not.
    pub open spec fn is_arithmetic(self) -> bool {
        self is Add || self is Sub || self is Mul || self is Div
    }

    /// The request that an operator of arithmetic makes for two operands.
    pub open spec fn spec_operation(self, left: Number, right: Number) -> Operation
        recommends
            self.is_arithmetic(),
    {
        match self {
            Operator::Add => Operation::Add(left, right),
            Operator::Sub => Operation::Sub(left, right),
            Operator::Mul => Operation::Mul(left, right),
            _ => Operation::Div(left, right),
        }
    }

    /// What the operator makes of the values of its arguments under the
    /// arithmetic `f`.
    ///
    /// A sum starts from zero and a product from one, so either may be empty. A
    /// difference starts from its first value. A quotient has two values, the second
    /// of which is not zero. A comparison is one or zero; `<=`, `>=` and `!=` are what
    /// `>`, `<` and `==` are not.
    pub open spec fn applied(self, f: spec_fn(Operation) -> Number, vals: Seq<Number>) -> Result<
        Number,
        CalcErrorView,
    > {
        if !self.takes(vals.len()) {
            Err(CalcErrorView::OperatorArity(self))
        } else {
            match self {
                Operator::Add => Ok(folded(f, self, Number::zero(), vals)),
                Operator::Sub => Ok(folded(f, self, vals[0], vals.skip(1))),
                Operator::Mul => Ok(folded(f, self, Number::one(), vals)),
                Operator::Div => if vals[1].is_zero() {
                    Err(CalcErrorView::DivisionByZero)
                } else {
                    Ok(f(Operation::Div(vals[0], vals[1])))
                },
                Operator::Eq => Ok(truth(all_equal(vals))),
                Operator::Lt => Ok(truth(vals[0].less_than(vals[1]))),
                Operator::LtEq => Ok(negated(truth(vals[1].less_than(vals[0])))),
                Operator::Gt => Ok(truth(vals[1].less_than(vals[0]))),
                Operator::GtEq => Ok(negated(truth(vals[0].less_than(vals[1])))),
                Operator::NotEq => Ok(negated(truth(all_equal(vals)))),
            }
        }
    }

    /// The value of the operator applied to `args` in `env` under the arithmetic
    /// `f`: the number of arguments is checked first, then they are evaluated from
    /// left to right, then the operator is applied to their values.
    pub open spec fn value(
        self,
        f: spec_fn(Operation) -> Number,
        args: Seq<ExpressionView>,
        env: EnvironmentView,
    ) -> Result<Number, CalcErrorView>
        decreases args, 1int,
    {
        if !self.takes(args.len()) {
            Err(CalcErrorView::OperatorArity(self))
        } else {
            match values(f, args, env) {
                Err(error) => Err(error),
                Ok(vals) => self.applied(f, vals),
            }
        }
    }

    /// The name of the operator.
    pub fn name(self) -> (s: &'static str)
        ensures
            s@ == self.spec_name(),
    {
        match self {
            Operator::Add => "Add",
            Operator::Sub => "Sub",
            Operator::Mul => "Mul",
            Operator::Div => "Div",
            Operator::Eq => "Eq",
            Operator::Lt => "Lt",
            Operator::LtEq => "LtEq",
            Operator::Gt => "Gt",
            Operator::GtEq => "GtEq",
            Operator::NotEq => "NotEq",
        }
    }

    /// What is said of an operator that was given a number of arguments that it
    /// does not take.
    pub fn demand(self) -> (s: &'static str)
        ensures
            s@ == self.spec_demand(),
    {
        match self {
            Operator::Add => "+ takes any number of arguments",
            Operator::Sub => "Substraction requires at least one argument",
            Operator::Mul => "* takes any number of arguments",
            Operator::Div => "Division requires two arguments",
            Operator::Eq => "== requires at least two arguments",
            Operator::Lt => "< requires two arguments",
            Operator::LtEq => "<= requires two arguments",
            Operator::Gt => "> requires two arguments",
            Operator::GtEq => ">= requires two arguments",
            Operator::NotEq => "!= requires two arguments",
        }
    }

    /// Whether the operator takes `n` arguments.
    pub fn accepts(&self, n: usize) -> (r: bool)
        ensures
            r == self.takes(n as nat),
    {
        match *self {
            Operator::Add | Operator::Mul => true,
            Operator::Sub => n >= 1,
            Operator::Eq => n >= 2,
            _ => n == 2,
        }
    }

    /// The request that an operator of arithmetic makes for two operands.
    #[verifier::when_used_as_spec(spec_operation)]
    pub fn operation(self, left: Number, right: Number) -> (q: Operation)
        requires
            self.is_arithmetic(),
        ensures
            q == self.spec_operation(left, right),
    {
        match self {
            Operator::Add => Operation::Add(left, right),
            Operator::Sub => Operation::Sub(left, right),
            Operator::Mul => Operation::Mul(left, right),
            _ => Operation::Div(left, right),
        }
    }

    /// Applies the operator to the values of its arguments, with `arith` for every
    /// operation that rounds.
    pub fn apply<A: Fn(Operation) -> Number>(&self, vals: &[Number], arith: &A) -> (r: CalcResult)
        requires
            forall|q: Operation| arith.requires((q,)),
        ensures
            forall|f: spec_fn(Operation) -> Number| #[trigger]
                computes(arith, f) ==> lift(r) == self.applied(f, vals@),
    {
        if !self.accepts(vals.len()) {
            return Err(CalcError::OperatorArity(*self));
        }
        proof {
            assert(vals@.skip(0) =~= vals@);
        }
        match *self {
            Operator::Add => Ok(fold(Operator::Add, Number::zero(), vals, 0, arith)),
            Operator::Sub => Ok(fold(Operator::Sub, vals[0], vals, 1, arith)),
            Operator::Mul => Ok(fold(Operator::Mul, Number::one(), vals, 0, arith)),
            Operator::Div => {
                if vals[1].is_zero() {
                    Err(CalcError::DivisionByZero)
                } else {
                    Ok(arith(Operation::Div(vals[0], vals[1])))
                }
            },
            Operator::Eq => Ok(bool_to_number(equal_to_first(vals))),
            Operator::Lt => Ok(bool_to_number(vals[0].less_than(vals[1]))),
            Operator::LtEq => Ok(negate_number(bool_to_number(vals[0].greater_than(vals[1])))),
            Operator::Gt => Ok(bool_to_number(vals[0].greater_than(vals[1]))),
            Operator::GtEq => Ok(negate_number(bool_to_number(vals[0].less_than(vals[1])))),
            Operator::NotEq => Ok(negate_number(bool_to_number(equal_to_first(vals)))),
        }
    }

    /// Evaluates the operator applied to `args` in `env`, with `arith` for every
    /// operation that rounds.
    pub fn eval<A: Fn(Operation) -> Number>(
        &self,
        args: &[Expression],
        env: &Environment,
        arith: &A,
    ) -> (r: CalcResult)
        requires
            forall|q: Operation| arith.requires((q,)),
        ensures
            forall|f: spec_fn(Operation) -> Number| #[trigger]
                computes(arith, f) ==> lift(r) == self.value(f, expression_views(args@), env@),
        decreases args@, 1int,
    {
        if !self.accepts(args.len()) {
            return Err(CalcError::OperatorArity(*self));
        }
        let vals = eval_arguments(args, env, arith)?;
        self.apply(vals.as_slice(), arith)
    }

    /// The operator that `s` spells, if it spells one.
    pub fn from_str(s: &str) -> (r: Option<Operator>)
        ensures
            r == Operator::named(s@),
    {
        if same_text(s, "+") {
            Some(Operator::Add)
        } else if same_text(s, "-") {
            Some(Operator::Sub)
        } else if same_text(s, "*") {
            Some(Operator::Mul)
        } else if same_text(s, "/") {
            Some(Operator::Div)
        } else if same_text(s, "==") {
            Some(Operator::Eq)
        } else if same_text(s, "<") {
            Some(Operator::Lt)
        } else if same_text(s, "<=") {
            Some(Operator::LtEq)
        } else if same_text(s, ">") {
            Some(Operator::Gt)
        } else if same_text(s, ">=") {
            Some(Operator::GtEq)
        } else if same_text(s, "!=") {
            Some(Operator::NotEq)
        } else {
            None
        }
    }
}

/// Each of the ten symbols spells its own operator.
pub proof fn lemma_symbols_spell_operators()
    ensures
        Operator::named("+"@) == Some(Operator::Add),
        Operator::named("-"@) == Some(Operator::Sub),
        Operator::named("*"@) == Some(Operator::Mul),
        Operator::named("/"@) == Some(Operator::Div),
        Operator::named("=="@) == Some(Operator::Eq),
        Operator::named("<"@) == Some(Operator::Lt),
        Operator::named("<="@) == Some(Operator::LtEq),
        Operator::named(">"@) == Some(Operator::Gt),
        Operator::named(">="@) == Some(Operator::GtEq),
        Operator::named("!="@) == Some(Operator::NotEq),
{
    reveal_symbols();
    assert("+"@[0] == '+' && "-"@[0] == '-' && "*"@[0] == '*' && "/"@[0] == '/');
    assert("<"@[0] == '<' && ">"@[0] == '>');
    assert("=="@[0] == '=' && "<="@[0] == '<' && ">="@[0] == '>' && "!="@[0] == '!');
    assert("<"@.len() == 1 && ">"@.len() == 1);
    assert("=="@.len() == 2 && "<="@.len() == 2 && ">="@.len() == 2 && "!="@.len() == 2);
}

/// A word that spells an operator has one or two characters: the first is one
/// of `+ - * / = < > !`, the second, where there is one, is `=`.
pub proof fn lemma_operators_start_with_a_symbol(word: Seq<char>)
    requires
        Operator::named(word) is Some,
    ensures
        1 <= word.len() <= 2,
        word[0] == '+' || word[0] == '-' || word[0] == '*' || word[0] == '/' || word[0] == '='
            || word[0] == '<' || word[0] == '>' || word[0] == '!',
        word.len() == 2 ==> word[1] == '=',
{
    reveal_symbols();
}

/// What the ten symbols hold.
proof fn reveal_symbols()
    ensures
        "+"@ == seq!['+'],
        "-"@ == seq!['-'],
        "*"@ == seq!['*'],
        "/"@ == seq!['/'],
        "=="@ == seq!['=', '='],
        "<"@ == seq!['<'],
        "<="@ == seq!['<', '='],
        ">"@ == seq!['>'],
        ">="@ == seq!['>', '='],
        "!="@ == seq!['!', '='],
{
    reveal_strlit("+");
    reveal_strlit("-");
    reveal_strlit("*");
    reveal_strlit("/");
    reveal_strlit("==");
    reveal_strlit("<");
    reveal_strlit("<=");
    reveal_strlit(">");
    reveal_strlit(">=");
    reveal_strlit("!=");
    assert("+"@ =~= seq!['+']);
    assert("-"@ =~= seq!['-']);
    assert("*"@ =~= seq!['*']);
    assert("/"@ =~= seq!['/']);
    assert("=="@ =~= seq!['=', '=']);
    assert("<"@ =~= seq!['<']);
    assert("<="@ =~= seq!['<', '=']);
    assert(">"@ =~= seq!['>']);
    assert(">="@ =~= seq!['>', '=']);
    assert("!="@ =~= seq!['!', '=']);
}

/// Takes `seed` and the values from `start` on, one by one, through `op`.
fn fold<A: Fn(Operation) -> Number>(
    op: Operator,
    seed: Number,
    vals: &[Number],
    start: usize,
    arith: &A,
) -> (r: Number)
    requires
        op.is_arithmetic(),
        start <= vals@.len(),
        forall|q: Operation| arith.requires((q,)),
    ensures
        forall|f: spec_fn(Operation) -> Number| #[trigger]
            computes(arith, f) ==> r == folded(f, op, seed, vals@.skip(start as int)),
{
    let mut acc = seed;
    let mut i: usize = start;
    while i < vals.len()
        invariant
            op.is_arithmetic(),
            start <= i <= vals@.len(),
            forall|q: Operation| arith.requires((q,)),
            forall|f: spec_fn(Operation) -> Number| #[trigger]
                computes(arith, f) ==> acc == folded(
                    f,
                    op,
                    seed,
                    vals@.subrange(start as int, i as int),
                ),
        decreases vals.len() - i,
    {
        let next = arith(op.operation(acc, vals[i]));
        proof {
            let longer = vals@.subrange(start as int, i + 1);
            assert(longer.drop_last() =~= vals@.subrange(start as int, i as int));
            assert(longer.last() == vals@[i as int]);
        }
        acc = next;
        i = i + 1;
    }
    proof {
        assert(vals@.subrange(start as int, vals@.len() as int) =~= vals@.skip(start as int));
    }
    acc
}

/// Whether every value equals the first one.
fn equal_to_first(vals: &[Number]) -> (r: bool)
    ensures
        r == all_equal(vals@),
{
    let mut i: usize = 0;
    while i < vals.len()
        invariant
            i <= vals@.len(),
            forall|j: int| 0 <= j < i ==> (#[trigger] vals@[j]).equals(vals@[0]),
        decreases vals.len() - i,
    {
        if !vals[i].equals(vals[0]) {
            return false;
        }
        i = i + 1;
    }
    true
}

/// The number that stands for a truth value.
fn bool_to_number(b: bool) -> (r: Number)
    ensures
        r == truth(b),
{
    if b {
        Number::one()
    } else {
        Number::zero()
    }
}

/// The number that stands for the opposite truth value.
fn negate_number(x: Number) -> (r: Number)
    ensures
        r == negated(x),
{
    if x.is_zero() {
        Number::one()
    } else {
        Number::zero()
    }
}

/// The number that stands for a truth value: one for true, zero for false.
pub open spec fn truth(b: bool) -> Number {
    if b {
        Number::one()
    } else {
        Number::zero()
    }
}

/// The number that stands for the opposite truth value: one for zero, and zero
/// for any other number.
pub open spec fn negated(x: Number) -> Number {
    truth(x.is_zero())
}

/// Whether every value equals the first one.
pub open spec fn all_equal(vals: Seq<Number>) -> bool {
    forall|i: int| 0 <= i < vals.len() ==> (#[trigger] vals[i]).equals(vals[0])
}

/// The result of taking `seed` and the values one by one, from left to right,
/// through an operator of arithmetic.
pub open spec fn folded(
    f: spec_fn(Operation) -> Number,
    op: Operator,
    seed: Number,
    vals: Seq<Number>,
) -> Number
    recommends
        op.is_arithmetic(),
    decreases vals.len(),
{
    if vals.len() == 0 {
        seed
    } else {
        f(op.operation(folded(f, op, seed, vals.drop_last()), vals.last()))
    }
}

} // verus!
