//! What holds of every line, whatever the arithmetic.

use vstd::prelude::*;
use crate::environment::EnvironmentView;
use crate::error::CalcErrorView;
use crate::expression::{values, ExprTypeView, ExpressionView};
use crate::function::Function;
use crate::number::{Number, Operation};
use crate::operator::{
    folded, lemma_operators_start_with_a_symbol, lemma_symbols_spell_operators, Operator,
};
use crate::parser::{leaf, parsed, parsed_arguments, AstView};
use crate::scanner::{
    classified, lemma_scanned_after_parenthesis, lemma_scanned_after_whitespace,
    lemma_scanned_after_word, scanned, TokenView,
};
use crate::text::{delimiter, digit};
use crate::{evaluated, ran};
use crate::statement::{StatementView, StmtType};

verus! {

/// The expression that applies `op` to `args`.
pub open spec fn applied_to(op: Operator, args: Seq<ExpressionView>) -> ExpressionView {
    ExpressionView { expr_type: ExprTypeView::Operator(op), args }
}

/// The expression that is the number `x`.
pub open spec fn literal(x: Number) -> ExpressionView {
    leaf(ExprTypeView::Number(x))
}

/// The expression that reads the name `name`.
pub open spec fn reading(name: Seq<char>) -> ExpressionView {
    leaf(ExprTypeView::Variable(name))
}

/// The statement that sets `name` to the value of `rhs`.
pub open spec fn setting(name: Seq<char>, rhs: ExpressionView) -> StatementView {
    StatementView { stmt_type: StmtType::Assign, name, rhs }
}

/// A line that fails leaves the environment as it was, and so does a line that is
/// an expression.
pub proof fn lemma_only_statements_change_environment(
    g: spec_fn(Seq<char>) -> Option<Number>,
    f: spec_fn(Operation) -> Number,
    line: Seq<char>,
    env: EnvironmentView,
)
    ensures
        ran(g, f, line, env).0 is Err ==> ran(g, f, line, env).1 == env,
        scanned(g, line) is Ok && parsed(scanned(g, line)->Ok_0) is Ok && parsed(
            scanned(g, line)->Ok_0,
        )->Ok_0 is Expression ==> ran(g, f, line, env).1 == env,
{
}

/// Running a line that is an expression a second time, in the environment that
/// the first run left, gives what the first run gave: the same value or the same
/// error, and the same environment.
pub proof fn lemma_expression_line_repeats(
    g: spec_fn(Seq<char>) -> Option<Number>,
    f: spec_fn(Operation) -> Number,
    line: Seq<char>,
    env: EnvironmentView,
)
    requires
        scanned(g, line) is Ok,
        parsed(scanned(g, line)->Ok_0) is Ok,
        parsed(scanned(g, line)->Ok_0)->Ok_0 is Expression,
    ensures
        ran(g, f, line, ran(g, f, line, env).1) == ran(g, f, line, env),
{
}

/// An `if` whose condition has a value other than zero is its second argument,
/// whatever the third is: the third is not evaluated, so an error in it does not
/// show. An `if` whose condition is zero is its third argument, whatever the
/// second is.
pub proof fn lemma_if_evaluates_one_branch(
    f: spec_fn(Operation) -> Number,
    env: EnvironmentView,
    condition: ExpressionView,
    consequent: ExpressionView,
    otherwise: ExpressionView,
)
    requires
        condition.value(f, env) is Ok,
    ensures
        Function::If.value(f, seq![condition, consequent, otherwise], env) == (if condition.value(
            f,
            env,
        )->Ok_0.is_zero() {
            otherwise.value(f, env)
        } else {
            consequent.value(f, env)
        }),
{
}

/// A quotient whose operands have values, the second of them zero, is a division
/// by zero, whatever the arithmetic.
pub proof fn lemma_division_by_zero_fails(
    f: spec_fn(Operation) -> Number,
    env: EnvironmentView,
    dividend: ExpressionView,
    divisor: ExpressionView,
)
    requires
        dividend.value(f, env) is Ok,
        divisor.value(f, env) is Ok,
        divisor.value(f, env)->Ok_0.is_zero(),
    ensures
        applied_to(Operator::Div, seq![dividend, divisor]).value(f, env) == Err::<
            Number,
            CalcErrorView,
        >(CalcErrorView::DivisionByZero),
{
    lemma_values_of_two(f, env, dividend, divisor);
}

/// A quotient whose operands have values, the second of them not zero, is what
/// the arithmetic makes of the two.
pub proof fn lemma_division_divides(
    f: spec_fn(Operation) -> Number,
    env: EnvironmentView,
    dividend: ExpressionView,
    divisor: ExpressionView,
)
    requires
        dividend.value(f, env) is Ok,
        divisor.value(f, env) is Ok,
        !divisor.value(f, env)->Ok_0.is_zero(),
    ensures
        applied_to(Operator::Div, seq![dividend, divisor]).value(f, env) == Ok::<
            Number,
            CalcErrorView,
        >(f(Operation::Div(dividend.value(f, env)->Ok_0, divisor.value(f, env)->Ok_0))),
{
    lemma_values_of_two(f, env, dividend, divisor);
}

/// The values of two arguments that both have one.
pub proof fn lemma_values_of_two(
    f: spec_fn(Operation) -> Number,
    env: EnvironmentView,
    first: ExpressionView,
    second: ExpressionView,
)
    requires
        first.value(f, env) is Ok,
        second.value(f, env) is Ok,
    ensures
        values(f, seq![first, second], env) == Ok::<Seq<Number>, CalcErrorView>(
            seq![first.value(f, env)->Ok_0, second.value(f, env)->Ok_0],
        ),
{
    let args = seq![first, second];
    assert(args.drop_last() =~= seq![first]);
    assert(args.drop_last().drop_last() =~= Seq::empty());
    reveal_with_fuel(values, 3);
    assert(values(f, seq![first], env) == Ok::<Seq<Number>, CalcErrorView>(
        seq![first.value(f, env)->Ok_0],
    )) by {
        assert(Seq::<Number>::empty().push(first.value(f, env)->Ok_0) =~= seq![
            first.value(f, env)->Ok_0,
        ]);
    }
    assert(seq![first.value(f, env)->Ok_0].push(second.value(f, env)->Ok_0) =~= seq![
        first.value(f, env)->Ok_0,
        second.value(f, env)->Ok_0,
    ]);
}

/// An assignment whose right-hand side has a value succeeds whether or not the
/// name was set before. In the environment that it leaves, the name reads as that
/// value, every other variable as before, and the functions are as before.
pub proof fn lemma_assignment_is_read_back(
    f: spec_fn(Operation) -> Number,
    env: EnvironmentView,
    name: Seq<char>,
    rhs: ExpressionView,
)
    requires
        rhs.value(f, env) is Ok,
    ensures
        setting(name, rhs).executed(f, env) is Ok,
        reading(name).value(f, setting(name, rhs).executed(f, env)->Ok_0) == rhs.value(f, env),
        forall|other: Seq<char>|
            other != name ==> #[trigger] setting(name, rhs).executed(f, env)->Ok_0.variable(other)
                == env.variable(other),
        setting(name, rhs).executed(f, env)->Ok_0.functions == env.functions,
{
}

/// An assignment whose right-hand side has no value fails with the error of the
/// right-hand side.
pub proof fn lemma_assignment_fails_with_its_value(
    f: spec_fn(Operation) -> Number,
    env: EnvironmentView,
    name: Seq<char>,
    rhs: ExpressionView,
)
    requires
        rhs.value(f, env) is Err,
    ensures
        setting(name, rhs).executed(f, env) == Err::<EnvironmentView, CalcErrorView>(
            rhs.value(f, env)->Err_0,
        ),
{
}

/// A name that is set as a variable reads as its value, also where it is the name
/// of a constant.
pub proof fn lemma_variables_come_before_constants(
    f: spec_fn(Operation) -> Number,
    env: EnvironmentView,
    name: Seq<char>,
)
    requires
        env.variables.contains_key(name),
    ensures
        reading(name).value(f, env) == Ok::<Number, CalcErrorView>(env.variables[name]),
{
}

/// A sum of nothing is zero and a product of nothing is one, whatever the
/// arithmetic.
pub proof fn lemma_empty_sum_and_product(f: spec_fn(Operation) -> Number, env: EnvironmentView)
    ensures
        applied_to(Operator::Add, Seq::empty()).value(f, env) == Ok::<Number, CalcErrorView>(
            Number::zero(),
        ),
        applied_to(Operator::Mul, Seq::empty()).value(f, env) == Ok::<Number, CalcErrorView>(
            Number::one(),
        ),
{
    let none = Seq::<ExpressionView>::empty();
    assert(values(f, none, env) == Ok::<Seq<Number>, CalcErrorView>(Seq::empty()));
    assert(folded(f, Operator::Add, Number::zero(), Seq::empty()) == Number::zero());
    assert(folded(f, Operator::Mul, Number::one(), Seq::empty()) == Number::one());
}

/// Where adding zero to zero gives zero and adding `x` to zero gives `x`, the sum
/// of zero and `x` is `x`.
pub proof fn lemma_sum_with_zero(
    f: spec_fn(Operation) -> Number,
    env: EnvironmentView,
    x: Number,
)
    requires
        f(Operation::Add(Number::zero(), Number::zero())) == Number::zero(),
        f(Operation::Add(Number::zero(), x)) == x,
    ensures
        applied_to(Operator::Add, seq![literal(Number::zero()), literal(x)]).value(f, env) == Ok::<
            Number,
            CalcErrorView,
        >(x),
{
    lemma_values_of_two(f, env, literal(Number::zero()), literal(x));
    let vals = seq![Number::zero(), x];
    assert(vals.drop_last() =~= seq![Number::zero()]);
    assert(vals.drop_last().drop_last() =~= Seq::empty());
    reveal_with_fuel(folded, 3);
}

/// Where multiplying one by one gives one and multiplying one by `x` gives `x`,
/// the product of one and `x` is `x`.
pub proof fn lemma_product_with_one(
    f: spec_fn(Operation) -> Number,
    env: EnvironmentView,
    x: Number,
)
    requires
        f(Operation::Mul(Number::one(), Number::one())) == Number::one(),
        f(Operation::Mul(Number::one(), x)) == x,
    ensures
        applied_to(Operator::Mul, seq![literal(Number::one()), literal(x)]).value(f, env) == Ok::<
            Number,
            CalcErrorView,
        >(x),
{
    lemma_values_of_two(f, env, literal(Number::one()), literal(x));
    let vals = seq![Number::one(), x];
    assert(vals.drop_last() =~= seq![Number::one()]);
    assert(vals.drop_last().drop_last() =~= Seq::empty());
    reveal_with_fuel(folded, 3);
}

/// The line that applies the operator spelled `op` to the words `left` and
/// `right`: `(op left right)`.
pub open spec fn binary_line(op: Seq<char>, left: Seq<char>, right: Seq<char>) -> Seq<char> {
    "("@ + op + " "@ + left + " "@ + right + ")"@
}

/// Whether `word` is a literal that `g` reads as `x`: a word, that is a run of
/// characters without a delimiter, which scans as the number `x`.
pub open spec fn literal_word(
    g: spec_fn(Seq<char>) -> Option<Number>,
    word: Seq<char>,
    x: Number,
) -> bool {
    &&& word.len() > 0
    &&& forall|i: int| 0 <= i < word.len() ==> !delimiter(#[trigger] word[i])
    &&& classified(g, word) == Ok::<TokenView, CalcErrorView>(TokenView::Literal(x))
}

/// The line `(op left right)`, with an operator symbol and two literals, scans
/// into five tokens and parses into the operator applied to the two numbers.
pub proof fn lemma_binary_line_parses(
    g: spec_fn(Seq<char>) -> Option<Number>,
    symbol: Seq<char>,
    op: Operator,
    left: Seq<char>,
    x: Number,
    right: Seq<char>,
    y: Number,
)
    requires
        Operator::named(symbol) == Some(op),
        literal_word(g, left, x),
        literal_word(g, right, y),
    ensures
        scanned(g, binary_line(symbol, left, right)) == Ok::<Seq<TokenView>, CalcErrorView>(
            seq![
                TokenView::LPar,
                TokenView::Operator(op),
                TokenView::Literal(x),
                TokenView::Literal(y),
                TokenView::RPar,
            ],
        ),
        parsed(scanned(g, binary_line(symbol, left, right))->Ok_0) == Ok::<AstView, CalcErrorView>(
            AstView::Expression(applied_to(op, seq![literal(x), literal(y)])),
        ),
{
    reveal_strlit("(");
    reveal_strlit(" ");
    reveal_strlit(")");
    lemma_operators_start_with_a_symbol(symbol);
    let s6 = seq![')'];
    let s5 = right + s6;
    let s4 = seq![' '] + s5;
    let s3 = left + s4;
    let s2 = seq![' '] + s3;
    let s1 = symbol + s2;
    let s0 = seq!['('] + s1;
    assert(binary_line(symbol, left, right) =~= s0);
    let rpar = seq![TokenView::RPar];
    assert(scanned(g, s6) == Ok::<Seq<TokenView>, CalcErrorView>(rpar)) by {
        lemma_scanned_after_parenthesis(g, Seq::empty());
        assert(seq![')'] + Seq::<char>::empty() =~= s6);
        assert(rpar + Seq::<TokenView>::empty() =~= rpar);
    }
    let t5 = seq![TokenView::Literal(y), TokenView::RPar];
    assert(scanned(g, s5) == Ok::<Seq<TokenView>, CalcErrorView>(t5)) by {
        lemma_scanned_after_word(g, right, s6);
        assert(seq![TokenView::Literal(y)] + rpar =~= t5);
    }
    assert(scanned(g, s4) == scanned(g, s5)) by {
        lemma_scanned_after_whitespace(g, ' ', s5);
    }
    let t3 = seq![TokenView::Literal(x), TokenView::Literal(y), TokenView::RPar];
    assert(scanned(g, s3) == Ok::<Seq<TokenView>, CalcErrorView>(t3)) by {
        lemma_scanned_after_word(g, left, s4);
        assert(seq![TokenView::Literal(x)] + t5 =~= t3);
    }
    assert(scanned(g, s2) == scanned(g, s3)) by {
        lemma_scanned_after_whitespace(g, ' ', s3);
    }
    let t1 = seq![
        TokenView::Operator(op),
        TokenView::Literal(x),
        TokenView::Literal(y),
        TokenView::RPar,
    ];
    assert(scanned(g, s1) == Ok::<Seq<TokenView>, CalcErrorView>(t1)) by {
        lemma_scanned_after_word(g, symbol, s2);
        assert(seq![TokenView::Operator(op)] + t3 =~= t1);
    }
    let t0 = seq![
        TokenView::LPar,
        TokenView::Operator(op),
        TokenView::Literal(x),
        TokenView::Literal(y),
        TokenView::RPar,
    ];
    assert(scanned(g, s0) == Ok::<Seq<TokenView>, CalcErrorView>(t0)) by {
        lemma_scanned_after_parenthesis(g, s1);
        assert(seq![TokenView::LPar] + t1 =~= t0);
    }
    // The five tokens are one expression.
    let head = ExprTypeView::Operator(op);
    reveal_with_fuel(parsed_arguments, 4);
    assert(Seq::<ExpressionView>::empty().push(literal(x)) =~= seq![literal(x)]);
    assert(seq![literal(x)].push(literal(y)) =~= seq![literal(x), literal(y)]);
    assert(parsed_arguments(t0, 4, head, seq![literal(x), literal(y)]) == Ok::<
        (ExpressionView, int),
        CalcErrorView,
    >((applied_to(op, seq![literal(x), literal(y)]), 5)));
    assert(parsed_arguments(t0, 3, head, seq![literal(x)]) == parsed_arguments(
        t0,
        4,
        head,
        seq![literal(x), literal(y)],
    ));
    assert(parsed_arguments(t0, 2, head, Seq::empty()) == parsed_arguments(
        t0,
        3,
        head,
        seq![literal(x)],
    ));
}

/// The line `(+ 0 n)` results in the number that the literal `n` reads as,
/// where `0` reads as zero, adding zero to zero gives zero, and adding that
/// number to zero gives that number.
pub proof fn lemma_zero_plus_literal(
    g: spec_fn(Seq<char>) -> Option<Number>,
    f: spec_fn(Operation) -> Number,
    n: Seq<char>,
    x: Number,
)
    requires
        literal_word(g, n, x),
        g("0"@) == Some(Number::zero()),
        f(Operation::Add(Number::zero(), Number::zero())) == Number::zero(),
        f(Operation::Add(Number::zero(), x)) == x,
    ensures
        evaluated(g, f, "(+ 0 "@ + n + ")"@) == Ok::<Number, CalcErrorView>(x),
{
    reveal_strlit("(+ 0 ");
    reveal_strlit("(");
    reveal_strlit("+");
    reveal_strlit(" ");
    reveal_strlit("0");
    reveal_strlit(")");
    lemma_symbols_spell_operators();
    lemma_digit_is_literal(g, "0"@, Number::zero());
    lemma_binary_line_parses(g, "+"@, Operator::Add, "0"@, Number::zero(), n, x);
    assert("(+ 0 "@ + n + ")"@ =~= binary_line("+"@, "0"@, n));
    lemma_sum_with_zero(f, EnvironmentView::empty(), x);
}

/// The line `(* 1 n)` results in the number that the literal `n` reads as,
/// where `1` reads as one, multiplying one by one gives one, and multiplying one
/// by that number gives that number.
pub proof fn lemma_one_times_literal(
    g: spec_fn(Seq<char>) -> Option<Number>,
    f: spec_fn(Operation) -> Number,
    n: Seq<char>,
    x: Number,
)
    requires
        literal_word(g, n, x),
        g("1"@) == Some(Number::one()),
        f(Operation::Mul(Number::one(), Number::one())) == Number::one(),
        f(Operation::Mul(Number::one(), x)) == x,
    ensures
        evaluated(g, f, "(* 1 "@ + n + ")"@) == Ok::<Number, CalcErrorView>(x),
{
    reveal_strlit("(* 1 ");
    reveal_strlit("(");
    reveal_strlit("*");
    reveal_strlit(" ");
    reveal_strlit("1");
    reveal_strlit(")");
    lemma_symbols_spell_operators();
    lemma_digit_is_literal(g, "1"@, Number::one());
    lemma_binary_line_parses(g, "*"@, Operator::Mul, "1"@, Number::one(), n, x);
    assert("(* 1 "@ + n + ")"@ =~= binary_line("*"@, "1"@, n));
    lemma_product_with_one(f, EnvironmentView::empty(), x);
}

/// A word of one digit is a literal that reads as whatever `g` reads it as.
pub proof fn lemma_digit_is_literal(
    g: spec_fn(Seq<char>) -> Option<Number>,
    word: Seq<char>,
    x: Number,
)
    requires
        word.len() == 1,
        digit(word[0]),
        g(word) == Some(x),
    ensures
        literal_word(g, word, x),
{
    if Operator::named(word) is Some {
        lemma_operators_start_with_a_symbol(word);
    }
}

/// A line without tokens is no expression and no statement.
pub proof fn lemma_empty_line_fails(
    g: spec_fn(Seq<char>) -> Option<Number>,
    f: spec_fn(Operation) -> Number,
    env: EnvironmentView,
)
    ensures
        ran(g, f, Seq::empty(), env).0 == Err::<Number, CalcErrorView>(
            CalcErrorView::MissingParentheses,
        ),
{
}

} // verus!
