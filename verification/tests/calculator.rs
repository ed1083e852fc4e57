use calc::{eval, run, CalcError, Environment, Number, Operation};

fn double(n: Number) -> f64 {
    f64::from_bits(n.to_bits())
}

fn num(x: f64) -> Number {
    Number::from_bits(x.to_bits())
}

fn number(word: &str) -> Option<Number> {
    word.parse::<f64>().ok().map(num)
}

fn arith(q: Operation) -> Number {
    num(match q {
        Operation::Add(a, b) => double(a) + double(b),
        Operation::Sub(a, b) => double(a) - double(b),
        Operation::Mul(a, b) => double(a) * double(b),
        Operation::Div(a, b) => double(a) / double(b),
        Operation::Sqrt(a) => double(a).sqrt(),
        Operation::Pow(a, b) => double(a).powf(double(b)),
    })
}

fn value(line: &str) -> Result<f64, CalcError> {
    eval(line, &number, &arith).map(double)
}

fn value_in(line: &str, env: &mut Environment) -> Result<f64, CalcError> {
    run(line, env, &number, &arith).map(double)
}

#[test]
fn main_check_invalid() {
    // Slice of invalid expressions
    let invalid = ["", "()", "(-)", "(2)", "2",
        "(+ + 2)", ")+ 2)", "@", "(+ 2 (+ 2 3)",
        "(+ aaaa 12)"];

    assert!(invalid.iter().map(|&s| value(s)).all(|x| x.is_err()));
}

#[test]
fn check_valid() {
    assert!(value("(+ 2 5)").unwrap() == 7.);
    assert!(value("(- 2 5)").unwrap() == -3.);
    assert!(value("(/ 8 4)").unwrap() == 2.);
    assert!(value("(* 8 4)").unwrap() == 32.);
    assert!(value("(pow 2 8)").unwrap() == 256.);
    assert!(value("(sqrt 16)").unwrap() == 4.);
}

#[test]
fn check_subexpr() {
    assert!(value("(+ (+ 2 3) 5)").unwrap() == 10.);
    assert!(value("(* (+ 2 3) 5)").unwrap() == 25.);
    assert!(value("(- (+ 2 3) 5)").unwrap() == 0.);
}

#[test]
fn check_negative() {
    assert!(value("(+ -5 -5)").unwrap() == -10.);
    assert!(value("(+ -5 8)").unwrap() == 3.);
}

#[test]
fn check_constants() {
    assert!(value("(* pi 2)").unwrap() > 6.);
    assert!(value("(* e 2)").unwrap() > 4.);
    assert!(value("(* 2 e)").unwrap() > 4.);
}

#[test]
fn check_var() {
    let mut env = Environment::new();

    // Define a variable and use it
    value_in("(set myVar 700)", &mut env).unwrap();
    assert!(value_in("(* myVar 2)", &mut env).unwrap() == 1400.0);

    // Try defining two times
    value_in("(set myVar 800)", &mut env).unwrap();
}

#[test]
fn assignment_overwrites() {
    let mut env = Environment::new();
    assert_eq!(value_in("(set myVar 700)", &mut env).unwrap(), 0.0);
    assert_eq!(value_in("(set myVar 800)", &mut env).unwrap(), 0.0);
    assert_eq!(value_in("(* myVar 2)", &mut env).unwrap(), 1600.0);
    assert_eq!(env.get_var("myVar").map(double), Some(800.0));
    assert_eq!(env.get_var("other").map(double), None);
    assert_eq!(env.get_fn("myVar"), None);
}

#[test]
fn assignment_of_an_expression() {
    let mut env = Environment::new();
    value_in("(set x (+ 1 2))", &mut env).unwrap();
    assert_eq!(value_in("(+ x x)", &mut env).unwrap(), 6.0);
    value_in("(set x (* x x))", &mut env).unwrap();
    assert_eq!(value_in("(+ x 0)", &mut env).unwrap(), 9.0);
}

#[test]
fn failed_line_leaves_environment() {
    let mut env = Environment::new();
    value_in("(set x 1)", &mut env).unwrap();
    assert!(value_in("(set x (/ 1 0))", &mut env).is_err());
    assert!(value_in("(set x (+ y 1))", &mut env).is_err());
    assert!(value_in("(set x 1", &mut env).is_err());
    assert_eq!(env.get_var("x").map(double), Some(1.0));
    assert_eq!(env.get_var("y").map(double), None);
}

#[test]
fn variable_shadows_constant() {
    let mut env = Environment::new();
    assert!(value_in("(+ pi 0)", &mut env).unwrap() > 3.0);
    value_in("(set pi 3)", &mut env).unwrap();
    assert_eq!(value_in("(+ pi 0)", &mut env).unwrap(), 3.0);
}

#[test]
fn expression_repeats() {
    let mut env = Environment::new();
    value_in("(set x 12)", &mut env).unwrap();
    let first = value_in("(* (+ x 1) (sqrt x))", &mut env).unwrap();
    let second = value_in("(* (+ x 1) (sqrt x))", &mut env).unwrap();
    assert_eq!(first.to_bits(), second.to_bits());
    assert_eq!(env.get_var("x").map(double), Some(12.0));
    assert!(value_in("(+ x nothing)", &mut env).is_err());
    assert!(value_in("(+ x nothing)", &mut env).is_err());
}

#[test]
fn identities() {
    for word in ["0", "1", "2.5", "-7", "1e300", "-3.25e-7", "0.1", "123456789"] {
        let n: f64 = word.parse().unwrap();
        assert_eq!(value(&format!("(+ 0 {})", word)).unwrap(), n);
        assert_eq!(value(&format!("(* 1 {})", word)).unwrap(), n);
    }
}

#[test]
fn division_by_zero() {
    assert!(matches!(value("(/ 8 0)"), Err(CalcError::DivisionByZero)));
    assert!(matches!(value("(/ 8 -0)"), Err(CalcError::DivisionByZero)));
    assert!(matches!(value("(/ 8 (- 2 2))"), Err(CalcError::DivisionByZero)));
    assert!(matches!(value("(/ 0 0)"), Err(CalcError::DivisionByZero)));
    assert_eq!(value("(/ 0 8)").unwrap(), 0.0);
    assert_eq!(value("(/ 1 4)").unwrap(), 0.25);
}

#[test]
fn first_error_from_the_left() {
    assert!(matches!(value("(/ nothing 0)"), Err(CalcError::UndefinedConstant(_))));
    assert!(matches!(value("(+ (/ 1 0) nothing)"), Err(CalcError::DivisionByZero)));
    assert!(matches!(value("(+ nothing (/ 1 0))"), Err(CalcError::UndefinedConstant(_))));
    assert!(matches!(value("(/ nothing)"), Err(CalcError::OperatorArity(_))));
}

#[test]
fn short_circuit() {
    assert_eq!(value("(if 1 5 (/ 1 0))").unwrap(), 5.0);
    assert_eq!(value("(if 0 (/ 1 0) 6)").unwrap(), 6.0);
    assert_eq!(value("(if -0 (/ 1 0) 6)").unwrap(), 6.0);
    assert_eq!(value("(if -2 5 nothing)").unwrap(), 5.0);
    assert_eq!(value("(if (sqrt -1) 5 nothing)").unwrap(), 5.0);
    assert!(matches!(value("(if 0 5 (/ 1 0))"), Err(CalcError::DivisionByZero)));
    assert!(matches!(value("(if (/ 1 0) 5 6)"), Err(CalcError::DivisionByZero)));
}

#[test]
fn sums_and_products() {
    assert_eq!(value("(+)").unwrap(), 0.0);
    assert_eq!(value("(*)").unwrap(), 1.0);
    assert_eq!(value("(+ 4)").unwrap(), 4.0);
    assert_eq!(value("(* 4)").unwrap(), 4.0);
    assert_eq!(value("(+ 1 2 3 4)").unwrap(), 10.0);
    assert_eq!(value("(* 1 2 3 4)").unwrap(), 24.0);
    assert_eq!(value("(+ 0.1 0.2)").unwrap(), 0.1 + 0.2);
}

#[test]
fn differences_go_left_to_right() {
    assert_eq!(value("(- 5)").unwrap(), 5.0);
    assert_eq!(value("(- 10 2 3)").unwrap(), 5.0);
    assert_eq!(value("(- 1 2 3)").unwrap(), -4.0);
    assert_eq!(value("(- 0.3 0.1 0.1)").unwrap(), (0.3 - 0.1) - 0.1);
}

#[test]
fn comparisons() {
    assert_eq!(value("(== 1 1)").unwrap(), 1.0);
    assert_eq!(value("(== 1 1 1)").unwrap(), 1.0);
    assert_eq!(value("(== 1 1 2)").unwrap(), 0.0);
    assert_eq!(value("(== 1 2 1)").unwrap(), 0.0);
    assert_eq!(value("(== 0 -0)").unwrap(), 1.0);
    assert_eq!(value("(== (sqrt -1) (sqrt -1))").unwrap(), 0.0);
    assert_eq!(value("(!= 1 2)").unwrap(), 1.0);
    assert_eq!(value("(!= 2 2)").unwrap(), 0.0);
    assert_eq!(value("(< 1 2)").unwrap(), 1.0);
    assert_eq!(value("(< 2 1)").unwrap(), 0.0);
    assert_eq!(value("(< 2 2)").unwrap(), 0.0);
    assert_eq!(value("(< -2 -1)").unwrap(), 1.0);
    assert_eq!(value("(< -1 -2)").unwrap(), 0.0);
    assert_eq!(value("(> 2 1)").unwrap(), 1.0);
    assert_eq!(value("(> 1 2)").unwrap(), 0.0);
    assert_eq!(value("(<= 2 2)").unwrap(), 1.0);
    assert_eq!(value("(<= 3 2)").unwrap(), 0.0);
    assert_eq!(value("(>= 2 2)").unwrap(), 1.0);
    assert_eq!(value("(>= 1 2)").unwrap(), 0.0);
}

#[test]
fn comparisons_with_nan_negate() {
    // `<=` is what `>` is not, so it holds of a NaN.
    assert_eq!(value("(> (sqrt -1) 1)").unwrap(), 0.0);
    assert_eq!(value("(<= (sqrt -1) 1)").unwrap(), 1.0);
    assert_eq!(value("(< (sqrt -1) 1)").unwrap(), 0.0);
    assert_eq!(value("(>= (sqrt -1) 1)").unwrap(), 1.0);
    assert_eq!(value("(!= (sqrt -1) (sqrt -1))").unwrap(), 1.0);
}

#[test]
fn functions() {
    assert_eq!(value("(sqrt 2)").unwrap(), 2f64.sqrt());
    assert_eq!(value("(pow 2 0.5)").unwrap(), 2f64.powf(0.5));
    assert_eq!(value("(pow 2 -1)").unwrap(), 0.5);
    assert_eq!(value("(if 0 1 2)").unwrap(), 2.0);
    assert_eq!(value("(if 3 1 2)").unwrap(), 1.0);
    assert_eq!(value("(if (< 1 2) (+ 1 1) (+ 2 2))").unwrap(), 2.0);
}

#[test]
fn arity_of_operators() {
    for line in ["(-)", "(/)", "(/ 1)", "(/ 1 2 3)", "(==)", "(== 1)", "(<)", "(< 1)", "(< 1 2 3)",
        "(<= 1)", "(> 1)", "(> 1 2 3)", "(>= 1)", "(!= 1)", "(!= 1 2 3)"] {
        assert!(matches!(value(line), Err(CalcError::OperatorArity(_))), "{}", line);
    }
}

#[test]
fn arity_of_functions() {
    for line in ["(sqrt)", "(sqrt 1 2)", "(pow)", "(pow 2)", "(pow 1 2 3)", "(if)", "(if 1 2)",
        "(if 1 2 3 4)"] {
        assert!(matches!(value(line), Err(CalcError::FunctionArity(_))), "{}", line);
    }
}

#[test]
fn each_error() {
    assert!(matches!(value("(+ 1a 2)"), Err(CalcError::InvalidNumber(w)) if w == "1a"));
    assert!(matches!(value("(+ -- 2)"), Err(CalcError::InvalidNumber(w)) if w == "--"));
    assert!(matches!(value("@"), Err(CalcError::UnrecognizedToken(w)) if w == "@"));
    assert!(matches!(value("(+ 1 #2)"), Err(CalcError::UnrecognizedToken(w)) if w == "#2"));
    assert!(matches!(value(""), Err(CalcError::MissingParentheses)));
    assert!(matches!(value("   "), Err(CalcError::MissingParentheses)));
    assert!(matches!(value("2"), Err(CalcError::MissingParentheses)));
    assert!(matches!(value(")+ 2)"), Err(CalcError::MissingParentheses)));
    assert!(matches!(value("()"), Err(CalcError::InvalidFirstToken)));
    assert!(matches!(value("(2)"), Err(CalcError::InvalidFirstToken)));
    assert!(matches!(value("("), Err(CalcError::InvalidFirstToken)));
    assert!(matches!(value("(+ 1 (2 3))"), Err(CalcError::InvalidFirstToken)));
    assert!(matches!(value("(+ 1 (set x 3))"), Err(CalcError::InvalidFirstToken)));
    assert!(matches!(value("(+ 2 (+ 2 3)"), Err(CalcError::UnclosedExpression)));
    assert!(matches!(value("(+"), Err(CalcError::UnclosedExpression)));
    assert!(matches!(value("(+ + 2)"), Err(CalcError::MisplacedOperator(_))));
    assert!(matches!(value("(+ 2 set)"), Err(CalcError::MisplacedKeyword(_))));
    assert!(matches!(value("(set 5 5)"), Err(CalcError::UnexpectedToken(_, _))));
    assert!(matches!(value("(set x y)"), Err(CalcError::UnexpectedToken(_, _))));
    assert!(matches!(value("(set x 1 2)"), Err(CalcError::UnexpectedToken(_, _))));
    assert!(matches!(value("(set"), Err(CalcError::UnexpectedEnd)));
    assert!(matches!(value("(set x"), Err(CalcError::UnexpectedEnd)));
    assert!(matches!(value("(set x 1"), Err(CalcError::UnexpectedEnd)));
    assert!(matches!(value("(+ 1 2) 3"), Err(CalcError::TrailingTokens)));
    assert!(matches!(value("(+ 1 2))"), Err(CalcError::TrailingTokens)));
    assert!(matches!(value("(def f 1)"), Err(CalcError::NotImplemented)));
    assert!(matches!(value("(+ aaaa 12)"), Err(CalcError::UndefinedConstant(w)) if w == "aaaa"));
    assert!(matches!(value("(foo 1)"), Err(CalcError::UnknownFunction(w)) if w == "foo"));
    assert!(matches!(value("(pi)"), Err(CalcError::UnknownFunction(w)) if w == "pi"));
    assert!(matches!(value("(-)"), Err(CalcError::OperatorArity(_))));
    assert!(matches!(value("(sqrt)"), Err(CalcError::FunctionArity(_))));
    assert!(matches!(value("(/ 8 0)"), Err(CalcError::DivisionByZero)));
}

#[test]
fn messages() {
    let text = |line: &str| value(line).unwrap_err().message();
    assert_eq!(text("(/ 8 0)"), "Cannot divide by 0");
    assert_eq!(text("(foo 1)"), "Unknown function 'foo'");
    assert_eq!(text("(+ aaaa 12)"), "Undefined constant 'aaaa'");
    assert_eq!(text("(+ 1a 2)"), "Invalid number '1a'");
    assert_eq!(text("@"), "Unrecognized token '@'");
    assert_eq!(text("2"), "Parentheses not present or wrongly formatted");
    assert_eq!(text("()"), "Invalid first token");
    assert_eq!(text("(+ 2"), "Unable to find last parentheses of expression");
    assert_eq!(text("(+ + 2)"), "Operator 'Add' in wrong position");
    assert_eq!(text("(+ <= 2)"), "Operator 'LtEq' in wrong position");
    assert_eq!(text("(+ def 2)"), "Keyword 'Def' in wrong position");
    assert_eq!(text("(+ set 2)"), "Keyword 'Set' in wrong position");
    assert_eq!(text("(set 5 5)"), "Unexpected Literal expecting Name");
    assert_eq!(text("(set x y)"), "Unexpected Name(y) expecting LPar or Literal");
    assert_eq!(text("(set x +)"), "Unexpected Operator(Add) expecting LPar or Literal");
    assert_eq!(text("(set x 1 def)"), "Unexpected TKeyword(Def) expecting RPar");
    assert_eq!(text("(set ( 1)"), "Unexpected LPar expecting Name");
    assert_eq!(text("(set ) 1)"), "Unexpected RPar expecting Name");
    assert_eq!(text("(set x"), "Unexpected end of token-stream");
    assert_eq!(text("(+ 1 2) 3"), "Unexpected token after the end of the line");
    assert_eq!(text("(def f 1)"), "Function definition is not yet implemented");
    assert_eq!(text("(-)"), "Substraction requires at least one argument");
    assert_eq!(text("(/ 1)"), "Division requires two arguments");
    assert_eq!(text("(== 1)"), "== requires at least two arguments");
    assert_eq!(text("(< 1)"), "< requires two arguments");
    assert_eq!(text("(<= 1)"), "<= requires two arguments");
    assert_eq!(text("(> 1)"), "> requires two arguments");
    assert_eq!(text("(>= 1)"), ">= requires two arguments");
    assert_eq!(text("(!= 1)"), "!= requires two arguments");
    assert_eq!(text("(sqrt)"), "'sqrt' requires one argument");
    assert_eq!(text("(pow 1)"), "'pow' requires two arguments");
    assert_eq!(text("(if 1)"), "'if' requires three arguments");
}

#[test]
fn definition_is_not_implemented() {
    let mut env = Environment::new();
    let defined = value_in("(def (myFunc arg1 arg2 arg3) (+ arg1 arg2 arg3))", &mut env);
    assert!(matches!(defined, Err(CalcError::NotImplemented)));
    assert!(matches!(value_in("(myFunc 1 2 3)", &mut env), Err(CalcError::UnknownFunction(_))));
}

#[test]
fn whitespace_is_free() {
    assert_eq!(value("  (+ 2 5)  ").unwrap(), 7.0);
    assert_eq!(value("(+\t2\n5)").unwrap(), 7.0);
    assert_eq!(value("( + 2 ( * 3 4 ) )").unwrap(), 14.0);
    assert_eq!(value("(+ 2(* 3 4)5)").unwrap(), 19.0);
    assert_eq!(value("(+\u{a0}2\u{3000}5)").unwrap(), 7.0);
}

#[test]
fn literals_as_the_reader_takes_them() {
    assert_eq!(value("(+ 1e3 0)").unwrap(), 1000.0);
    assert_eq!(value("(+ 1.5 0)").unwrap(), 1.5);
    assert_eq!(value("(+ -.5 0)").unwrap(), -0.5);
    assert_eq!(value("(+ 5. 0)").unwrap(), 5.0);
    assert_eq!(value("(+ -inf 0)").unwrap(), f64::NEG_INFINITY);
    assert!(value("(+ -nan 0)").unwrap().is_nan());
    assert!(value("(+ 1_000 0)").is_err());
    assert!(value("(+ 0x10 0)").is_err());
    // A word that starts with a letter is a name, a word that starts with a dot or a plus
    // sign is no token.
    assert!(matches!(value("(+ inf 0)"), Err(CalcError::UndefinedConstant(_))));
    assert!(matches!(value("(+ .5 0)"), Err(CalcError::UnrecognizedToken(_))));
    assert!(matches!(value("(+ +5 0)"), Err(CalcError::UnrecognizedToken(_))));
}

#[test]
fn another_arithmetic() {
    // The library takes whatever arithmetic it is given: here every operation gives its
    // first operand.
    let first = |q: Operation| match q {
        Operation::Add(a, _) | Operation::Sub(a, _) | Operation::Mul(a, _)
        | Operation::Div(a, _) | Operation::Pow(a, _) => a,
        Operation::Sqrt(a) => a,
    };
    let none = |_: &str| Some(num(4.0));
    assert_eq!(eval("(+ 1 2)", &none, &first).map(double).unwrap(), 0.0);
    assert_eq!(eval("(* 1 2)", &none, &first).map(double).unwrap(), 1.0);
    assert_eq!(eval("(- 1 2)", &none, &first).map(double).unwrap(), 4.0);
    assert_eq!(eval("(sqrt 9)", &none, &first).map(double).unwrap(), 4.0);
    let nothing = |_: &str| None;
    assert!(matches!(eval("(+ 1 2)", &nothing, &first), Err(CalcError::InvalidNumber(_))));
}
