use calc::constant::{Constant, E_BITS, PI_BITS};
use calc::function::Function;
use calc::number::{Number, Operation, INFINITY_BITS, ONE_BITS, SIGN_BIT};
use calc::operator::Operator;
use calc::util::combine;
use calc::CalcError;

fn of(x: f64) -> Number {
    Number::from_bits(x.to_bits())
}

fn samples() -> Vec<f64> {
    vec![
        0.0,
        -0.0,
        1.0,
        -1.0,
        0.5,
        -0.5,
        2.0,
        1e300,
        -1e300,
        1e-300,
        -1e-300,
        f64::MIN_POSITIVE,
        -f64::MIN_POSITIVE,
        f64::from_bits(1),
        -f64::from_bits(1),
        f64::from_bits(0x000f_ffff_ffff_ffff),
        f64::MAX,
        f64::MIN,
        f64::EPSILON,
        f64::INFINITY,
        f64::NEG_INFINITY,
        f64::NAN,
        -f64::NAN,
        f64::from_bits(0x7ff0_0000_0000_0001),
        f64::from_bits(0xfff0_0000_0000_0001),
        f64::from_bits(0x7fff_ffff_ffff_ffff),
        f64::from_bits(0xffff_ffff_ffff_ffff),
        std::f64::consts::PI,
        std::f64::consts::E,
    ]
}

#[test]
fn bits_are_kept() {
    for x in samples() {
        assert_eq!(of(x).to_bits(), x.to_bits());
        assert_eq!(of(x).bits, x.to_bits());
    }
    assert_eq!(Number::zero().to_bits(), 0.0f64.to_bits());
    assert_eq!(Number::one().to_bits(), 1.0f64.to_bits());
    assert_eq!(ONE_BITS, 1.0f64.to_bits());
    assert_eq!(SIGN_BIT, (-0.0f64).to_bits());
    assert_eq!(INFINITY_BITS, f64::INFINITY.to_bits());
}

#[test]
fn classes_as_doubles_have_them() {
    for x in samples() {
        assert_eq!(of(x).is_nan(), x.is_nan(), "{:?}", x);
        assert_eq!(of(x).is_zero(), x == 0.0, "{:?}", x);
        assert_eq!(of(x).is_negative(), x.is_sign_negative(), "{:?}", x);
        assert_eq!(of(x).magnitude(), x.abs().to_bits(), "{:?}", x);
    }
}

#[test]
fn order_as_doubles_have_it() {
    for x in samples() {
        for y in samples() {
            assert_eq!(of(x).equals(of(y)), x == y, "{:?} == {:?}", x, y);
            assert_eq!(of(x).less_than(of(y)), x < y, "{:?} < {:?}", x, y);
            assert_eq!(of(x).greater_than(of(y)), x > y, "{:?} > {:?}", x, y);
        }
    }
}

#[test]
fn order_on_many_bit_patterns() {
    // A walk over bit patterns of every class, by a fixed stride.
    let mut a: u64 = 0;
    for _ in 0..600 {
        let mut b: u64 = 0x0123_4567_89ab_cdef;
        for _ in 0..600 {
            let (x, y) = (f64::from_bits(a), f64::from_bits(b));
            assert_eq!(Number::from_bits(a).equals(Number::from_bits(b)), x == y);
            assert_eq!(Number::from_bits(a).less_than(Number::from_bits(b)), x < y);
            b = b.wrapping_add(0x0765_4321_0fed_cba9);
        }
        a = a.wrapping_add(0x006d_3a06_d3a0_6d3b);
    }
}

#[test]
fn constants_are_the_nearest_doubles() {
    assert_eq!(PI_BITS, std::f64::consts::PI.to_bits());
    assert_eq!(E_BITS, std::f64::consts::E.to_bits());
    assert_eq!(Constant::Pi.eval().unwrap().to_bits(), std::f64::consts::PI.to_bits());
    assert_eq!(Constant::E.eval().unwrap().to_bits(), std::f64::consts::E.to_bits());
}

#[test]
fn names_of_constants() {
    assert_eq!(Constant::from_str("pi").unwrap(), Constant::Pi);
    assert_eq!(Constant::from_str("e").unwrap(), Constant::E);
    assert!(matches!(Constant::from_str("Pi"), Err(CalcError::UndefinedConstant(w)) if w == "Pi"));
    assert!(matches!(Constant::from_str(""), Err(CalcError::UndefinedConstant(w)) if w == ""));
    assert!(matches!(Constant::from_str("pie"), Err(CalcError::UndefinedConstant(_))));
}

#[test]
fn names_of_functions() {
    assert_eq!(Function::from_str("sqrt").unwrap(), Function::Sqrt);
    assert_eq!(Function::from_str("pow").unwrap(), Function::Pow);
    assert_eq!(Function::from_str("if").unwrap(), Function::If);
    assert!(matches!(Function::from_str("foo"), Err(CalcError::UnknownFunction(w)) if w == "foo"));
    assert!(matches!(Function::from_str("SQRT"), Err(CalcError::UnknownFunction(_))));
    assert!(matches!(Function::from_str("sqr"), Err(CalcError::UnknownFunction(_))));
}

#[test]
fn symbols_of_operators() {
    assert_eq!(Operator::from_str("+"), Some(Operator::Add));
    assert_eq!(Operator::from_str("-"), Some(Operator::Sub));
    assert_eq!(Operator::from_str("*"), Some(Operator::Mul));
    assert_eq!(Operator::from_str("/"), Some(Operator::Div));
    assert_eq!(Operator::from_str("=="), Some(Operator::Eq));
    assert_eq!(Operator::from_str("<"), Some(Operator::Lt));
    assert_eq!(Operator::from_str("<="), Some(Operator::LtEq));
    assert_eq!(Operator::from_str(">"), Some(Operator::Gt));
    assert_eq!(Operator::from_str(">="), Some(Operator::GtEq));
    assert_eq!(Operator::from_str("!="), Some(Operator::NotEq));
    for other in ["", "=", "!", "++", "+ ", " +", "=<", "<>", "===", "add", "+1"] {
        assert_eq!(Operator::from_str(other), None, "{:?}", other);
    }
}

#[test]
fn arities_of_operators() {
    for n in 0..5usize {
        assert!(Operator::Add.accepts(n));
        assert!(Operator::Mul.accepts(n));
        assert_eq!(Operator::Sub.accepts(n), n >= 1);
        assert_eq!(Operator::Eq.accepts(n), n >= 2);
        for op in [Operator::Div, Operator::Lt, Operator::LtEq, Operator::Gt, Operator::GtEq,
            Operator::NotEq] {
            assert_eq!(op.accepts(n), n == 2);
        }
    }
}

#[test]
fn requests_of_operators() {
    let (a, b) = (of(6.0), of(3.0));
    assert_eq!(Operator::Add.operation(a, b), Operation::Add(a, b));
    assert_eq!(Operator::Sub.operation(a, b), Operation::Sub(a, b));
    assert_eq!(Operator::Mul.operation(a, b), Operation::Mul(a, b));
    assert_eq!(Operator::Div.operation(a, b), Operation::Div(a, b));
}

#[test]
fn operators_on_values() {
    let arith = |q: Operation| {
        let v = |n: Number| f64::from_bits(n.to_bits());
        of(match q {
            Operation::Add(a, b) => v(a) + v(b),
            Operation::Sub(a, b) => v(a) - v(b),
            Operation::Mul(a, b) => v(a) * v(b),
            Operation::Div(a, b) => v(a) / v(b),
            Operation::Sqrt(a) => v(a).sqrt(),
            Operation::Pow(a, b) => v(a).powf(v(b)),
        })
    };
    let on = |op: Operator, vals: &[f64]| {
        let vals: Vec<Number> = vals.iter().map(|x| of(*x)).collect();
        op.apply(&vals, &arith).map(|n| f64::from_bits(n.to_bits()))
    };
    assert_eq!(on(Operator::Add, &[]).unwrap(), 0.0);
    assert_eq!(on(Operator::Add, &[1.5, 2.0, 3.0]).unwrap(), 6.5);
    assert_eq!(on(Operator::Mul, &[]).unwrap(), 1.0);
    assert_eq!(on(Operator::Mul, &[1.5, 2.0, 3.0]).unwrap(), 9.0);
    assert_eq!(on(Operator::Sub, &[1.5]).unwrap(), 1.5);
    assert_eq!(on(Operator::Sub, &[1.5, 2.0, 3.0]).unwrap(), -3.5);
    assert_eq!(on(Operator::Div, &[1.0, 8.0]).unwrap(), 0.125);
    assert!(matches!(on(Operator::Div, &[1.0, 0.0]), Err(CalcError::DivisionByZero)));
    assert!(matches!(on(Operator::Div, &[1.0, -0.0]), Err(CalcError::DivisionByZero)));
    assert!(on(Operator::Div, &[1.0, f64::NAN]).unwrap().is_nan());
    assert!(matches!(on(Operator::Div, &[1.0]), Err(CalcError::OperatorArity(Operator::Div))));
    assert!(matches!(on(Operator::Sub, &[]), Err(CalcError::OperatorArity(Operator::Sub))));
    assert!(matches!(on(Operator::Eq, &[1.0]), Err(CalcError::OperatorArity(Operator::Eq))));
    assert_eq!(on(Operator::Eq, &[2.0, 2.0, 2.0, 2.0]).unwrap(), 1.0);
    assert_eq!(on(Operator::Eq, &[2.0, 2.0, 2.0, 3.0]).unwrap(), 0.0);
    assert_eq!(on(Operator::NotEq, &[2.0, 3.0]).unwrap(), 1.0);
    assert_eq!(on(Operator::Lt, &[2.0, 3.0]).unwrap(), 1.0);
    assert_eq!(on(Operator::LtEq, &[3.0, 3.0]).unwrap(), 1.0);
    assert_eq!(on(Operator::Gt, &[2.0, 3.0]).unwrap(), 0.0);
    assert_eq!(on(Operator::GtEq, &[2.0, 3.0]).unwrap(), 0.0);
}

#[test]
fn combine_takes_the_first_error() {
    let sum = |a: Number, b: Number| Number::from_bits(a.to_bits() + b.to_bits());
    let ok = |bits: u64| -> Result<Number, CalcError> { Ok(Number::from_bits(bits)) };
    assert_eq!(combine(ok(2), ok(5), sum).unwrap().to_bits(), 7);
    assert!(matches!(
        combine(Err(CalcError::DivisionByZero), ok(5), sum),
        Err(CalcError::DivisionByZero)
    ));
    assert!(matches!(
        combine(ok(2), Err(CalcError::UnexpectedEnd), sum),
        Err(CalcError::UnexpectedEnd)
    ));
    assert!(matches!(
        combine(Err(CalcError::DivisionByZero), Err(CalcError::UnexpectedEnd), sum),
        Err(CalcError::DivisionByZero)
    ));
}
