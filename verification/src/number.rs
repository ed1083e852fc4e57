//! Numbers: IEEE 754 binary64 values, held by their bit pattern.
//!
//! Sign, zero, NaN and the order of two numbers can be read off the bits and are
//! decided here. Operations that round are not: they are described by
//! [`Operation`] and carried out by the arithmetic that the caller supplies.

use vstd::prelude::*;

verus! {

/// The bit that holds the sign.
pub const SIGN_BIT: u64 = 0x8000_0000_0000_0000;

/// The bits of positive infinity. A larger magnitude is a NaN.
pub const INFINITY_BITS: u64 = 0x7ff0_0000_0000_0000;

/// The bits of `1.0`.
pub const ONE_BITS: u64 = 0x3ff0_0000_0000_0000;

/// A double, given by its 64 bits.
///
/// `==` on numbers compares the bits. The equality of doubles, under which a NaN
/// equals nothing and the two zeros are equal, is [`Number::equals`].
#[derive(Clone, Copy, Debug, PartialEq, Eq, Structural)]
pub struct Number {
    pub bits: u64,
}

impl Number {
    /// Whether the sign bit is set.
    pub open spec fn spec_is_negative(self) -> bool {
        self.bits >= SIGN_BIT
    }

    /// The bits without the sign bit.
    pub open spec fn spec_magnitude(self) -> u64 {
        if self.bits >= SIGN_BIT {
            (self.bits - SIGN_BIT) as u64
        } else {
            self.bits
        }
    }

    /// Whether this is a NaN.
    pub open spec fn spec_is_nan(self) -> bool {
        self.spec_magnitude() > INFINITY_BITS
    }

    /// Whether this is `0.0` or `-0.0`.
    pub open spec fn spec_is_zero(self) -> bool {
        self.spec_magnitude() == 0
    }

    /// The place of a number that is no NaN in the order of all such numbers:
    /// the magnitude, negated where the sign bit is set. Both zeros are at 0.
    pub open spec fn rank(self) -> int {
        if self.spec_is_negative() {
            -(self.spec_magnitude() as int)
        } else {
            self.spec_magnitude() as int
        }
    }

    /// Equality of doubles: a NaN equals nothing, the two zeros are equal.
    pub open spec fn spec_equals(self, other: Number) -> bool {
        !self.spec_is_nan() && !other.spec_is_nan() && self.rank() == other.rank()
    }

    /// The strict order of doubles: a NaN is below nothing and nothing is below it.
    pub open spec fn spec_less_than(self, other: Number) -> bool {
        !self.spec_is_nan() && !other.spec_is_nan() && self.rank() < other.rank()
    }

    /// The number with the given bits.
    pub fn from_bits(bits: u64) -> (n: Number)
        ensures
            n.bits == bits,
    {
        Number { bits }
    }

    /// The bits of this number.
    pub fn to_bits(self) -> (bits: u64)
        ensures
            bits == self.bits,
    {
        self.bits
    }

    /// `0.0`, which stands for false.
    pub open spec fn spec_zero() -> Number {
        Number { bits: 0 }
    }

    /// `1.0`, which stands for true.
    pub open spec fn spec_one() -> Number {
        Number { bits: ONE_BITS }
    }

    /// `0.0`, which stands for false.
    #[verifier::when_used_as_spec(spec_zero)]
    pub fn zero() -> (n: Number)
        ensures
            n == Number::spec_zero(),
    {
        Number { bits: 0 }
    }

    /// `1.0`, which stands for true.
    #[verifier::when_used_as_spec(spec_one)]
    pub fn one() -> (n: Number)
        ensures
            n == Number::spec_one(),
    {
        Number { bits: ONE_BITS }
    }

    /// Whether the sign bit is set.
    #[verifier::when_used_as_spec(spec_is_negative)]
    pub fn is_negative(self) -> (r: bool)
        ensures
            r == self.spec_is_negative(),
    {
        self.bits >= SIGN_BIT
    }

    /// The bits without the sign bit.
    #[verifier::when_used_as_spec(spec_magnitude)]
    pub fn magnitude(self) -> (m: u64)
        ensures
            m == self.spec_magnitude(),
    {
        if self.bits >= SIGN_BIT {
            self.bits - SIGN_BIT
        } else {
            self.bits
        }
    }

    /// Whether this is a NaN.
    #[verifier::when_used_as_spec(spec_is_nan)]
    pub fn is_nan(self) -> (r: bool)
        ensures
            r == self.spec_is_nan(),
    {
        self.magnitude() > INFINITY_BITS
    }

    /// Whether this is `0.0` or `-0.0`.
    #[verifier::when_used_as_spec(spec_is_zero)]
    pub fn is_zero(self) -> (r: bool)
        ensures
            r == self.spec_is_zero(),
    {
        self.magnitude() == 0
    }

    /// Whether the two are equal as doubles.
    #[verifier::when_used_as_spec(spec_equals)]
    pub fn equals(self, other: Number) -> (r: bool)
        ensures
            r == self.spec_equals(other),
    {
        if self.is_nan() || other.is_nan() {
            false
        } else if self.magnitude() == 0 {
            other.magnitude() == 0
        } else {
            self.bits == other.bits
        }
    }

    /// Whether this number is below `other` as doubles.
    #[verifier::when_used_as_spec(spec_less_than)]
    pub fn less_than(self, other: Number) -> (r: bool)
        ensures
            r == self.spec_less_than(other),
    {
        if self.is_nan() || other.is_nan() {
            false
        } else if self.is_negative() {
            if other.is_negative() {
                self.magnitude() > other.magnitude()
            } else {
                self.magnitude() != 0 || other.magnitude() != 0
            }
        } else {
            !other.is_negative() && self.magnitude() < other.magnitude()
        }
    }

    /// Whether `other` is below this number.
    pub fn greater_than(self, other: Number) -> (r: bool)
        ensures
            r == other.less_than(self),
    {
        other.less_than(self)
    }
}

/// A request for one rounding operation on given operands.
#[derive(Clone, Copy, Debug, PartialEq, Eq, Structural)]
pub enum Operation {
    /// The sum of the two numbers.
    Add(Number, Number),
    /// The first number less the second.
    Sub(Number, Number),
    /// The product of the two numbers.
    Mul(Number, Number),
    /// The first number divided by the second.
    Div(Number, Number),
    /// The square root of the number.
    Sqrt(Number),
    /// The first number raised to the power of the second.
    Pow(Number, Number),
}

/// Says that `arith` computes `f`: whatever it returns for a request is what `f`
/// gives for that request.
///
/// The functions of the library that take an arithmetic state their result for
/// every `f` that the arithmetic computes.
pub open spec fn computes<A: Fn(Operation) -> Number>(
    arith: &A,
    f: spec_fn(Operation) -> Number,
) -> bool {
    forall|q: Operation, r: Number| #[trigger] arith.ensures((q,), r) ==> r == f(q)
}

/// Says that `number` reads literals as `g` does: whatever it returns for a word
/// is what `g` gives for the characters of that word.
///
/// The functions of the library that take a reader of literals state their
/// result for every `g` that the reader computes.
pub open spec fn reads<P: Fn(&str) -> Option<Number>>(
    number: &P,
    g: spec_fn(Seq<char>) -> Option<Number>,
) -> bool {
    forall|w: &str, r: Option<Number>| #[trigger] number.ensures((w,), r) ==> r == g(w@)
}

} // verus!
