//! The constants of the calculator.

use vstd::prelude::*;
use crate::error::{CalcError, CalcErrorView, CalcResult};
use crate::number::Number;
use crate::text::same_text;

verus! {

/// The bits of the double nearest to the circle constant.
pub const PI_BITS: u64 = 0x4009_21fb_5444_2d18;

/// The bits of the double nearest to the base of the natural logarithm.
pub const E_BITS: u64 = 0x4005_bf0a_8b14_5769;

/// A constant, referred to by its name.
#[derive(Clone, Copy, Debug, PartialEq, Eq, Structural)]
pub enum Constant {
    Pi,
    E,
}

impl Constant {
    /// The constant that a word names. Any other word is an undefined constant.
    pub open spec fn named(word: Seq<char>) -> Result<Constant, CalcErrorView> {
        if word == "pi"@ {
            Ok(Constant::Pi)
        } else if word == "e"@ {
            Ok(Constant::E)
        } else {
            Err(CalcErrorView::UndefinedConstant(word))
        }
    }

    /// The number that the constant stands for.
    pub open spec fn value(self) -> Number {
        match self {
            Constant::Pi => Number { bits: PI_BITS },
            Constant::E => Number { bits: E_BITS },
        }
    }

    /// The constant that `s` names.
    pub fn from_str(s: &str) -> (r: CalcResult<Constant>)
        ensures
            crate::error::lift(r) == Constant::named(s@),
    {
        if same_text(s, "pi") {
            Ok(Constant::Pi)
        } else if same_text(s, "e") {
            Ok(Constant::E)
        } else {
            Err(CalcError::UndefinedConstant(s.to_owned()))
        }
    }

    /// The number that the constant stands for. This never fails.
    pub fn eval(&self) -> (r: CalcResult)
        ensures
            r == Ok::<Number, CalcError>(self.value()),
    {
        match *self {
            Constant::Pi => Ok(Number::from_bits(PI_BITS)),
            Constant::E => Ok(Number::from_bits(E_BITS)),
        }
    }
}

} // verus!
