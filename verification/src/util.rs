//! Helpers for results.

use vstd::prelude::*;
use crate::error::{CalcError, CalcResult};
use crate::number::Number;

verus! {

/// Joins two results through `func`: where both hold a number, the result holds
/// what `func` makes of the two; otherwise it is the first error, from left to
/// right, and `func` is not called.
pub fn combine<F: Fn(Number, Number) -> Number>(
    opt1: Result<Number, CalcError>,
    opt2: Result<Number, CalcError>,
    func: F,
) -> (r: CalcResult)
    requires
        forall|x: Number, y: Number| func.requires((x, y)),
    ensures
        opt1 is Err ==> r == opt1,
        opt1 is Ok && opt2 is Err ==> r == opt2,
        opt1 is Ok && opt2 is Ok ==> r is Ok && func.ensures(
            (opt1->Ok_0, opt2->Ok_0),
            r->Ok_0,
        ),
{
    let v1 = opt1?;
    let v2 = opt2?;
    Ok(func(v1, v2))
}

} // verus!
