//! Functions that yield a value from a trailing expression or a block.

use vstd::prelude::*;

verus! {

/// The value of a block that binds 6 and adds `increment` to it.
pub fn expression_value(increment: i32) -> (r: i32)
    requires
        increment <= i32::MAX - 6,
    ensures
        r == 6 + increment,
{
    let y: i32 = {
        let x: i32 = 6;
        x + increment
    };
    y
}

/// Yields 5 from a trailing expression.
pub fn five() -> (r: i32)
    ensures
        r == 5,
{
    5
}

/// The square of `x`.
pub fn square(x: i32) -> (r: i32)
    requires
        x * x <= i32::MAX,
    ensures
        r == x * x,
{
    proof {
        assert(0 <= x * x) by (nonlinear_arith);
    }
    x * x
}

} // verus!
