//! Fixed-point distances and the shapes built from them.
//!
//! A distance is an `i64` counting thousandths of a display unit, so that
//! `9_000` is nine units. Sums that would leave the range of `i64` are pinned
//! to its nearest end, as floating-point arithmetic pins them to infinity.

use vstd::prelude::*;

verus! {

/// One display unit.
pub const UNIT: i64 = 1_000;

/// The value of `i64` nearest to `x`.
pub open spec fn saturate(x: int) -> int {
    if x < i64::MIN {
        i64::MIN as int
    } else if x > i64::MAX {
        i64::MAX as int
    } else {
        x
    }
}

/// Narrows a wide intermediate result to a distance.
pub fn saturating(x: i128) -> (r: i64)
    ensures
        r == saturate(x as int),
{
    if x < i64::MIN as i128 {
        i64::MIN
    } else if x > i64::MAX as i128 {
        i64::MAX
    } else {
        x as i64
    }
}

/// The sum of two distances.
pub fn sum(a: i64, b: i64) -> (r: i64)
    ensures
        r == saturate(a + b),
{
    saturating(a as i128 + b as i128)
}

/// The quotient of `x` by a positive `d`, rounded toward negative infinity.
pub(crate) fn floor_div(x: i128, d: i128) -> (r: i128)
    requires
        d > 0,
        x > i128::MIN,
    ensures
        r == x as int / d as int,
{
    if x >= 0 {
        x / d
    } else {
        let q: i128 = (-x) / d;
        let rem: i128 = (-x) % d;
        proof {
            let floor: int = if rem == 0 { -q as int } else { -q - 1 };
            let left: int = if rem == 0 { 0int } else { d - rem };
            vstd::arithmetic::div_mod::lemma_fundamental_div_mod(-x as int, d as int);
            assert(x == floor * d + left) by (nonlinear_arith)
                requires
                    -x == d * q + rem,
                    floor == (if rem == 0 { -q as int } else { -q - 1 }),
                    left == (if rem == 0 { 0int } else { d - rem }),
            ;
            vstd::arithmetic::div_mod::lemma_fundamental_div_mod_converse(
                x as int,
                d as int,
                floor,
                left,
            );
        }
        if rem == 0 {
            -q
        } else {
            -q - 1
        }
    }
}

/// Half a distance, rounded toward negative infinity.
pub fn half(x: i64) -> (r: i64)
    ensures
        r == x / 2,
{
    let h: i128 = floor_div(x as i128, 2);
    h as i64
}

/// A width and a height.
#[derive(Clone, Copy, Debug, PartialEq, Eq, Structural)]
pub struct Size {
    pub width: i64,
    pub height: i64,
}

/// A position, measured from the top left corner of the control.
#[derive(Clone, Copy, Debug, PartialEq, Eq, Structural)]
pub struct Point {
    pub x: i64,
    pub y: i64,
}

/// A circle, by its centre and radius.
#[derive(Clone, Copy, Debug, PartialEq, Eq, Structural)]
pub struct Circle {
    pub center: Point,
    pub radius: i64,
}

} // verus!
