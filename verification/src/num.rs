//! Fixed-point arithmetic helpers: saturation, sign, magnitude, and the
//! truncating division used by the spin formula.

use vstd::prelude::*;
use crate::COORD_MAX;

verus! {

/// Clamps a value into `[-COORD_MAX, COORD_MAX]`.
pub open spec fn sat(v: int) -> int {
    if v > COORD_MAX as int {
        COORD_MAX as int
    } else if v < -(COORD_MAX as int) {
        -(COORD_MAX as int)
    } else {
        v
    }
}

/// Sign of a value: -1, 0 or 1.
pub open spec fn sign(v: int) -> int {
    if v > 0 {
        1
    } else if v < 0 {
        -1
    } else {
        0
    }
}

/// Magnitude of a value.
pub open spec fn mag(v: int) -> int {
    if v >= 0 {
        v
    } else {
        -v
    }
}

/// Quotient rounded toward zero, the rounding of hardware division.
pub open spec fn tdiv(a: int, b: int) -> int
    recommends
        b > 0,
{
    if a >= 0 {
        a / b
    } else {
        -((-a) / b)
    }
}

/// The magnitude of a quotient never exceeds the magnitude of the dividend.
pub proof fn lemma_tdiv_bounded(a: int, b: int)
    requires
        b >= 1,
    ensures
        mag(tdiv(a, b)) <= mag(a),
{
    if a >= 0 {
        vstd::arithmetic::div_mod::lemma_div_is_ordered_by_denominator(a, 1, b);
        vstd::arithmetic::div_mod::lemma_div_basics(a);
    } else {
        vstd::arithmetic::div_mod::lemma_div_is_ordered_by_denominator(-a, 1, b);
        vstd::arithmetic::div_mod::lemma_div_basics(-a);
    }
}

/// Exact saturation of a coordinate into `[-COORD_MAX, COORD_MAX]`.
pub fn clamp_coord(v: i64) -> (r: i64)
    ensures
        r as int == sat(v as int),
{
    if v > COORD_MAX {
        COORD_MAX
    } else if v < -COORD_MAX {
        -COORD_MAX
    } else {
        v
    }
}

/// Sign of a value as an integer in {-1, 0, 1}.
pub fn signum(v: i64) -> (s: i64)
    ensures
        s as int == sign(v as int),
{
    if v > 0 {
        1
    } else if v < 0 {
        -1
    } else {
        0
    }
}

/// Division rounded toward zero on fixed-point values.
pub fn div_trunc(a: i64, b: i64) -> (q: i64)
    requires
        1 <= b,
        -0x2000_0000_0000_0000 < a < 0x2000_0000_0000_0000,
    ensures
        q as int == tdiv(a as int, b as int),
{
    proof {
        lemma_tdiv_bounded(a as int, b as int);
    }
    if a >= 0 {
        a / b
    } else {
        -((-a) / b)
    }
}

} // verus!
