//! Fixed-point arithmetic: signed 64-bit values with six decimal places.
//!
//! A value `v: i64` stands for the real number `v / SCALE`. All intermediate
//! products are taken in `i128`, scaled back down with truncating division
//! (rounding toward zero, as integer casts do), and saturated into the `i64`
//! range: magnitudes near saturation are far past anything physical.

use vstd::prelude::*;

verus! {

/// Number of fixed-point steps in one unit: six decimal places.
pub const SCALE: i64 = 1_000_000;

/// Truncating division (round toward zero), the semantics of Rust's `/` on
/// signed integers, for a positive divisor.
pub open spec fn tdiv(a: int, b: int) -> int
    recommends
        b > 0,
{
    if a >= 0 {
        a / b
    } else {
        -((-a) / b)
    }
}

/// Saturation of a mathematical integer into the `i64` range.
pub open spec fn sat64(v: int) -> int {
    if v > i64::MAX as int {
        i64::MAX as int
    } else if v < i64::MIN as int {
        i64::MIN as int
    } else {
        v
    }
}

/// Clamp a 128-bit intermediate into the `i64` range.
pub fn sat_i64(v: i128) -> (r: i64)
    ensures
        r as int == sat64(v as int),
{
    if v > i64::MAX as i128 {
        i64::MAX
    } else if v < i64::MIN as i128 {
        i64::MIN
    } else {
        v as i64
    }
}

/// Fixed-point product: `(a * b) / SCALE`, truncated, saturated.
pub open spec fn spec_mul_fix(a: int, b: int) -> int {
    sat64(tdiv(a * b, SCALE as int))
}

/// Product of two `i64` values, wide enough that it cannot wrap.
pub fn mul_wide(a: i64, b: i64) -> (r: i128)
    ensures
        r as int == a as int * b as int,
{
    proof {
        assert(i64::MIN as int * i64::MIN as int <= i128::MAX as int);
        assert((a as int) * (b as int) <= i128::MAX as int && (a as int) * (b as int)
            >= i128::MIN as int) by (nonlinear_arith)
            requires
                i64::MIN <= (a as int) <= i64::MAX,
                i64::MIN <= (b as int) <= i64::MAX,
        ;
    }
    (a as i128) * (b as i128)
}

/// Truncating quotient of a wide intermediate by a positive divisor.
pub fn tdiv_wide(w: i128, d: i128) -> (r: i128)
    requires
        d > 0,
    ensures
        r as int == tdiv(w as int, d as int),
        (w as int) >= 0 ==> 0 <= r as int <= w as int,
        (w as int) < 0 ==> w as int <= r as int <= 0,
{
    proof {
        if w as int >= 0 {
            assert(0 <= w as int / (d as int) <= w as int) by (nonlinear_arith)
                requires
                    (w as int) >= 0,
                    (d as int) >= 1,
            ;
        } else {
            assert(0 <= (-(w as int)) / (d as int) <= -(w as int)) by (nonlinear_arith)
                requires
                    (w as int) < 0,
                    (d as int) >= 1,
            ;
        }
    }
    w / d
}

/// Multiply two fixed-point values.
pub fn mul_fix(a: i64, b: i64) -> (r: i64)
    ensures
        r as int == spec_mul_fix(a as int, b as int),
{
    let wide: i128 = mul_wide(a, b);
    let q: i128 = tdiv_wide(wide, SCALE as i128);
    sat_i64(q)
}

/// Fixed-point quotient: `(a * SCALE) / b`, truncated, saturated.
/// Meaningless only for `b == 0`, which every caller rules out.
pub open spec fn spec_div_fix(a: int, b: int) -> int {
    if b > 0 {
        sat64(tdiv(a * SCALE as int, b))
    } else {
        sat64(-tdiv(a * SCALE as int, -b))
    }
}

/// Divide two fixed-point values.
pub fn div_fix(a: i64, b: i64) -> (r: i64)
    requires
        b != 0,
    ensures
        r as int == spec_div_fix(a as int, b as int),
{
    let wide: i128 = mul_wide(a, SCALE);
    if b > 0 {
        sat_i64(tdiv_wide(wide, b as i128))
    } else {
        let q: i128 = tdiv_wide(wide, -(b as i128));
        sat_i64(-q)
    }
}

/// Saturating sum of two fixed-point values.
pub fn add_sat(a: i64, b: i64) -> (r: i64)
    ensures
        r as int == sat64(a as int + b as int),
{
    sat_i64(a as i128 + b as i128)
}

/// Saturating difference of two fixed-point values.
pub fn sub_sat(a: i64, b: i64) -> (r: i64)
    ensures
        r as int == sat64(a as int - b as int),
{
    sat_i64(a as i128 - b as i128)
}

} // verus!
