//! Fixed-point angle measurement: integer square root and a two-argument
//! arctangent over fixed-point values.
//!
//! The arctangent reduces its arguments to a ratio in the unit interval and
//! evaluates a first-order polynomial approximation there; on the axes it is
//! exact. Its contract is the exact fixed-point formula, so callers reason
//! about precisely the value computed.

use crate::fixed::{div_fix, mul_fix, sat64, spec_div_fix, spec_mul_fix};
use vstd::prelude::*;

verus! {

/// Fixed-point pi, truncated.
pub const PI_FIX: i64 = 3_141_592;

/// Fixed-point pi / 2.
pub const PI_2_FIX: i64 = 1_570_796;

/// Fixed-point pi / 4.
pub const PI_4_FIX: i64 = 785_398;

/// Fixed-point 0.273, the correction coefficient of the arctangent
/// approximation.
pub const ATAN_K: i64 = 273_000;

/// `r` is the integer square root of `x`.
pub open spec fn is_sqrt(x: int, r: int) -> bool {
    0 <= r && r * r <= x < (r + 1) * (r + 1)
}

/// The integer square root, as a spec value.
pub open spec fn spec_isqrt(x: int) -> int {
    choose|r: int| is_sqrt(x, r)
}

/// The integer square root is unique.
pub proof fn lemma_sqrt_unique(x: int, a: int, b: int)
    requires
        is_sqrt(x, a),
        is_sqrt(x, b),
    ensures
        a == b,
{
    if a < b {
        assert((a + 1) * (a + 1) <= b * b) by (nonlinear_arith)
            requires
                0 <= a,
                0 <= b,
                a + 1 <= b,
        ;
    }
    if b < a {
        assert((b + 1) * (b + 1) <= a * a) by (nonlinear_arith)
            requires
                0 <= a,
                0 <= b,
                b + 1 <= a,
        ;
    }
}

/// Binary-search integer square root.
#[verifier::loop_isolation(false)]
pub fn isqrt(x: u64) -> (r: u64)
    ensures
        is_sqrt(x as int, r as int),
        r as int == spec_isqrt(x as int),
{
    let mut lo: u64 = 0;
    let mut hi: u64 = 4_294_967_296;  // 2^32: (2^32)^2 is past every u64
    proof {
        assert((hi as int) * (hi as int) == 0x10000000000000000) by (nonlinear_arith)
            requires
                hi == 4_294_967_296u64,
        ;
    }
    while lo + 1 < hi
        invariant
            lo < hi <= 4_294_967_296,
            (lo as int) * (lo as int) <= x as int,
            (x as int) < (hi as int) * (hi as int),
        decreases hi - lo,
    {
        let mid: u64 = lo + (hi - lo) / 2;
        proof {
            assert((mid as int) * (mid as int) <= u128::MAX as int) by (nonlinear_arith)
                requires
                    0 <= (mid as int) <= 4_294_967_296,
            ;
        }
        let sq: u128 = (mid as u128) * (mid as u128);
        if sq <= x as u128 {
            lo = mid;
        } else {
            hi = mid;
        }
    }
    proof {
        assert(hi == lo + 1);
        assert(is_sqrt(x as int, lo as int));
        let w = choose|r: int| is_sqrt(x as int, r);
        assert(is_sqrt(x as int, lo as int));
        lemma_sqrt_unique(x as int, w, lo as int);
    }
    lo
}

/// Magnitude of a fixed-point value, saturated.
pub fn abs_sat(a: i64) -> (r: i64)
    ensures
        r as int == sat64(if a < 0 {
            -(a as int)
        } else {
            a as int
        }),
{
    if a == i64::MIN {
        i64::MAX
    } else if a < 0 {
        -a
    } else {
        a
    }
}

/// The arctangent approximation on the unit interval:
/// `atan(z) ~= (pi/4) z + 0.273 z (1 - |z|)`, in fixed point.
pub open spec fn spec_atan_unit(z: int) -> int {
    let absz = sat64(if z < 0 {
        -z
    } else {
        z
    });
    sat64(
        spec_mul_fix(z, PI_4_FIX as int) + spec_mul_fix(
            spec_mul_fix(ATAN_K as int, z),
            sat64(crate::fixed::SCALE as int - absz),
        ),
    )
}

/// Evaluate the arctangent approximation; exact at zero.
pub fn atan_unit(z: i64) -> (r: i64)
    ensures
        r as int == spec_atan_unit(z as int),
{
    let absz = abs_sat(z);
    let a = mul_fix(z, PI_4_FIX);
    let b = mul_fix(mul_fix(ATAN_K, z), crate::fixed::sub_sat(crate::fixed::SCALE, absz));
    crate::fixed::add_sat(a, b)
}

/// The two-argument arctangent on fixed-point values, in fixed-point
/// radians over the half-turn range (up to the approximation's error):
/// quadrant selection around the unit-interval approximation, exact on the
/// axes and on the diagonals.
pub open spec fn spec_atan2(y: int, x: int) -> int {
    if x == 0 && y == 0 {
        0
    } else if x == 0 {
        if y > 0 {
            PI_2_FIX as int
        } else {
            -(PI_2_FIX as int)
        }
    } else {
        let ay = if y < 0 {
            -y
        } else {
            y
        };
        let ax = if x < 0 {
            -x
        } else {
            x
        };
        if ay <= ax {
            let a = spec_atan_unit(spec_div_fix(y, x));
            if x > 0 {
                a
            } else if y >= 0 {
                sat64(a + PI_FIX as int)
            } else {
                sat64(a - PI_FIX as int)
            }
        } else {
            let a = spec_atan_unit(spec_div_fix(x, y));
            if y > 0 {
                sat64(PI_2_FIX as int - a)
            } else {
                sat64(-(PI_2_FIX as int) - a)
            }
        }
    }
}

/// Evaluate the two-argument arctangent.
pub fn atan2_fix(y: i64, x: i64) -> (r: i64)
    ensures
        r as int == spec_atan2(y as int, x as int),
{
    if x == 0 && y == 0 {
        0
    } else if x == 0 {
        if y > 0 {
            PI_2_FIX
        } else {
            -PI_2_FIX
        }
    } else {
        let ay: i128 = if y < 0 {
            -(y as i128)
        } else {
            y as i128
        };
        let ax: i128 = if x < 0 {
            -(x as i128)
        } else {
            x as i128
        };
        if ay <= ax {
            let a = atan_unit(div_fix(y, x));
            if x > 0 {
                a
            } else if y >= 0 {
                crate::fixed::add_sat(a, PI_FIX)
            } else {
                crate::fixed::sub_sat(a, PI_FIX)
            }
        } else {
            let a = atan_unit(div_fix(x, y));
            if y > 0 {
                crate::fixed::sub_sat(PI_2_FIX, a)
            } else {
                crate::fixed::sat_i64(-(PI_2_FIX as i128) - (a as i128))
            }
        }
    }
}

/// On the horizontal axis the arctangent is exact: zero toward positive `x`,
/// pi toward negative `x`; on the vertical axis it is exactly half pi with
/// the sign of `y`.
pub proof fn lemma_atan2_axes(v: int)
    ensures
        v > 0 ==> spec_atan2(0, v) == 0,
        v < 0 ==> spec_atan2(0, v) == PI_FIX as int,
        v > 0 ==> spec_atan2(v, 0) == PI_2_FIX as int,
        v < 0 ==> spec_atan2(v, 0) == -(PI_2_FIX as int),
        spec_atan2(0, 0) == 0,
{
    if v != 0 {
        assert(spec_div_fix(0, v) == 0) by {
            assert(0 * crate::fixed::SCALE as int == 0);
            assert(crate::fixed::tdiv(0, if v > 0 {
                v
            } else {
                -v
            }) == 0);
        }
        assert(spec_atan_unit(0) == 0) by {
            assert(spec_mul_fix(0, PI_4_FIX as int) == 0) by {
                assert(0 * PI_4_FIX as int == 0);
                assert(crate::fixed::tdiv(0, crate::fixed::SCALE as int) == 0);
            }
            assert(spec_mul_fix(ATAN_K as int, 0) == 0) by {
                assert(ATAN_K as int * 0 == 0);
                assert(crate::fixed::tdiv(0, crate::fixed::SCALE as int) == 0);
            }
            assert(spec_mul_fix(0, sat64(crate::fixed::SCALE as int - 0)) == 0) by {
                assert(0 * sat64(crate::fixed::SCALE as int - 0) == 0);
                assert(crate::fixed::tdiv(0, crate::fixed::SCALE as int) == 0);
            }
        }
    }
}

} // verus!
