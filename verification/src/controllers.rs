//! Body-rate stabilization controller: a pure function from the latest
//! estimate, the previous cycle's errors and the tunable gains to a
//! three-axis correction.
//!
//! Two deliberate limitations of the design are kept as they are: the
//! integral term is computed with a contribution that is identically zero, so
//! `ik` has no effect, and the yaw axis command is forced to zero whatever
//! the yaw error. Both are stated by the contract, not silently changed.

use crate::fixed::{sat64, sat_i64, sub_sat};
use crate::types::{Control, State};
use crate::utils::{spec_to_rads, to_rads};
use vstd::prelude::*;

verus! {

/// Outer-loop error of one axis: the target angle (whole degrees, made
/// fixed-point radians) against the measured angle, scaled by the axis gain.
pub open spec fn spec_outer_err(target_deg: int, measured: int, gain: int) -> int {
    sat64(sat64(spec_to_rads(target_deg) - measured) * gain)
}

/// Rate error of one axis: the outer error minus the bias-corrected rate.
pub open spec fn spec_rate_err(outer: int, rate: int) -> int {
    sat64(outer - rate)
}

/// PID-shaped correction. The integral contribution is identically zero by
/// design, so the `ik` term vanishes; the derivative acts on the change of
/// the rate error since the previous cycle.
pub open spec fn spec_corr(err: int, prev_err: int, pk: int, ik: int, dk: int) -> int {
    sat64(err * pk + 0 * ik + dk * sat64(err - prev_err))
}

/// The three rate errors of one cycle, in axis order x (roll), y (pitch),
/// z (yaw).
pub open spec fn spec_errors3(s: State, c: Control) -> (int, int, int) {
    let pe = spec_outer_err(
        c.target_degrees.pitch as int,
        s.ahrs.ypr.pitch as int,
        c.pitch_pk as int,
    );
    let ye = spec_outer_err(c.target_degrees.yaw as int, s.ahrs.ypr.yaw as int, c.yaw_pk as int);
    let re = spec_outer_err(c.target_degrees.roll as int, s.ahrs.ypr.roll as int, c.roll_pk as int);
    (
        spec_rate_err(re, s.ahrs.biased_gyro[0] as int),
        spec_rate_err(pe, s.ahrs.biased_gyro[1] as int),
        spec_rate_err(ye, s.ahrs.biased_gyro[2] as int),
    )
}

/// The three-axis correction of one cycle; yaw is zero by design.
pub open spec fn spec_cmd3(s: State, c: Control) -> (int, int, int) {
    let (ex, ey, ez) = spec_errors3(s, c);
    (
        spec_corr(ex, s.errors[0] as int, c.pk as int, c.ik as int, c.dk as int),
        spec_corr(ey, s.errors[1] as int, c.pk as int, c.ik as int, c.dk as int),
        0,
    )
}

/// Product of a fixed-point value and a gain, wide and bounded: the gain
/// fits in 32 bits, so the product stays well inside the 128-bit range and
/// a few of them can be summed without wrapping.
fn mul_gain(a: i64, g: i32) -> (r: i128)
    ensures
        r as int == a as int * g as int,
        -0x400000000000000000000000 <= r as int <= 0x400000000000000000000000,
{
    proof {
        assert(-0x400000000000000000000000 <= (a as int) * (g as int)
            <= 0x400000000000000000000000) by (nonlinear_arith)
            requires
                i64::MIN <= (a as int) <= i64::MAX,
                i32::MIN <= (g as int) <= i32::MAX,
        ;
    }
    (a as i128) * (g as i128)
}

/// Map the current estimate and gains to a three-axis correction and the
/// error vector the next cycle differentiates against. The yaw correction is
/// zero by design.
pub fn body_rate(state: &State, control: &Control) -> (r: ([i64; 3], [i64; 3]))
    ensures
        ({
            let (ex, ey, ez) = spec_errors3(*state, *control);
            let (cx, cy, cz) = spec_cmd3(*state, *control);
            &&& r.1[0] == ex
            &&& r.1[1] == ey
            &&& r.1[2] == ez
            &&& r.0[0] == cx
            &&& r.0[1] == cy
            &&& r.0[2] == cz
        }),
{
    let pitch_target = to_rads(control.target_degrees.pitch);
    let roll_target = to_rads(control.target_degrees.roll);
    let yaw_target = to_rads(control.target_degrees.yaw);

    let pitch_err = sat_i64(
        mul_gain(sub_sat(pitch_target, state.ahrs.ypr.pitch), control.pitch_pk),
    );
    let yaw_err = sat_i64(mul_gain(sub_sat(yaw_target, state.ahrs.ypr.yaw), control.yaw_pk));
    let roll_err = sat_i64(
        mul_gain(sub_sat(roll_target, state.ahrs.ypr.roll), control.roll_pk),
    );

    let x_err = sub_sat(roll_err, state.ahrs.biased_gyro[0]);
    let y_err = sub_sat(pitch_err, state.ahrs.biased_gyro[1]);
    let z_err = sub_sat(yaw_err, state.ahrs.biased_gyro[2]);

    let i_comp: i64 = 0;
    let delta_x = sub_sat(x_err, state.errors[0]);
    let delta_y = sub_sat(y_err, state.errors[1]);
    let x_corr = sat_i64(
        mul_gain(x_err, control.pk) + mul_gain(i_comp, control.ik) + mul_gain(
            delta_x,
            control.dk,
        ),
    );
    let y_corr = sat_i64(
        mul_gain(y_err, control.pk) + mul_gain(i_comp, control.ik) + mul_gain(
            delta_y,
            control.dk,
        ),
    );
    let z_corr: i64 = 0;

    ([x_corr, y_corr, z_corr], [x_err, y_err, z_err])
}

} // verus!
