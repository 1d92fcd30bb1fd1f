//! Scalar angle/bias Kalman filter, one instance per axis.
//!
//! The state is an angle, a slowly varying gyro bias, and a 2x2 covariance,
//! all fixed-point. The prediction integrates the debiased gyro rate; the
//! correction blends in a measured angle through the computed gain. The
//! covariance correction is first-order and not symmetrized, and the later
//! covariance entries read the already-updated earlier ones, exactly in the
//! order the update is written below.

use crate::fixed::{add_sat, div_fix, mul_fix, sat64, spec_div_fix, spec_mul_fix, sub_sat};
use vstd::prelude::*;

verus! {

/// Ghost image of a filter: every field as a mathematical integer.
pub ghost struct KalmanModel {
    pub q_a: int,
    pub q_b: int,
    pub r: int,
    pub angle: int,
    pub bias: int,
    pub rate: int,
    pub p00: int,
    pub p01: int,
    pub p10: int,
    pub p11: int,
    pub k0: int,
    pub k1: int,
    pub y: int,
    pub s: int,
}

impl KalmanModel {
    /// All fields within the `i64` range, as they are in any filter value.
    pub open spec fn wf(self) -> bool {
        &&& i64::MIN <= self.q_a <= i64::MAX
        &&& i64::MIN <= self.q_b <= i64::MAX
        &&& i64::MIN <= self.r <= i64::MAX
        &&& i64::MIN <= self.angle <= i64::MAX
        &&& i64::MIN <= self.bias <= i64::MAX
        &&& i64::MIN <= self.rate <= i64::MAX
        &&& i64::MIN <= self.p00 <= i64::MAX
        &&& i64::MIN <= self.p01 <= i64::MAX
        &&& i64::MIN <= self.p10 <= i64::MAX
        &&& i64::MIN <= self.p11 <= i64::MAX
        &&& i64::MIN <= self.k0 <= i64::MAX
        &&& i64::MIN <= self.k1 <= i64::MAX
        &&& i64::MIN <= self.y <= i64::MAX
        &&& i64::MIN <= self.s <= i64::MAX
    }
}

/// One filter step on the model: predict from the debiased rate, propagate
/// the covariance, then correct toward the measured angle. When the innovation
/// covariance degenerates to exactly zero the gains are taken as zero and the
/// measurement is ignored for that step.
pub open spec fn spec_step(m: KalmanModel, angle: int, rate: int, dt: int) -> KalmanModel {
    let rate1 = sat64(rate - m.bias);
    let angle1 = sat64(m.angle + spec_mul_fix(rate1, dt));
    let dtp11 = spec_mul_fix(dt, m.p11);
    let inner = sat64(sat64(sat64(dtp11 - m.p01) - m.p10) + m.q_a);
    let p00_1 = sat64(m.p00 + spec_mul_fix(dt, inner));
    let p01_1 = sat64(m.p01 - dtp11);
    let p10_1 = sat64(m.p10 - dtp11);
    let p11_1 = sat64(m.p11 + spec_mul_fix(m.q_b, dt));
    let s1 = sat64(p00_1 + m.r);
    let k0_1 = if s1 == 0 {
        0
    } else {
        spec_div_fix(p00_1, s1)
    };
    let k1_1 = if s1 == 0 {
        0
    } else {
        spec_div_fix(p10_1, s1)
    };
    let y1 = sat64(angle - angle1);
    let angle2 = sat64(angle1 + spec_mul_fix(k0_1, y1));
    let bias1 = sat64(m.bias + spec_mul_fix(k1_1, y1));
    let p00_2 = sat64(p00_1 - spec_mul_fix(k0_1, p00_1));
    let p01_2 = sat64(p01_1 - spec_mul_fix(k0_1, p01_1));
    let p10_2 = sat64(p10_1 - spec_mul_fix(k1_1, p00_2));
    let p11_2 = sat64(p11_1 - spec_mul_fix(k1_1, p01_2));
    KalmanModel {
        q_a: m.q_a,
        q_b: m.q_b,
        r: m.r,
        angle: angle2,
        bias: bias1,
        rate: rate1,
        p00: p00_2,
        p01: p01_2,
        p10: p10_2,
        p11: p11_2,
        k0: k0_1,
        k1: k1_1,
        y: y1,
        s: s1,
    }
}

/// Scalar Kalman filter over one axis: angle and gyro bias.
#[derive(Clone, Copy, PartialEq, Eq, Structural, Debug)]
pub struct AngularKalman {
    pub q_a: i64,
    pub q_b: i64,
    pub r: i64,
    pub angle: i64,
    pub bias: i64,
    pub rate: i64,
    pub p00: i64,
    pub p01: i64,
    pub p10: i64,
    pub p11: i64,
    pub k0: i64,
    pub k1: i64,
    pub y: i64,
    pub s: i64,
}

impl View for AngularKalman {
    type V = KalmanModel;

    open spec fn view(&self) -> KalmanModel {
        KalmanModel {
            q_a: self.q_a as int,
            q_b: self.q_b as int,
            r: self.r as int,
            angle: self.angle as int,
            bias: self.bias as int,
            rate: self.rate as int,
            p00: self.p00 as int,
            p01: self.p01 as int,
            p10: self.p10 as int,
            p11: self.p11 as int,
            k0: self.k0 as int,
            k1: self.k1 as int,
            y: self.y as int,
            s: self.s as int,
        }
    }
}

impl AngularKalman {
    /// The fresh filter for the given noise parameters, as a spec value.
    pub open spec fn spec_new(q_a: i64, q_b: i64, r: i64) -> AngularKalman {
        AngularKalman {
            q_a,
            q_b,
            r,
            angle: 0,
            bias: 0,
            rate: 0,
            p00: 0,
            p01: 0,
            p10: 0,
            p11: 0,
            k0: 0,
            k1: 0,
            y: 0,
            s: 0,
        }
    }

    /// A fresh filter: given process noises and measurement noise, everything
    /// else zero.
    pub fn new(q_a: i64, q_b: i64, r: i64) -> (k: AngularKalman)
        ensures
            k@ == (KalmanModel {
                q_a: q_a as int,
                q_b: q_b as int,
                r: r as int,
                angle: 0,
                bias: 0,
                rate: 0,
                p00: 0,
                p01: 0,
                p10: 0,
                p11: 0,
                k0: 0,
                k1: 0,
                y: 0,
                s: 0,
            }),
    {
        AngularKalman {
            q_a,
            q_b,
            r,
            angle: 0,
            bias: 0,
            rate: 0,
            p00: 0,
            p01: 0,
            p10: 0,
            p11: 0,
            k0: 0,
            k1: 0,
            y: 0,
            s: 0,
        }
    }

    /// One predict/correct step: `angle` is the measured angle, `rate` the raw
    /// gyro rate, `dt` the elapsed time, all fixed-point. Returns the filtered
    /// angle.
    pub fn step(&mut self, angle: i64, rate: i64, dt: i64) -> (a: i64)
        ensures
            final(self)@ == spec_step(old(self)@, angle as int, rate as int, dt as int),
            a == final(self).angle,
    {
        self.rate = sub_sat(rate, self.bias);
        self.angle = add_sat(self.angle, mul_fix(self.rate, dt));
        let dtp11 = mul_fix(dt, self.p11);
        let inner = add_sat(sub_sat(sub_sat(dtp11, self.p01), self.p10), self.q_a);
        self.p00 = add_sat(self.p00, mul_fix(dt, inner));
        self.p01 = sub_sat(self.p01, dtp11);
        self.p10 = sub_sat(self.p10, dtp11);
        self.p11 = add_sat(self.p11, mul_fix(self.q_b, dt));

        self.s = add_sat(self.p00, self.r);
        if self.s == 0 {
            self.k0 = 0;
            self.k1 = 0;
        } else {
            self.k0 = div_fix(self.p00, self.s);
            self.k1 = div_fix(self.p10, self.s);
        }

        self.y = sub_sat(angle, self.angle);
        self.angle = add_sat(self.angle, mul_fix(self.k0, self.y));
        self.bias = add_sat(self.bias, mul_fix(self.k1, self.y));

        self.p00 = sub_sat(self.p00, mul_fix(self.k0, self.p00));
        self.p01 = sub_sat(self.p01, mul_fix(self.k0, self.p01));
        self.p10 = sub_sat(self.p10, mul_fix(self.k1, self.p00));
        self.p11 = sub_sat(self.p11, mul_fix(self.k1, self.p01));

        self.angle
    }

    /// Overwrite the filtered angle with a raw measurement; the gimbal guard
    /// uses this at the attitude wrap boundary instead of an incremental
    /// correction.
    pub fn snap(&mut self, angle: i64)
        ensures
            *final(self) == (AngularKalman { angle, ..*old(self) }),
    {
        self.angle = angle;
    }
}

/// Every field a step writes is saturated into the 64-bit range, so a step
/// taken from any well-formed state yields a well-formed state.
pub proof fn lemma_step_preserves_wf(m: KalmanModel, angle: int, rate: int, dt: int)
    requires
        m.wf(),
    ensures
        spec_step(m, angle, rate, dt).wf(),
{
}

/// With a zero bias estimate, a zero gyro rate and a measurement equal to the
/// current angle estimate, one filter step leaves both the angle and the bias
/// exactly unchanged, whatever the covariance: the estimate is a fixed point
/// of the step.
pub proof fn lemma_step_fixed_point(m: KalmanModel, dt: int)
    requires
        m.wf(),
        m.bias == 0,
    ensures
        spec_step(m, m.angle, 0, dt).angle == m.angle,
        spec_step(m, m.angle, 0, dt).bias == 0,
{
    let stepped = spec_step(m, m.angle, 0, dt);
    assert(sat64(0 - m.bias) == 0);
    let rate1 = sat64(0 - m.bias);
    assert(spec_mul_fix(rate1, dt) == 0) by {
        assert(rate1 * dt == 0) by (nonlinear_arith)
            requires
                rate1 == 0,
        ;
        assert(crate::fixed::tdiv(0, crate::fixed::SCALE as int) == 0);
    }
    let angle1 = sat64(m.angle + spec_mul_fix(rate1, dt));
    assert(angle1 == m.angle);
    let y1 = sat64(m.angle - angle1);
    assert(y1 == 0);
    assert(forall|g: int| spec_mul_fix(g, 0) == 0) by {
        assert(forall|g: int| #[trigger] (g * 0) == 0);
        assert(crate::fixed::tdiv(0, crate::fixed::SCALE as int) == 0);
    }
    assert(stepped.angle == sat64(angle1 + spec_mul_fix(stepped.k0, y1)));
    assert(stepped.angle == m.angle);
    assert(stepped.bias == sat64(m.bias + spec_mul_fix(stepped.k1, y1)));
    assert(stepped.bias == 0);
}

/// The gain stays in the unit interval whenever the predicted covariance is
/// nonnegative and the measurement noise positive: the innovation covariance
/// is then at least the covariance, so their ratio is at most one.
pub proof fn lemma_gain_unit_interval(p00: int, r: int)
    requires
        0 <= p00,
        1 <= r,
        p00 + r <= i64::MAX,
    ensures
        0 <= spec_div_fix(p00, sat64(p00 + r)) <= crate::fixed::SCALE as int,
{
    let s = sat64(p00 + r);
    assert(s == p00 + r);
    let sc = crate::fixed::SCALE as int;
    assert(0 <= p00 * sc <= s * sc) by (nonlinear_arith)
        requires
            0 <= p00 <= s,
            sc == 1_000_000,
    ;
    vstd::arithmetic::div_mod::lemma_div_is_ordered(0, p00 * sc, s);
    vstd::arithmetic::div_mod::lemma_div_is_ordered(p00 * sc, s * sc, s);
    vstd::arithmetic::div_mod::lemma_div_multiples_vanish(sc, s);
    assert(s * sc == sc * s) by (nonlinear_arith);
    assert((p00 * sc) / s <= sc);
}

/// With a gain in the unit interval, one correction never overshoots: the
/// corrected angle lies between the angle it started from and the measured
/// angle, on whichever side the measurement sits.
pub proof fn lemma_correction_bounded(a: int, measured: int, k: int)
    requires
        0 <= k <= crate::fixed::SCALE as int,
        i64::MIN <= a <= i64::MAX,
        i64::MIN <= measured <= i64::MAX,
    ensures
        ({
            let y = sat64(measured - a);
            let corrected = sat64(a + spec_mul_fix(k, y));
            &&& (a <= measured ==> a <= corrected <= measured)
            &&& (measured <= a ==> measured <= corrected <= a)
        }),
{
    let sc = crate::fixed::SCALE as int;
    let y = sat64(measured - a);
    if a <= measured {
        assert(0 <= y <= measured - a);
        assert(0 <= k * y <= sc * y) by (nonlinear_arith)
            requires
                0 <= k <= sc,
                0 <= y,
        ;
        vstd::arithmetic::div_mod::lemma_div_is_ordered(0, k * y, sc);
        vstd::arithmetic::div_mod::lemma_div_is_ordered(k * y, sc * y, sc);
        vstd::arithmetic::div_mod::lemma_div_multiples_vanish(y, sc);
        assert(crate::fixed::tdiv(k * y, sc) <= y);
        assert(spec_mul_fix(k, y) <= y);
        assert(0 <= spec_mul_fix(k, y));
    } else {
        assert(measured - a <= y <= 0);
        let yp = -y;
        assert(0 <= k * yp <= sc * yp) by (nonlinear_arith)
            requires
                0 <= k <= sc,
                0 <= yp,
        ;
        vstd::arithmetic::div_mod::lemma_div_is_ordered(0, k * yp, sc);
        vstd::arithmetic::div_mod::lemma_div_is_ordered(k * yp, sc * yp, sc);
        vstd::arithmetic::div_mod::lemma_div_multiples_vanish(yp, sc);
        assert((k * yp) / sc <= yp);
        assert(k * y == -(k * yp)) by (nonlinear_arith)
            requires
                yp == -y,
        ;
        assert(crate::fixed::tdiv(k * y, sc) >= y);
        assert(spec_mul_fix(k, y) >= y);
        assert(spec_mul_fix(k, y) <= 0);
    }
}

/// The correction chases the measurement and never passes it: when a step's
/// computed gain lies in the unit interval (as it does whenever the
/// predicted covariance is nonnegative, by `lemma_gain_unit_interval`), the
/// angle the step returns lies between the predicted angle and the measured
/// angle. Together with the fixed point at agreement, this is the sense in
/// which repeated steps settle on a steady measurement.
pub proof fn lemma_step_chases_measurement(m: KalmanModel, angle: int, rate: int, dt: int)
    requires
        m.wf(),
        i64::MIN <= angle <= i64::MAX,
        0 <= spec_step(m, angle, rate, dt).k0 <= crate::fixed::SCALE as int,
    ensures
        ({
            let stepped = spec_step(m, angle, rate, dt);
            let predicted = sat64(m.angle + spec_mul_fix(sat64(rate - m.bias), dt));
            &&& (predicted <= angle ==> predicted <= stepped.angle <= angle)
            &&& (angle <= predicted ==> angle <= stepped.angle <= predicted)
        }),
{
    let stepped = spec_step(m, angle, rate, dt);
    let predicted = sat64(m.angle + spec_mul_fix(sat64(rate - m.bias), dt));
    lemma_correction_bounded(predicted, angle, stepped.k0);
    assert(stepped.angle == sat64(predicted + spec_mul_fix(stepped.k0, sat64(angle - predicted))));
}

/// The filter state after `n` steps, all with the same measured angle, a
/// zero gyro rate and the same time step.
pub open spec fn spec_step_n(m: KalmanModel, angle: int, dt: int, n: nat) -> KalmanModel
    decreases n,
{
    if n == 0 {
        m
    } else {
        spec_step(spec_step_n(m, angle, dt, (n - 1) as nat), angle, 0, dt)
    }
}

/// The fixed point persists: from a zero bias estimate, however many steps
/// are taken with a zero gyro rate and a measurement equal to the starting
/// angle, the angle and the bias never move, whatever the covariance does.
pub proof fn lemma_fixed_point_persists(m: KalmanModel, dt: int, n: nat)
    requires
        m.wf(),
        m.bias == 0,
    ensures
        spec_step_n(m, m.angle, dt, n).wf(),
        spec_step_n(m, m.angle, dt, n).angle == m.angle,
        spec_step_n(m, m.angle, dt, n).bias == 0,
    decreases n,
{
    if n > 0 {
        lemma_fixed_point_persists(m, dt, (n - 1) as nat);
        let prev = spec_step_n(m, m.angle, dt, (n - 1) as nat);
        lemma_step_preserves_wf(prev, m.angle, 0, dt);
        lemma_step_fixed_point(prev, dt);
        assert(spec_step(prev, prev.angle, 0, dt).angle == prev.angle);
    }
}

} // verus!
