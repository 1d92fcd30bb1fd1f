//! Attitude and heading estimation: one fused result per inertial sample.
//!
//! Roll is measured from gravity as `atan2(ay, az)` and pitch as
//! `atan(-ax / sqrt(ay^2 + az^2))`; each axis runs through its own scalar
//! angle/bias Kalman filter driven by the gyro rate, and yaw, with no
//! magnetometer to reference, integrates the gyro alone. A gimbal guard
//! snaps the roll filter straight to the raw measurement when the filtered
//! and measured roll sit on opposite sides of the attitude wrap.

use crate::fixed::{add_sat, mul_fix, sat64, spec_mul_fix, sub_sat};
use crate::kalman::{spec_step, AngularKalman};
use crate::trig::{atan2_fix, isqrt, spec_atan2, spec_isqrt, PI_2_FIX};
use vstd::prelude::*;

verus! {

/// Orientation as yaw, pitch and roll, in fixed-point radians.
#[derive(Clone, Copy, PartialEq, Eq, Structural, Debug)]
pub struct EulerAngles {
    pub yaw: i64,
    pub pitch: i64,
    pub roll: i64,
}

/// One raw inertial sample: specific force and angular rate on three axes,
/// fixed-point, in m/s^2 and rad/s.
#[derive(Clone, Copy, PartialEq, Debug)]
pub struct ImuSample {
    pub accel: [i64; 3],
    pub gyro: [i64; 3],
}

/// One fused estimate: the sample it came from, the orientation, the
/// bias-corrected angular rate, and the time step that was integrated.
#[derive(Clone, Copy, PartialEq, Debug)]
pub struct AhrsResult {
    pub accel: [i64; 3],
    pub gyro: [i64; 3],
    pub dt_s: i64,
    pub ypr: EulerAngles,
    pub biased_gyro: [i64; 3],
}

impl AhrsResult {
    /// Spec view of the all-zero estimate.
    pub open spec fn zeroed() -> AhrsResult {
        AhrsResult {
            accel: [0i64, 0i64, 0i64],
            gyro: [0i64, 0i64, 0i64],
            dt_s: 0,
            ypr: EulerAngles { yaw: 0, pitch: 0, roll: 0 },
            biased_gyro: [0i64, 0i64, 0i64],
        }
    }

    /// The estimate the loop starts from, before any sample arrived.
    pub fn new() -> (r: AhrsResult)
        ensures
            r == AhrsResult::zeroed(),
    {
        AhrsResult {
            accel: [0i64, 0i64, 0i64],
            gyro: [0i64, 0i64, 0i64],
            dt_s: 0,
            ypr: EulerAngles { yaw: 0, pitch: 0, roll: 0 },
            biased_gyro: [0i64, 0i64, 0i64],
        }
    }

    /// The ten short telemetry fields: accel, gyro, time step, yaw, pitch,
    /// roll.
    pub fn short_results(&self) -> (r: [i64; 10])
        ensures
            r@ == seq![
                self.accel[0],
                self.accel[1],
                self.accel[2],
                self.gyro[0],
                self.gyro[1],
                self.gyro[2],
                self.dt_s,
                self.ypr.yaw,
                self.ypr.pitch,
                self.ypr.roll,
            ],
    {
        let r = [
            self.accel[0],
            self.accel[1],
            self.accel[2],
            self.gyro[0],
            self.gyro[1],
            self.gyro[2],
            self.dt_s,
            self.ypr.yaw,
            self.ypr.pitch,
            self.ypr.roll,
        ];
        proof {
            assert(r@ =~= seq![
                self.accel[0],
                self.accel[1],
                self.accel[2],
                self.gyro[0],
                self.gyro[1],
                self.gyro[2],
                self.dt_s,
                self.ypr.yaw,
                self.ypr.pitch,
                self.ypr.roll,
            ]);
        }
        r
    }

    /// The thirteen long telemetry fields: the short ones and the
    /// bias-corrected gyro.
    pub fn long_results(&self) -> (r: [i64; 13])
        ensures
            r@ == seq![
                self.accel[0],
                self.accel[1],
                self.accel[2],
                self.gyro[0],
                self.gyro[1],
                self.gyro[2],
                self.dt_s,
                self.ypr.yaw,
                self.ypr.pitch,
                self.ypr.roll,
                self.biased_gyro[0],
                self.biased_gyro[1],
                self.biased_gyro[2],
            ],
    {
        let r = [
            self.accel[0],
            self.accel[1],
            self.accel[2],
            self.gyro[0],
            self.gyro[1],
            self.gyro[2],
            self.dt_s,
            self.ypr.yaw,
            self.ypr.pitch,
            self.ypr.roll,
            self.biased_gyro[0],
            self.biased_gyro[1],
            self.biased_gyro[2],
        ];
        proof {
            assert(r@ =~= seq![
                self.accel[0],
                self.accel[1],
                self.accel[2],
                self.gyro[0],
                self.gyro[1],
                self.gyro[2],
                self.dt_s,
                self.ypr.yaw,
                self.ypr.pitch,
                self.ypr.roll,
                self.biased_gyro[0],
                self.biased_gyro[1],
                self.biased_gyro[2],
            ]);
        }
        r
    }
}

/// Access to the short telemetry projection of an estimate.
pub trait AhrsShortResult {
    /// The ten short telemetry fields.
    fn short_results(&self) -> [i64; 10];
}

/// Access to the long telemetry projection of an estimate.
pub trait AhrsLongResult {
    /// The thirteen long telemetry fields.
    fn long_results(&self) -> [i64; 13];
}

impl AhrsShortResult for AhrsResult {
    fn short_results(&self) -> [i64; 10] {
        AhrsResult::short_results(self)
    }
}

impl AhrsLongResult for AhrsResult {
    fn long_results(&self) -> [i64; 13] {
        AhrsResult::long_results(self)
    }
}

/// Largest accepted magnitude of one accelerometer component, far past any
/// physical specific force: keeps the sum of two squares inside 64 bits.
pub const ACCEL_LIMIT: i64 = 3_000_000_000;

/// The gimbal guard fires when the filtered and the measured roll disagree
/// in sign while both exceed a quarter turn: the wrap boundary.
pub open spec fn gimbal_conflict(filtered: int, measured: int) -> bool {
    (filtered > PI_2_FIX as int && measured < -(PI_2_FIX as int)) || (filtered < -(PI_2_FIX as int)
        && measured > PI_2_FIX as int)
}

/// Roll measured from gravity.
pub open spec fn spec_measured_roll(ay: int, az: int) -> int {
    spec_atan2(ay, az)
}

/// Pitch measured from gravity.
pub open spec fn spec_measured_pitch(ax: int, ay: int, az: int) -> int {
    spec_atan2(-ax, spec_isqrt(ay * ay + az * az))
}

/// The sensor-fusion state: one scalar filter per gravity-referenced axis
/// and the integrated yaw.
pub struct AHRS {
    pub roll_kf: AngularKalman,
    pub pitch_kf: AngularKalman,
    pub yaw: i64,
}

impl AHRS {
    /// A fresh estimator with the given filter noise parameters on both
    /// axes.
    pub fn create(q_a: i64, q_b: i64, r: i64) -> (a: AHRS)
        ensures
            a.roll_kf == AngularKalman::spec_new(q_a, q_b, r),
            a.pitch_kf == AngularKalman::spec_new(q_a, q_b, r),
            a.yaw == 0,
    {
        AHRS { roll_kf: AngularKalman::new(q_a, q_b, r), pitch_kf: AngularKalman::new(q_a, q_b, r), yaw: 0 }
    }

    /// Fuse one sample over one time step. Roll and pitch come from the
    /// per-axis filters against the gravity-measured angles (with the gimbal
    /// guard on roll); yaw integrates the gyro; the bias-corrected rates use
    /// the filters' updated bias estimates.
    pub fn estimate(&mut self, sample: &ImuSample, dt_s: i64) -> (r: AhrsResult)
        requires
            forall|i: int| 0 <= i < 3 ==> -ACCEL_LIMIT <= #[trigger] sample.accel[i] <= ACCEL_LIMIT,
        ensures
            r.accel == sample.accel,
            r.gyro == sample.gyro,
            r.dt_s == dt_s,
            ({
                let mroll = spec_measured_roll(sample.accel[1] as int, sample.accel[2] as int);
                let mpitch = spec_measured_pitch(
                    sample.accel[0] as int,
                    sample.accel[1] as int,
                    sample.accel[2] as int,
                );
                &&& (if gimbal_conflict(old(self).roll_kf.angle as int, mroll) {
                    final(self).roll_kf == (AngularKalman {
                        angle: r.ypr.roll,
                        ..old(self).roll_kf
                    }) && r.ypr.roll as int == mroll
                } else {
                    final(self).roll_kf@ == spec_step(
                        old(self).roll_kf@,
                        mroll,
                        sample.gyro[0] as int,
                        dt_s as int,
                    )
                })
                &&& final(self).pitch_kf@ == spec_step(
                    old(self).pitch_kf@,
                    mpitch,
                    sample.gyro[1] as int,
                    dt_s as int,
                )
                &&& r.ypr.roll == final(self).roll_kf.angle
                &&& r.ypr.pitch == final(self).pitch_kf.angle
                &&& final(self).yaw as int == sat64(
                    old(self).yaw + spec_mul_fix(sample.gyro[2] as int, dt_s as int),
                )
                &&& r.ypr.yaw == final(self).yaw
                &&& r.biased_gyro[0] as int == sat64(
                    sample.gyro[0] - final(self).roll_kf.bias,
                )
                &&& r.biased_gyro[1] as int == sat64(
                    sample.gyro[1] - final(self).pitch_kf.bias,
                )
                &&& r.biased_gyro[2] == sample.gyro[2]
            }),
    {
        let ax = sample.accel[0];
        let ay = sample.accel[1];
        let az = sample.accel[2];

        proof {
            assert(-ACCEL_LIMIT <= sample.accel[1] <= ACCEL_LIMIT);
            assert(-ACCEL_LIMIT <= sample.accel[2] <= ACCEL_LIMIT);
            assert(0 <= (ay as int) * (ay as int) <= 9_000_000_000_000_000_000int && 0 <= (
            az as int) * (az as int) <= 9_000_000_000_000_000_000int) by (nonlinear_arith)
                requires
                    -3_000_000_000 <= (ay as int) <= 3_000_000_000,
                    -3_000_000_000 <= (az as int) <= 3_000_000_000,
            ;
        }
        let sq: i128 = (ay as i128) * (ay as i128) + (az as i128) * (az as i128);
        let denom_sq: u64 = sq as u64;
        let denom: u64 = isqrt(denom_sq);
        proof {
            assert(denom as int * denom as int <= denom_sq as int);
            assert(denom as int <= 5_000_000_000) by (nonlinear_arith)
                requires
                    0 <= denom as int,
                    (denom as int) * (denom as int) <= 18_000_000_000_000_000_000int,
            ;
        }

        let measured_roll = atan2_fix(ay, az);
        let measured_pitch = atan2_fix(-ax, denom as i64);

        let filtered = self.roll_kf.angle;
        let roll: i64 = if (filtered > PI_2_FIX && measured_roll < -PI_2_FIX) || (filtered
            < -PI_2_FIX && measured_roll > PI_2_FIX) {
            self.roll_kf.snap(measured_roll);
            measured_roll
        } else {
            self.roll_kf.step(measured_roll, sample.gyro[0], dt_s)
        };
        let pitch = self.pitch_kf.step(measured_pitch, sample.gyro[1], dt_s);
        self.yaw = add_sat(self.yaw, mul_fix(sample.gyro[2], dt_s));

        let biased = [
            sub_sat(sample.gyro[0], self.roll_kf.bias),
            sub_sat(sample.gyro[1], self.pitch_kf.bias),
            sample.gyro[2],
        ];
        AhrsResult {
            accel: sample.accel,
            gyro: sample.gyro,
            dt_s,
            ypr: EulerAngles { yaw: self.yaw, pitch, roll },
            biased_gyro: biased,
        }
    }
}

} // verus!
