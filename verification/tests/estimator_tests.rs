use flight_core::ahrs::{ImuSample, AHRS};
use flight_core::kalman::AngularKalman;
use flight_core::trig::PI_FIX;

#[test]
fn kalman_fixed_point_on_matching_measurement() {
    // With a zero bias, a zero gyro rate and a measurement equal to the
    // current angle, the step must leave the angle exactly unchanged.
    let mut k = AngularKalman::new(1000, 3, 30000);
    k.angle = 500_000;
    for _ in 0..50 {
        let a = k.step(500_000, 0, 10_000);
        assert_eq!(a, 500_000);
        assert_eq!(k.bias, 0);
    }
}

#[test]
fn kalman_single_step_exact_value() {
    // One step from the zero state with measurement 0.1 rad: the covariance
    // grows by dt * q_a, the gain follows, and the angle moves by exactly
    // the truncated fixed-point amount.
    let mut k = AngularKalman::new(1000, 3, 30000);
    let a = k.step(100_000, 0, 10_000);
    assert_eq!(a, 33);
    assert_eq!(k.p00, 10);
    assert_eq!(k.s, 30_010);
}

#[test]
fn kalman_moves_toward_measurement_without_overshoot() {
    let mut k = AngularKalman::new(1000, 3, 30000);
    let mut prev = 0i64;
    let mut last = 0i64;
    for _ in 0..200 {
        last = k.step(1_000_000, 0, 10_000);
        // Chases the measurement, never past it, never backward.
        assert!(prev <= last && last <= 1_000_000, "{prev} -> {last}");
        prev = last;
    }
    assert!(last > 500_000, "filter should approach the measurement, got {last}");
}

#[test]
fn estimator_settles_at_rest() {
    // A motionless vehicle: gravity on the z axis, no rotation, 10 ms
    // cycles. Pitch must settle at zero; roll settles at the angle the
    // documented measurement model assigns to this gravity vector,
    // atan2(0, -9.8), i.e. pi.
    let mut ahrs = AHRS::create(1000, 3, 30000);
    let sample = ImuSample { accel: [0, 0, -9_800_000], gyro: [0, 0, 0] };
    let mut result = ahrs.estimate(&sample, 10_000);
    for _ in 0..1500 {
        result = ahrs.estimate(&sample, 10_000);
    }
    assert!(result.ypr.pitch.abs() < 1_000, "pitch {}", result.ypr.pitch);
    assert!((result.ypr.roll - PI_FIX).abs() < 1_000, "roll {}", result.ypr.roll);
    assert_eq!(result.ypr.yaw, 0);
    assert_eq!(result.biased_gyro, [0, 0, 0]);
    assert_eq!(result.accel, [0, 0, -9_800_000]);
    assert_eq!(result.dt_s, 10_000);
}

#[test]
fn estimator_level_gravity_gives_zero_angles() {
    // Gravity reported on the positive z axis: both measured angles are
    // exactly zero and stay there.
    let mut ahrs = AHRS::create(1000, 3, 30000);
    let sample = ImuSample { accel: [0, 0, 9_800_000], gyro: [0, 0, 0] };
    for _ in 0..100 {
        let r = ahrs.estimate(&sample, 10_000);
        assert_eq!(r.ypr.pitch, 0);
        assert_eq!(r.ypr.roll, 0);
    }
}

#[test]
fn estimator_integrates_yaw_rate() {
    let mut ahrs = AHRS::create(1000, 3, 30000);
    // 0.1 rad/s about z for one second of 10 ms cycles.
    let sample = ImuSample { accel: [0, 0, 9_800_000], gyro: [0, 0, 100_000] };
    let mut r = ahrs.estimate(&sample, 10_000);
    for _ in 0..99 {
        r = ahrs.estimate(&sample, 10_000);
    }
    assert_eq!(r.ypr.yaw, 100_000);
    assert_eq!(r.biased_gyro[2], 100_000);
}

#[test]
fn gimbal_guard_snaps_across_the_wrap() {
    let mut ahrs = AHRS::create(1000, 3, 30000);
    // Drive the roll filter just past +90 degrees.
    ahrs.roll_kf.angle = 3_000_000;
    // A measurement just past -90 degrees on the other side of the wrap:
    // the filter state snaps straight to it.
    let sample = ImuSample { accel: [0, -100_000, -9_800_000], gyro: [0, 0, 0] };
    let r = ahrs.estimate(&sample, 10_000);
    assert!(r.ypr.roll < -3_000_000, "snapped roll, got {}", r.ypr.roll);
    assert_eq!(r.ypr.roll, ahrs.roll_kf.angle);
}

#[test]
fn result_projections_carry_all_fields() {
    let mut ahrs = AHRS::create(1000, 3, 30000);
    let sample = ImuSample { accel: [1, 2, 3], gyro: [4, 5, 6] };
    let r = ahrs.estimate(&sample, 7);
    let short = r.short_results();
    assert_eq!(&short[0..6], &[1, 2, 3, 4, 5, 6]);
    assert_eq!(short[6], 7);
    assert_eq!(short[7], r.ypr.yaw);
    assert_eq!(short[8], r.ypr.pitch);
    assert_eq!(short[9], r.ypr.roll);
    let long = r.long_results();
    assert_eq!(&long[0..10], &short[..]);
    assert_eq!(&long[10..13], &r.biased_gyro[..]);
}
