use flight_core::trig::{atan2_fix, isqrt, PI_2_FIX, PI_4_FIX, PI_FIX};

#[test]
fn integer_square_root_is_exact() {
    assert_eq!(isqrt(0), 0);
    assert_eq!(isqrt(1), 1);
    assert_eq!(isqrt(16), 4);
    assert_eq!(isqrt(17), 4);
    assert_eq!(isqrt(24), 4);
    assert_eq!(isqrt(25), 5);
    assert_eq!(isqrt(u64::MAX), 4_294_967_295);
    // The gravity magnitude used by the estimator at rest.
    assert_eq!(isqrt(9_800_000u64 * 9_800_000u64), 9_800_000);
}

#[test]
fn arctangent_is_exact_on_the_axes() {
    assert_eq!(atan2_fix(0, 9_800_000), 0);
    assert_eq!(atan2_fix(0, -9_800_000), PI_FIX);
    assert_eq!(atan2_fix(5, 0), PI_2_FIX);
    assert_eq!(atan2_fix(-5, 0), -PI_2_FIX);
    assert_eq!(atan2_fix(0, 0), 0);
}

#[test]
fn arctangent_is_exact_on_the_diagonal() {
    // atan(1) is exactly a quarter pi in this approximation: the correction
    // term vanishes at the ends of the unit interval.
    assert_eq!(atan2_fix(1_000_000, 1_000_000), PI_4_FIX);
    assert_eq!(atan2_fix(-1_000_000, 1_000_000), -PI_4_FIX);
}

#[test]
fn arctangent_is_antisymmetric_in_y() {
    for &(y, x) in &[(300_000i64, 900_000i64), (2_500_000, 700_000), (1, 1_000_000)] {
        assert_eq!(atan2_fix(y, x), -atan2_fix(-y, x));
    }
}

#[test]
fn arctangent_stays_within_half_turn() {
    let vals = [-9_800_000i64, -1_000_000, -1, 0, 1, 1_000_000, 9_800_000];
    for &y in &vals {
        for &x in &vals {
            let a = atan2_fix(y, x);
            assert!(-PI_FIX - 70_000 <= a && a <= PI_FIX + 70_000, "atan2({y},{x}) = {a}");
        }
    }
}
