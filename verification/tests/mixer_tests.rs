use flight_core::fixed::SCALE;
use flight_core::mixer::{hex_mixer, quad_x_mixer, MotorCtrl};

#[test]
fn duty_always_within_range() {
    let mut m = quad_x_mixer(2000);
    let extremes = [i64::MIN, -1, 0, 1, i64::MAX, SCALE, -SCALE];
    for &x in &extremes {
        for &y in &extremes {
            m.set_duty(x, y, x, y);
            for &d in m.get_duty().iter() {
                assert!(d <= 2000);
            }
        }
    }
}

#[test]
fn hover_gives_equal_duty_on_all_motors() {
    let mut m = quad_x_mixer(2000);
    m.set_duty(0, 0, 0, 1000 * SCALE);
    let duties = m.get_duty();
    assert_eq!(duties, vec![1000, 1000, 1000, 1000]);
}

#[test]
fn thrust_beyond_range_clamps_to_max() {
    let mut m = quad_x_mixer(2000);
    m.set_duty(0, 0, 0, i64::MAX);
    assert_eq!(m.get_duty(), vec![2000, 2000, 2000, 2000]);
    m.set_duty(0, 0, 0, -5 * SCALE);
    assert_eq!(m.get_duty(), vec![0, 0, 0, 0]);
}

#[test]
fn roll_demand_splits_left_and_right() {
    // The first matrix column is the x (roll) response: rear right and
    // front right spin up, the left pair spins down.
    let mut m = quad_x_mixer(2000);
    m.set_duty(100 * SCALE, 0, 0, 1000 * SCALE);
    let duties = m.get_duty();
    assert_eq!(duties, vec![1100, 1100, 900, 900]);
}

#[test]
fn hex_matrix_is_exact() {
    let mut m = hex_mixer(2000);
    // Pure roll demand of one unit: the per-motor responses are exactly the
    // first-column entries, scaled onto a 1000-count hover.
    m.set_duty(1000 * SCALE, 0, 0, 1000 * SCALE);
    let duties = m.get_duty();
    assert_eq!(duties, vec![1567, 1567, 433, 433, 0, 2000]);
}

#[test]
fn dummy_motor_ctrl_accepts_commands() {
    let mut none = ();
    none.set_duty(1, 2, 3, 4);
}

#[test]
fn trait_and_inherent_agree() {
    let mut a = quad_x_mixer(2000);
    let mut b = quad_x_mixer(2000);
    a.set_duty(7 * SCALE, -3 * SCALE, SCALE, 500 * SCALE);
    MotorCtrl::set_duty(&mut b, 7 * SCALE, -3 * SCALE, SCALE, 500 * SCALE);
    assert_eq!(a.get_duty(), b.get_duty());
}
