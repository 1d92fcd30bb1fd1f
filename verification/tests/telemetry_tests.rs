use flight_core::communication::channel;
use flight_core::fmt::{push_fixed, push_int};
use flight_core::telemetry::create;
use flight_core::types::{Control, State};

fn fixed_string(v: i64) -> String {
    let mut out = Vec::new();
    push_fixed(&mut out, v);
    String::from_utf8(out).unwrap()
}

fn int_string(v: i32) -> String {
    let mut out = Vec::new();
    push_int(&mut out, v);
    String::from_utf8(out).unwrap()
}

#[test]
fn fixed_point_formatting_is_exact() {
    assert_eq!(fixed_string(0), "0.000000");
    assert_eq!(fixed_string(9_800_000), "9.800000");
    assert_eq!(fixed_string(-9_800_000), "-9.800000");
    assert_eq!(fixed_string(1), "0.000001");
    assert_eq!(fixed_string(-1), "-0.000001");
    assert_eq!(fixed_string(3_141_592), "3.141592");
    assert_eq!(fixed_string(1_000_000), "1.000000");
    assert_eq!(fixed_string(i64::MAX), "9223372036854.775807");
    assert_eq!(fixed_string(i64::MIN), "-9223372036854.775808");
}

#[test]
fn integer_formatting_is_exact() {
    assert_eq!(int_string(0), "0");
    assert_eq!(int_string(10), "10");
    assert_eq!(int_string(-42), "-42");
    assert_eq!(int_string(i32::MAX), "2147483647");
    assert_eq!(int_string(i32::MIN), "-2147483648");
}

#[test]
fn state_frame_shape_and_fields() {
    let tele = create();
    let state = State::new();
    let ch = channel();
    let (ch, _) = tele.state(&state, ch, false);
    let frame = String::from_utf8(ch.payload().clone()).unwrap();
    assert!(frame.starts_with("tm:"));
    assert!(frame.ends_with('\n'));
    let body = &frame[3..frame.len() - 1];
    let fields: Vec<&str> = body.split_terminator(';').collect();
    assert_eq!(fields.len(), 13);
    for f in fields {
        assert_eq!(f, "0.000000");
    }
}

#[test]
fn control_frame_shape_and_fields() {
    let tele = create();
    let mut control = Control::new();
    control.pk = 10;
    control.ik = -2;
    let ch = channel();
    let (ch, _) = tele.control(&control, ch, false);
    let frame = String::from_utf8(ch.payload().clone()).unwrap();
    assert_eq!(frame, "ct:10;-2;0;0;0;0;\n");
}

#[test]
fn busy_channel_drops_telemetry_frame() {
    let tele = create();
    let state = State::new();
    let ch = channel();
    let (ch, _) = ch.send(b"in flight", false);
    let (ch, outcome) = tele.state(&state, ch, false);
    assert_eq!(outcome, flight_core::communication::SendOutcome::Dropped);
    assert_eq!(ch.payload().as_slice(), b"in flight");
}
