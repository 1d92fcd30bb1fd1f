use flight_core::cmd::Cmd;
use flight_core::types::{Control, Requests};

fn feed_str(cmd: &mut Cmd, control: &mut Control, s: &str) -> Vec<Option<Requests>> {
    let mut out = Vec::new();
    for b in s.bytes() {
        out.push(cmd.feed(b, control));
    }
    out
}

#[test]
fn feed_pk_byte_by_byte() {
    let mut cmd = Cmd::new();
    let mut control = Control::new();
    let outs = feed_str(&mut cmd, &mut control, "pk=10\r\n");
    assert_eq!(control.pk, 10);
    assert!(outs.iter().all(|o| o.is_none()));
}

#[test]
fn feed_pk_in_two_chunks_same_result() {
    let mut cmd_a = Cmd::new();
    let mut control_a = Control::new();
    feed_str(&mut cmd_a, &mut control_a, "pk=10\r\n");

    let mut cmd_b = Cmd::new();
    let mut control_b = Control::new();
    feed_str(&mut cmd_b, &mut control_b, "pk");
    feed_str(&mut cmd_b, &mut control_b, "=10\r\n");

    assert_eq!(control_a, control_b);
    assert_eq!(control_b.pk, 10);
}

#[test]
fn feed_status_emits_request() {
    let mut cmd = Cmd::new();
    let mut control = Control::new();
    let outs = feed_str(&mut cmd, &mut control, "status\r\n");
    assert_eq!(outs[6], Some(Requests::Status));
    assert_eq!(control, Control::new());
}

#[test]
fn feed_bogus_no_mutation_no_request() {
    let mut cmd = Cmd::new();
    let mut control = Control::new();
    let outs = feed_str(&mut cmd, &mut control, "bogus\r\n");
    assert!(outs.iter().all(|o| o.is_none()));
    assert_eq!(control, Control::new());
}

#[test]
fn feed_all_gain_commands() {
    let mut cmd = Cmd::new();
    let mut control = Control::new();
    feed_str(&mut cmd, &mut control, "tmon\r");
    assert!(control.telemetry);
    feed_str(&mut cmd, &mut control, "ik=2\r");
    assert_eq!(control.ik, 2);
    feed_str(&mut cmd, &mut control, "dk=-3\r");
    assert_eq!(control.dk, -3);
    feed_str(&mut cmd, &mut control, "pipk=4\r");
    assert_eq!(control.pitch_pk, 4);
    feed_str(&mut cmd, &mut control, "rpk=5\r");
    assert_eq!(control.roll_pk, 5);
    feed_str(&mut cmd, &mut control, "ypk=6\r");
    assert_eq!(control.yaw_pk, 6);
    feed_str(&mut cmd, &mut control, "tthurst=700\r");
    assert_eq!(control.thrust, 700);
    feed_str(&mut cmd, &mut control, "pt=15\r");
    assert_eq!(control.target_degrees.pitch, 15);
    feed_str(&mut cmd, &mut control, "tmoff\r");
    assert!(!control.telemetry);
}

#[test]
fn feed_boot_and_reset_requests() {
    let mut cmd = Cmd::new();
    let mut control = Control::new();
    let outs = feed_str(&mut cmd, &mut control, "boot\n");
    assert_eq!(outs[4], Some(Requests::Boot));
    let outs = feed_str(&mut cmd, &mut control, "reset\n");
    assert_eq!(outs[5], Some(Requests::Reset));
}

#[test]
fn malformed_number_skips_clause_whole() {
    let mut cmd = Cmd::new();
    let mut control = Control::new();
    feed_str(&mut cmd, &mut control, "pk=abc\r");
    assert_eq!(control, Control::new());
    feed_str(&mut cmd, &mut control, "pk=\r");
    assert_eq!(control, Control::new());
    feed_str(&mut cmd, &mut control, "pk=99999999999\r");
    assert_eq!(control, Control::new());
}

#[test]
fn negative_and_extreme_values_parse() {
    let mut cmd = Cmd::new();
    let mut control = Control::new();
    feed_str(&mut cmd, &mut control, "pk=-5\r");
    assert_eq!(control.pk, -5);
    feed_str(&mut cmd, &mut control, "pk=2147483647\r");
    assert_eq!(control.pk, 2147483647);
    feed_str(&mut cmd, &mut control, "pk=-2147483648\r");
    assert_eq!(control.pk, -2147483648);
    feed_str(&mut cmd, &mut control, "pk=2147483648\r");
    assert_eq!(control.pk, -2147483648);
}

#[test]
fn empty_lines_are_ignored() {
    let mut cmd = Cmd::new();
    let mut control = Control::new();
    let outs = feed_str(&mut cmd, &mut control, "\r\n\r\n");
    assert!(outs.iter().all(|o| o.is_none()));
    assert_eq!(control, Control::new());
}

#[test]
fn overlong_line_wraps_and_starts_over() {
    let mut cmd = Cmd::new();
    let mut control = Control::new();
    for _ in 0..512 {
        assert!(cmd.push(b'x').is_none());
    }
    // The write position wrapped: a terminator now sees an empty line.
    assert!(cmd.push(b'\r').is_none());
    let outs = feed_str(&mut cmd, &mut control, "status\r");
    assert_eq!(outs[6], Some(Requests::Status));
}

#[test]
fn push_returns_the_accumulated_line() {
    let mut cmd = Cmd::new();
    assert!(cmd.push(b'h').is_none());
    assert!(cmd.push(b'i').is_none());
    let line = cmd.push(b'\n').expect("line ends at the terminator");
    assert_eq!(line, b"hi".to_vec());
    assert!(cmd.push(b'\n').is_none());
}

#[test]
fn create_matches_new() {
    let mut a = flight_core::cmd::create();
    let mut control = Control::new();
    let outs = feed_str(&mut a, &mut control, "tmon\r");
    assert!(outs.iter().all(|o| o.is_none()));
    assert!(control.telemetry);
}

#[test]
fn keyword_with_trailing_bytes_does_not_match() {
    let mut cmd = Cmd::new();
    let mut control = Control::new();
    let outs = feed_str(&mut cmd, &mut control, "tmonx\r");
    assert!(outs.iter().all(|o| o.is_none()));
    assert_eq!(control, Control::new());
    let outs = feed_str(&mut cmd, &mut control, "statusx\r");
    assert!(outs.iter().all(|o| o.is_none()));
}

#[test]
fn argument_with_trailing_bytes_skips_the_clause() {
    let mut cmd = Cmd::new();
    let mut control = Control::new();
    feed_str(&mut cmd, &mut control, "pk=10extra\r");
    assert_eq!(control.pk, 0);
}

#[test]
fn pipk_does_not_touch_pk() {
    let mut cmd = Cmd::new();
    let mut control = Control::new();
    feed_str(&mut cmd, &mut control, "pipk=9\r");
    assert_eq!(control.pitch_pk, 9);
    assert_eq!(control.pk, 0);
}

#[test]
fn longest_unwrapped_line_is_delivered_whole() {
    let mut cmd = Cmd::new();
    for _ in 0..511 {
        assert!(cmd.push(b'a').is_none());
    }
    let line = cmd.push(b'\n').expect("511 bytes fit the ring");
    assert_eq!(line.len(), 511);
    assert!(line.iter().all(|&b| b == b'a'));
}

#[test]
fn parse_helper_rejects_sign_only() {
    let mut cmd = Cmd::new();
    let mut control = Control::new();
    feed_str(&mut cmd, &mut control, "pk=-\r");
    assert_eq!(control.pk, 0);
    feed_str(&mut cmd, &mut control, "pk=+7\r");
    assert_eq!(control.pk, 7);
}
