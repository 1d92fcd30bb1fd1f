//! Telemetry frames: the state snapshot and the coefficient snapshot,
//! serialized and handed to the transmit channel.
//!
//! A state frame is `tm:` followed by the thirteen fixed-point fields of the
//! snapshot (accel, gyro, time step, yaw/pitch/roll, command), each with a
//! trailing `;`, ended by a line feed. A coefficient frame is `ct:` and the
//! six gains in the same shape.

use crate::communication::{spec_send, Channel, SendOutcome};
use crate::fmt::{push_fixed, push_int, spec_fmt_fixed, spec_fmt_int};
use crate::types::{Control, State};
use vstd::prelude::*;

verus! {

/// The telemetry formatter; it owns nothing, it writes frames.
pub struct Telemetry;

/// Make the telemetry formatter.
pub fn create() -> (t: Telemetry)
    ensures
        t == Telemetry,
{
    Telemetry
}

/// One fixed-point frame field with its separator.
pub open spec fn spec_field(v: int) -> Seq<u8> {
    spec_fmt_fixed(v) + seq![59u8]
}

/// One integer frame field with its separator.
pub open spec fn spec_int_field(v: int) -> Seq<u8> {
    spec_fmt_int(v) + seq![59u8]
}

/// The state frame of a snapshot.
pub open spec fn spec_state_frame(s: State) -> Seq<u8> {
    seq![116u8, 109u8, 58u8] + spec_field(s.ahrs.accel[0] as int) + spec_field(
        s.ahrs.accel[1] as int,
    ) + spec_field(s.ahrs.accel[2] as int) + spec_field(s.ahrs.gyro[0] as int) + spec_field(
        s.ahrs.gyro[1] as int,
    ) + spec_field(s.ahrs.gyro[2] as int) + spec_field(s.ahrs.dt_s as int) + spec_field(
        s.ahrs.ypr.yaw as int,
    ) + spec_field(s.ahrs.ypr.pitch as int) + spec_field(s.ahrs.ypr.roll as int) + spec_field(
        s.cmd[0] as int,
    ) + spec_field(s.cmd[1] as int) + spec_field(s.cmd[2] as int) + seq![10u8]
}

/// The coefficient frame of a parameter block.
pub open spec fn spec_control_frame(c: Control) -> Seq<u8> {
    seq![99u8, 116u8, 58u8] + spec_int_field(c.pk as int) + spec_int_field(c.ik as int)
        + spec_int_field(c.dk as int) + spec_int_field(c.pitch_pk as int) + spec_int_field(
        c.roll_pk as int,
    ) + spec_int_field(c.yaw_pk as int) + seq![10u8]
}

/// Append one fixed-point field and its separator.
fn field(out: &mut Vec<u8>, v: i64)
    ensures
        final(out)@ == old(out)@ + spec_field(v as int),
{
    push_fixed(out, v);
    out.push(59);
    proof {
        assert(out@ =~= old(out)@ + spec_field(v as int));
    }
}

/// Append one integer field and its separator.
fn int_field(out: &mut Vec<u8>, v: i32)
    ensures
        final(out)@ == old(out)@ + spec_int_field(v as int),
{
    push_int(out, v);
    out.push(59);
    proof {
        assert(out@ =~= old(out)@ + spec_int_field(v as int));
    }
}

impl Telemetry {
    /// Serialize the snapshot into a state frame and offer it to the
    /// channel; the channel's own policy decides whether it goes out now or
    /// is dropped behind an in-flight transfer.
    pub fn state(&self, state: &State, channel: Channel, transfer_done: bool) -> (r: (
        Channel,
        SendOutcome,
    ))
        ensures
            (r.0@, r.1) == spec_send(channel@, spec_state_frame(*state), transfer_done),
    {
        let mut frame: Vec<u8> = Vec::new();
        frame.push(116);
        frame.push(109);
        frame.push(58);
        proof {
            assert(frame@ =~= seq![116u8, 109u8, 58u8]);
        }
        field(&mut frame, state.ahrs.accel[0]);
        field(&mut frame, state.ahrs.accel[1]);
        field(&mut frame, state.ahrs.accel[2]);
        field(&mut frame, state.ahrs.gyro[0]);
        field(&mut frame, state.ahrs.gyro[1]);
        field(&mut frame, state.ahrs.gyro[2]);
        field(&mut frame, state.ahrs.dt_s);
        field(&mut frame, state.ahrs.ypr.yaw);
        field(&mut frame, state.ahrs.ypr.pitch);
        field(&mut frame, state.ahrs.ypr.roll);
        field(&mut frame, state.cmd[0]);
        field(&mut frame, state.cmd[1]);
        field(&mut frame, state.cmd[2]);
        frame.push(10);
        proof {
            assert(frame@ =~= spec_state_frame(*state));
        }
        channel.send(frame.as_slice(), transfer_done)
    }

    /// Serialize the gains into a coefficient frame and offer it to the
    /// channel.
    pub fn control(&self, control: &Control, channel: Channel, transfer_done: bool) -> (r: (
        Channel,
        SendOutcome,
    ))
        ensures
            (r.0@, r.1) == spec_send(channel@, spec_control_frame(*control), transfer_done),
    {
        let mut frame: Vec<u8> = Vec::new();
        frame.push(99);
        frame.push(116);
        frame.push(58);
        proof {
            assert(frame@ =~= seq![99u8, 116u8, 58u8]);
        }
        int_field(&mut frame, control.pk);
        int_field(&mut frame, control.ik);
        int_field(&mut frame, control.dk);
        int_field(&mut frame, control.pitch_pk);
        int_field(&mut frame, control.roll_pk);
        int_field(&mut frame, control.yaw_pk);
        frame.push(10);
        proof {
            assert(frame@ =~= spec_control_frame(*control));
        }
        channel.send(frame.as_slice(), transfer_done)
    }
}

} // verus!
