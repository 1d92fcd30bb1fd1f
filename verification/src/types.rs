//! Shared data of the control loop: the per-cycle snapshot, the user-tunable
//! parameters, and the one-shot command outcomes.

use crate::ahrs::AhrsResult;
use vstd::prelude::*;

verus! {

/// Target attitude in whole degrees, exactly as the command grammar sets it.
#[derive(Clone, Copy, PartialEq, Eq, Structural, Debug)]
pub struct TargetDegrees {
    pub yaw: i32,
    pub pitch: i32,
    pub roll: i32,
}

/// Latest control-loop snapshot: the fused estimate that produced it, the
/// three-axis torque command, and the rate errors kept for the next cycle's
/// derivative term.
#[derive(Clone, Copy, PartialEq, Debug)]
pub struct State {
    pub ahrs: AhrsResult,
    pub cmd: [i64; 3],
    pub errors: [i64; 3],
}

impl State {
    /// The all-zero snapshot the loop starts from.
    pub fn new() -> (s: State)
        ensures
            s == (State {
                ahrs: AhrsResult::zeroed(),
                cmd: [0i64, 0i64, 0i64],
                errors: [0i64, 0i64, 0i64],
            }),
    {
        State { ahrs: AhrsResult::new(), cmd: [0i64, 0i64, 0i64], errors: [0i64, 0i64, 0i64] }
    }
}

/// User-tunable parameters. The command grammar only ever stores whole
/// numbers into the gains, so they are carried as the integers the parser
/// produced; the control loop widens them as needed.
#[derive(Clone, Copy, PartialEq, Eq, Structural, Debug)]
pub struct Control {
    pub telemetry: bool,
    pub pk: i32,
    pub ik: i32,
    pub dk: i32,
    pub pitch_pk: i32,
    pub roll_pk: i32,
    pub yaw_pk: i32,
    pub thrust: i32,
    pub target_degrees: TargetDegrees,
}

impl Control {
    /// Spec view of the initial parameter block: everything off and zero.
    pub open spec fn initial() -> Control {
        Control {
            telemetry: false,
            pk: 0,
            ik: 0,
            dk: 0,
            pitch_pk: 0,
            roll_pk: 0,
            yaw_pk: 0,
            thrust: 0,
            target_degrees: TargetDegrees { yaw: 0, pitch: 0, roll: 0 },
        }
    }

    /// The parameter block a freshly booted controller runs with.
    pub fn new() -> (c: Control)
        ensures
            c == Control::initial(),
    {
        Control {
            telemetry: false,
            pk: 0,
            ik: 0,
            dk: 0,
            pitch_pk: 0,
            roll_pk: 0,
            yaw_pk: 0,
            thrust: 0,
            target_degrees: TargetDegrees { yaw: 0, pitch: 0, roll: 0 },
        }
    }

    /// The six loop gains, in the order the coefficient telemetry frame
    /// reports them.
    pub fn coefficients(&self) -> (r: [i32; 6])
        ensures
            r@ == seq![self.pk, self.ik, self.dk, self.pitch_pk, self.roll_pk, self.yaw_pk],
    {
        let r = [self.pk, self.ik, self.dk, self.pitch_pk, self.roll_pk, self.yaw_pk];
        proof {
            assert(r@ =~= seq![self.pk, self.ik, self.dk, self.pitch_pk, self.roll_pk, self.yaw_pk]);
        }
        r
    }
}

/// One-shot outcome of a parsed command line, consumed by the idle task.
#[derive(Clone, Copy, PartialEq, Eq, Structural, Debug)]
pub enum Requests {
    /// Send a coefficient snapshot over the telemetry channel.
    Status,
    /// Reboot into the system bootloader.
    Boot,
    /// Reset the processor.
    Reset,
}

/// A failed bus transaction while reading the inertial sensor. Carried to the
/// control loop, which skips the cycle.
#[derive(Clone, Copy, PartialEq, Eq, Structural, Debug)]
pub struct DeviceError;

} // verus!
