//! Motor mixer: a fixed geometry matrix maps a three-axis torque command and
//! a thrust into one clamped duty value per motor.
//!
//! The guarantee of this module is unconditional: whatever the inputs, every
//! duty written is within `[0, max_duty]`, because the clamp is applied to the
//! mixed value itself, after all arithmetic.

use crate::fixed::{sat64, sat_i64, tdiv, mul_wide, tdiv_wide, SCALE};
use vstd::prelude::*;

verus! {

/// Geometry matrix of a four-motor airframe.
pub type Map4 = [[i64; 4]; 4];

/// Geometry matrix of a six-motor airframe.
pub type Map6 = [[i64; 4]; 6];

/// Anything that accepts a torque/thrust command for its motors.
pub trait MotorCtrl {
    /// Apply a three-axis correction and a collective thrust.
    fn set_duty(&mut self, x: i64, y: i64, z: i64, thrust: i64);
}

impl MotorCtrl for () {
    /// A board with no motors fitted accepts and ignores every command.
    fn set_duty(&mut self, x: i64, y: i64, z: i64, thrust: i64) {
    }
}

/// One motor's contribution: the row of the geometry matrix folded with the
/// command, each term scaled back down, saturated, and summed.
pub open spec fn spec_mix(row: [i64; 4], x: int, y: int, z: int, t: int) -> int {
    sat64(tdiv(row[0] * x, SCALE as int)) + sat64(tdiv(row[1] * y, SCALE as int)) + sat64(
        tdiv(row[2] * z, SCALE as int),
    ) + sat64(tdiv(row[3] * t, SCALE as int))
}

/// The duty actually written: the mixed value clamped into `[0, max_duty]`
/// and truncated to the whole compare-register count.
pub open spec fn spec_duty(row: [i64; 4], x: int, y: int, z: int, t: int, max_duty: u32) -> int {
    let m = tdiv(spec_mix(row, x, y, z, t), SCALE as int);
    if m < 0 {
        0
    } else if m > max_duty as int {
        max_duty as int
    } else {
        m
    }
}

/// The mixer: the geometry matrix, the duty range of the timer, and the
/// modeled compare registers the duties are written to.
pub struct Mixer<const N: usize> {
    pub map: [[i64; 4]; N],
    pub max_duty: u32,
    pub duty: Vec<u32>,
}

impl<const N: usize> Mixer<N> {
    /// The modeled compare registers exist, one per motor.
    pub open spec fn wf(self) -> bool {
        self.duty@.len() == N as int
    }

    /// The duty each motor currently runs at.
    pub open spec fn duties(self) -> Seq<u32> {
        self.duty@
    }

    /// A mixer for a geometry matrix, all motors stopped.
    #[verifier::loop_isolation(false)]
    pub fn new(map: [[i64; 4]; N], max_duty: u32) -> (m: Mixer<N>)
        ensures
            m.wf(),
            m.map == map,
            m.max_duty == max_duty,
            m.duties() =~= Seq::new(N as nat, |i: int| 0u32),
    {
        let mut duty: Vec<u32> = Vec::new();
        let mut i: usize = 0;
        while i < N
            invariant
                i <= N,
                duty@ =~= Seq::new(i as nat, |j: int| 0u32),
            decreases N - i,
        {
            duty.push(0);
            proof {
                assert(duty@ =~= Seq::new((i + 1) as nat, |j: int| 0u32));
            }
            i = i + 1;
        }
        Mixer { map, max_duty, duty }
    }

    /// Mix and clamp one motor's duty.
    fn mix_one(&self, row_index: usize, x: i64, y: i64, z: i64, thrust: i64) -> (d: u32)
        requires
            row_index < N,
        ensures
            d as int == spec_duty(
                self.map[row_index as int],
                x as int,
                y as int,
                z as int,
                thrust as int,
                self.max_duty,
            ),
            d <= self.max_duty,
    {
        let row = &self.map[row_index];
        let c0: i64 = sat_i64(tdiv_wide(mul_wide(row[0], x), SCALE as i128));
        let c1: i64 = sat_i64(tdiv_wide(mul_wide(row[1], y), SCALE as i128));
        let c2: i64 = sat_i64(tdiv_wide(mul_wide(row[2], z), SCALE as i128));
        let c3: i64 = sat_i64(tdiv_wide(mul_wide(row[3], thrust), SCALE as i128));
        let mixed: i128 = c0 as i128 + c1 as i128 + c2 as i128 + c3 as i128;
        let m: i128 = tdiv_wide(mixed, SCALE as i128);
        if m < 0 {
            0
        } else if m > self.max_duty as i128 {
            self.max_duty
        } else {
            m as u32
        }
    }

    /// Write every motor's clamped duty. Total: no input, in range or not,
    /// can drive a duty outside `[0, max_duty]`.
    #[verifier::loop_isolation(false)]
    pub fn set_duty(&mut self, x: i64, y: i64, z: i64, thrust: i64)
        requires
            old(self).wf(),
        ensures
            final(self).wf(),
            final(self).map == old(self).map,
            final(self).max_duty == old(self).max_duty,
            final(self).duties().len() == N as int,
            forall|i: int|
                0 <= i < N as int ==> final(self).duties()[i] as int == spec_duty(
                    old(self).map[i],
                    x as int,
                    y as int,
                    z as int,
                    thrust as int,
                    old(self).max_duty,
                ),
            forall|i: int|
                0 <= i < N as int ==> 0 <= #[trigger] final(self).duties()[i]
                    <= old(self).max_duty,
    {
        let mut i: usize = 0;
        while i < N
            invariant
                i <= N,
                self.wf(),
                self.map == old(self).map,
                self.max_duty == old(self).max_duty,
                self.duty@.len() == N as int,
                forall|j: int|
                    0 <= j < i as int ==> self.duty@[j] as int == spec_duty(
                        old(self).map[j],
                        x as int,
                        y as int,
                        z as int,
                        thrust as int,
                        old(self).max_duty,
                    ),
                forall|j: int| i as int <= j < N as int ==> self.duty@[j] == old(self).duty@[j],
            decreases N - i,
        {
            let d = self.mix_one(i, x, y, z, thrust);
            self.duty[i] = d;
            i = i + 1;
        }
    }

    /// The duties currently written to the compare registers.
    pub fn get_duty(&self) -> (r: Vec<u32>)
        requires
            self.wf(),
        ensures
            r@ == self.duties(),
    {
        self.duty.clone()
    }
}

impl<const N: usize> MotorCtrl for Mixer<N> {
    /// Motors driven through a mixer; the inherent method carries the
    /// clamping contract.
    fn set_duty(&mut self, x: i64, y: i64, z: i64, thrust: i64) {
        if self.duty.len() == N {
            Mixer::set_duty(self, x, y, z, thrust);
        }
    }
}

/// The four-motor "X" airframe geometry matrix, in fixed point: rear
/// right, front right, rear left, front left.
pub fn quad_x_mixer(max_duty: u32) -> (m: Mixer<4>)
    ensures
        m.wf(),
        m.max_duty == max_duty,
        forall|i: int| 0 <= i < 4 ==> m.map[i][3] == SCALE,
        m.duties() =~= Seq::new(4nat, |i: int| 0u32),
{
    let s: i64 = SCALE;
    let map: Map4 = [[s, -s, -s, s], [s, s, s, s], [-s, -s, -s, s], [-s, s, s, s]];
    Mixer::new(map, max_duty)
}

/// The six-motor "quad plus two" airframe geometry matrix; every entry of
/// the geometry is exact in fixed point.
pub fn hex_mixer(max_duty: u32) -> (m: Mixer<6>)
    ensures
        m.wf(),
        m.max_duty == max_duty,
        m.duties() =~= Seq::new(6nat, |i: int| 0u32),
{
    let a: i64 = 567_000;
    let b: i64 = 815_000;
    let s: i64 = SCALE;
    let map: Map6 = [
        [a, -b, -s, s],
        [a, b, -s, s],
        [-a, -b, s, s],
        [-a, b, s, s],
        [-s, 0, -s, s],
        [s, 0, s, s],
    ];
    Mixer::new(map, max_duty)
}

/// Hover law: with no torque demand, a row whose thrust entry is one unit
/// yields exactly the clamped thrust, so on the four-motor airframe all
/// motors run at the same duty.
pub proof fn lemma_hover_equal_duty(row: [i64; 4], t: int, max_duty: u32)
    requires
        row[3] == SCALE as int,
        i64::MIN <= t <= i64::MAX,
    ensures
        spec_duty(row, 0, 0, 0, t, max_duty) == ({
            let m = tdiv(t, SCALE as int);
            if m < 0 {
                0int
            } else if m > max_duty as int {
                max_duty as int
            } else {
                m
            }
        }),
{
    assert(row[0] * 0 == 0) by (nonlinear_arith);
    assert(row[1] * 0 == 0) by (nonlinear_arith);
    assert(row[2] * 0 == 0) by (nonlinear_arith);
    assert(tdiv(0, SCALE as int) == 0);
    assert(spec_mix(row, 0, 0, 0, t) == sat64(tdiv(SCALE as int * t, SCALE as int)));
    assert(tdiv(SCALE as int * t, SCALE as int) == t) by (nonlinear_arith)
        requires
            SCALE == 1_000_000,
    ;
    assert(spec_mix(row, 0, 0, 0, t) == t);
    assert(tdiv(t, SCALE as int) == t / SCALE as int || tdiv(t, SCALE as int) == -((-t) / (
    SCALE as int)));
    assert(spec_duty(row, 0, 0, 0, t, max_duty) == ({
        let m = tdiv(t, SCALE as int);
        if m < 0 {
            0int
        } else if m > max_duty as int {
            max_duty as int
        } else {
            m
        }
    }));
}

} // verus!
