//! Small helpers for filling transmit buffers and converting angles.

use crate::communication::TX_BUFFER_SIZE;
use crate::fixed::tdiv;
use crate::trig::PI_FIX;
use vstd::prelude::*;
use vstd::string::StringSliceAdditionalSpecFns;

verus! {

/// Append raw bytes to a transmit buffer. Past the buffer capacity the
/// append would have to fail, so that input is excluded by contract.
pub fn fill_with_bytes(buffer: &mut Vec<u8>, arg: &[u8])
    requires
        old(buffer)@.len() + arg@.len() <= TX_BUFFER_SIZE as int,
    ensures
        final(buffer)@ == old(buffer)@ + arg@,
{
    let ghost start = buffer@;
    let n = arg.len();
    let mut i: usize = 0;
    while i < n
        invariant
            i <= n,
            n == arg@.len(),
            buffer@ =~= start + arg@.take(i as int),
        decreases n - i,
    {
        buffer.push(arg[i]);
        proof {
            assert(buffer@ =~= start + arg@.take(i + 1));
        }
        i = i + 1;
    }
    proof {
        assert(buffer@ =~= start + arg@);
    }
}

/// Append the bytes of a string to a transmit buffer; panics excluded as
/// above.
pub fn fill_with_str(buffer: &mut Vec<u8>, arg: &str)
    requires
        old(buffer)@.len() + arg.spec_bytes().len() <= TX_BUFFER_SIZE as int,
    ensures
        final(buffer)@ == old(buffer)@ + arg.spec_bytes(),
{
    fill_with_bytes(buffer, arg.as_bytes())
}

/// Whole degrees to fixed-point radians: `d * pi / 180`, multiplied before
/// the division so that the result lives on the same scale as the
/// fixed-point pi the angle measurements use: 180 degrees is exactly
/// `PI_FIX`, 90 exactly half of it, 45 exactly a quarter.
pub open spec fn spec_to_rads(d: int) -> int {
    tdiv(d * PI_FIX as int, 180)
}

/// Convert a whole-degree target to fixed-point radians.
pub fn to_rads(d: i32) -> (r: i64)
    ensures
        r as int == spec_to_rads(d as int),
{
    proof {
        assert(d as int * PI_FIX as int <= i64::MAX as int && d as int * PI_FIX as int
            >= i64::MIN as int) by (nonlinear_arith)
            requires
                i32::MIN <= (d as int) <= i32::MAX,
                PI_FIX == 3_141_592,
        ;
    }
    let wide: i64 = (d as i64) * PI_FIX;
    wide / 180
}

} // verus!
