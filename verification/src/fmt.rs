//! Decimal formatting of fixed-point values for the telemetry frames:
//! sign, integer part, point, and exactly six fractional digits.

use crate::fixed::SCALE;
use vstd::prelude::*;

verus! {

/// Decimal digits of `n`, most significant first.
pub open spec fn spec_udec(n: nat) -> Seq<u8>
    decreases n,
{
    if n < 10 {
        seq![(48 + n) as u8]
    } else {
        spec_udec(n / 10).push((48 + n % 10) as u8)
    }
}

/// Exactly `w` decimal digits of `n`, zero-padded, most significant first.
pub open spec fn spec_udec_width(n: nat, w: nat) -> Seq<u8>
    decreases w,
{
    if w == 0 {
        Seq::empty()
    } else {
        spec_udec_width(n / 10, (w - 1) as nat).push((48 + n % 10) as u8)
    }
}

/// The decimal image of a fixed-point value: optional minus, whole units,
/// a point, and the six decimal places.
pub open spec fn spec_fmt_fixed(v: int) -> Seq<u8> {
    let m = if v < 0 {
        -v
    } else {
        v
    };
    let sign: Seq<u8> = if v < 0 {
        seq![45u8]
    } else {
        Seq::empty()
    };
    sign + spec_udec((m / SCALE as int) as nat) + seq![46u8] + spec_udec_width(
        (m % SCALE as int) as nat,
        6,
    )
}

/// The decimal image of a plain signed integer.
pub open spec fn spec_fmt_int(v: int) -> Seq<u8> {
    let m = if v < 0 {
        -v
    } else {
        v
    };
    let sign: Seq<u8> = if v < 0 {
        seq![45u8]
    } else {
        Seq::empty()
    };
    sign + spec_udec(m as nat)
}

/// Append the decimal digits of `n`.
pub fn push_udec(out: &mut Vec<u8>, n: u64)
    ensures
        final(out)@ == old(out)@ + spec_udec(n as nat),
    decreases n,
{
    if n < 10 {
        out.push(48 + n as u8);
        proof {
            assert(out@ =~= old(out)@ + spec_udec(n as nat));
        }
    } else {
        push_udec(out, n / 10);
        out.push(48 + (n % 10) as u8);
        proof {
            assert(out@ =~= old(out)@ + spec_udec(n as nat));
        }
    }
}

/// Append exactly `w` zero-padded decimal digits of `n`.
pub fn push_udec_width(out: &mut Vec<u8>, n: u64, w: usize)
    ensures
        final(out)@ == old(out)@ + spec_udec_width(n as nat, w as nat),
    decreases w,
{
    if w == 0 {
        proof {
            assert(out@ =~= old(out)@ + spec_udec_width(n as nat, 0));
        }
    } else {
        push_udec_width(out, n / 10, w - 1);
        out.push(48 + (n % 10) as u8);
        proof {
            assert(out@ =~= old(out)@ + spec_udec_width(n as nat, w as nat));
        }
    }
}

/// Append the decimal image of a fixed-point value.
pub fn push_fixed(out: &mut Vec<u8>, v: i64)
    ensures
        final(out)@ == old(out)@ + spec_fmt_fixed(v as int),
{
    let m: u64 = if v == i64::MIN {
        9_223_372_036_854_775_808u64
    } else if v < 0 {
        (-v) as u64
    } else {
        v as u64
    };
    if v < 0 {
        out.push(45);
    }
    push_udec(out, m / (SCALE as u64));
    out.push(46);
    push_udec_width(out, m % (SCALE as u64), 6);
    proof {
        assert(out@ =~= old(out)@ + spec_fmt_fixed(v as int));
    }
}

/// Append the decimal image of a plain integer gain.
pub fn push_int(out: &mut Vec<u8>, v: i32)
    ensures
        final(out)@ == old(out)@ + spec_fmt_int(v as int),
{
    let m: u64 = if v == i32::MIN {
        2_147_483_648u64
    } else if v < 0 {
        (-v) as u64
    } else {
        v as u64
    };
    if v < 0 {
        out.push(45);
    }
    push_udec(out, m);
    proof {
        assert(out@ =~= old(out)@ + spec_fmt_int(v as int));
    }
}

} // verus!
