//! Fixed-point arithmetic helpers shared by the simulation: clamping,
//! saturation at a large coordinate limit, and scaling a rate by an elapsed
//! time in microseconds.

use vstd::prelude::*;

verus! {

/// Number of microseconds in one second; rates are per second, elapsed
/// times are in microseconds.
pub const MICROS_PER_SECOND: u64 = 1_000_000;

/// Coordinates are kept within [-POSITION_LIMIT_MILLI, POSITION_LIMIT_MILLI]
/// milli-pixels (four million pixels either way), far outside anything the
/// game can show, so that position arithmetic never overflows.
pub const POSITION_LIMIT_MILLI: i64 = 4_000_000_000;

/// Scroll velocities are kept at or below this many milli-pixels per second
/// (ten thousand pixels per second), so a velocity scaled by a frame's
/// microseconds stays small.
pub const VELOCITY_LIMIT_MILLI: u32 = 10_000_000;

/// The value `v` forced into [lo, hi].
pub open spec fn spec_clamp(v: int, lo: int, hi: int) -> int {
    if v < lo {
        lo
    } else if v > hi {
        hi
    } else {
        v
    }
}

/// `v * dt / 1_000_000`, rounded toward zero: the distance covered in `dt`
/// microseconds at a rate of `v` units per second.
pub open spec fn spec_scale(v: int, dt: int) -> int {
    if v >= 0 {
        (v * dt) / (MICROS_PER_SECOND as int)
    } else {
        -((-v * dt) / (MICROS_PER_SECOND as int))
    }
}

/// Scaling a nonnegative rate by a longer elapsed time never gives less.
pub proof fn lemma_scale_monotone(v: int, dt: int, dmax: int)
    requires
        0 <= v,
        0 <= dt <= dmax,
    ensures
        0 <= spec_scale(v, dt) <= spec_scale(v, dmax),
{
    assert(v * dt <= v * dmax) by (nonlinear_arith)
        requires
            0 <= v,
            dt <= dmax,
    ;
    assert(v * dt >= 0) by (nonlinear_arith)
        requires
            0 <= v,
            0 <= dt,
    ;
    vstd::arithmetic::div_mod::lemma_div_is_ordered(v * dt, v * dmax, MICROS_PER_SECOND as int);
    vstd::arithmetic::div_mod::lemma_div_pos_is_pos(v * dt, MICROS_PER_SECOND as int);
}

pub fn clamp_i64(v: i64, lo: i64, hi: i64) -> (r: i64)
    requires
        lo <= hi,
    ensures
        r == spec_clamp(v as int, lo as int, hi as int),
{
    if v < lo {
        lo
    } else if v > hi {
        hi
    } else {
        v
    }
}

/// Scales a signed rate (milli-units per second) by an elapsed time in
/// microseconds, truncating toward zero.
pub fn scale_by_micros(v: i64, dt: u64) -> (r: i64)
    requires
        -1_000_000_000 <= v <= 1_000_000_000,
        dt <= 4_000_000_000,
    ensures
        r == spec_scale(v as int, dt as int),
        v >= 0 ==> 0 <= r,
        v < 0 ==> r <= 0,
        -4_000_000_000_000 <= r <= 4_000_000_000_000,
{
    if v >= 0 {
        let magnitude: u64 = v as u64;
        assert(magnitude * dt <= 1_000_000_000 * 4_000_000_000u64) by (nonlinear_arith)
            requires
                magnitude <= 1_000_000_000,
                dt <= 4_000_000_000,
        ;
        let scaled: u64 = magnitude * dt / MICROS_PER_SECOND;
        scaled as i64
    } else {
        let magnitude: u64 = (-v) as u64;
        assert(magnitude * dt <= 1_000_000_000 * 4_000_000_000u64) by (nonlinear_arith)
            requires
                magnitude <= 1_000_000_000,
                dt <= 4_000_000_000,
        ;
        let scaled: u64 = magnitude * dt / MICROS_PER_SECOND;
        -(scaled as i64)
    }
}

} // verus!
