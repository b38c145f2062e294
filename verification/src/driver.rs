//! Fixed-timestep driver: accumulates real elapsed time and decides how many
//! constant-length simulation steps to run this displayed frame, decoupling
//! simulation determinism from display frame rate.

use vstd::prelude::*;

verus! {

/// Length of one simulation step, in microseconds (one sixtieth of a second).
pub const FIXED_DELTA_MICROS: u64 = 16_667;

/// The per-frame elapsed time is clamped to this many microseconds, so a long
/// stall cannot trigger a runaway catch-up.
pub const MAX_FRAME_MICROS: u64 = 250_000;

/// At most this many simulation steps run per displayed frame.
pub const MAX_STEPS_PER_FRAME: u32 = 5;

/// Accumulates wall-clock time and hands out whole simulation steps of
/// `fixed_delta` microseconds each, at most `max_steps` per frame, after
/// clamping each frame's elapsed time to `max_frame`.
pub struct FixedTimestepDriver {
    /// Unconsumed elapsed time, in microseconds.
    pub accumulator: u64,
    /// Length of one simulation step, in microseconds.
    pub fixed_delta: u64,
    /// Upper clamp on the accumulator, in microseconds.
    pub max_frame: u64,
    /// Cap on simulation steps per displayed frame.
    pub max_steps: u32,
}

impl FixedTimestepDriver {
    /// Configuration and accumulator stay in ranges where every step of the
    /// accounting fits comfortably in 64 bits.
    pub open spec fn wf(self) -> bool {
        &&& 0 < self.fixed_delta
        &&& self.fixed_delta <= self.max_frame
        &&& self.max_frame <= 3_600_000_000
        &&& self.accumulator <= self.max_frame
        &&& 1 <= self.max_steps <= 1_000_000
    }

    /// The elapsed time charged to this frame: the accumulator plus the
    /// frame's delta, clamped at `max_frame`.
    pub open spec fn spec_charged(self, delta: int) -> int {
        if self.accumulator + delta >= self.max_frame {
            self.max_frame as int
        } else {
            self.accumulator + delta
        }
    }

    pub fn new(fixed_delta: u64, max_frame: u64, max_steps: u32) -> (d: FixedTimestepDriver)
        requires
            0 < fixed_delta <= max_frame <= 3_600_000_000,
            1 <= max_steps <= 1_000_000,
        ensures
            d.wf(),
            d.accumulator == 0,
            d.fixed_delta == fixed_delta,
            d.max_frame == max_frame,
            d.max_steps == max_steps,
    {
        FixedTimestepDriver { accumulator: 0, fixed_delta, max_frame, max_steps }
    }

    /// A driver with the game's own constants: sixty steps per second,
    /// a quarter-second frame clamp, five steps per frame at most.
    pub fn standard() -> (d: FixedTimestepDriver)
        ensures
            d.wf(),
            d.accumulator == 0,
            d.fixed_delta == FIXED_DELTA_MICROS,
            d.max_frame == MAX_FRAME_MICROS,
            d.max_steps == MAX_STEPS_PER_FRAME,
    {
        FixedTimestepDriver::new(FIXED_DELTA_MICROS, MAX_FRAME_MICROS, MAX_STEPS_PER_FRAME)
    }

    /// Charges `delta` microseconds of real time to the accumulator and
    /// returns how many fixed steps the caller must now run: the number of
    /// whole steps held by the clamped accumulator, capped at `max_steps`.
    /// When the cap is not hit, the leftover accumulator is the remainder and
    /// lies in [0, fixed_delta); when it is exceeded, the excess is discarded.
    pub fn advance(&mut self, delta: u64) -> (steps: u32)
        requires
            old(self).wf(),
        ensures
            final(self).wf(),
            final(self).fixed_delta == old(self).fixed_delta,
            final(self).max_frame == old(self).max_frame,
            final(self).max_steps == old(self).max_steps,
            steps == vstd::math::min(
                old(self).spec_charged(delta as int) / old(self).fixed_delta as int,
                old(self).max_steps as int,
            ),
            old(self).spec_charged(delta as int) / old(self).fixed_delta as int
                <= old(self).max_steps as int ==> {
                &&& final(self).accumulator == old(self).spec_charged(delta as int) % old(
                    self,
                ).fixed_delta as int
                &&& final(self).accumulator < old(self).fixed_delta
            },
            old(self).spec_charged(delta as int) / old(self).fixed_delta as int > old(
                self,
            ).max_steps as int ==> final(self).accumulator == 0,
    {
        let charged: u64 = if delta >= self.max_frame {
            self.max_frame
        } else if self.accumulator + delta >= self.max_frame {
            self.max_frame
        } else {
            self.accumulator + delta
        };
        assert(charged == self.spec_charged(delta as int));
        self.accumulator = charged;
        let ghost t = charged as int;
        let ghost f = self.fixed_delta as int;
        let mut steps: u32 = 0;
        while self.accumulator >= self.fixed_delta && steps < self.max_steps
            invariant
                self.fixed_delta == old(self).fixed_delta,
                self.max_frame == old(self).max_frame,
                self.max_steps == old(self).max_steps,
                old(self).wf(),
                f == self.fixed_delta as int,
                0 <= steps <= self.max_steps,
                self.accumulator == t - steps * f,
                t / f >= steps,
            decreases self.accumulator,
        {
            assert((steps + 1) * f == steps * f + f) by (nonlinear_arith);
            assert(t / f >= steps + 1) by (nonlinear_arith)
                requires
                    f > 0,
                    t - steps * f >= f,
                    t == self.accumulator + steps * f + (t - steps * f - self.accumulator),
                    self.accumulator == t - steps * f,
            ;
            self.accumulator = self.accumulator - self.fixed_delta;
            steps = steps + 1;
        }
        proof {
            let q = t / f;
            vstd::arithmetic::div_mod::lemma_fundamental_div_mod(t, f);
            if steps < self.max_steps {
                // Loop ended because the accumulator dropped below one step.
                assert(t - steps * f < f);
                assert(q == steps) by (nonlinear_arith)
                    requires
                        f > 0,
                        0 <= t - steps * f < f,
                        q == t / f,
                        t == f * q + t % f,
                        0 <= t % f < f,
                ;
            } else {
                assert(steps == self.max_steps);
                if self.accumulator >= self.fixed_delta {
                    assert(q >= steps + 1) by (nonlinear_arith)
                        requires
                            f > 0,
                            t - steps * f >= f,
                            q == t / f,
                            t == f * q + t % f,
                            0 <= t % f < f,
                    ;
                } else {
                    assert(q == steps) by (nonlinear_arith)
                        requires
                            f > 0,
                            0 <= t - steps * f < f,
                            q == t / f,
                            t == f * q + t % f,
                            0 <= t % f < f,
                    ;
                }
            }
            if q <= self.max_steps {
                assert(steps == q);
                assert(self.accumulator == t - q * f);
                assert(t % f == t - q * f) by (nonlinear_arith)
                    requires
                        t == f * q + t % f,
                ;
            }
        }
        if steps >= self.max_steps && self.accumulator >= self.fixed_delta {
            // The cap was hit with time to spare: discard the excess so a
            // stall does not snowball into a catch-up spiral.
            self.accumulator = 0;
        }
        steps
    }

    /// The leftover accumulator as a fraction of one step, in thousandths;
    /// renderers may use it to interpolate between the last two steps.
    pub fn alpha_milli(&self) -> (alpha: u64)
        requires
            self.wf(),
        ensures
            alpha == self.accumulator as int * 1000 / self.fixed_delta as int,
    {
        assert(self.accumulator * 1000 <= 3_600_000_000 * 1000u64) by (nonlinear_arith)
            requires
                self.accumulator <= 3_600_000_000,
        ;
        self.accumulator * 1000 / self.fixed_delta
    }
}

/// Smooths a spike in the measured frame time: a delta more than twice the
/// fixed step is averaged with the previous frame's delta, halving sudden
/// jumps before they reach the accumulator.
pub fn smooth_delta(last_delta: u64, delta: u64, fixed_delta: u64) -> (r: u64)
    requires
        last_delta <= 3_600_000_000,
        delta <= 3_600_000_000,
        fixed_delta <= 3_600_000_000,
    ensures
        r == if delta > 2 * fixed_delta as int {
            (last_delta + delta) / 2 as int
        } else {
            delta as int
        },
{
    if delta > 2 * fixed_delta {
        (last_delta + delta) / 2
    } else {
        delta
    }
}

} // verus!
