//! The one call into the game framework's random number generator.

use vstd::prelude::*;

verus! {

/// Relies on macroquad::rand::gen_range (the quad-rand generator macroquad
/// re-exports): for integer types it returns `low + floor((high - low) * u)`
/// with `u` drawn in [0, 1), so with a low bound of zero the result lies
/// strictly below `high`. Nothing more is known of the result: it depends on
/// a process-global generator state.
#[verifier::external_body]
pub(crate) fn rand_index(n: usize) -> (r: usize)
    requires
        0 < n <= 1000,
    ensures
        r < n,
{
    macroquad::rand::gen_range(0, n)
}

} // verus!
