//! Axis-aligned bounding-box overlap, the single collision rule of the game.
//! The test is edge-exclusive: rectangles that merely touch along an edge do
//! not overlap.

use vstd::prelude::*;
use crate::units::POSITION_LIMIT_MILLI;

verus! {

/// Two axis-aligned rectangles overlap if and only if, on both axes, each
/// one's near edge lies strictly before the other's far edge.
pub open spec fn spec_rects_overlap(
    ax: int,
    ay: int,
    aw: int,
    ah: int,
    bx: int,
    by: int,
    bw: int,
    bh: int,
) -> bool {
    &&& ax < bx + bw
    &&& ax + aw > bx
    &&& ay < by + bh
    &&& ay + ah > by
}

/// Decides the overlap rule for two rectangles given by top-left corner and
/// size, all in milli-pixels.
pub fn rects_overlap(
    ax: i64,
    ay: i64,
    aw: i64,
    ah: i64,
    bx: i64,
    by: i64,
    bw: i64,
    bh: i64,
) -> (r: bool)
    requires
        -POSITION_LIMIT_MILLI <= ax <= POSITION_LIMIT_MILLI,
        -POSITION_LIMIT_MILLI <= ay <= POSITION_LIMIT_MILLI,
        0 <= aw <= POSITION_LIMIT_MILLI,
        0 <= ah <= POSITION_LIMIT_MILLI,
        -POSITION_LIMIT_MILLI <= bx <= POSITION_LIMIT_MILLI,
        -POSITION_LIMIT_MILLI <= by <= POSITION_LIMIT_MILLI,
        0 <= bw <= POSITION_LIMIT_MILLI,
        0 <= bh <= POSITION_LIMIT_MILLI,
    ensures
        r == spec_rects_overlap(
            ax as int,
            ay as int,
            aw as int,
            ah as int,
            bx as int,
            by as int,
            bw as int,
            bh as int,
        ),
{
    ax < bx + bw && ax + aw > bx && ay < by + bh && ay + ah > by
}

} // verus!
