//! Gap obstacles. A pipe scrolls leftward at a constant velocity; its
//! vertical placement comes from a discrete gap category that maps linearly
//! onto the playable band between the top margin and the ground.

use vstd::prelude::*;
use crate::units::{
    spec_clamp, spec_scale, clamp_i64, scale_by_micros, POSITION_LIMIT_MILLI,
    VELOCITY_LIMIT_MILLI,
};
use crate::driver::MAX_FRAME_MICROS;
use crate::collision::{spec_rects_overlap, rects_overlap};
use crate::player::Player;
use crate::{SCREEN_WIDTH_MILLI, SCREEN_HEIGHT_MILLI};

verus! {

/// Default vertical extent of the gap between a pair's two pipes, in
/// milli-pixels.
pub const GAP_SIZE_MILLI: i64 = 100_000;

/// The ten gap categories, ordered from the highest gap to the lowest.
#[derive(Clone, Copy, PartialEq, Eq, Structural, Debug)]
pub enum PipeLocation {
    VeryHigh,
    High,
    HighMid,
    UpperMid,
    Mid,
    LowerMid,
    LowMid,
    Low,
    VeryLow,
    Lowest,
}

/// Vertical layout shared by every pipe of a world, in milli-pixels: the
/// ground height taken off the bottom of the screen, the gap size, the margin
/// reserved at the top (and mirrored below the gap), and the drawn size of
/// one pipe.
#[derive(Clone, Copy, PartialEq, Eq, Structural, Debug)]
pub struct PipeGeometry {
    pub base_height: i64,
    pub gap_size: i64,
    pub margin: i64,
    pub pipe_width: i64,
    pub pipe_height: i64,
}

/// One obstacle: the lower pipe when `reflected` is false, the mirrored upper
/// pipe when it is true.
#[derive(Clone, Copy, PartialEq, Eq, Structural, Debug)]
pub struct Pipe {
    /// Leftward scroll speed, in milli-pixels per second.
    pub velocity: u32,
    pub reflected: bool,
    /// Left edge, in milli-pixels.
    pub x: i64,
    pub location: PipeLocation,
    pub geometry: PipeGeometry,
    pub stopped: bool,
    /// Whether this pipe has already been counted as passed by the player.
    pub passed: bool,
}

/// The gap category of index `i`, counted from the highest gap.
pub open spec fn spec_location_of_index(i: int) -> PipeLocation {
    if i == 0 {
        PipeLocation::VeryHigh
    } else if i == 1 {
        PipeLocation::High
    } else if i == 2 {
        PipeLocation::HighMid
    } else if i == 3 {
        PipeLocation::UpperMid
    } else if i == 4 {
        PipeLocation::Mid
    } else if i == 5 {
        PipeLocation::LowerMid
    } else if i == 6 {
        PipeLocation::LowMid
    } else if i == 7 {
        PipeLocation::Low
    } else if i == 8 {
        PipeLocation::VeryLow
    } else {
        PipeLocation::Lowest
    }
}

/// Where a category sits in the valid range, in thousandths: the ten
/// categories step linearly from the top of the range to its bottom.
pub open spec fn spec_percent_milli(loc: PipeLocation) -> int {
    match loc {
        PipeLocation::VeryHigh => 0,
        PipeLocation::High => 111,
        PipeLocation::HighMid => 222,
        PipeLocation::UpperMid => 333,
        PipeLocation::Mid => 444,
        PipeLocation::LowerMid => 555,
        PipeLocation::LowMid => 666,
        PipeLocation::Low => 777,
        PipeLocation::VeryLow => 888,
        PipeLocation::Lowest => 1000,
    }
}

impl PipeGeometry {
    /// The playable band: the screen above the ground.
    pub open spec fn spec_band(self) -> int {
        SCREEN_HEIGHT_MILLI - self.base_height
    }

    /// Positive sizes, the ground strictly inside the screen, and room in the
    /// band for the gap plus a margin above and below it.
    pub open spec fn wf(self) -> bool {
        &&& 0 < self.pipe_width <= 10_000_000
        &&& 0 < self.pipe_height <= 10_000_000
        &&& 0 < self.base_height < SCREEN_HEIGHT_MILLI
        &&& 0 < self.gap_size
        &&& 0 <= self.margin
        &&& self.gap_size + 2 * self.margin <= self.spec_band()
    }

    /// The top edge of the gap (the mirrored pipe's lower edge): the margin
    /// plus the category's share of the leftover room in the band.
    pub open spec fn spec_gap_top(self, loc: PipeLocation) -> int {
        self.margin + (self.spec_band() - self.gap_size - 2 * self.margin)
            * spec_percent_milli(loc) / 1000
    }

    /// The bottom edge of the gap (the lower pipe's upper edge), exactly one
    /// gap size below the gap's top edge.
    pub open spec fn spec_gap_bottom(self, loc: PipeLocation) -> int {
        self.spec_gap_top(loc) + self.gap_size
    }

    /// Computes the gap's top edge for a category, in milli-pixels.
    pub fn gap_top(self, loc: PipeLocation) -> (r: i64)
        requires
            self.wf(),
        ensures
            r == self.spec_gap_top(loc),
            self.margin <= r,
            r + self.gap_size + self.margin <= self.spec_band(),
    {
        let band: u64 = (SCREEN_HEIGHT_MILLI - self.base_height) as u64;
        let room: u64 = band - (self.gap_size as u64) - 2 * (self.margin as u64);
        let share: u64 = room * percent_milli(loc) / 1000;
        proof {
            let p = spec_percent_milli(loc);
            assert(room * p <= room * 1000) by (nonlinear_arith)
                requires
                    0 <= p <= 1000,
                    0 <= room,
            ;
            assert(room * p >= 0) by (nonlinear_arith)
                requires
                    0 <= p,
                    0 <= room,
            ;
            assert(room as int * p / 1000 <= room as int) by (nonlinear_arith)
                requires
                    0 <= room as int * p <= room as int * 1000,
            ;
        }
        (self.margin as u64 + share) as i64
    }
}

/// Looks up the gap category of index `i`, counted from the highest gap.
pub fn location_of_index(i: usize) -> (loc: PipeLocation)
    requires
        i < 10,
    ensures
        loc == spec_location_of_index(i as int),
{
    match i {
        0 => PipeLocation::VeryHigh,
        1 => PipeLocation::High,
        2 => PipeLocation::HighMid,
        3 => PipeLocation::UpperMid,
        4 => PipeLocation::Mid,
        5 => PipeLocation::LowerMid,
        6 => PipeLocation::LowMid,
        7 => PipeLocation::Low,
        8 => PipeLocation::VeryLow,
        _ => PipeLocation::Lowest,
    }
}

/// The category's position in the valid range, in thousandths.
pub fn percent_milli(loc: PipeLocation) -> (p: u64)
    ensures
        p == spec_percent_milli(loc),
{
    match loc {
        PipeLocation::VeryHigh => 0,
        PipeLocation::High => 111,
        PipeLocation::HighMid => 222,
        PipeLocation::UpperMid => 333,
        PipeLocation::Mid => 444,
        PipeLocation::LowerMid => 555,
        PipeLocation::LowMid => 666,
        PipeLocation::Low => 777,
        PipeLocation::VeryLow => 888,
        PipeLocation::Lowest => 1000,
    }
}

impl Pipe {
    /// Velocity within the scroll limit, geometry sound, position inside the
    /// play volume.
    pub open spec fn wf(self) -> bool {
        &&& self.velocity <= VELOCITY_LIMIT_MILLI
        &&& self.geometry.wf()
        &&& -POSITION_LIMIT_MILLI <= self.x <= POSITION_LIMIT_MILLI
    }

    /// The pipe after `dt` microseconds: a stopped pipe is frozen, a moving
    /// one slides left by its velocity's share of `dt`.
    pub open spec fn spec_step(self, dt: int) -> Pipe {
        if self.stopped {
            self
        } else {
            Pipe {
                x: spec_clamp(
                    self.x - spec_scale(self.velocity as int, dt),
                    -POSITION_LIMIT_MILLI as int,
                    POSITION_LIMIT_MILLI as int,
                ) as i64,
                ..self
            }
        }
    }

    /// The top edge of this pipe's rectangle: the mirrored pipe hangs above
    /// the gap, the lower pipe starts at the gap's bottom edge.
    pub open spec fn spec_rect_y(self) -> int {
        if self.reflected {
            self.geometry.spec_gap_top(self.location) - self.geometry.pipe_height
        } else {
            self.geometry.spec_gap_bottom(self.location)
        }
    }

    /// Whether the pipe has scrolled fully past the left edge of the screen.
    pub open spec fn spec_off_screen(self) -> bool {
        self.x + self.geometry.pipe_width < 0
    }

    /// Whether the player's rectangle overlaps this pipe's rectangle, under
    /// the edge-exclusive overlap rule.
    pub open spec fn spec_hits(self, player: Player) -> bool {
        spec_rects_overlap(
            self.x as int,
            self.spec_rect_y(),
            self.geometry.pipe_width as int,
            self.geometry.pipe_height as int,
            player.x as int,
            player.y as int,
            player.width as int,
            player.height as int,
        )
    }

    /// A pipe spawned just off the right edge of the screen, moving, not yet
    /// passed.
    pub fn new(reflected: bool, velocity: u32, location: PipeLocation, geometry: PipeGeometry)
        -> (p: Pipe)
        requires
            geometry.wf(),
            velocity <= VELOCITY_LIMIT_MILLI,
        ensures
            p.wf(),
            p == (Pipe {
                velocity,
                reflected,
                x: SCREEN_WIDTH_MILLI,
                location,
                geometry,
                stopped: false,
                passed: false,
            }),
    {
        Pipe {
            velocity,
            reflected,
            x: SCREEN_WIDTH_MILLI,
            location,
            geometry,
            stopped: false,
            passed: false,
        }
    }

    /// Whether the player's left edge has moved past this pipe's left edge.
    pub fn has_passed(&self, player: &Player) -> (r: bool)
        ensures
            r == (self.x < player.x),
    {
        self.x < player.x
    }

    /// Freezes the pipe in place.
    pub fn stop(&mut self)
        ensures
            *final(self) == (Pipe { stopped: true, ..*old(self) }),
    {
        self.stopped = true;
    }

    /// Lets a frozen pipe move again.
    pub fn restart(&mut self)
        ensures
            *final(self) == (Pipe { stopped: false, ..*old(self) }),
    {
        self.stopped = false;
    }

    /// Whether the pipe has scrolled fully past the left edge of the screen.
    pub fn is_off_screen(&self) -> (r: bool)
        requires
            self.wf(),
        ensures
            r == self.spec_off_screen(),
    {
        self.x + self.geometry.pipe_width < 0
    }

    /// One step of `dt` microseconds: slides the pipe left unless stopped.
    pub fn update(&mut self, dt: u64)
        requires
            old(self).wf(),
            dt <= MAX_FRAME_MICROS,
        ensures
            final(self).wf(),
            *final(self) == old(self).spec_step(dt as int),
    {
        if !self.stopped {
            let step: i64 = scale_by_micros(self.velocity as i64, dt);
            self.x = clamp_i64(self.x - step, -POSITION_LIMIT_MILLI, POSITION_LIMIT_MILLI);
        }
    }

    /// Whether the player's rectangle overlaps this pipe's rectangle, under
    /// the edge-exclusive overlap rule.
    pub fn touched(&self, player: &Player) -> (r: bool)
        requires
            self.wf(),
            player.wf(),
        ensures
            r == self.spec_hits(*player),
    {
        let gap_top: i64 = self.geometry.gap_top(self.location);
        let rect_y: i64 = if self.reflected {
            gap_top - self.geometry.pipe_height
        } else {
            gap_top + self.geometry.gap_size
        };
        rects_overlap(
            self.x,
            rect_y,
            self.geometry.pipe_width,
            self.geometry.pipe_height,
            player.x,
            player.y,
            player.width,
            player.height,
        )
    }
}

} // verus!
