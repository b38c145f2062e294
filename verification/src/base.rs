//! The ground scroller: two tiles of one width slide leftward together, and a
//! tile whose trailing edge leaves the screen is repositioned immediately
//! after the other, so the floor scrolls seamlessly forever.

use vstd::prelude::*;
use crate::units::{
    spec_scale, scale_by_micros, lemma_scale_monotone, VELOCITY_LIMIT_MILLI,
};
use crate::driver::MAX_FRAME_MICROS;
use crate::collision::{spec_rects_overlap, rects_overlap};
use crate::player::Player;
use crate::SCREEN_HEIGHT_MILLI;

verus! {

/// The scrolling floor. Lengths are milli-pixels, the velocity milli-pixels
/// per second.
#[derive(Clone, Copy, PartialEq, Eq, Structural, Debug)]
pub struct Base {
    /// Leftward scroll speed, in milli-pixels per second.
    pub velocity: u32,
    /// Height of the ground strip.
    pub height: i64,
    /// Width of one tile.
    pub width: i64,
    /// Left edge of the first tile.
    pub x1: i64,
    /// Left edge of the second tile.
    pub x2: i64,
    pub stopped: bool,
}

impl Base {
    /// The left edge of whichever tile is currently behind.
    pub open spec fn spec_lead(self) -> int {
        if self.x1 <= self.x2 {
            self.x1 as int
        } else {
            self.x2 as int
        }
    }

    /// The tiles stand exactly one width apart, the trailing tile covers the
    /// left edge of the screen, and one frame's scroll is smaller than a
    /// tile, so the wraparound can never fall behind.
    pub open spec fn wf(self) -> bool {
        &&& 0 < self.width <= 10_000_000
        &&& 0 < self.height < SCREEN_HEIGHT_MILLI
        &&& self.velocity <= VELOCITY_LIMIT_MILLI
        &&& spec_scale(self.velocity as int, MAX_FRAME_MICROS as int) < self.width
        &&& (self.x2 == self.x1 + self.width || self.x1 == self.x2 + self.width)
        &&& -self.width < self.spec_lead() <= 0
    }

    /// The scroller after `dt` microseconds: both tiles slide left by the
    /// velocity's share of `dt`, and a tile whose right edge has reached the
    /// screen's left edge is moved to sit exactly after the other tile.
    pub open spec fn spec_step(self, dt: int) -> Base {
        if self.stopped {
            self
        } else {
            let step = spec_scale(self.velocity as int, dt);
            let a1 = self.x1 - step;
            let a2 = self.x2 - step;
            let n1 = if a1 + self.width <= 0 {
                a2 + self.width
            } else {
                a1
            };
            let n2 = if a2 + self.width <= 0 {
                n1 + self.width
            } else {
                a2
            };
            Base { x1: n1 as i64, x2: n2 as i64, ..self }
        }
    }

    /// Whether the player's rectangle overlaps either ground tile, under the
    /// edge-exclusive overlap rule. The tiles sit at the bottom of the
    /// screen.
    pub open spec fn spec_hits(self, player: Player) -> bool {
        let ground_y = SCREEN_HEIGHT_MILLI - self.height;
        ||| spec_rects_overlap(
            self.x1 as int,
            ground_y as int,
            self.width as int,
            self.height as int,
            player.x as int,
            player.y as int,
            player.width as int,
            player.height as int,
        )
        ||| spec_rects_overlap(
            self.x2 as int,
            ground_y as int,
            self.width as int,
            self.height as int,
            player.x as int,
            player.y as int,
            player.width as int,
            player.height as int,
        )
    }

    /// A scroller whose first tile starts at the screen's left edge, with the
    /// second tile right after it, moving.
    pub fn new(width: i64, height: i64, velocity: u32) -> (b: Base)
        requires
            0 < width <= 10_000_000,
            0 < height < SCREEN_HEIGHT_MILLI,
            velocity <= VELOCITY_LIMIT_MILLI,
            spec_scale(velocity as int, MAX_FRAME_MICROS as int) < width,
        ensures
            b.wf(),
            b == (Base { velocity, height, width, x1: 0, x2: width, stopped: false }),
    {
        Base { velocity, height, width, x1: 0, x2: width, stopped: false }
    }

    /// Freezes the scroller.
    pub fn stop(&mut self)
        ensures
            *final(self) == (Base { stopped: true, ..*old(self) }),
    {
        self.stopped = true;
    }

    /// Lets a frozen scroller move again.
    pub fn restart(&mut self)
        ensures
            *final(self) == (Base { stopped: false, ..*old(self) }),
    {
        self.stopped = false;
    }

    /// One step of `dt` microseconds: scrolls and wraps the tiles. The two
    /// tiles still stand exactly one width apart afterwards.
    pub fn update(&mut self, dt: u64)
        requires
            old(self).wf(),
            dt <= MAX_FRAME_MICROS,
        ensures
            final(self).wf(),
            *final(self) == old(self).spec_step(dt as int),
    {
        if !self.stopped {
            proof {
                lemma_scale_monotone(
                    self.velocity as int,
                    dt as int,
                    MAX_FRAME_MICROS as int,
                );
            }
            let step: i64 = scale_by_micros(self.velocity as i64, dt);
            self.x1 = self.x1 - step;
            self.x2 = self.x2 - step;
            if self.x1 + self.width <= 0 {
                self.x1 = self.x2 + self.width;
            }
            if self.x2 + self.width <= 0 {
                self.x2 = self.x1 + self.width;
            }
        }
    }

    /// Whether the player's rectangle overlaps either ground tile, under the
    /// edge-exclusive overlap rule. The tiles sit at the bottom of the
    /// screen.
    pub fn touched(&self, player: &Player) -> (r: bool)
        requires
            self.wf(),
            player.wf(),
        ensures
            r == self.spec_hits(*player),
    {
        let ground_y: i64 = SCREEN_HEIGHT_MILLI - self.height;
        let hit_first: bool = rects_overlap(
            self.x1,
            ground_y,
            self.width,
            self.height,
            player.x,
            player.y,
            player.width,
            player.height,
        );
        let hit_second: bool = rects_overlap(
            self.x2,
            ground_y,
            self.width,
            self.height,
            player.x,
            player.y,
            player.width,
            player.height,
        );
        hit_first || hit_second
    }
}

} // verus!
