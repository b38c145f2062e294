//! The player body: position, velocity and rotation state for the controlled
//! actor, integrated under gravity with clamped velocities.

use vstd::prelude::*;
use crate::units::{
    spec_clamp, spec_scale, clamp_i64, scale_by_micros, POSITION_LIMIT_MILLI,
};
use crate::driver::MAX_FRAME_MICROS;
use crate::{SCREEN_WIDTH_MILLI, SCREEN_HEIGHT_MILLI};

verus! {

/// Downward acceleration, in milli-pixels per second per second.
pub const GRAVITY_MILLI: i64 = 800_000;

/// Falling speed is clamped to this magnitude, in milli-pixels per second.
pub const MAX_FALL_MILLI: i64 = 1_500_000;

/// Horizontal speed is clamped to this magnitude, in milli-pixels per second.
pub const MAX_HORIZONTAL_MILLI: i64 = 300_000;

/// Vertical velocity set by a jump, in milli-pixels per second (negative is
/// upward).
pub const JUMP_FORCE_MILLI: i64 = -300_000;

/// Extra upward speed granted when jumping while already moving upward, in
/// milli-pixels per second.
pub const JUMP_RISING_BONUS_MILLI: i64 = 100_000;

/// Horizontal kick applied once at death, in milli-pixels per second.
pub const DEATH_KICK_MILLI: i64 = -50_000;

/// Rate at which a dead body's rotation decreases, in milli-radians per
/// second.
pub const TUMBLE_RATE_MILLI: i64 = 1_500;

/// The controlled body. Lengths are milli-pixels, velocities milli-pixels
/// per second, the rotation milli-radians.
pub struct Player {
    pub alive: bool,
    pub x: i64,
    pub y: i64,
    pub vx: i64,
    pub vy: i64,
    pub jump_force: i64,
    pub start_x: i64,
    pub start_y: i64,
    pub rotation: i64,
    pub width: i64,
    pub height: i64,
}

impl Player {
    /// Velocities stay inside their clamps, coordinates inside the play
    /// volume, and the jump force is an upward impulse within the clamps.
    pub open spec fn wf(self) -> bool {
        &&& -MAX_FALL_MILLI <= self.vy <= MAX_FALL_MILLI
        &&& -MAX_HORIZONTAL_MILLI <= self.vx <= MAX_HORIZONTAL_MILLI
        &&& -POSITION_LIMIT_MILLI <= self.x <= POSITION_LIMIT_MILLI
        &&& -POSITION_LIMIT_MILLI <= self.y <= POSITION_LIMIT_MILLI
        &&& -POSITION_LIMIT_MILLI <= self.start_x <= POSITION_LIMIT_MILLI
        &&& -POSITION_LIMIT_MILLI <= self.start_y <= POSITION_LIMIT_MILLI
        &&& -POSITION_LIMIT_MILLI <= self.rotation <= POSITION_LIMIT_MILLI
        &&& -(MAX_FALL_MILLI - JUMP_RISING_BONUS_MILLI) <= self.jump_force <= 0
        &&& 0 < self.width <= SCREEN_WIDTH_MILLI
        &&& 0 < self.height <= SCREEN_HEIGHT_MILLI
    }

    /// The body after one physics step of `dt` microseconds: gravity pulls on
    /// the vertical velocity, both velocity components are clamped, position
    /// integrates by the clamped velocity, and a dead body tumbles.
    pub open spec fn spec_step(self, dt: int) -> Player {
        let vy1 = spec_clamp(
            self.vy + spec_scale(GRAVITY_MILLI as int, dt),
            -MAX_FALL_MILLI as int,
            MAX_FALL_MILLI as int,
        );
        let vx1 = spec_clamp(
            self.vx as int,
            -MAX_HORIZONTAL_MILLI as int,
            MAX_HORIZONTAL_MILLI as int,
        );
        Player {
            vy: vy1 as i64,
            vx: vx1 as i64,
            y: spec_clamp(
                self.y + spec_scale(vy1, dt),
                -POSITION_LIMIT_MILLI as int,
                POSITION_LIMIT_MILLI as int,
            ) as i64,
            x: spec_clamp(
                self.x + spec_scale(vx1, dt),
                -POSITION_LIMIT_MILLI as int,
                POSITION_LIMIT_MILLI as int,
            ) as i64,
            rotation: if self.alive {
                self.rotation
            } else {
                spec_clamp(
                    self.rotation - spec_scale(TUMBLE_RATE_MILLI as int, dt),
                    -POSITION_LIMIT_MILLI as int,
                    POSITION_LIMIT_MILLI as int,
                ) as i64
            },
            ..self
        }
    }

    /// The body after a one-shot jump: while alive the vertical velocity
    /// becomes the jump force, slightly strengthened if the body is already
    /// moving upward; a dead body is unchanged.
    pub open spec fn spec_jump(self) -> Player {
        if self.alive {
            Player {
                vy: if self.vy < 0 {
                    (self.jump_force - JUMP_RISING_BONUS_MILLI) as i64
                } else {
                    self.jump_force
                },
                ..self
            }
        } else {
            self
        }
    }

    /// The body after being marked dead: the death impulse applies exactly
    /// once, so a body that is already dead is unchanged.
    pub open spec fn spec_dead(self) -> Player {
        if self.alive {
            Player { alive: false, vx: DEATH_KICK_MILLI, vy: self.jump_force, ..self }
        } else {
            self
        }
    }

    /// The body back at its starting position, at rest, upright and alive.
    pub open spec fn spec_restart(self) -> Player {
        Player { alive: true, x: self.start_x, y: self.start_y, vx: 0, vy: 0, rotation: 0, ..self }
    }

    /// A physics step, a jump and death never touch the body's identity: its
    /// starting position, its size and its jump force.
    pub proof fn lemma_steps_preserve_identity(self, dt: int)
        ensures
            self.spec_step(dt).start_x == self.start_x,
            self.spec_step(dt).start_y == self.start_y,
            self.spec_step(dt).width == self.width,
            self.spec_step(dt).height == self.height,
            self.spec_step(dt).jump_force == self.jump_force,
            self.spec_jump().start_x == self.start_x,
            self.spec_jump().start_y == self.start_y,
            self.spec_jump().width == self.width,
            self.spec_jump().height == self.height,
            self.spec_jump().jump_force == self.jump_force,
            self.spec_dead().start_x == self.start_x,
            self.spec_dead().start_y == self.start_y,
            self.spec_dead().width == self.width,
            self.spec_dead().height == self.height,
            self.spec_dead().jump_force == self.jump_force,
    {
    }

    /// Restarting returns position, velocity and rotation to their created
    /// values: any body that still carries the identity of the freshly
    /// created one — as any sequence of steps, jumps and deaths leaves it —
    /// restarts to exactly the freshly created body.
    pub proof fn lemma_restart_restores_initial(self, width: int, height: int)
        requires
            self.start_x == Player::spec_initial(width, height).start_x,
            self.start_y == Player::spec_initial(width, height).start_y,
            self.width == Player::spec_initial(width, height).width,
            self.height == Player::spec_initial(width, height).height,
            self.jump_force == Player::spec_initial(width, height).jump_force,
        ensures
            self.spec_restart() == Player::spec_initial(width, height),
    {
    }

    /// The freshly created body of the given size: centred on the screen, at
    /// rest, alive, remembering that spot as its starting position.
    pub open spec fn spec_initial(width: int, height: int) -> Player {
        let x = SCREEN_WIDTH_MILLI / 2 - width / 2;
        let y = SCREEN_HEIGHT_MILLI / 2 - height / 2;
        Player {
            alive: true,
            x: x as i64,
            y: y as i64,
            vx: 0,
            vy: 0,
            jump_force: JUMP_FORCE_MILLI,
            start_x: x as i64,
            start_y: y as i64,
            rotation: 0,
            width: width as i64,
            height: height as i64,
        }
    }

    /// A body centred on the screen, at rest, alive, remembering that spot as
    /// its starting position.
    pub fn new(width: i64, height: i64) -> (p: Player)
        requires
            0 < width <= SCREEN_WIDTH_MILLI,
            0 < height <= SCREEN_HEIGHT_MILLI,
        ensures
            p.wf(),
            p == Player::spec_initial(width as int, height as int),
            p.alive,
            p.x == SCREEN_WIDTH_MILLI / 2 - width / 2,
            p.y == SCREEN_HEIGHT_MILLI / 2 - height / 2,
            p.start_x == p.x,
            p.start_y == p.y,
            p.vx == 0,
            p.vy == 0,
            p.rotation == 0,
            p.jump_force == JUMP_FORCE_MILLI,
            p.width == width,
            p.height == height,
    {
        let half_screen_x: u64 = (SCREEN_WIDTH_MILLI as u64) / 2;
        let half_screen_y: u64 = (SCREEN_HEIGHT_MILLI as u64) / 2;
        let x: i64 = (half_screen_x - (width as u64) / 2) as i64;
        let y: i64 = (half_screen_y - (height as u64) / 2) as i64;
        Player {
            alive: true,
            x,
            y,
            vx: 0,
            vy: 0,
            jump_force: JUMP_FORCE_MILLI,
            start_x: x,
            start_y: y,
            rotation: 0,
            width,
            height,
        }
    }

    /// One physics step of `dt` microseconds. The velocity clamps hold
    /// afterwards whatever the history of inputs was.
    pub fn update(&mut self, dt: u64)
        requires
            old(self).wf(),
            dt <= MAX_FRAME_MICROS,
        ensures
            final(self).wf(),
            *final(self) == old(self).spec_step(dt as int),
            -MAX_FALL_MILLI <= final(self).vy <= MAX_FALL_MILLI,
            -MAX_HORIZONTAL_MILLI <= final(self).vx <= MAX_HORIZONTAL_MILLI,
    {
        let pull: i64 = scale_by_micros(GRAVITY_MILLI, dt);
        self.vy = clamp_i64(self.vy + pull, -MAX_FALL_MILLI, MAX_FALL_MILLI);
        self.vx = clamp_i64(self.vx, -MAX_HORIZONTAL_MILLI, MAX_HORIZONTAL_MILLI);
        let dy: i64 = scale_by_micros(self.vy, dt);
        let dx: i64 = scale_by_micros(self.vx, dt);
        self.y = clamp_i64(self.y + dy, -POSITION_LIMIT_MILLI, POSITION_LIMIT_MILLI);
        self.x = clamp_i64(self.x + dx, -POSITION_LIMIT_MILLI, POSITION_LIMIT_MILLI);
        if !self.alive {
            let spin: i64 = scale_by_micros(TUMBLE_RATE_MILLI, dt);
            self.rotation = clamp_i64(
                self.rotation - spin,
                -POSITION_LIMIT_MILLI,
                POSITION_LIMIT_MILLI,
            );
        }
    }

    /// A one-shot jump: while alive it sets the vertical velocity to the jump
    /// force, slightly strengthened if the body is already moving upward; a
    /// dead body ignores it.
    pub fn handle_jump(&mut self)
        requires
            old(self).wf(),
        ensures
            final(self).wf(),
            *final(self) == old(self).spec_jump(),
    {
        if self.alive {
            self.vy = if self.vy < 0 {
                self.jump_force - JUMP_RISING_BONUS_MILLI
            } else {
                self.jump_force
            };
        }
    }

    /// Marks the body dead, imparting the death impulse exactly once: calling
    /// it on a body that is already dead changes nothing.
    pub fn dead(&mut self)
        requires
            old(self).wf(),
        ensures
            final(self).wf(),
            !final(self).alive,
            *final(self) == old(self).spec_dead(),
    {
        if self.alive {
            self.vx = DEATH_KICK_MILLI;
            self.vy = self.jump_force;
        }
        self.alive = false;
    }

    /// Returns the body to its starting position, at rest, upright and alive.
    pub fn restart(&mut self)
        requires
            old(self).wf(),
        ensures
            final(self).wf(),
            *final(self) == old(self).spec_restart(),
            final(self).x == old(self).start_x,
            final(self).y == old(self).start_y,
            final(self).vx == 0,
            final(self).vy == 0,
            final(self).rotation == 0,
            final(self).alive,
    {
        self.alive = true;
        self.x = self.start_x;
        self.y = self.start_y;
        self.vx = 0;
        self.vy = 0;
        self.rotation = 0;
    }
}

} // verus!
