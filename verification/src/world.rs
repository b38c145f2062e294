//! The world: the obstacle pairs, the ground scroller, the spawn timer and
//! the score. It advances and evicts obstacles, answers collision queries,
//! and counts each obstacle pair at most once when the player passes it.

use vstd::prelude::*;
use crate::units::{spec_scale, VELOCITY_LIMIT_MILLI};
use crate::driver::MAX_FRAME_MICROS;
use crate::base::Base;
use crate::pipes::{Pipe, PipeGeometry, PipeLocation, spec_location_of_index, location_of_index};
use crate::player::Player;
use crate::SCREEN_WIDTH_MILLI;

verus! {

/// Leftward scroll speed of pipes and ground, in milli-pixels per second.
pub const SCROLL_VELOCITY_MILLI: u32 = 200_000;

/// Time between two obstacle spawns, in microseconds.
pub const PIPE_SPAWN_MICROS: u64 = 2_000_000;

/// One obstacle pair steps by stepping both members.
pub open spec fn spec_pair_step(pr: (Pipe, Pipe), dt: int) -> (Pipe, Pipe) {
    (pr.0.spec_step(dt), pr.1.spec_step(dt))
}

/// A pair stays in the world while its leading member is not fully past the
/// left edge.
pub open spec fn spec_pair_alive(pr: (Pipe, Pipe)) -> bool {
    !pr.0.spec_off_screen()
}

/// Whether either member of the pair overlaps the player.
pub open spec fn spec_pair_hits(pr: (Pipe, Pipe), player: Player) -> bool {
    pr.0.spec_hits(player) || pr.1.spec_hits(player)
}

/// Whether any pair in the sequence overlaps the player.
pub open spec fn spec_seq_hits(pipes: Seq<(Pipe, Pipe)>, player: Player) -> bool {
    exists|i: int| 0 <= i < pipes.len() && spec_pair_hits(#[trigger] pipes[i], player)
}

/// Whether the player passes this pair for the first time: its leading edge
/// is behind the player's and it has not been counted yet.
pub open spec fn spec_newly_passed(pr: (Pipe, Pipe), player: Player) -> bool {
    pr.0.x < player.x && !pr.0.passed
}

/// The pair after a pass check: a newly passed pair is marked counted on its
/// leading member, any other pair is unchanged.
pub open spec fn spec_mark_passed(pr: (Pipe, Pipe), player: Player) -> (Pipe, Pipe) {
    if spec_newly_passed(pr, player) {
        (Pipe { passed: true, ..pr.0 }, pr.1)
    } else {
        pr
    }
}

/// Both members of the pair frozen in place.
pub open spec fn spec_pair_stop(pr: (Pipe, Pipe)) -> (Pipe, Pipe) {
    (Pipe { stopped: true, ..pr.0 }, Pipe { stopped: true, ..pr.1 })
}

/// How many pairs of the sequence the player newly passes.
pub open spec fn spec_newly_count(pipes: Seq<(Pipe, Pipe)>, player: Player) -> int {
    pipes.filter(|pr: (Pipe, Pipe)| spec_newly_passed(pr, player)).len() as int
}

/// Every pair after the pass check against the player.
pub open spec fn spec_mark_all(pipes: Seq<(Pipe, Pipe)>, player: Player) -> Seq<(Pipe, Pipe)> {
    pipes.map_values(|pr: (Pipe, Pipe)| spec_mark_passed(pr, player))
}

/// Every pair frozen in place.
pub open spec fn spec_stop_all(pipes: Seq<(Pipe, Pipe)>) -> Seq<(Pipe, Pipe)> {
    pipes.map_values(|pr: (Pipe, Pipe)| spec_pair_stop(pr))
}

/// The score after counting `k` more passed pairs, saturating at the
/// counter's maximum.
pub open spec fn spec_score_saturate(score: int, k: int) -> int {
    if score + k > u32::MAX {
        u32::MAX as int
    } else {
        score + k
    }
}

/// The playing field: obstacle pairs, ground scroller, spawn timer, score.
pub struct World {
    pub score: u32,
    /// Microseconds since the last spawn.
    pub timer: u64,
    /// Obstacle pairs, each a lower pipe and its mirrored upper pipe.
    pub pipes: Vec<(Pipe, Pipe)>,
    /// Microseconds between spawns.
    pub pipe_spawn_time: u64,
    /// Scroll speed handed to every spawned pipe, milli-pixels per second.
    pub velocity: u32,
    pub base: Base,
    /// Vertical layout handed to every spawned pipe.
    pub geometry: PipeGeometry,
    /// Gap category index of the most recent spawn.
    pub last_pipe_location_index: usize,
}

impl World {
    /// A sound pair: members share position, category, speed and frozen
    /// state; only the leading member carries the passed flag; and the pair
    /// sits between fully-off-screen on the left and the spawn point on the
    /// right.
    pub open spec fn spec_pair_wf(self, pr: (Pipe, Pipe)) -> bool {
        &&& pr.0.wf()
        &&& !pr.0.reflected
        &&& pr.1 == (Pipe { reflected: true, passed: false, ..pr.0 })
        &&& pr.0.geometry == self.geometry
        &&& pr.0.velocity == self.velocity
        &&& -self.geometry.pipe_width <= pr.0.x <= SCREEN_WIDTH_MILLI
    }

    pub open spec fn wf(self) -> bool {
        &&& self.base.wf()
        &&& self.geometry.wf()
        &&& self.velocity <= VELOCITY_LIMIT_MILLI
        &&& 0 < self.pipe_spawn_time <= 3_600_000_000
        &&& self.timer < self.pipe_spawn_time
        &&& self.last_pipe_location_index < 10
        &&& forall|i: int|
            0 <= i < self.pipes@.len() ==> self.spec_pair_wf(#[trigger] self.pipes@[i])
    }

    /// Whether charging `dt` more microseconds to the spawn timer reaches the
    /// spawn interval.
    pub open spec fn spec_will_spawn(self, dt: int) -> bool {
        self.timer + dt >= self.pipe_spawn_time
    }

    /// The pair spawned for gap category index `idx`: both members at the
    /// spawn point off the right edge, moving, uncounted.
    pub open spec fn spec_spawn_pair(self, idx: int) -> (Pipe, Pipe) {
        let lower = Pipe {
            velocity: self.velocity,
            reflected: false,
            x: SCREEN_WIDTH_MILLI,
            location: spec_location_of_index(idx),
            geometry: self.geometry,
            stopped: false,
            passed: false,
        };
        (lower, Pipe { reflected: true, ..lower })
    }

    /// The obstacle pairs after one step: the spawned pair (if the timer
    /// elapsed) is appended, every pair slides, and pairs fully past the left
    /// edge are evicted.
    pub open spec fn spec_pipes_after_update(self, dt: int, idx: int) -> Seq<(Pipe, Pipe)> {
        let spawned = if self.spec_will_spawn(dt) {
            self.pipes@.push(self.spec_spawn_pair(idx))
        } else {
            self.pipes@
        };
        spawned.map_values(|pr: (Pipe, Pipe)| spec_pair_step(pr, dt)).filter(
            |pr: (Pipe, Pipe)| spec_pair_alive(pr),
        )
    }

    /// Whether the player collides with anything: the vertical screen bounds,
    /// any obstacle, or the ground.
    pub open spec fn spec_touched(self, player: Player) -> bool {
        ||| player.y < 0
        ||| player.y > crate::SCREEN_HEIGHT_MILLI
        ||| spec_seq_hits(self.pipes@, player)
        ||| self.base.spec_hits(player)
    }

    /// An empty world: no obstacles, score zero, spawn timer at zero, ground
    /// scroller at its start, the gap category index at the middle category.
    pub fn new(geometry: PipeGeometry, base_width: i64) -> (w: World)
        requires
            geometry.wf(),
            0 < base_width <= 10_000_000,
            spec_scale(SCROLL_VELOCITY_MILLI as int, MAX_FRAME_MICROS as int) < base_width,
        ensures
            w.wf(),
            w.score == 0,
            w.timer == 0,
            w.pipes@.len() == 0,
            w.pipe_spawn_time == PIPE_SPAWN_MICROS,
            w.velocity == SCROLL_VELOCITY_MILLI,
            w.geometry == geometry,
            w.last_pipe_location_index == 4,
            w.base == (Base {
                velocity: SCROLL_VELOCITY_MILLI,
                height: geometry.base_height,
                width: base_width,
                x1: 0,
                x2: base_width,
                stopped: false,
            }),
    {
        let base = Base::new(base_width, geometry.base_height, SCROLL_VELOCITY_MILLI);
        World {
            score: 0,
            timer: 0,
            pipes: Vec::new(),
            pipe_spawn_time: PIPE_SPAWN_MICROS,
            velocity: SCROLL_VELOCITY_MILLI,
            base,
            geometry,
            last_pipe_location_index: 4,
        }
    }

    /// One step of `dt` microseconds, spawning with gap category index
    /// `gap_index` if the spawn timer elapses: charges the timer, appends the
    /// spawned pair, slides every pair and the ground, and evicts pairs fully
    /// past the left edge.
    pub fn update(&mut self, dt: u64, gap_index: usize)
        requires
            old(self).wf(),
            dt <= MAX_FRAME_MICROS,
            gap_index < 10,
        ensures
            final(self).wf(),
            final(self).pipes@ == old(self).spec_pipes_after_update(dt as int, gap_index as int),
            final(self).timer == if old(self).spec_will_spawn(dt as int) {
                0
            } else {
                old(self).timer + dt
            },
            final(self).last_pipe_location_index == if old(self).spec_will_spawn(dt as int) {
                gap_index as int
            } else {
                old(self).last_pipe_location_index as int
            },
            final(self).base == old(self).base.spec_step(dt as int),
            final(self).score == old(self).score,
            final(self).velocity == old(self).velocity,
            final(self).pipe_spawn_time == old(self).pipe_spawn_time,
            final(self).geometry == old(self).geometry,
    {
        let ghost stepf = |pr: (Pipe, Pipe)| spec_pair_step(pr, dt as int);
        let ghost alivef = |pr: (Pipe, Pipe)| spec_pair_alive(pr);
        self.timer = self.timer + dt;
        if self.timer >= self.pipe_spawn_time {
            let loc: PipeLocation = location_of_index(gap_index);
            let lower: Pipe = Pipe::new(false, self.velocity, loc, self.geometry);
            let upper: Pipe = Pipe::new(true, self.velocity, loc, self.geometry);
            self.pipes.push((lower, upper));
            self.last_pipe_location_index = gap_index;
            self.timer = 0;
        }
        let ghost src = self.pipes@;
        assert(src == if old(self).spec_will_spawn(dt as int) {
            old(self).pipes@.push(old(self).spec_spawn_pair(gap_index as int))
        } else {
            old(self).pipes@
        });
        let mut kept: Vec<(Pipe, Pipe)> = Vec::new();
        let mut i: usize = 0;
        proof {
            assert(src.take(0).map_values(stepf).filter(alivef) =~= Seq::<(Pipe, Pipe)>::empty())
                by {
                reveal(Seq::filter);
                assert(src.take(0).map_values(stepf) =~= Seq::<(Pipe, Pipe)>::empty());
            };
        }
        while i < self.pipes.len()
            invariant
                i <= self.pipes@.len(),
                self.pipes@ == src,
                dt <= MAX_FRAME_MICROS,
                stepf == (|pr: (Pipe, Pipe)| spec_pair_step(pr, dt as int)),
                alivef == (|pr: (Pipe, Pipe)| spec_pair_alive(pr)),
                forall|j: int|
                    0 <= j < src.len() ==> old(self).spec_pair_wf(#[trigger] src[j]) || src[j]
                        == old(self).spec_spawn_pair(gap_index as int),
                old(self).wf(),
                gap_index < 10,
                self.geometry == old(self).geometry,
                self.velocity == old(self).velocity,
                kept@ == src.take(i as int).map_values(stepf).filter(alivef),
                forall|j: int|
                    0 <= j < kept@.len() ==> self.spec_pair_wf(#[trigger] kept@[j]),
            decreases self.pipes@.len() - i,
        {
            let pr: (Pipe, Pipe) = self.pipes[i];
            let mut lower: Pipe = pr.0;
            let mut upper: Pipe = pr.1;
            assert(lower.wf() && upper.wf()) by {
                assert(old(self).spec_pair_wf(pr) || pr == old(self).spec_spawn_pair(
                    gap_index as int,
                ));
            };
            lower.update(dt);
            upper.update(dt);
            let keep: bool = !lower.is_off_screen();
            if keep {
                kept.push((lower, upper));
            }
            proof {
                let t0 = src.take(i as int);
                let t1 = src.take(i + 1 as int);
                assert(t1.drop_last() =~= t0);
                assert(t1.map_values(stepf).drop_last() =~= t0.map_values(stepf));
                assert(t1.map_values(stepf).last() == stepf(src[i as int]));
                reveal(Seq::filter);
                assert((lower, upper) == stepf(src[i as int]));
            }
            i = i + 1;
        }
        proof {
            assert(src.take(src.len() as int) =~= src);
        }
        self.pipes = kept;
        self.base.update(dt);
    }

    /// Whether the player collides with the vertical screen bounds, any
    /// obstacle, or the ground.
    pub fn touched(&self, player: &Player) -> (r: bool)
        requires
            self.wf(),
            player.wf(),
        ensures
            r == self.spec_touched(*player),
    {
        let off_screen: bool = player.y < 0 || player.y > crate::SCREEN_HEIGHT_MILLI;
        let mut hit: bool = false;
        let mut i: usize = 0;
        while i < self.pipes.len()
            invariant
                i <= self.pipes@.len(),
                self.wf(),
                player.wf(),
                hit == exists|j: int|
                    0 <= j < i && spec_pair_hits(#[trigger] self.pipes@[j], *player),
            decreases self.pipes@.len() - i,
        {
            let pr: &(Pipe, Pipe) = &self.pipes[i];
            assert(self.spec_pair_wf(self.pipes@[i as int]));
            if pr.0.touched(player) || pr.1.touched(player) {
                hit = true;
            }
            i = i + 1;
        }
        off_screen || hit || self.base.touched(player)
    }

    /// Freezes every obstacle and the ground in place.
    pub fn end(&mut self)
        requires
            old(self).wf(),
        ensures
            final(self).wf(),
            final(self).pipes@ == spec_stop_all(old(self).pipes@),
            final(self).base == (Base { stopped: true, ..old(self).base }),
            *final(self) == (World {
                pipes: final(self).pipes,
                base: final(self).base,
                ..*old(self)
            }),
    {
        let ghost src = self.pipes@;
        let ghost stopf = |pr: (Pipe, Pipe)| spec_pair_stop(pr);
        let mut stopped: Vec<(Pipe, Pipe)> = Vec::new();
        let mut i: usize = 0;
        while i < self.pipes.len()
            invariant
                i <= self.pipes@.len(),
                self.pipes@ == src,
                stopped@.len() == i,
                forall|j: int| 0 <= j < i ==> stopped@[j] == spec_pair_stop(#[trigger] src[j]),
            decreases self.pipes@.len() - i,
        {
            let pr: (Pipe, Pipe) = self.pipes[i];
            let mut lower: Pipe = pr.0;
            let mut upper: Pipe = pr.1;
            lower.stop();
            upper.stop();
            stopped.push((lower, upper));
            i = i + 1;
        }
        proof {
            assert(stopped@ =~= spec_stop_all(src));
        }
        self.pipes = stopped;
        self.base.stop();
    }

    /// Empties the obstacle collection, lets the ground scroll again and
    /// resets the score to zero, whatever ran before.
    pub fn restart(&mut self)
        requires
            old(self).wf(),
        ensures
            final(self).wf(),
            final(self).pipes@ == Seq::<(Pipe, Pipe)>::empty(),
            final(self).score == 0,
            final(self).base == (Base { stopped: false, ..old(self).base }),
            *final(self) == (World {
                pipes: final(self).pipes,
                base: final(self).base,
                score: 0,
                ..*old(self)
            }),
    {
        self.pipes = Vec::new();
        self.base.restart();
        self.score = 0;
        proof {
            assert(self.pipes@ =~= Seq::<(Pipe, Pipe)>::empty());
        }
    }

    /// In a sound world, an obstacle pair's two members always share the
    /// same horizontal position and the same gap category; every operation
    /// of the world keeps it sound, so this holds at every point of a pair's
    /// lifecycle.
    pub proof fn lemma_pair_members_aligned(self, i: int)
        requires
            self.wf(),
            0 <= i < self.pipes@.len(),
        ensures
            self.pipes@[i].1.x == self.pipes@[i].0.x,
            self.pipes@[i].1.location == self.pipes@[i].0.location,
            self.pipes@[i].1.geometry == self.pipes@[i].0.geometry,
    {
        assert(self.spec_pair_wf(self.pipes@[i]));
    }

    /// Counts the pairs the player newly passes: each such pair is marked
    /// counted on its leading member and adds one to the score (which
    /// saturates at its maximum). Returns whether any pair was newly passed.
    pub fn player_passed_pipes(&mut self, player: &Player) -> (passed: bool)
        requires
            old(self).wf(),
        ensures
            final(self).wf(),
            final(self).pipes@ == spec_mark_all(old(self).pipes@, *player),
            final(self).score == spec_score_saturate(
                old(self).score as int,
                spec_newly_count(old(self).pipes@, *player),
            ),
            passed == (spec_newly_count(old(self).pipes@, *player) > 0),
            *final(self) == (World {
                pipes: final(self).pipes,
                score: final(self).score,
                ..*old(self)
            }),
    {
        let ghost src = self.pipes@;
        let ghost newlyf = |pr: (Pipe, Pipe)| spec_newly_passed(pr, *player);
        let ghost markf = |pr: (Pipe, Pipe)| spec_mark_passed(pr, *player);
        let mut marked: Vec<(Pipe, Pipe)> = Vec::new();
        let mut any: bool = false;
        let mut i: usize = 0;
        proof {
            reveal(Seq::filter);
            assert(src.take(0) =~= Seq::<(Pipe, Pipe)>::empty());
        }
        while i < self.pipes.len()
            invariant
                i <= self.pipes@.len(),
                self.pipes@ == src,
                newlyf == (|pr: (Pipe, Pipe)| spec_newly_passed(pr, *player)),
                markf == (|pr: (Pipe, Pipe)| spec_mark_passed(pr, *player)),
                marked@.len() == i,
                forall|j: int| 0 <= j < i ==> marked@[j] == markf(#[trigger] src[j]),
                self.score == spec_score_saturate(
                    old(self).score as int,
                    src.take(i as int).filter(newlyf).len() as int,
                ),
                any == (src.take(i as int).filter(newlyf).len() > 0),
                *self == (World { pipes: self.pipes, score: self.score, ..*old(self) }),
            decreases self.pipes@.len() - i,
        {
            let pr: (Pipe, Pipe) = self.pipes[i];
            if pr.0.x < player.x && !pr.0.passed {
                let mut lower: Pipe = pr.0;
                lower.passed = true;
                marked.push((lower, pr.1));
                if self.score < u32::MAX {
                    self.score = self.score + 1;
                }
                any = true;
            } else {
                marked.push(pr);
            }
            proof {
                let t0 = src.take(i as int);
                let t1 = src.take(i + 1 as int);
                assert(t1.drop_last() =~= t0);
                reveal(Seq::filter);
            }
            i = i + 1;
        }
        proof {
            assert(src.take(src.len() as int) =~= src);
            assert(marked@ =~= spec_mark_all(src, *player));
        }
        self.pipes = marked;
        any
    }
}

} // verus!
