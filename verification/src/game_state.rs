//! The scene state machine: start screen, playing, game over. One tick reads
//! the buffered one-shot inputs, moves the scene, steps the player and the
//! world, scores newly passed obstacles, and on a collision freezes the world
//! and begins the music's fade-out. Sounds to play and audio commands to
//! carry out are handed back to the caller.

use vstd::prelude::*;
use crate::units::spec_scale;
use crate::driver::MAX_FRAME_MICROS;
use crate::base::Base;
use crate::music_player::{AudioCommand, MusicError, MusicPlayer};
use crate::pipes::{Pipe, PipeGeometry};
use crate::player::Player;
use crate::rng::rand_index;
use crate::world::{
    spec_mark_all, spec_newly_count, spec_score_saturate, spec_seq_hits, spec_stop_all, World,
    SCROLL_VELOCITY_MILLI,
};
use crate::SCREEN_HEIGHT_MILLI;

verus! {

/// The top-level mode of the game.
#[derive(Clone, Copy, PartialEq, Eq, Structural, Debug)]
pub enum GameScene {
    StartScreen,
    Playing,
    GameOver,
}

/// A sound effect the caller must play, in the order handed back.
#[derive(Clone, Copy, PartialEq, Eq, Structural, Debug)]
pub enum SoundEvent {
    Wing,
    Point,
    Hit,
    Death,
}

/// What one tick asks of the caller: sound effects to play, in order, and
/// audio commands for the music tracks.
pub struct TickOutput {
    pub sounds: Vec<SoundEvent>,
    pub audio: Vec<AudioCommand>,
}

/// The scene after the buffered input is read: a press leaves the start
/// screen for play, or the game-over screen for the start screen.
pub open spec fn spec_scene_after_input(scene: GameScene, pressed: bool) -> GameScene {
    match scene {
        GameScene::StartScreen => if pressed {
            GameScene::Playing
        } else {
            GameScene::StartScreen
        },
        GameScene::Playing => GameScene::Playing,
        GameScene::GameOver => if pressed {
            GameScene::StartScreen
        } else {
            GameScene::GameOver
        },
    }
}

/// The whole game: scene, world, player, music, and the two buffered one-shot
/// input flags.
pub struct GameState {
    pub scene: GameScene,
    pub world: World,
    pub player: Player,
    pub music: MusicPlayer,
    /// Buffered: the jump key was pressed since the last tick.
    pub input_space: bool,
    /// Buffered: the pointer button was pressed since the last tick.
    pub input_mouse: bool,
}

impl GameState {
    pub open spec fn wf(self) -> bool {
        &&& self.world.wf()
        &&& self.player.wf()
        &&& self.music.wf()
    }

    /// How one tick at fixed step `dt`, wall clock `now` and spawn category
    /// index `r` relates the state before (`pre`) to the state after
    /// (`post`), with the sounds and audio commands handed back.
    ///
    /// First the buffered input moves the scene (leaving the game-over screen
    /// advances the music). Then, by the scene now active: the start screen
    /// resets player and world each tick; play applies the optional jump,
    /// steps player and world, scores newly passed pairs, and on a collision
    /// marks the player dead, freezes the world, begins the music's fade-out
    /// and enters game over; on the game-over screen the body keeps falling
    /// while the world stays frozen. The input buffers are cleared last.
    pub open spec fn spec_tick_rel(
        pre: GameState,
        post: GameState,
        dt: int,
        now: int,
        r: int,
        sounds: Seq<SoundEvent>,
        audio: Seq<AudioCommand>,
    ) -> bool {
        let pressed = pre.input_space || pre.input_mouse;
        let scene1 = spec_scene_after_input(pre.scene, pressed);
        let advanced = pre.scene is GameOver && pressed;
        let music1 = if advanced {
            pre.music.spec_next_outcome(now).0
        } else {
            pre.music
        };
        let audio1 = if advanced {
            pre.music.spec_next_outcome(now).1
        } else {
            Seq::<AudioCommand>::empty()
        };
        &&& !post.input_space
        &&& !post.input_mouse
        &&& audio == audio1
        &&& match scene1 {
            GameScene::StartScreen => {
                &&& post.scene == GameScene::StartScreen
                &&& post.player == pre.player.spec_restart()
                &&& post.world.pipes@ == Seq::<(Pipe, Pipe)>::empty()
                &&& post.world.score == 0
                &&& post.world.base == (Base { stopped: false, ..pre.world.base })
                &&& post.world == (World {
                    pipes: post.world.pipes,
                    score: 0,
                    base: post.world.base,
                    ..pre.world
                })
                &&& post.music == music1
                &&& sounds == Seq::<SoundEvent>::empty()
            },
            GameScene::Playing => {
                let player1 = if pressed {
                    pre.player.spec_jump()
                } else {
                    pre.player
                };
                let player2 = player1.spec_step(dt);
                let w = pre.world;
                let pipes1 = w.spec_pipes_after_update(dt, r);
                let newly = spec_newly_count(pipes1, player2);
                let pipes2 = spec_mark_all(pipes1, player2);
                let base1 = w.base.spec_step(dt);
                let hit = {
                    ||| player2.y < 0
                    ||| player2.y > SCREEN_HEIGHT_MILLI
                    ||| spec_seq_hits(pipes2, player2)
                    ||| base1.spec_hits(player2)
                };
                &&& post.scene == (if hit {
                    GameScene::GameOver
                } else {
                    GameScene::Playing
                })
                &&& post.player == (if hit {
                    player2.spec_dead()
                } else {
                    player2
                })
                &&& post.world.pipes@ == (if hit {
                    spec_stop_all(pipes2)
                } else {
                    pipes2
                })
                &&& post.world.score == spec_score_saturate(w.score as int, newly)
                &&& post.world.timer == (if w.spec_will_spawn(dt) {
                    0
                } else {
                    w.timer + dt
                })
                &&& post.world.last_pipe_location_index == (if w.spec_will_spawn(dt) {
                    r
                } else {
                    w.last_pipe_location_index as int
                })
                &&& post.world.base == (if hit {
                    Base { stopped: true, ..base1 }
                } else {
                    base1
                })
                &&& post.world.velocity == w.velocity
                &&& post.world.pipe_spawn_time == w.pipe_spawn_time
                &&& post.world.geometry == w.geometry
                &&& post.music == (if hit {
                    music1.spec_stop_outcome(now)
                } else {
                    music1
                })
                &&& sounds == (if pressed {
                    seq![SoundEvent::Wing]
                } else {
                    Seq::<SoundEvent>::empty()
                }) + (if newly > 0 {
                    seq![SoundEvent::Point]
                } else {
                    Seq::<SoundEvent>::empty()
                }) + (if hit {
                    seq![SoundEvent::Hit, SoundEvent::Death]
                } else {
                    Seq::<SoundEvent>::empty()
                })
            },
            GameScene::GameOver => {
                &&& post.scene == GameScene::GameOver
                &&& post.player == pre.player.spec_step(dt)
                &&& post.world == pre.world
                &&& post.music == music1
                &&& sounds == Seq::<SoundEvent>::empty()
            },
        }
    }

    /// A game on the start screen with an empty world, a player at the
    /// screen's centre and stopped music; fails exactly when the track list
    /// is empty.
    pub fn new(
        geometry: PipeGeometry,
        base_width: i64,
        player_width: i64,
        player_height: i64,
        track_count: usize,
        fade_duration_micros: u64,
    ) -> (r: Result<GameState, MusicError>)
        requires
            geometry.wf(),
            0 < base_width <= 10_000_000,
            spec_scale(SCROLL_VELOCITY_MILLI as int, MAX_FRAME_MICROS as int) < base_width,
            0 < player_width <= crate::SCREEN_WIDTH_MILLI,
            0 < player_height <= SCREEN_HEIGHT_MILLI,
            0 < fade_duration_micros <= 3_600_000_000,
        ensures
            track_count == 0 <==> (r matches Err(e) && e == MusicError::NoTracks),
            (r matches Ok(g) ==> {
                &&& g.wf()
                &&& g.scene == GameScene::StartScreen
                &&& !g.input_space
                &&& !g.input_mouse
                &&& g.world.pipes@ == Seq::<(Pipe, Pipe)>::empty()
                &&& g.world.score == 0
                &&& g.world.timer == 0
                &&& g.world.geometry == geometry
                &&& g.player == Player::spec_initial(player_width as int, player_height as int)
                &&& g.music == (MusicPlayer {
                    track_count,
                    current_index: 0,
                    is_playing: false,
                    fade_state: crate::music_player::FadeState::Idle,
                    fade_start_micros: 0,
                    fade_duration_micros,
                })
            }),
    {
        let music: MusicPlayer = match MusicPlayer::new(track_count, fade_duration_micros) {
            Ok(m) => m,
            Err(e) => {
                return Err(e);
            },
        };
        let world: World = World::new(geometry, base_width);
        let player: Player = Player::new(player_width, player_height);
        Ok(
            GameState {
                scene: GameScene::StartScreen,
                world,
                player,
                music,
                input_space: false,
                input_mouse: false,
            },
        )
    }

    /// Buffers the inputs sampled this displayed frame: a flag, once set,
    /// stays set until a tick consumes it, so a press between two ticks is
    /// not lost.
    pub fn check_inputs_every_frame(&mut self, space_pressed: bool, mouse_pressed: bool)
        ensures
            *final(self) == (GameState {
                input_space: old(self).input_space || space_pressed,
                input_mouse: old(self).input_mouse || mouse_pressed,
                ..*old(self)
            }),
    {
        if space_pressed {
            self.input_space = true;
        }
        if mouse_pressed {
            self.input_mouse = true;
        }
    }

    /// The once-per-frame music tick: starts playback if nothing plays, then
    /// advances any fade at wall clock `now`.
    pub fn update_music(&mut self, now: u64) -> (cmds: Vec<AudioCommand>)
        requires
            old(self).wf(),
        ensures
            final(self).wf(),
            *final(self) == (GameState { music: final(self).music, ..*old(self) }),
            final(self).music == old(self).music.spec_play_outcome().0.spec_update_outcome(
                now as int,
            ).0,
            cmds@ == old(self).music.spec_play_outcome().1 + old(
                self,
            ).music.spec_play_outcome().0.spec_update_outcome(now as int).1,
    {
        let mut cmds: Vec<AudioCommand> = self.music.play();
        let mut more: Vec<AudioCommand> = self.music.update(now);
        cmds.append(&mut more);
        cmds
    }

    /// One simulation tick with the spawn category index supplied by the
    /// caller; see `spec_tick_rel` for the full transition.
    pub fn update_with_gap_index(&mut self, dt: u64, now: u64, gap_index: usize) -> (out:
        TickOutput)
        requires
            old(self).wf(),
            dt <= MAX_FRAME_MICROS,
            gap_index < 10,
        ensures
            final(self).wf(),
            GameState::spec_tick_rel(
                *old(self),
                *final(self),
                dt as int,
                now as int,
                gap_index as int,
                out.sounds@,
                out.audio@,
            ),
    {
        let space: bool = self.input_space;
        let mouse: bool = self.input_mouse;
        let pressed: bool = space || mouse;
        let mut audio: Vec<AudioCommand> = Vec::new();
        let mut sounds: Vec<SoundEvent> = Vec::new();
        match self.scene {
            GameScene::StartScreen => {
                if pressed {
                    self.scene = GameScene::Playing;
                }
            },
            GameScene::Playing => {},
            GameScene::GameOver => {
                if pressed {
                    self.scene = GameScene::StartScreen;
                    let mut advanced: Vec<AudioCommand> = self.music.next(now);
                    audio.append(&mut advanced);
                }
            },
        }
        assert(audio@ =~= if old(self).scene is GameOver && pressed {
            old(self).music.spec_next_outcome(now as int).1
        } else {
            Seq::<AudioCommand>::empty()
        });
        match self.scene {
            GameScene::StartScreen => {
                self.player.restart();
                self.world.restart();
            },
            GameScene::Playing => {
                if pressed {
                    self.player.handle_jump();
                    sounds.push(SoundEvent::Wing);
                }
                self.player.update(dt);
                self.world.update(dt, gap_index);
                if self.world.player_passed_pipes(&self.player) {
                    sounds.push(SoundEvent::Point);
                }
                if self.world.touched(&self.player) {
                    sounds.push(SoundEvent::Hit);
                    self.player.dead();
                    self.world.end();
                    self.music.stop(now);
                    self.scene = GameScene::GameOver;
                    sounds.push(SoundEvent::Death);
                }
            },
            GameScene::GameOver => {
                self.player.update(dt);
            },
        }
        self.input_space = false;
        self.input_mouse = false;
        proof {
            let pre = *old(self);
            let scene1 = spec_scene_after_input(pre.scene, pressed);
            if scene1 is Playing {
                let player1 = if pressed {
                    pre.player.spec_jump()
                } else {
                    pre.player
                };
                let player2 = player1.spec_step(dt as int);
                let pipes1 = pre.world.spec_pipes_after_update(dt as int, gap_index as int);
                let newly = spec_newly_count(pipes1, player2);
                let hit = self.scene is GameOver;
                assert(sounds@ =~= (if pressed {
                    seq![SoundEvent::Wing]
                } else {
                    Seq::<SoundEvent>::empty()
                }) + (if newly > 0 {
                    seq![SoundEvent::Point]
                } else {
                    Seq::<SoundEvent>::empty()
                }) + (if hit {
                    seq![SoundEvent::Hit, SoundEvent::Death]
                } else {
                    Seq::<SoundEvent>::empty()
                }));
            } else {
                assert(sounds@ =~= Seq::<SoundEvent>::empty());
            }
        }
        TickOutput { sounds, audio }
    }

    /// One simulation tick of `dt` microseconds at wall clock `now`: as
    /// `update_with_gap_index`, with the spawn category index drawn at
    /// random. Whatever index was drawn, the transition satisfies
    /// `spec_tick_rel` for it.
    pub fn update(&mut self, dt: u64, now: u64) -> (out: TickOutput)
        requires
            old(self).wf(),
            dt <= MAX_FRAME_MICROS,
        ensures
            final(self).wf(),
            exists|r: int|
                0 <= r < 10 && GameState::spec_tick_rel(
                    *old(self),
                    *final(self),
                    dt as int,
                    now as int,
                    r,
                    out.sounds@,
                    out.audio@,
                ),
    {
        let gap_index: usize = rand_index(10);
        let out: TickOutput = self.update_with_gap_index(dt, now, gap_index);
        proof {
            assert(GameState::spec_tick_rel(
                *old(self),
                *final(self),
                dt as int,
                now as int,
                gap_index as int,
                out.sounds@,
                out.audio@,
            ));
        }
        out
    }
}

} // verus!
