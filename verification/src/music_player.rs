//! Crossfade music sequencer: a ring of looping tracks, one playing at a
//! time, with a linear volume ramp between a stop or a track change and its
//! completion. The sequencer owns only indices and times; the caller carries
//! out the returned commands on its own audio handles and feeds the wall
//! clock in as microseconds.

use vstd::prelude::*;

verus! {

/// The sequencer with no tracks cannot be built.
#[derive(Clone, Copy, PartialEq, Eq, Debug)]
pub enum MusicError {
    NoTracks,
}

/// Which ramp, if any, the playing track is on. While fading out, the field
/// holds the track to crossfade into, or nothing when playback is to stop.
#[derive(Clone, Copy, PartialEq, Eq, Debug)]
pub enum FadeState {
    Idle,
    FadingOut { next_index: Option<usize> },
    FadingIn,
}

/// What the caller must do to its audio handles. Volumes are in thousandths
/// of full volume.
#[derive(Clone, Copy, PartialEq, Eq, Debug)]
pub enum AudioCommand {
    PlayLooped { track: usize, volume_milli: u32 },
    StopTrack { track: usize },
    SetVolume { track: usize, volume_milli: u32 },
}

/// How far a ramp that started at `start` and lasts `dur` microseconds has
/// come at time `now`, in thousandths, clamped to [0, 1000].
pub open spec fn spec_fade_progress_milli(start: int, dur: int, now: int) -> int {
    if now <= start {
        0
    } else if now - start >= dur {
        1000
    } else {
        (now - start) * 1000 / dur
    }
}

/// The playing track's volume during a fade-out, in thousandths: full volume
/// at the ramp's start, silence from its end on.
pub open spec fn spec_fade_out_volume_milli(start: int, dur: int, now: int) -> int {
    1000 - spec_fade_progress_milli(start, dur, now)
}

/// Fade progress never leaves [0, 1000]: it starts at zero, reaches 1000
/// exactly when the duration has elapsed, and never overshoots.
pub proof fn lemma_fade_progress_range(start: int, dur: int, now: int)
    requires
        0 < dur,
    ensures
        0 <= spec_fade_progress_milli(start, dur, now) <= 1000,
        now <= start ==> spec_fade_progress_milli(start, dur, now) == 0,
        now >= start + dur ==> spec_fade_progress_milli(start, dur, now) == 1000,
{
    if start < now < start + dur {
        let d = now - start;
        vstd::arithmetic::div_mod::lemma_div_pos_is_pos(d * 1000, dur);
        assert(d * 1000 <= dur * 1000) by (nonlinear_arith)
            requires
                0 <= d <= dur,
        ;
        vstd::arithmetic::div_mod::lemma_div_is_ordered(d * 1000, dur * 1000, dur);
        vstd::arithmetic::div_mod::lemma_div_multiples_vanish(1000, dur);
    }
}

/// Fade progress never decreases as time passes; so the fade-out volume
/// never increases: once `stop` has begun a fade-out, repeated updates drive
/// the volume monotonically from full volume at the ramp's start to silence
/// at its end.
pub proof fn lemma_fade_out_monotone(start: int, dur: int, t1: int, t2: int)
    requires
        0 < dur,
        t1 <= t2,
    ensures
        spec_fade_progress_milli(start, dur, t1) <= spec_fade_progress_milli(start, dur, t2),
        spec_fade_out_volume_milli(start, dur, t2) <= spec_fade_out_volume_milli(start, dur, t1),
{
    lemma_fade_progress_range(start, dur, t1);
    lemma_fade_progress_range(start, dur, t2);
    if start < t1 < start + dur && start < t2 < start + dur {
        let d1 = t1 - start;
        let d2 = t2 - start;
        assert(d1 * 1000 <= d2 * 1000) by (nonlinear_arith)
            requires
                d1 <= d2,
        ;
        vstd::arithmetic::div_mod::lemma_div_is_ordered(d1 * 1000, d2 * 1000, dur);
    }
}

/// With at least one track, starting playback and then updating, however
/// often and at whatever times, never changes the volume: `play` leaves no
/// ramp, and an update without a ramp emits no command and changes nothing.
pub proof fn lemma_steady_playback(m: MusicPlayer, now: int)
    requires
        m.track_count > 0,
        m.is_playing,
        m.fade_state is Idle,
    ensures
        m.spec_update_outcome(now) == (m, Seq::<AudioCommand>::empty()),
        m.spec_play_outcome() == (m, Seq::<AudioCommand>::empty()),
{
}

/// A fade-out with no crossfade target ends playback: once the fade duration
/// has elapsed, the update stops the playing track and reports not-playing.
pub proof fn lemma_fade_out_ends_stopped(m: MusicPlayer, now: int)
    requires
        m.track_count > 0,
        m.is_playing,
        m.fade_state == (FadeState::FadingOut { next_index: None }),
        0 < m.fade_duration_micros,
        now >= m.fade_start_micros + m.fade_duration_micros,
    ensures
        !m.spec_update_outcome(now).0.is_playing,
        m.spec_update_outcome(now).0.fade_state is Idle,
        m.spec_update_outcome(now).1 == seq![
            AudioCommand::StopTrack { track: m.current_index },
        ],
{
    lemma_fade_progress_range(
        m.fade_start_micros as int,
        m.fade_duration_micros as int,
        now,
    );
}

/// Computes the clamped fade progress at `now`, in thousandths.
pub fn fade_progress_milli(start: u64, dur: u64, now: u64) -> (p: u64)
    requires
        0 < dur <= 3_600_000_000,
    ensures
        p == spec_fade_progress_milli(start as int, dur as int, now as int),
        p <= 1000,
{
    proof {
        lemma_fade_progress_range(start as int, dur as int, now as int);
    }
    if now <= start {
        0
    } else if now - start >= dur {
        1000
    } else {
        let d: u64 = now - start;
        assert(d * 1000 <= 3_600_000_000 * 1000u64) by (nonlinear_arith)
            requires
                d <= 3_600_000_000,
        ;
        d * 1000 / dur
    }
}

/// The crossfade sequencer's state: how many tracks the caller holds, which
/// one is current, whether playback is on, and the active ramp. Times are
/// microseconds.
pub struct MusicPlayer {
    pub track_count: usize,
    pub current_index: usize,
    pub is_playing: bool,
    pub fade_state: FadeState,
    pub fade_start_micros: u64,
    pub fade_duration_micros: u64,
}

impl MusicPlayer {
    /// The current track exists, a crossfade target exists, and the fade
    /// duration is positive and bounded.
    pub open spec fn wf(self) -> bool {
        &&& (self.track_count > 0 ==> self.current_index < self.track_count)
        &&& (self.fade_state matches FadeState::FadingOut { next_index: Some(n) } ==> n
            < self.track_count)
        &&& 0 < self.fade_duration_micros <= 3_600_000_000
    }

    /// The ramp's progress at `now`, in thousandths.
    pub open spec fn spec_progress(self, now: int) -> int {
        spec_fade_progress_milli(
            self.fade_start_micros as int,
            self.fade_duration_micros as int,
            now,
        )
    }

    /// The sequencer and commands after switching playback to track `n` at
    /// time `now`: the old track stops and the new one starts silent on a
    /// fade-in ramp, whichever track follows which — wrapping from the last
    /// track back to the first is no exception.
    pub open spec fn spec_start_next(self, n: int, now: int) -> (MusicPlayer, Seq<AudioCommand>) {
        (
            MusicPlayer {
                current_index: n as usize,
                is_playing: true,
                fade_state: FadeState::FadingIn,
                fade_start_micros: now as u64,
                ..self
            },
            seq![
                AudioCommand::StopTrack { track: self.current_index },
                AudioCommand::PlayLooped { track: n as usize, volume_milli: 0u32 },
            ],
        )
    }

    /// The sequencer and command after `play`: starting the current track at
    /// full volume with no ramp, unless the track list is empty or something
    /// is already playing.
    pub open spec fn spec_play_outcome(self) -> (MusicPlayer, Seq<AudioCommand>) {
        if self.track_count == 0 || self.is_playing {
            (self, Seq::<AudioCommand>::empty())
        } else {
            (
                MusicPlayer { is_playing: true, fade_state: FadeState::Idle, ..self },
                seq![
                    AudioCommand::PlayLooped { track: self.current_index, volume_milli: 1000u32 },
                ],
            )
        }
    }

    /// The sequencer after `stop` at time `now`: a fade-out with no crossfade
    /// target begins, unless the track list is empty or nothing is playing.
    pub open spec fn spec_stop_outcome(self, now: int) -> MusicPlayer {
        if self.track_count == 0 || !self.is_playing {
            self
        } else {
            MusicPlayer {
                fade_state: FadeState::FadingOut { next_index: None },
                fade_start_micros: now as u64,
                ..self
            }
        }
    }

    /// The sequencer and commands after `next` at time `now`: a crossfade
    /// toward the following track while playing, an immediate switch while
    /// stopped, nothing at all with no tracks.
    pub open spec fn spec_next_outcome(self, now: int) -> (MusicPlayer, Seq<AudioCommand>) {
        if self.track_count == 0 {
            (self, Seq::<AudioCommand>::empty())
        } else {
            let target = (self.current_index + 1) % self.track_count as int;
            if self.is_playing {
                (
                    MusicPlayer {
                        fade_state: FadeState::FadingOut { next_index: Some(target as usize) },
                        fade_start_micros: now as u64,
                        ..self
                    },
                    Seq::<AudioCommand>::empty(),
                )
            } else {
                self.spec_start_next(target, now)
            }
        }
    }

    /// The sequencer and commands after one update. A stopped
    /// or empty sequencer is untouched; so is one playing steadily. On a
    /// fade-out the volume is the ramp's complement until the ramp ends,
    /// then playback switches to the crossfade target or stops entirely; on
    /// a fade-in the volume is the ramp itself until full volume is restored.
    pub open spec fn spec_update_outcome(self, now: int) -> (MusicPlayer, Seq<AudioCommand>) {
        if self.track_count == 0 || !self.is_playing {
            (self, Seq::<AudioCommand>::empty())
        } else {
            match self.fade_state {
                FadeState::Idle => (self, Seq::<AudioCommand>::empty()),
                FadeState::FadingOut { next_index } => {
                    let p = self.spec_progress(now);
                    if p >= 1000 {
                        match next_index {
                            Some(n) => self.spec_start_next(n as int, now),
                            None => (
                                MusicPlayer {
                                    is_playing: false,
                                    fade_state: FadeState::Idle,
                                    ..self
                                },
                                seq![AudioCommand::StopTrack { track: self.current_index }],
                            ),
                        }
                    } else {
                        (
                            self,
                            seq![
                                AudioCommand::SetVolume {
                                    track: self.current_index,
                                    volume_milli: (1000 - p) as u32,
                                },
                            ],
                        )
                    }
                },
                FadeState::FadingIn => {
                    let p = self.spec_progress(now);
                    if p >= 1000 {
                        (
                            MusicPlayer { fade_state: FadeState::Idle, ..self },
                            seq![
                                AudioCommand::SetVolume {
                                    track: self.current_index,
                                    volume_milli: 1000u32,
                                },
                            ],
                        )
                    } else {
                        (
                            self,
                            seq![
                                AudioCommand::SetVolume {
                                    track: self.current_index,
                                    volume_milli: p as u32,
                                },
                            ],
                        )
                    }
                },
            }
        }
    }

    /// A stopped sequencer on the first of `track_count` tracks; building one
    /// with no tracks at all is the one reported error.
    pub fn new(track_count: usize, fade_duration_micros: u64) -> (r: Result<
        MusicPlayer,
        MusicError,
    >)
        requires
            0 < fade_duration_micros <= 3_600_000_000,
        ensures
            track_count == 0 ==> r == Result::<MusicPlayer, MusicError>::Err(MusicError::NoTracks),
            track_count > 0 ==> r == Result::<MusicPlayer, MusicError>::Ok(
                MusicPlayer {
                    track_count,
                    current_index: 0,
                    is_playing: false,
                    fade_state: FadeState::Idle,
                    fade_start_micros: 0,
                    fade_duration_micros,
                },
            ),
            (r matches Ok(m) ==> m.wf()),
    {
        if track_count == 0 {
            Err(MusicError::NoTracks)
        } else {
            Ok(
                MusicPlayer {
                    track_count,
                    current_index: 0,
                    is_playing: false,
                    fade_state: FadeState::Idle,
                    fade_start_micros: 0,
                    fade_duration_micros,
                },
            )
        }
    }

    /// Starts the current track looped at full volume; a no-op when the track
    /// list is empty or something is already playing. Starting clears any
    /// ramp.
    pub fn play(&mut self) -> (cmds: Vec<AudioCommand>)
        requires
            old(self).wf(),
        ensures
            final(self).wf(),
            *final(self) == old(self).spec_play_outcome().0,
            cmds@ == old(self).spec_play_outcome().1,
    {
        let mut cmds: Vec<AudioCommand> = Vec::new();
        if self.track_count == 0 || self.is_playing {
            assert(cmds@ =~= Seq::<AudioCommand>::empty());
            return cmds;
        }
        self.is_playing = true;
        self.fade_state = FadeState::Idle;
        cmds.push(AudioCommand::PlayLooped { track: self.current_index, volume_milli: 1000 });
        proof {
            assert(cmds@ =~= old(self).spec_play_outcome().1);
        }
        cmds
    }

    /// Begins a fade-out with no crossfade target, so the ramp's end stops
    /// playback; a no-op when the track list is empty or nothing is playing.
    pub fn stop(&mut self, now: u64)
        requires
            old(self).wf(),
        ensures
            final(self).wf(),
            *final(self) == old(self).spec_stop_outcome(now as int),
    {
        if self.track_count == 0 || !self.is_playing {
            return ;
        }
        self.fade_state = FadeState::FadingOut { next_index: None };
        self.fade_start_micros = now;
    }

    /// Switches the old track off and track `n` on at time `now`, fading the
    /// new track in from silence — every transition, wrapping back to the
    /// first track included, goes through the same ramp.
    fn start_next_song(&mut self, n: usize, now: u64) -> (cmds: Vec<AudioCommand>)
        requires
            old(self).wf(),
            old(self).track_count > 0,
            n < old(self).track_count,
        ensures
            final(self).wf(),
            (*final(self), cmds@) == old(self).spec_start_next(n as int, now as int),
    {
        let mut cmds: Vec<AudioCommand> = Vec::new();
        cmds.push(AudioCommand::StopTrack { track: self.current_index });
        self.current_index = n;
        self.is_playing = true;
        cmds.push(AudioCommand::PlayLooped { track: n, volume_milli: 0 });
        self.fade_state = FadeState::FadingIn;
        self.fade_start_micros = now;
        proof {
            assert(cmds@ =~= old(self).spec_start_next(n as int, now as int).1);
        }
        cmds
    }

    /// Advances to the track after the current one: a crossfade while
    /// playing; an immediate switch, fading the new track in, while stopped.
    /// A no-op when the track list is empty.
    pub fn next(&mut self, now: u64) -> (cmds: Vec<AudioCommand>)
        requires
            old(self).wf(),
        ensures
            final(self).wf(),
            *final(self) == old(self).spec_next_outcome(now as int).0,
            cmds@ == old(self).spec_next_outcome(now as int).1,
    {
        if self.track_count == 0 {
            let cmds: Vec<AudioCommand> = Vec::new();
            assert(cmds@ =~= Seq::<AudioCommand>::empty());
            return cmds;
        }
        let target: usize = (self.current_index + 1) % self.track_count;
        if self.is_playing {
            self.fade_state = FadeState::FadingOut { next_index: Some(target) };
            self.fade_start_micros = now;
            let cmds: Vec<AudioCommand> = Vec::new();
            assert(cmds@ =~= Seq::<AudioCommand>::empty());
            cmds
        } else {
            self.start_next_song(target, now)
        }
    }

    /// One per-frame tick of the ramp at time `now`: emits the volume the
    /// caller must set, switches tracks when a crossfade's fade-out ends, and
    /// stops playback when a plain fade-out ends.
    pub fn update(&mut self, now: u64) -> (cmds: Vec<AudioCommand>)
        requires
            old(self).wf(),
        ensures
            final(self).wf(),
            (*final(self), cmds@) == old(self).spec_update_outcome(now as int),
    {
        if self.track_count == 0 || !self.is_playing {
            let cmds: Vec<AudioCommand> = Vec::new();
            assert(cmds@ =~= Seq::<AudioCommand>::empty());
            return cmds;
        }
        match self.fade_state {
            FadeState::Idle => {
                let cmds: Vec<AudioCommand> = Vec::new();
                assert(cmds@ =~= Seq::<AudioCommand>::empty());
                cmds
            },
            FadeState::FadingOut { next_index } => {
                let p: u64 = fade_progress_milli(
                    self.fade_start_micros,
                    self.fade_duration_micros,
                    now,
                );
                if p >= 1000 {
                    match next_index {
                        Some(n) => self.start_next_song(n, now),
                        None => {
                            let mut cmds: Vec<AudioCommand> = Vec::new();
                            cmds.push(AudioCommand::StopTrack { track: self.current_index });
                            self.is_playing = false;
                            self.fade_state = FadeState::Idle;
                            proof {
                                assert(cmds@ =~= old(self).spec_update_outcome(now as int).1);
                            }
                            cmds
                        },
                    }
                } else {
                    let mut cmds: Vec<AudioCommand> = Vec::new();
                    cmds.push(
                        AudioCommand::SetVolume {
                            track: self.current_index,
                            volume_milli: (1000 - p) as u32,
                        },
                    );
                    proof {
                        assert(cmds@ =~= old(self).spec_update_outcome(now as int).1);
                    }
                    cmds
                }
            },
            FadeState::FadingIn => {
                let p: u64 = fade_progress_milli(
                    self.fade_start_micros,
                    self.fade_duration_micros,
                    now,
                );
                let mut cmds: Vec<AudioCommand> = Vec::new();
                if p >= 1000 {
                    cmds.push(
                        AudioCommand::SetVolume { track: self.current_index, volume_milli: 1000 },
                    );
                    self.fade_state = FadeState::Idle;
                } else {
                    cmds.push(
                        AudioCommand::SetVolume {
                            track: self.current_index,
                            volume_milli: p as u32,
                        },
                    );
                }
                proof {
                    assert(cmds@ =~= old(self).spec_update_outcome(now as int).1);
                }
                cmds
            },
        }
    }
}

} // verus!
