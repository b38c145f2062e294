use flappy_core::music_player::{AudioCommand, FadeState, MusicError, MusicPlayer};

const FADE: u64 = 1_000_000;

fn playing_two_tracks() -> MusicPlayer {
    let mut m = MusicPlayer::new(2, FADE).unwrap();
    let cmds = m.play();
    assert_eq!(cmds, vec![AudioCommand::PlayLooped { track: 0, volume_milli: 1000 }]);
    m
}

#[test]
fn empty_track_list_is_a_constructor_error() {
    assert_eq!(MusicPlayer::new(0, FADE).err(), Some(MusicError::NoTracks));
    assert!(MusicPlayer::new(1, FADE).is_ok());
}

#[test]
fn play_starts_current_track_at_full_volume() {
    let m = playing_two_tracks();
    assert!(m.is_playing);
    assert_eq!(m.current_index, 0);
    assert_eq!(m.fade_state, FadeState::Idle);
}

#[test]
fn play_while_playing_is_a_no_op() {
    let mut m = playing_two_tracks();
    assert_eq!(m.play(), vec![]);
    assert!(m.is_playing);
}

#[test]
fn steady_playback_never_changes_volume() {
    let mut m = playing_two_tracks();
    for now in [0u64, 100, 50_000, 2_000_000, 100_000_000] {
        let cmds = m.update(now);
        assert_eq!(cmds, vec![]);
        assert!(m.is_playing);
        assert_eq!(m.fade_state, FadeState::Idle);
    }
}

#[test]
fn stop_fades_volume_monotonically_to_silence() {
    let mut m = playing_two_tracks();
    m.stop(0);
    assert_eq!(m.fade_state, FadeState::FadingOut { next_index: None });
    let mut last_volume = 1000u32;
    for now in [100_000u64, 250_000, 400_000, 700_000, 999_999] {
        let cmds = m.update(now);
        assert_eq!(cmds.len(), 1);
        match cmds[0] {
            AudioCommand::SetVolume { track, volume_milli } => {
                assert_eq!(track, 0);
                assert!(volume_milli <= last_volume);
                last_volume = volume_milli;
            }
            _ => panic!("expected a volume command"),
        }
        assert!(m.is_playing);
    }
    // A quarter through the ramp the volume is three quarters.
    let mut fresh = playing_two_tracks();
    fresh.stop(0);
    assert_eq!(
        fresh.update(250_000),
        vec![AudioCommand::SetVolume { track: 0, volume_milli: 750 }]
    );
    // At the full fade duration playback ends.
    let cmds = m.update(FADE);
    assert_eq!(cmds, vec![AudioCommand::StopTrack { track: 0 }]);
    assert!(!m.is_playing);
    assert_eq!(m.fade_state, FadeState::Idle);
}

#[test]
fn stop_while_stopped_is_a_no_op() {
    let mut m = MusicPlayer::new(2, FADE).unwrap();
    m.stop(5);
    assert!(!m.is_playing);
    assert_eq!(m.fade_state, FadeState::Idle);
}

#[test]
fn crossfade_scenario_two_tracks() {
    // Track list [A, B] as indices [0, 1], fade duration one second.
    let mut m = playing_two_tracks();
    // next() at t = 0: fade out A, targeting B; no command yet.
    assert_eq!(m.next(0), vec![]);
    assert_eq!(m.fade_state, FadeState::FadingOut { next_index: Some(1) });
    // At t = 0.5 s, A's volume is one half.
    assert_eq!(
        m.update(500_000),
        vec![AudioCommand::SetVolume { track: 0, volume_milli: 500 }]
    );
    // At t = 1.0 s, A stops and B starts at volume 0, fading in.
    assert_eq!(
        m.update(1_000_000),
        vec![
            AudioCommand::StopTrack { track: 0 },
            AudioCommand::PlayLooped { track: 1, volume_milli: 0 },
        ]
    );
    assert_eq!(m.current_index, 1);
    assert_eq!(m.fade_state, FadeState::FadingIn);
    assert!(m.is_playing);
    // At t = 1.5 s (0.5 s into the fade-in), B's volume is one half.
    assert_eq!(
        m.update(1_500_000),
        vec![AudioCommand::SetVolume { track: 1, volume_milli: 500 }]
    );
    // At t = 2.0 s the fade-in completes at full volume.
    assert_eq!(
        m.update(2_000_000),
        vec![AudioCommand::SetVolume { track: 1, volume_milli: 1000 }]
    );
    assert_eq!(m.fade_state, FadeState::Idle);
}

#[test]
fn next_while_stopped_starts_following_track() {
    // The sequencer starts the following track at once when nothing plays.
    let mut m = MusicPlayer::new(3, FADE).unwrap();
    let cmds = m.next(42);
    assert_eq!(
        cmds,
        vec![
            AudioCommand::StopTrack { track: 0 },
            AudioCommand::PlayLooped { track: 1, volume_milli: 0 },
        ]
    );
    assert!(m.is_playing);
    assert_eq!(m.current_index, 1);
    assert_eq!(m.fade_state, FadeState::FadingIn);
}

#[test]
fn wrap_around_fades_in_like_any_transition() {
    // Advancing off the last track back to the first goes through the same
    // silent start and fade-in ramp as every other transition.
    let mut m = MusicPlayer::new(2, FADE).unwrap();
    m.current_index = 1;
    let cmds = m.next(7);
    assert_eq!(
        cmds,
        vec![
            AudioCommand::StopTrack { track: 1 },
            AudioCommand::PlayLooped { track: 0, volume_milli: 0 },
        ]
    );
    assert_eq!(m.current_index, 0);
    assert_eq!(m.fade_state, FadeState::FadingIn);
    assert_eq!(m.fade_start_micros, 7);
    assert!(m.is_playing);
}

#[test]
fn crossfade_wrapping_to_first_track_fades_in() {
    // A fade-out that completes while targeting the first track again hands
    // playback over at volume 0, fading in: the wrap is no exception.
    let mut m = MusicPlayer::new(2, FADE).unwrap();
    m.current_index = 1;
    let cmds = m.play();
    assert_eq!(cmds, vec![AudioCommand::PlayLooped { track: 1, volume_milli: 1000 }]);
    assert_eq!(m.next(0), vec![]);
    assert_eq!(m.fade_state, FadeState::FadingOut { next_index: Some(0) });
    assert_eq!(
        m.update(FADE),
        vec![
            AudioCommand::StopTrack { track: 1 },
            AudioCommand::PlayLooped { track: 0, volume_milli: 0 },
        ]
    );
    assert_eq!(m.current_index, 0);
    assert_eq!(m.fade_state, FadeState::FadingIn);
    assert_eq!(m.fade_start_micros, FADE);
    // The fade-in then ramps to full volume as usual.
    assert_eq!(
        m.update(FADE + 500_000),
        vec![AudioCommand::SetVolume { track: 0, volume_milli: 500 }]
    );
    assert_eq!(
        m.update(2 * FADE),
        vec![AudioCommand::SetVolume { track: 0, volume_milli: 1000 }]
    );
    assert_eq!(m.fade_state, FadeState::Idle);
}

#[test]
fn next_on_empty_sequencer_is_a_no_op() {
    // An empty sequencer can only be crafted by hand; every operation on it
    // must stay silent.
    let mut m = MusicPlayer {
        track_count: 0,
        current_index: 0,
        is_playing: false,
        fade_state: FadeState::Idle,
        fade_start_micros: 0,
        fade_duration_micros: FADE,
    };
    assert_eq!(m.play(), vec![]);
    assert_eq!(m.next(0), vec![]);
    assert_eq!(m.update(0), vec![]);
    m.stop(0);
    assert!(!m.is_playing);
}

#[test]
fn fade_clock_running_backwards_holds_full_volume() {
    // A fade that has not begun yet (clock before the ramp's start) keeps
    // the ramp at zero progress.
    let mut m = playing_two_tracks();
    m.stop(1_000_000);
    assert_eq!(
        m.update(500_000),
        vec![AudioCommand::SetVolume { track: 0, volume_milli: 1000 }]
    );
    assert!(m.is_playing);
}
