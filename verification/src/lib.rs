//! Deterministic simulation core for a side-scrolling obstacle-avoidance
//! arcade game: a fixed-timestep driver, a scene state machine over a player
//! body and a world of gap obstacles, axis-aligned collision queries, and a
//! crossfade music sequencer.
//!
//! All quantities are fixed-point integers: lengths in milli-pixels,
//! velocities in milli-pixels per second, times in microseconds, volumes in
//! thousandths of full volume. Rendering, audio output, input sampling and
//! the wall clock live outside the library; callers feed in elapsed time and
//! input flags, and carry out the sound commands and events handed back.

pub mod base;
pub mod collision;
pub mod driver;
pub mod game_state;
pub mod music_player;
pub mod pipes;
pub mod player;
pub mod rng;
pub mod skins;
pub mod units;
pub mod world;

use vstd::prelude::*;

verus! {

/// Width of the screen in milli-pixels.
pub const SCREEN_WIDTH_MILLI: i64 = 320_000;

/// Height of the screen in milli-pixels.
pub const SCREEN_HEIGHT_MILLI: i64 = 568_000;

} // verus!
