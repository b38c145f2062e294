use flappy_core::driver::FIXED_DELTA_MICROS;
use flappy_core::pipes::{location_of_index, Pipe, PipeGeometry, PipeLocation};
use flappy_core::player::Player;
use flappy_core::SCREEN_WIDTH_MILLI;

/// The layout of the gap formula scenario: a 568-pixel screen over a
/// 140-pixel ground leaves a 428-pixel band; gap 140, margins 20.
fn wide_gap_geometry() -> PipeGeometry {
    PipeGeometry {
        base_height: 140_000,
        gap_size: 140_000,
        margin: 20_000,
        pipe_width: 52_000,
        pipe_height: 320_000,
    }
}

/// The game's own layout: gap 100, margin equal to the gap size.
fn game_geometry() -> PipeGeometry {
    PipeGeometry {
        base_height: 112_000,
        gap_size: 100_000,
        margin: 100_000,
        pipe_width: 52_000,
        pipe_height: 320_000,
    }
}

#[test]
fn gap_formula_mid_category() {
    let g = wide_gap_geometry();
    // top-pipe-bottom = 20 + (428 - 140 - 40) * 0.444 = 130.112 pixels.
    let top = g.gap_top(PipeLocation::Mid);
    assert_eq!(top, 20_000 + 248_000 * 444 / 1000);
    assert_eq!(top, 130_112);
    // The lower obstacle's top edge sits exactly one gap size below.
    assert_eq!(top + g.gap_size, 270_112);
}

#[test]
fn gap_formula_extreme_categories() {
    let g = wide_gap_geometry();
    assert_eq!(g.gap_top(PipeLocation::VeryHigh), 20_000);
    assert_eq!(g.gap_top(PipeLocation::Lowest), 20_000 + 248_000);
}

#[test]
fn gap_formula_game_layout() {
    let g = game_geometry();
    // Band 456, room 456 - 100 - 200 = 156; Mid takes 44.4% of it.
    assert_eq!(g.gap_top(PipeLocation::Mid), 100_000 + 156_000 * 444 / 1000);
}

#[test]
fn location_indices_cover_all_ten_categories() {
    assert_eq!(location_of_index(0), PipeLocation::VeryHigh);
    assert_eq!(location_of_index(4), PipeLocation::Mid);
    assert_eq!(location_of_index(9), PipeLocation::Lowest);
    for i in 0..10usize {
        let a = location_of_index(i);
        for j in 0..10usize {
            if i != j {
                assert_ne!(a, location_of_index(j));
            }
        }
    }
}

#[test]
fn pipe_spawns_off_screen_right_and_moves_left() {
    let mut p = Pipe::new(false, 200_000, PipeLocation::Mid, game_geometry());
    assert_eq!(p.x, SCREEN_WIDTH_MILLI);
    assert!(!p.stopped);
    assert!(!p.passed);
    p.update(FIXED_DELTA_MICROS);
    // 200_000 milli-px/s over 16_667 us.
    assert_eq!(p.x, SCREEN_WIDTH_MILLI - 3_333);
}

#[test]
fn stopped_pipe_is_frozen() {
    let mut p = Pipe::new(false, 200_000, PipeLocation::Mid, game_geometry());
    p.stop();
    p.update(FIXED_DELTA_MICROS);
    assert_eq!(p.x, SCREEN_WIDTH_MILLI);
    p.restart();
    p.update(FIXED_DELTA_MICROS);
    assert_eq!(p.x, SCREEN_WIDTH_MILLI - 3_333);
}

#[test]
fn off_screen_boundary_is_strict() {
    let mut p = Pipe::new(false, 200_000, PipeLocation::Mid, game_geometry());
    p.x = -p.geometry.pipe_width;
    assert!(!p.is_off_screen());
    p.x = -p.geometry.pipe_width - 1;
    assert!(p.is_off_screen());
}

#[test]
fn has_passed_is_strict_on_leading_edge() {
    let p = Pipe::new(false, 200_000, PipeLocation::Mid, game_geometry());
    let mut player = Player::new(34_000, 24_000);
    player.x = p.x;
    assert!(!p.has_passed(&player));
    player.x = p.x + 1;
    assert!(p.has_passed(&player));
}

#[test]
fn collision_player_inside_pipe() {
    let g = game_geometry();
    let mut p = Pipe::new(false, 200_000, PipeLocation::Mid, g);
    let mut player = Player::new(34_000, 24_000);
    // The lower pipe's rectangle starts at the gap's bottom edge.
    let pipe_top = g.gap_top(PipeLocation::Mid) + g.gap_size;
    p.x = 100_000;
    player.x = p.x + 9_000;
    player.y = pipe_top + 9_000;
    assert!(p.touched(&player));
}

#[test]
fn collision_touching_edges_does_not_collide() {
    // The overlap rule is edge-exclusive: rectangles that merely touch along
    // an edge do not overlap.
    let g = game_geometry();
    let mut p = Pipe::new(false, 200_000, PipeLocation::Mid, g);
    let mut player = Player::new(34_000, 24_000);
    let pipe_top = g.gap_top(PipeLocation::Mid) + g.gap_size;
    p.x = 100_000;
    // Player's bottom edge exactly on the pipe's top edge.
    player.x = p.x;
    player.y = pipe_top - player.height;
    assert!(!p.touched(&player));
    // Player's right edge exactly on the pipe's left edge.
    player.y = pipe_top + 1_000;
    player.x = p.x - player.width;
    assert!(!p.touched(&player));
    // One milli-pixel further in on both axes collides.
    player.x = p.x - player.width + 1;
    assert!(p.touched(&player));
}

#[test]
fn collision_fully_outside() {
    let g = game_geometry();
    let mut p = Pipe::new(false, 200_000, PipeLocation::Mid, g);
    let mut player = Player::new(34_000, 24_000);
    p.x = 100_000;
    player.x = 0;
    player.y = 0;
    assert!(!p.touched(&player));
}

#[test]
fn mirrored_pipe_hangs_above_gap() {
    let g = game_geometry();
    let mut upper = Pipe::new(true, 200_000, PipeLocation::Mid, g);
    let mut player = Player::new(34_000, 24_000);
    upper.x = 100_000;
    let gap_top = g.gap_top(PipeLocation::Mid);
    player.x = upper.x;
    // Just above the gap's top edge: inside the mirrored pipe.
    player.y = gap_top - player.height - 1;
    assert!(upper.touched(&player));
    // Inside the gap itself: clear of the mirrored pipe.
    player.y = gap_top + 1;
    assert!(!upper.touched(&player));
}
