use flappy_core::driver::FIXED_DELTA_MICROS;
use flappy_core::player::{
    Player, DEATH_KICK_MILLI, JUMP_FORCE_MILLI, JUMP_RISING_BONUS_MILLI, MAX_FALL_MILLI,
    MAX_HORIZONTAL_MILLI,
};

fn bird() -> Player {
    // A 34 x 24 pixel sprite, in milli-pixels.
    Player::new(34_000, 24_000)
}

#[test]
fn new_centres_body_on_screen() {
    let p = bird();
    assert_eq!(p.x, 160_000 - 17_000);
    assert_eq!(p.y, 284_000 - 12_000);
    assert_eq!(p.start_x, p.x);
    assert_eq!(p.start_y, p.y);
    assert_eq!(p.vx, 0);
    assert_eq!(p.vy, 0);
    assert_eq!(p.rotation, 0);
    assert!(p.alive);
    assert_eq!(p.jump_force, JUMP_FORCE_MILLI);
}

#[test]
fn gravity_accelerates_one_step() {
    let mut p = bird();
    let y0 = p.y;
    p.update(FIXED_DELTA_MICROS);
    // One step of gravity: 800_000 * 16_667 / 1_000_000 milli-px/s.
    assert_eq!(p.vy, 13_333);
    // Position integrates by the new velocity: 13_333 * 16_667 / 1_000_000.
    assert_eq!(p.y, y0 + 222);
    assert_eq!(p.vx, 0);
}

#[test]
fn vertical_velocity_clamped_for_any_inputs() {
    let mut p = bird();
    for tick in 0..600 {
        if tick % 7 == 0 {
            p.handle_jump();
        }
        p.update(FIXED_DELTA_MICROS);
        assert!(-MAX_FALL_MILLI <= p.vy && p.vy <= MAX_FALL_MILLI);
        assert!(-MAX_HORIZONTAL_MILLI <= p.vx && p.vx <= MAX_HORIZONTAL_MILLI);
    }
    // A long free fall pins the velocity at the clamp exactly.
    let mut q = bird();
    for _ in 0..600 {
        q.update(FIXED_DELTA_MICROS);
    }
    assert_eq!(q.vy, MAX_FALL_MILLI);
}

#[test]
fn horizontal_velocity_clamped() {
    let mut p = bird();
    p.vx = 2 * MAX_HORIZONTAL_MILLI;
    p.update(FIXED_DELTA_MICROS);
    assert_eq!(p.vx, MAX_HORIZONTAL_MILLI);
    p.vx = -2 * MAX_HORIZONTAL_MILLI;
    p.update(FIXED_DELTA_MICROS);
    assert_eq!(p.vx, -MAX_HORIZONTAL_MILLI);
}

#[test]
fn jump_sets_upward_velocity() {
    let mut p = bird();
    p.handle_jump();
    assert_eq!(p.vy, JUMP_FORCE_MILLI);
}

#[test]
fn jump_while_rising_is_stronger() {
    let mut p = bird();
    p.handle_jump();
    assert!(p.vy < 0);
    p.handle_jump();
    assert_eq!(p.vy, JUMP_FORCE_MILLI - JUMP_RISING_BONUS_MILLI);
}

#[test]
fn jump_ignored_when_dead() {
    let mut p = bird();
    p.dead();
    let vy = p.vy;
    p.handle_jump();
    assert_eq!(p.vy, vy);
}

#[test]
fn dead_applies_impulse_exactly_once() {
    let mut p = bird();
    p.dead();
    assert!(!p.alive);
    assert_eq!(p.vx, DEATH_KICK_MILLI);
    assert_eq!(p.vy, JUMP_FORCE_MILLI);
    p.update(FIXED_DELTA_MICROS);
    let snapshot_vx = p.vx;
    let snapshot_vy = p.vy;
    p.dead();
    assert_eq!(p.vx, snapshot_vx);
    assert_eq!(p.vy, snapshot_vy);
}

#[test]
fn dead_body_tumbles() {
    let mut p = bird();
    p.dead();
    let r0 = p.rotation;
    p.update(FIXED_DELTA_MICROS);
    assert!(p.rotation < r0);
    // 1_500 milli-radians per second over one sixtieth of a second.
    assert_eq!(r0 - p.rotation, 25);
}

#[test]
fn restart_restores_initial_state() {
    let mut p = bird();
    for _ in 0..100 {
        p.handle_jump();
        p.update(FIXED_DELTA_MICROS);
    }
    p.dead();
    for _ in 0..50 {
        p.update(FIXED_DELTA_MICROS);
    }
    p.restart();
    let fresh = bird();
    assert_eq!(p.x, fresh.x);
    assert_eq!(p.y, fresh.y);
    assert_eq!(p.vx, 0);
    assert_eq!(p.vy, 0);
    assert_eq!(p.rotation, 0);
    assert!(p.alive);
}
