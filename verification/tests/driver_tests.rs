use flappy_core::driver::{
    smooth_delta, FixedTimestepDriver, FIXED_DELTA_MICROS, MAX_FRAME_MICROS,
    MAX_STEPS_PER_FRAME,
};

#[test]
fn short_frame_runs_no_step() {
    let mut d = FixedTimestepDriver::standard();
    let steps = d.advance(10_000);
    assert_eq!(steps, 0);
    assert_eq!(d.accumulator, 10_000);
}

#[test]
fn steps_equal_floor_of_accumulated_time() {
    let mut d = FixedTimestepDriver::standard();
    // 40_000 us holds two whole steps of 16_667 us.
    let steps = d.advance(40_000);
    assert_eq!(steps, 2);
    assert_eq!(d.accumulator, 40_000 - 2 * FIXED_DELTA_MICROS);
}

#[test]
fn leftover_stays_below_one_step_when_uncapped() {
    let mut d = FixedTimestepDriver::standard();
    let mut total_steps = 0u32;
    for delta in [3_000u64, 20_000, 33_000, 16_667, 1] {
        let steps = d.advance(delta);
        total_steps += steps;
        if steps < MAX_STEPS_PER_FRAME {
            assert!(d.accumulator < FIXED_DELTA_MICROS);
        }
    }
    // 72_668 us in all: four whole steps.
    assert_eq!(total_steps, 4);
    assert_eq!(d.accumulator, 72_668 - 4 * FIXED_DELTA_MICROS);
}

#[test]
fn long_stall_is_clamped_and_capped() {
    let mut d = FixedTimestepDriver::standard();
    // Ten seconds of stall: clamped to 250_000 us, which holds 14 steps,
    // capped at 5; the excess is discarded entirely.
    let steps = d.advance(10_000_000);
    assert_eq!(steps, MAX_STEPS_PER_FRAME);
    assert_eq!(d.accumulator, 0);
}

#[test]
fn exactly_capped_frame_keeps_remainder() {
    // fixed 10_000, max frame 100_000, cap 5: charging 57_000 us gives five
    // whole steps exactly at the cap, so the 7_000 us remainder is kept.
    let mut d = FixedTimestepDriver::new(10_000, 100_000, 5);
    let steps = d.advance(57_000);
    assert_eq!(steps, 5);
    assert_eq!(d.accumulator, 7_000);
}

#[test]
fn frame_time_clamp_bounds_accumulator() {
    let mut d = FixedTimestepDriver::standard();
    let steps = d.advance(MAX_FRAME_MICROS + 123_456);
    // min(250_000 / 16_667, 5) = 5 steps, rest discarded at the cap.
    assert_eq!(steps, 5);
    assert_eq!(d.accumulator, 0);
}

#[test]
fn alpha_reports_leftover_fraction() {
    let mut d = FixedTimestepDriver::standard();
    d.advance(10_000);
    assert_eq!(d.alpha_milli(), 10_000 * 1000 / FIXED_DELTA_MICROS);
    let mut e = FixedTimestepDriver::standard();
    e.advance(FIXED_DELTA_MICROS);
    assert_eq!(e.alpha_milli(), 0);
}

#[test]
fn delta_spike_is_smoothed() {
    // A delta above twice the fixed step is averaged with the previous one.
    assert_eq!(smooth_delta(16_000, 100_000, FIXED_DELTA_MICROS), 58_000);
    // An ordinary delta passes through untouched.
    assert_eq!(smooth_delta(16_000, 20_000, FIXED_DELTA_MICROS), 20_000);
    assert_eq!(smooth_delta(0, 2 * FIXED_DELTA_MICROS, FIXED_DELTA_MICROS), 2 * FIXED_DELTA_MICROS);
}
