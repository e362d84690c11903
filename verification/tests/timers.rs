use adamant::timer::{GameTimer, Timer};

#[test]
fn game_timer_measures_frame_deltas() {
    let mut timer = GameTimer::new(1000);
    timer.tick(3000);
    assert_eq!(timer.delta_time_us(), 2000);
    assert_eq!(timer.total_frames, 1);
    timer.tick(4500);
    assert_eq!(timer.delta_time_us(), 1500);
    assert_eq!(timer.total_frames, 2);
}

#[test]
fn game_timer_excludes_paused_time() {
    let mut timer = GameTimer::new(1000);
    timer.tick(3000);
    timer.stop(4000);
    // stopped: ticks measure nothing
    timer.tick(5000);
    assert_eq!(timer.delta_time_us(), 0);
    assert_eq!(timer.total_frames, 1);
    assert_eq!(timer.total_time_us(), 3000);
    // resuming credits the stopped stretch to the paused total
    timer.start(6000);
    assert_eq!(timer.paused_time, 2000);
    timer.tick(7000);
    assert_eq!(timer.delta_time_us(), 1000);
    // 7000 elapsed since the base, 2000 of them paused
    assert_eq!(timer.total_time_us(), 4000);
}

#[test]
fn game_timer_reset_starts_a_fresh_epoch() {
    let mut timer = GameTimer::new(0);
    timer.tick(5000);
    timer.stop(6000);
    timer.start(8000);
    timer.reset(10000);
    assert_eq!(timer.base_time, 10000);
    assert_eq!(timer.paused_time, 0);
    assert!(!timer.is_stopped);
    assert_eq!(timer.total_time_us(), 0);
}

#[test]
fn game_timer_stop_twice_is_idempotent() {
    let mut timer = GameTimer::new(0);
    timer.stop(100);
    let stop_time = timer.stop_time;
    timer.stop(200);
    assert_eq!(timer.stop_time, stop_time);
    timer.start(300);
    assert!(!timer.is_stopped);
    timer.start(400);
    assert_eq!(timer.paused_time, 200);
}

#[test]
fn variable_timestep_owes_one_update_per_frame() {
    let mut timer = Timer::new(0);
    let updates = timer.update(5000);
    assert_eq!(updates, 1);
    assert_eq!(timer.frame_count, 1);
    assert_eq!(timer.frame_elapsed_time, 5000);
    assert_eq!(timer.total_time_us, 5000);
    assert_eq!(timer.lag_time_us, 0);
}

#[test]
fn variable_timestep_clamps_large_deltas() {
    let mut timer = Timer::new(0);
    // a full second elapses (e.g. paused in a debugger): only a tenth of a
    // second is credited
    let updates = timer.update(1_000_000);
    assert_eq!(updates, 1);
    assert_eq!(timer.frame_elapsed_time, 100_000);
}

#[test]
fn fixed_timestep_owes_one_update_per_target_interval() {
    let mut timer = Timer::new(0);
    timer.is_fixed_time_step = true;
    // three whole target intervals of 16667 microseconds
    let updates = timer.update(50_001);
    assert_eq!(updates, 3);
    assert_eq!(timer.frame_count, 3);
    assert_eq!(timer.total_time_us, 50_001);
    assert_eq!(timer.lag_time_us, 0);
    assert_eq!(timer.frame_elapsed_time, 16667);
}

#[test]
fn fixed_timestep_carries_the_lag() {
    let mut timer = Timer::new(0);
    timer.is_fixed_time_step = true;
    let updates = timer.update(20_000);
    assert_eq!(updates, 1);
    assert_eq!(timer.lag_time_us, 20_000 - 16667);
    assert_eq!(timer.total_time_us, 16667);
}

#[test]
fn fixed_timestep_snaps_near_target_deltas() {
    let mut timer = Timer::new(0);
    timer.is_fixed_time_step = true;
    // the lag starts within a quarter millisecond of the target, so the
    // delta snaps to exactly one interval regardless of the clock
    timer.lag_time_us = 16600;
    let updates = timer.update(1);
    // 16600 + 16667 = 33267: one whole interval, 16600 carried again
    assert_eq!(updates, 1);
    assert_eq!(timer.lag_time_us, 16600);
    assert_eq!(timer.total_time_us, 16667);
}

#[test]
fn framerate_publishes_after_a_second() {
    let mut timer = Timer::new(0);
    let mut now: u64 = 0;
    for _ in 0..11 {
        now += 100_000;
        timer.update(now);
    }
    // the window closes once more than a second of frame time accumulated
    assert_eq!(timer.frames_per_second, 11);
    assert_eq!(timer.frame_count_to_second, 0);
    assert_eq!(timer.frame_elapsed_time_to_second_us, 0);
}
