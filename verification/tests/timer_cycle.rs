use cockroach_reminder::timer::{Phase, Timer, Transition};

#[test]
fn new_timer_is_idle() {
    let t = Timer::new(25, 15);
    assert_eq!(t.phase, Phase::Idle);
    assert_eq!(t.remaining_ms, 0);
    assert_eq!(t.interval_minutes, 25);
    assert_eq!(t.duration_seconds, 15);
    assert_eq!(t.formatted(), "00:00");
}

#[test]
fn start_counts_the_interval() {
    let mut t = Timer::new(25, 15);
    t.start();
    assert_eq!(t.phase, Phase::Running);
    assert_eq!(t.remaining_ms, 25 * 60 * 1000);
    assert_eq!(t.remaining(), (25, 0));
    assert_eq!(t.formatted(), "25:00");
}

#[test]
fn default_schedule_is_25_minutes_then_15_seconds() {
    let mut t = Timer::new(25, 15);
    t.start();
    for _ in 0..(25 * 60 - 1) {
        assert_eq!(t.tick(), None);
        assert_eq!(t.phase, Phase::Running);
    }
    assert_eq!(t.remaining_ms, 1000);
    assert_eq!(t.formatted(), "00:01");
    assert_eq!(t.tick(), Some(Transition::EnteredBreak));
    assert_eq!(t.phase, Phase::Break);
    assert_eq!(t.remaining_ms, 15_000);
    assert_eq!(t.formatted(), "00:15");
    for _ in 0..14 {
        assert_eq!(t.tick(), None);
        assert_eq!(t.phase, Phase::Break);
    }
    assert_eq!(t.tick(), Some(Transition::EnteredRunning));
    assert_eq!(t.phase, Phase::Running);
    assert_eq!(t.remaining_ms, 25 * 60 * 1000);
}

#[test]
fn zero_lengths_last_one_tick() {
    let mut t = Timer::new(0, 0);
    t.start();
    assert_eq!(t.remaining_ms, 0);
    assert_eq!(t.tick(), Some(Transition::EnteredBreak));
    assert_eq!(t.remaining_ms, 0);
    assert_eq!(t.tick(), Some(Transition::EnteredRunning));
    assert_eq!(t.phase, Phase::Running);
}

#[test]
fn partial_second_rounds_up_to_a_tick() {
    let mut t = Timer::new(1, 3);
    t.phase = Phase::Running;
    t.remaining_ms = 1500;
    assert_eq!(t.tick(), None);
    assert_eq!(t.remaining_ms, 500);
    assert_eq!(t.tick(), Some(Transition::EnteredBreak));
    assert_eq!(t.remaining_ms, 3000);
}

#[test]
fn idle_and_paused_do_not_tick() {
    let mut t = Timer::new(25, 15);
    assert_eq!(t.tick(), None);
    assert_eq!(t.phase, Phase::Idle);
    assert_eq!(t.remaining_ms, 0);
    t.start();
    t.tick();
    t.pause();
    assert_eq!(t.phase, Phase::Paused);
    for _ in 0..100 {
        assert_eq!(t.tick(), None);
    }
    assert_eq!(t.remaining_ms, 25 * 60 * 1000 - 1000);
    assert_eq!(t.formatted(), "24:59");
    t.resume();
    assert_eq!(t.phase, Phase::Running);
    assert_eq!(t.remaining_ms, 25 * 60 * 1000 - 1000);
}

#[test]
fn pause_and_resume_only_act_on_their_phase() {
    let mut t = Timer::new(5, 10);
    t.pause();
    assert_eq!(t.phase, Phase::Idle);
    t.resume();
    assert_eq!(t.phase, Phase::Idle);
    t.trigger_break();
    t.pause();
    assert_eq!(t.phase, Phase::Break);
    t.resume();
    assert_eq!(t.phase, Phase::Break);
}

#[test]
fn trigger_break_starts_the_break_at_once() {
    let mut t = Timer::new(25, 15);
    t.start();
    t.trigger_break();
    assert_eq!(t.phase, Phase::Break);
    assert_eq!(t.remaining_ms, 15_000);
    assert_eq!(t.remaining(), (0, 15));
}

#[test]
fn toggle_follows_the_phase() {
    let mut t = Timer::new(2, 5);
    t.toggle();
    assert_eq!(t.phase, Phase::Running);
    assert_eq!(t.remaining_ms, 120_000);
    t.tick();
    t.toggle();
    assert_eq!(t.phase, Phase::Paused);
    t.toggle();
    assert_eq!(t.phase, Phase::Running);
    assert_eq!(t.remaining_ms, 119_000);
    t.trigger_break();
    t.toggle();
    assert_eq!(t.phase, Phase::Break);
    assert_eq!(t.remaining_ms, 5000);
}

#[test]
fn remaining_splits_minutes_and_seconds() {
    let mut t = Timer::new(25, 15);
    t.remaining_ms = 61_999;
    assert_eq!(t.remaining(), (1, 1));
    assert_eq!(t.formatted(), "01:01");
    t.remaining_ms = -5000;
    assert_eq!(t.remaining(), (0, 0));
    assert_eq!(t.formatted(), "00:00");
    t.remaining_ms = 125 * 60_000 + 9_000;
    assert_eq!(t.remaining(), (125, 9));
    assert_eq!(t.formatted(), "125:09");
    t.remaining_ms = 10 * 60_000 + 59_999;
    assert_eq!(t.formatted(), "10:59");
}

#[test]
fn largest_interval_formats() {
    let mut t = Timer::new(u32::MAX, u32::MAX);
    t.start();
    assert_eq!(t.remaining_ms, u32::MAX as i64 * 60_000);
    assert_eq!(t.formatted(), format!("{}:00", u32::MAX));
    t.trigger_break();
    assert_eq!(t.remaining_ms, u32::MAX as i64 * 1000);
}

#[test]
fn update_interval_restarts_only_a_running_timer() {
    let mut t = Timer::new(25, 15);
    t.start();
    t.tick();
    t.update_interval(30);
    assert_eq!(t.interval_minutes, 30);
    assert_eq!(t.remaining_ms, 30 * 60_000);
    t.pause();
    t.update_interval(40);
    assert_eq!(t.interval_minutes, 40);
    assert_eq!(t.remaining_ms, 30 * 60_000);
    assert_eq!(t.phase, Phase::Paused);
}

#[test]
fn update_duration_keeps_the_countdown() {
    let mut t = Timer::new(25, 15);
    t.trigger_break();
    t.update_duration(60);
    assert_eq!(t.duration_seconds, 60);
    assert_eq!(t.remaining_ms, 15_000);
    assert_eq!(t.phase, Phase::Break);
    t.trigger_break();
    assert_eq!(t.remaining_ms, 60_000);
}
