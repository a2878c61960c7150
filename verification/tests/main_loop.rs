use cockroach_reminder::runtime::{
    apply_command, keep_windows, LoopState, OverlayStep, TrayCommand,
};
use cockroach_reminder::timer::{Phase, Timer};

#[test]
fn chores_fall_on_their_wake_ups() {
    let mut s = LoopState::new();
    let mut checks = Vec::new();
    let mut ticks = Vec::new();
    let mut polls = Vec::new();
    for i in 1..=130u64 {
        let c = s.begin_iteration();
        if c.check_frames {
            checks.push(i);
        }
        if c.tick_timer {
            ticks.push(i);
        }
        if c.poll_tray {
            polls.push(i);
        }
        if i == 30 {
            s.frames_arrived();
        }
    }
    assert_eq!(checks, vec![13, 26]);
    assert_eq!(ticks, vec![63, 126]);
    assert_eq!(polls, vec![13, 26, 39, 52, 65, 78, 91, 104, 117, 130]);
}

#[test]
fn overlay_lifecycle_through_a_break() {
    let mut s = LoopState::new();
    assert_eq!(s.overlay_step(Phase::Running, true, 0), OverlayStep::Wait);
    assert_eq!(s.overlay_step(Phase::Break, false, 10), OverlayStep::Wait);
    assert_eq!(
        s.overlay_step(Phase::Break, true, 20),
        OverlayStep::Open { prepare: true, retry_ready: true }
    );
    assert!(s.overlays_opened(2, 2, false, 20));
    assert!(s.overlays_active());
    assert_eq!(s.overlay_step(Phase::Break, true, 36), OverlayStep::Animate);
    assert_eq!(
        s.overlay_step(Phase::Running, true, 52),
        OverlayStep::Teardown { clear_views: true }
    );
    assert!(!s.overlays_active());
    assert_eq!(s.overlay_step(Phase::Running, true, 68), OverlayStep::Wait);
    assert_eq!(
        s.overlay_step(Phase::Break, true, 84),
        OverlayStep::Open { prepare: true, retry_ready: true }
    );
}

#[test]
fn failed_open_waits_a_second() {
    let mut s = LoopState::new();
    assert_eq!(
        s.overlay_step(Phase::Break, true, 100),
        OverlayStep::Open { prepare: true, retry_ready: true }
    );
    assert!(!s.overlays_opened(1, 2, false, 100));
    assert_eq!(
        s.overlay_step(Phase::Break, true, 500),
        OverlayStep::Open { prepare: false, retry_ready: false }
    );
    assert_eq!(
        s.overlay_step(Phase::Break, true, 1100),
        OverlayStep::Open { prepare: false, retry_ready: true }
    );
    assert!(!s.overlays_opened(2, 2, true, 1100));
    assert_eq!(
        s.overlay_step(Phase::Break, true, 2099),
        OverlayStep::Open { prepare: false, retry_ready: false }
    );
    assert!(s.overlays_opened(2, 2, false, 2100));
    assert_eq!(s.overlay_step(Phase::Break, true, 2116), OverlayStep::Animate);
    s.animation_failed(2116);
    assert!(!s.overlays_active());
    assert_eq!(
        s.overlay_step(Phase::Break, true, 2132),
        OverlayStep::Open { prepare: false, retry_ready: false }
    );
    assert_eq!(
        s.overlay_step(Phase::Idle, true, 2148),
        OverlayStep::Teardown { clear_views: false }
    );
    assert_eq!(
        s.overlay_step(Phase::Break, true, 2164),
        OverlayStep::Open { prepare: true, retry_ready: true }
    );
}

#[test]
fn tray_commands_drive_the_timer() {
    let mut t = Timer::new(25, 15);
    apply_command(&mut t, TrayCommand::ToggleTimer);
    assert_eq!(t.phase, Phase::Running);
    apply_command(&mut t, TrayCommand::ToggleTimer);
    assert_eq!(t.phase, Phase::Paused);
    apply_command(&mut t, TrayCommand::OpenSettings);
    assert_eq!(t.phase, Phase::Paused);
    apply_command(&mut t, TrayCommand::TriggerBreak);
    assert_eq!(t.phase, Phase::Break);
    assert_eq!(t.remaining_ms, 15_000);
    apply_command(&mut t, TrayCommand::Quit);
    assert_eq!(t.phase, Phase::Break);
}

#[test]
fn windows_are_kept_only_for_the_same_displays() {
    let one = vec![(0u64, 0u64, 1920u32, 1080u32)];
    let two = vec![(0u64, 0u64, 1920u32, 1080u32), (1u64, 0u64, 1280u32, 720u32)];
    assert!(keep_windows(1, &one, &one.clone()));
    assert!(keep_windows(2, &two, &two.clone()));
    assert!(!keep_windows(0, &one, &one.clone()));
    assert!(!keep_windows(1, &one, &two));
    assert!(!keep_windows(2, &two, &vec![(0, 0, 1920, 1080), (1, 0, 1280, 721)]));
    assert!(!keep_windows(1, &Vec::new(), &one));
}
