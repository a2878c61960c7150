use cockroach_reminder::text::{
    clock, count_text, duration_text, interval_text, percent_text, status_card_text,
    toggle_button_text, tray_labels,
};
use cockroach_reminder::timer::{Phase, Timer};

#[test]
fn clock_pads_to_two_digits() {
    assert_eq!(clock(0, 0), "00:00");
    assert_eq!(clock(5, 7), "05:07");
    assert_eq!(clock(12, 34), "12:34");
    assert_eq!(clock(100, 9), "100:09");
    assert_eq!(clock(u64::MAX, 59), format!("{}:59", u64::MAX));
}

#[test]
fn tray_labels_running() {
    let mut t = Timer::new(25, 15);
    t.start();
    let (status, toggle, enabled, tooltip) = tray_labels(&t);
    assert_eq!(status, "⏱ 下次休息还有 25:00");
    assert_eq!(toggle, "⏸  暂停计时");
    assert!(enabled);
    assert_eq!(tooltip, "🪳 下次休息还有 25:00");
}

#[test]
fn tray_labels_break() {
    let mut t = Timer::new(25, 15);
    t.trigger_break();
    let (status, toggle, enabled, tooltip) = tray_labels(&t);
    assert_eq!(status, "🪳 休息中！还剩 00:15");
    assert_eq!(toggle, "▶  恢复计时");
    assert!(!enabled);
    assert_eq!(tooltip, "🪳 休息时间！还剩 00:15");
}

#[test]
fn tray_labels_paused() {
    let mut t = Timer::new(3, 15);
    t.start();
    t.tick();
    t.pause();
    let (status, toggle, enabled, tooltip) = tray_labels(&t);
    assert_eq!(status, "⏸ 已暂停 — 剩余 02:59");
    assert_eq!(toggle, "▶  恢复计时");
    assert!(enabled);
    assert_eq!(tooltip, "🪳 已暂停 — 剩余 02:59");
}

#[test]
fn tray_labels_idle() {
    let t = Timer::new(25, 15);
    let (status, toggle, enabled, tooltip) = tray_labels(&t);
    assert_eq!(status, "⏹ 计时器已停止");
    assert_eq!(toggle, "▶  恢复计时");
    assert!(!enabled);
    assert_eq!(tooltip, "🪳 蟑螂提醒 (已停止)");
}

#[test]
fn status_card_for_each_phase() {
    let f = String::from("12:03");
    assert_eq!(status_card_text(Phase::Running, &f), ("计时中", "下次休息还有 12:03".to_string()));
    assert_eq!(status_card_text(Phase::Break, &f), ("休息中", "休息时间，还剩 12:03".to_string()));
    assert_eq!(status_card_text(Phase::Paused, &f), ("已暂停", "计时已暂停，剩余 12:03".to_string()));
    assert_eq!(status_card_text(Phase::Idle, &f), ("未开始", "计时器尚未开始".to_string()));
}

#[test]
fn toggle_button_label() {
    assert_eq!(toggle_button_text(Phase::Running), "暂停计时");
    assert_eq!(toggle_button_text(Phase::Paused), "继续计时");
    assert_eq!(toggle_button_text(Phase::Idle), "继续计时");
    assert_eq!(toggle_button_text(Phase::Break), "继续计时");
}

#[test]
fn slider_value_labels() {
    assert_eq!(interval_text(25), "25 分钟");
    assert_eq!(duration_text(3), "3 秒");
    assert_eq!(count_text(10), "10 只");
    assert_eq!(percent_text(0), "0%");
    assert_eq!(percent_text(100), "100%");
    assert_eq!(interval_text(u32::MAX), format!("{} 分钟", u32::MAX));
}
