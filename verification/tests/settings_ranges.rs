use cockroach_reminder::settings::clamp_schedule;

#[test]
fn schedule_values_are_kept_in_range() {
    assert_eq!(clamp_schedule(25, 15, 10), (25, 15, 10));
    assert_eq!(clamp_schedule(0, 0, 0), (1, 3, 1));
    assert_eq!(clamp_schedule(121, 500, 51), (120, 120, 50));
    assert_eq!(clamp_schedule(1, 3, 1), (1, 3, 1));
    assert_eq!(clamp_schedule(120, 120, 50), (120, 120, 50));
    assert_eq!(clamp_schedule(u32::MAX, u32::MAX, u32::MAX), (120, 120, 50));
}
