use smiley_core::mood::{elapsed_seconds, mood_of, report_byte, Mood, MoodController};

#[test]
fn elapsed_without_wrap() {
    assert_eq!(elapsed_seconds(50, 5), 45);
    assert_eq!(elapsed_seconds(30, 0), 30);
    assert_eq!(elapsed_seconds(59, 58), 1);
    assert_eq!(elapsed_seconds(0, 0), 0);
}

#[test]
fn elapsed_across_the_minute_wrap() {
    assert_eq!(elapsed_seconds(5, 50), 15);
    assert_eq!(elapsed_seconds(0, 59), 1);
    assert_eq!(elapsed_seconds(29, 30), 59);
}

#[test]
fn report_zero_at_or_below_baseline() {
    assert_eq!(report_byte(0), 0);
    assert_eq!(report_byte(799), 0);
    assert_eq!(report_byte(800), 0);
    assert_eq!(report_byte(809), 0);
}

#[test]
fn report_scales_above_baseline() {
    assert_eq!(report_byte(810), 1);
    assert_eq!(report_byte(1050), 25);
    assert_eq!(report_byte(1100), 30);
}

#[test]
fn report_clamps_to_byte_range() {
    assert_eq!(report_byte(4095), 255);
    assert_eq!(report_byte(16383), 255);
}

#[test]
fn report_is_monotonic_above_baseline() {
    let mut previous: u8 = 0;
    let mut reading: u16 = 800;
    while reading < 16383 {
        let b = report_byte(reading);
        assert!(b >= previous);
        previous = b;
        reading += 1;
    }
}

#[test]
fn mood_threshold() {
    assert_eq!(mood_of(0), Mood::Sad);
    assert_eq!(mood_of(1099), Mood::Sad);
    assert_eq!(mood_of(1100), Mood::Happy);
    assert_eq!(mood_of(16383), Mood::Happy);
}

#[test]
fn controller_starts_sad_at_the_given_time() {
    let c = MoodController::new(17);
    assert_eq!(c.mood, Mood::Sad);
    assert_eq!(c.last_sample_time, 17);
}

#[test]
fn sampling_is_due_only_after_thirty_seconds() {
    let c = MoodController::new(0);
    assert!(!c.due(0));
    assert!(!c.due(30));
    assert!(c.due(31));
    let wrapped = MoodController::new(50);
    assert!(!wrapped.due(5));
    assert!(wrapped.due(25));
}

#[test]
fn tick_samples_when_due() {
    let mut c = MoodController::new(0);
    let report = c.tick(31, 1100);
    assert_eq!(report, Some(30));
    assert_eq!(c.mood, Mood::Happy);
    assert_eq!(c.last_sample_time, 31);
}

#[test]
fn tick_keeps_state_when_not_due() {
    let mut c = MoodController::new(0);
    assert_eq!(c.tick(31, 1100), Some(30));
    let before = c;
    assert_eq!(c.tick(32, 0), None);
    assert_eq!(c, before);
}

#[test]
fn tick_turns_sad_below_threshold() {
    let mut c = MoodController::new(0);
    assert_eq!(c.tick(31, 1100), Some(30));
    assert_eq!(c.mood, Mood::Happy);
    let report = c.tick(3, 1099);
    assert_eq!(report, Some(29));
    assert_eq!(c.mood, Mood::Sad);
    assert_eq!(c.last_sample_time, 3);
}
