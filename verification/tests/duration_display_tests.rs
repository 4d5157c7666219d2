use rusty_chess_clock::{Duration, DurationDisplay};

#[test]
fn test_display_65() {
    let duration = Duration::from_secs(65);
    let display = DurationDisplay::from(duration);
    assert_eq!(display.format(), "01:05");

    assert_eq!(display.format_alternate(), "01:05.00");
}

#[test]
fn test_display_59_99() {
    let duration = Duration::from_secs(59)
        .checked_add(Duration::from_millis(990))
        .unwrap();
    let display = DurationDisplay::from(duration);
    assert_eq!(display.format(), "01:00");

    assert_eq!(display.format_alternate(), "00:59.99");
}

#[test]
fn test_display_0() {
    let duration = Duration::from_secs(0);
    let display = DurationDisplay::from(duration);
    assert_eq!(display.format(), "00:00");

    assert_eq!(display.format_alternate(), "00:00.00");
}

#[test]
fn test_display_60() {
    let duration = Duration::from_secs(60);
    let display = DurationDisplay::from(duration);
    assert_eq!(display.format(), "01:00");

    assert_eq!(display.format_alternate(), "01:00.00");
}

#[test]
fn test_display_600() {
    let duration = Duration::from_secs(600);
    let display = DurationDisplay::from(duration);
    assert_eq!(display.format(), "10:00");

    assert_eq!(display.format_alternate(), "10:00.00");
}

#[test]
fn test_display_600_1() {
    let duration = Duration::from_secs(600)
        .checked_add(Duration::from_millis(100))
        .unwrap();
    let display = DurationDisplay::from(duration);
    assert_eq!(display.format(), "10:00");

    assert_eq!(display.format_alternate(), "10:00.10");
}

#[test]
fn test_display_3600() {
    let duration = Duration::from_secs(3600);
    let display = DurationDisplay::from(duration);
    assert_eq!(display.format(), "01:00:00");

    assert_eq!(display.format_alternate(), "01:00:00.00");
}

/// Round-half-up boundaries: half a second carries, just under does not, and
/// a carried centisecond ripples through the seconds field.
#[test]
fn display_rounds_half_up() {
    assert_eq!(DurationDisplay::from(Duration::from_millis(500)).format(), "00:01");
    assert_eq!(DurationDisplay::from(Duration::from_millis(499)).format(), "00:00");
    assert_eq!(DurationDisplay::from(Duration::from_millis(59995)).format_alternate(), "01:00.00");
    assert_eq!(DurationDisplay::from(Duration::from_millis(59994)).format_alternate(), "00:59.99");
    assert_eq!(DurationDisplay::from(Duration::from_millis(3599500)).format(), "01:00:00");
    assert_eq!(DurationDisplay::from(Duration::from_millis(3599499)).format(), "59:59");
}

/// An hour count wider than two digits is written out in full.
#[test]
fn display_grows_past_two_digit_hours() {
    let duration = Duration::from_secs(360000 + 754);
    let display = DurationDisplay::from(duration);
    assert_eq!(display.format(), "100:12:34");
    assert_eq!(display.format_alternate(), "100:12:34.00");
}

/// Duration arithmetic saturates instead of wrapping or failing.
#[test]
fn duration_arithmetic_saturates() {
    let a = Duration::from_millis(100);
    let b = Duration::from_millis(250);
    assert_eq!(a.saturating_sub(b).as_millis(), 0);
    assert_eq!(b.saturating_sub(a).as_millis(), 150);
    assert_eq!(a.saturating_add(b).as_millis(), 350);

    let huge = Duration::from_millis(u64::MAX);
    assert_eq!(huge.saturating_add(a).as_millis(), u64::MAX);
    assert_eq!(huge.checked_add(a), None);
    assert_eq!(Duration::zero().checked_add(a), Some(a));

    assert_eq!(Duration::from_secs(2).as_secs(), 2);
    assert_eq!(Duration::from_millis(2750).as_secs(), 2);
    assert_eq!(Duration::from_millis(2750).subsec_millis(), 750);
    assert!(Duration::zero().is_zero());
    assert!(!a.is_zero());
}
